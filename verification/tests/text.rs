use wf2_core::text;

#[test]
fn join_of_nothing_is_empty() {
    assert_eq!(text::join(&vec![], " "), "");
}

#[test]
fn join_of_one_part_is_the_part() {
    assert_eq!(text::join(&vec!["composer".to_string()], " "), "composer");
}

#[test]
fn join_puts_the_separator_between_neighbours() {
    let parts = vec!["logs".to_string(), "unison".to_string(), "-vv".to_string()];
    assert_eq!(text::join(&parts, " "), "logs unison -vv");
    assert_eq!(text::join(&parts, ", "), "logs, unison, -vv");
}

#[test]
fn join_keeps_empty_parts() {
    let parts = vec!["a".to_string(), "".to_string(), "b".to_string()];
    assert_eq!(text::join(&parts, " "), "a  b");
}

#[test]
fn decimal_string_writes_numbers() {
    assert_eq!(text::decimal_string(0), "0");
    assert_eq!(text::decimal_string(7), "7");
    assert_eq!(text::decimal_string(10), "10");
    assert_eq!(text::decimal_string(80), "80");
    assert_eq!(text::decimal_string(8025), "8025");
    assert_eq!(text::decimal_string(65535), "65535");
    assert_eq!(text::decimal_string(4294967295), "4294967295");
}

#[test]
fn decimal_string_agrees_with_the_standard_library() {
    let mut n: u32 = 0;
    while n < 3000 {
        assert_eq!(text::decimal_string(n), n.to_string());
        n += 7;
    }
}

#[test]
fn contains_finds_a_word() {
    assert!(text::contains("some overtime today", "overtime"));
    assert!(text::contains("overtime", "overtime"));
    assert!(text::contains("xovertime", "overtime"));
    assert!(text::contains("overtimex", "overtime"));
}

#[test]
fn contains_misses_what_is_not_there() {
    assert!(!text::contains("over time", "overtime"));
    assert!(!text::contains("overtim", "overtime"));
    assert!(!text::contains("", "overtime"));
    assert!(!text::contains("Overtime", "overtime"));
}

#[test]
fn contains_finds_the_empty_needle() {
    assert!(text::contains("", ""));
    assert!(text::contains("abc", ""));
}

#[test]
fn contains_agrees_with_the_standard_library() {
    let hays = vec!["", "a", "ab", "aab", "abab", "ababc", "überzeit", "xxüx"];
    let needles = vec!["", "a", "b", "ab", "abc", "ba", "ü", "üx"];
    for hay in &hays {
        for needle in &needles {
            assert_eq!(text::contains(hay, needle), hay.contains(needle), "{:?} in {:?}", needle, hay);
        }
    }
}

#[test]
fn chars_of_gives_each_character() {
    assert_eq!(text::chars_of("a/ü"), vec!['a', '/', 'ü']);
    assert_eq!(text::chars_of(""), Vec::<char>::new());
}

#[test]
fn signed_decimal_string_writes_the_sign() {
    assert_eq!(text::signed_decimal_string(0), "0");
    assert_eq!(text::signed_decimal_string(1), "1");
    assert_eq!(text::signed_decimal_string(-1), "-1");
    assert_eq!(text::signed_decimal_string(255), "255");
    assert_eq!(text::signed_decimal_string(i32::MAX), "2147483647");
    assert_eq!(text::signed_decimal_string(i32::MIN), "-2147483648");
}
