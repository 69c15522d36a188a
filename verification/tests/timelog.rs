use chrono::TimeZone;
use wf2_core::clock;
use wf2_core::clock::{Day, TimeError, Timestamp};
use wf2_core::commands::timelog::jira::Jira;
use wf2_core::commands::timelog::jira_issues::JiraIssue;
use wf2_core::commands::timelog::jira_types::{
    JiraField, JiraIssueType, JiraStatus, JiraWorklog, WorkType,
};
use wf2_core::commands::timelog::jira_user::JiraUser;
use wf2_core::commands::timelog::jira_worklog::{
    create_outcome, get_time_started, unreadable, Worklog, WorklogError,
};

fn moment(y: i32, mo: u32, d: u32, h: u32, mi: u32, s: u32) -> Timestamp {
    let at = chrono::Utc.with_ymd_and_hms(y, mo, d, h, mi, s).unwrap();
    Timestamp { secs: at.timestamp(), nanos: 0 }
}

fn worklog(started: &str, comment: Option<&str>) -> Worklog {
    Worklog {
        started: started.to_string(),
        comment: comment.map(|c| c.to_string()),
        ..Worklog::default()
    }
}

#[test]
fn test_serialize() {
    let _expected = "2020-02-20T07:36:38.222+0000";
    let wl = Worklog::create(Some("2020-02-20"), Some("07:36:38"), "3h", Some("overtime"))
        .expect("test");
    let mut object = serde_json::Map::new();
    for (name, value) in wl.serialized_fields() {
        object.insert(name, serde_json::Value::String(value));
    }
    let as_json = serde_json::to_string_pretty(&serde_json::Value::Object(object)).expect("serde");

    let example = r#"{
  "started": "2020-02-20T07:36:38.222+0000",
  "comment": "overtime",
  "timeSpent": "3h"
}"#;
    assert_eq!(example, as_json);
}

#[test]
fn time_started_without_date_and_time_is_now() {
    let now = moment(2019, 11, 30, 12, 0, 0);
    assert_eq!(get_time_started(now, None, None), Ok(now));
}

#[test]
fn time_started_with_a_date_is_noon_of_that_day() {
    let now = moment(2019, 11, 30, 12, 0, 0);
    let actual = get_time_started(now, Some("2019-11-01"), None);
    assert_eq!(actual, Ok(moment(2019, 11, 1, 12, 0, 0)));
    let late = moment(2019, 11, 30, 23, 59, 59);
    assert_eq!(get_time_started(late, Some("2019-11-01"), None), Ok(moment(2019, 11, 1, 12, 0, 0)));
}

#[test]
fn time_started_with_a_time_is_that_time_today() {
    let now = moment(2019, 11, 30, 12, 0, 0);
    let actual = get_time_started(now, None, Some("09:01:10"));
    assert_eq!(actual, Ok(moment(2019, 11, 30, 9, 1, 10)));
}

#[test]
fn time_started_with_date_and_time_uses_both() {
    let now = moment(2019, 11, 30, 12, 0, 0);
    let actual = get_time_started(now, Some("2019-11-01"), Some("09:01:10"));
    assert_eq!(actual, Ok(moment(2019, 11, 1, 9, 1, 10)));
}

#[test]
fn time_started_rejects_what_is_no_date() {
    let now = moment(2019, 11, 30, 12, 0, 0);
    assert!(matches!(
        get_time_started(now, Some("yesterday"), None),
        Err(TimeError::Unparseable(_))
    ));
    assert!(matches!(
        get_time_started(now, None, Some("25:00:00")),
        Err(TimeError::Unparseable(_))
    ));
    assert!(matches!(
        get_time_started(now, Some("2019-02-30"), Some("09:00:00")),
        Err(TimeError::Unparseable(_))
    ));
}

#[test]
fn time_started_needs_a_moment_of_the_calendar_for_today() {
    let nowhere = Timestamp { secs: i64::MAX, nanos: 0 };
    assert_eq!(get_time_started(nowhere, None, Some("09:00:00")), Err(TimeError::Unwritable));
    assert_eq!(get_time_started(nowhere, None, None), Ok(nowhere));
    assert_eq!(
        get_time_started(nowhere, Some("2019-11-01"), Some("09:01:10")),
        Ok(moment(2019, 11, 1, 9, 1, 10))
    );
}

#[test]
fn clock_reads_a_moment_with_an_offset() {
    assert_eq!(clock::read("2020-02-20T07:36:38+0000"), Ok(moment(2020, 2, 20, 7, 36, 38)));
    assert_eq!(clock::read("2020-02-20T07:36:38+01:00"), Ok(moment(2020, 2, 20, 6, 36, 38)));
    assert_eq!(
        clock::read("2020-02-20T07:36:38.222+0000"),
        Ok(Timestamp { secs: moment(2020, 2, 20, 7, 36, 38).secs, nanos: 222_000_000 })
    );
    assert_eq!(clock::read("1970-01-01T00:00:00Z"), Ok(Timestamp { secs: 0, nanos: 0 }));
}

#[test]
fn clock_rejects_what_is_no_moment() {
    assert!(matches!(clock::read(""), Err(TimeError::Unparseable(_))));
    assert!(matches!(clock::read("2020-02-20"), Err(TimeError::Unparseable(_))));
    assert!(matches!(clock::read("2020-02-20T07:36:38"), Err(TimeError::Unparseable(_))));
}

#[test]
fn clock_writes_a_moment_after_a_pattern() {
    let at = moment(2020, 2, 20, 7, 36, 38);
    assert_eq!(clock::write(at, clock::DAY_PATTERN), Ok("2020-02-20".to_string()));
    assert_eq!(clock::write(at, "%H:%M"), Ok("07:36".to_string()));
    assert_eq!(clock::write(Timestamp { secs: 0, nanos: 0 }, "%Y"), Ok("1970".to_string()));
}

#[test]
fn clock_writes_nothing_outside_the_calendar() {
    assert_eq!(
        clock::write(Timestamp { secs: i64::MAX, nanos: 0 }, "%Y"),
        Err(TimeError::Unwritable)
    );
    assert_eq!(
        clock::write(Timestamp { secs: 0, nanos: 2_000_000_000 }, "%Y"),
        Err(TimeError::Unwritable)
    );
    assert_eq!(clock::write(Timestamp { secs: 0, nanos: 0 }, "%"), Err(TimeError::Unwritable));
}

#[test]
fn create_at_writes_the_start_after_the_fixed_pattern() {
    let now = moment(2019, 11, 30, 12, 0, 5);
    let wl = Worklog::create_at(now, None, None, "1h 30m", None).expect("test");
    assert_eq!(
        wl,
        Worklog {
            started: "2019-11-30T12:00:05.222+0000".to_string(),
            time_spent: "1h 30m".to_string(),
            ..Worklog::default()
        }
    );
    let wl = Worklog::create_at(now, Some("2019-11-01"), None, "2h", Some("late")).expect("test");
    assert_eq!(wl.started, "2019-11-01T12:00:00.222+0000");
    assert_eq!(wl.comment, Some("late".to_string()));
    assert_eq!(wl.time_spent, "2h");
    assert_eq!(wl.time_spent_seconds, 0);
    assert_eq!(wl.author, JiraUser::default());
    assert_eq!(wl.ticket_key, None);
    assert_eq!(wl.ticket_status, None);
    assert_eq!(wl.link, None);
}

#[test]
fn create_at_hands_on_the_failure() {
    let now = moment(2019, 11, 30, 12, 0, 5);
    assert!(matches!(
        Worklog::create_at(now, Some("soon"), None, "1h", None),
        Err(TimeError::Unparseable(_))
    ));
    let nowhere = Timestamp { secs: i64::MIN, nanos: 0 };
    assert_eq!(Worklog::create_at(nowhere, None, None, "1h", None), Err(TimeError::Unwritable));
}

#[test]
fn create_uses_the_present_moment_for_what_is_not_given() {
    let wl = Worklog::create(None, None, "1h", None).expect("test");
    assert_eq!(wl.started.len(), "2020-02-20T07:36:38.222+0000".len());
    assert!(wl.started.ends_with(".222+0000"));
    assert!(clock::read(&wl.started).is_ok());
}

#[test]
fn default_worklog_holds_nothing() {
    let wl = Worklog::default();
    assert_eq!(wl.started, "");
    assert_eq!(wl.author.name, "");
    assert_eq!(wl.comment, None);
    assert_eq!(wl.time_spent_seconds, 0);
    assert_eq!(wl.time_spent, "");
    assert_eq!(wl.ticket_key, None);
    assert_eq!(wl.ticket_status, None);
    assert_eq!(wl.link, None);
}

#[test]
fn serialized_fields_leave_out_a_missing_comment() {
    let wl = Worklog {
        started: "2020-02-20T07:36:38.222+0000".to_string(),
        time_spent: "3h".to_string(),
        time_spent_seconds: 10800,
        ticket_key: Some("ABC-1".to_string()),
        ..Worklog::default()
    };
    assert_eq!(
        wl.serialized_fields(),
        vec![
            ("started".to_string(), "2020-02-20T07:36:38.222+0000".to_string()),
            ("timeSpent".to_string(), "3h".to_string()),
        ]
    );
}

#[test]
fn serialized_fields_hold_the_comment_between() {
    let wl = Worklog {
        started: "s".to_string(),
        comment: Some("c".to_string()),
        time_spent: "t".to_string(),
        ..Worklog::default()
    };
    assert_eq!(
        wl.serialized_fields(),
        vec![
            ("started".to_string(), "s".to_string()),
            ("comment".to_string(), "c".to_string()),
            ("timeSpent".to_string(), "t".to_string()),
        ]
    );
}

#[test]
fn work_type_goes_by_the_comment() {
    assert_eq!(worklog("", None).work_type(), WorkType::Normal);
    assert_eq!(worklog("", Some("")).work_type(), WorkType::Normal);
    assert_eq!(worklog("", Some("bug fix")).work_type(), WorkType::Normal);
    assert_eq!(worklog("", Some("overtime")).work_type(), WorkType::Overtime);
    assert_eq!(worklog("", Some("some overtime, again")).work_type(), WorkType::Overtime);
    assert_eq!(worklog("", Some("Overtime")).work_type(), WorkType::Normal);
}

#[test]
fn work_type_has_a_name() {
    assert_eq!(WorkType::Normal.to_string(), "Normal");
    assert_eq!(WorkType::Overtime.to_string(), "Overtime");
}

#[test]
fn date_is_the_day_in_utc() {
    let wl = worklog("2020-02-20T07:36:38.222+0000", None);
    assert_eq!(wl.date(), Ok(Day { year: 2020, month: 2, day: 20 }));
    let wl = worklog("2020-02-20T00:30:00.000+0100", None);
    assert_eq!(wl.date(), Ok(Day { year: 2020, month: 2, day: 19 }));
}

#[test]
fn date_of_an_unreadable_start_is_an_error() {
    assert!(matches!(worklog("", None).date(), Err(TimeError::Unparseable(_))));
    assert!(matches!(worklog("today", None).date(), Err(TimeError::Unparseable(_))));
}

#[test]
fn display_started_time_names_day_and_month() {
    let wl = worklog("2020-02-20T07:36:38.222+0000", None);
    assert_eq!(wl.display_started_time(), Ok("Thu, 20 Feb 2020, 07:36:38".to_string()));
}

#[test]
fn display_started_time_of_an_unreadable_start_is_an_error() {
    assert!(matches!(
        worklog("20/02/2020", None).display_started_time(),
        Err(TimeError::Unparseable(_))
    ));
}

fn issue() -> JiraIssue {
    JiraIssue {
        key: "ABC-12".to_string(),
        fields: JiraField {
            issuetype: JiraIssueType { name: "Bug".to_string() },
            status: JiraStatus { name: "In Progress".to_string() },
            summary: "It breaks".to_string(),
        },
    }
}

#[test]
fn from_issue_notes_the_issue_on_each_worklog() {
    let jira = Jira { domain: "acme".to_string() };
    let fetched = vec![
        Worklog {
            started: "2020-02-20T07:36:38.222+0000".to_string(),
            author: JiraUser { name: "shane".to_string() },
            comment: Some("overtime".to_string()),
            time_spent_seconds: 3600,
            time_spent: "1h".to_string(),
            ticket_key: Some("OLD-1".to_string()),
            ticket_status: None,
            link: None,
        },
        worklog("2020-02-21T07:36:38.222+0000", None),
    ];
    let noted = Worklog::from_issue(&jira, &issue(), Ok(fetched)).expect("test");
    assert_eq!(
        noted,
        vec![
            Worklog {
                started: "2020-02-20T07:36:38.222+0000".to_string(),
                author: JiraUser { name: "shane".to_string() },
                comment: Some("overtime".to_string()),
                time_spent_seconds: 3600,
                time_spent: "1h".to_string(),
                ticket_key: Some("ABC-12".to_string()),
                ticket_status: Some("In Progress".to_string()),
                link: Some("https://acme.atlassian.net/browse/ABC-12".to_string()),
            },
            Worklog {
                started: "2020-02-21T07:36:38.222+0000".to_string(),
                ticket_key: Some("ABC-12".to_string()),
                ticket_status: Some("In Progress".to_string()),
                link: Some("https://acme.atlassian.net/browse/ABC-12".to_string()),
                ..Worklog::default()
            },
        ]
    );
}

#[test]
fn from_issue_hands_on_the_error_of_the_fetch() {
    let jira = Jira { domain: "acme".to_string() };
    assert_eq!(
        Worklog::from_issue(&jira, &issue(), Err("connection refused".to_string())),
        Err("connection refused".to_string())
    );
    assert_eq!(Worklog::from_issue(&jira, &issue(), Ok(vec![])), Ok(vec![]));
}

#[test]
fn jira_addresses() {
    let jira = Jira { domain: "acme".to_string() };
    assert_eq!(jira.issue_link("ABC-12"), "https://acme.atlassian.net/browse/ABC-12");
    assert_eq!(
        jira.worklog_url("ABC-12"),
        "https://acme.atlassian.net/rest/api/2/issue/ABC-12/worklog"
    );
}

#[test]
fn create_outcome_goes_by_the_trackers_answer() {
    assert_eq!(create_outcome(true, "{}".to_string()), Ok(()));
    assert_eq!(
        create_outcome(false, "no such issue".to_string()),
        Err(WorklogError::CreateFailed("no such issue".to_string()))
    );
}

#[test]
fn worklog_error_has_a_message() {
    assert_eq!(
        WorklogError::CreateFailed("no such issue".to_string()).to_string(),
        "Create failed: no such issue"
    );
}

#[test]
fn unreadable_names_issue_and_reason() {
    assert_eq!(unreadable("ABC-12", "EOF while parsing"), "issue_id = ABC-12, error = EOF while parsing");
}

#[test]
fn jira_worklog_holds_worklogs() {
    let logged = JiraWorklog { worklogs: vec![worklog("a", None)] };
    assert_eq!(logged.worklogs.len(), 1);
    assert_eq!(JiraUser { name: "x".to_string() }.duplicate(), JiraUser { name: "x".to_string() });
}
