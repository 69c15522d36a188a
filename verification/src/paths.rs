//! Paths as text. A path is a string whose components are separated by
//! `/`. Repeated separators, a trailing separator and `.` components other
//! than a leading one carry no meaning: they are skipped when components
//! are counted and when the parent is taken.

use crate::text::chars_of;
use vstd::prelude::*;
use vstd::string::*;

verus! {

/// The path begins at the root.
pub open spec fn is_absolute(p: Seq<char>) -> bool {
    p.len() > 0 && p[0] == '/'
}

/// The first component of the path is `.`.
pub open spec fn starts_with_cur_dir(p: Seq<char>) -> bool {
    p.len() > 0 && p[0] == '.' && (p.len() == 1 || p[1] == '/')
}

/// How many characters stand before the body of the path: one for a root
/// or a leading `.`, none otherwise.
pub open spec fn body_start(p: Seq<char>) -> int {
    if is_absolute(p) || starts_with_cur_dir(p) {
        1
    } else {
        0
    }
}

/// `rel` adjoined to `base`: `rel` itself when it is absolute, otherwise
/// `base` followed by `rel`, with one separator between them unless `base`
/// is empty or already ends in one.
pub open spec fn joined(base: Seq<char>, rel: Seq<char>) -> Seq<char> {
    if is_absolute(rel) {
        rel
    } else if base.len() == 0 || base.last() == '/' {
        base + rel
    } else {
        base + seq!['/'] + rel
    }
}

/// A component that counts begins at position `i`: a segment that is
/// neither empty nor `.` (a leading `.` is counted apart).
pub open spec fn component_starts_at(p: Seq<char>, i: int) -> bool {
    &&& 0 <= i < p.len()
    &&& p[i] != '/'
    &&& (i == 0 || p[i - 1] == '/')
    &&& !(p[i] == '.' && (i + 1 == p.len() || p[i + 1] == '/'))
}

/// The number of components that begin before position `n`.
pub open spec fn components_before(p: Seq<char>, n: int) -> nat
    decreases n,
{
    if n <= 0 {
        0
    } else {
        components_before(p, n - 1) + if component_starts_at(p, n - 1) {
            1nat
        } else {
            0nat
        }
    }
}

/// The number of components of the path: the root, a leading `.`, and
/// every segment that is neither empty nor `.`.
pub open spec fn component_count(p: Seq<char>) -> nat {
    components_before(p, p.len() as int) + body_start(p) as nat
}

/// Where the last segment of `s` begins, looking no further left than
/// position `b`: just behind the last separator at or after `b`, or `b`
/// itself when there is none.
pub open spec fn last_segment_start(s: Seq<char>, b: int) -> int
    decreases s.len(),
{
    if s.len() <= b || s.len() == 0 {
        b
    } else if s.last() == '/' {
        s.len() as int
    } else {
        last_segment_start(s.drop_last(), b)
    }
}

/// The last segment of `s` carries no meaning: it is empty or `.`.
pub open spec fn last_segment_is_blank(s: Seq<char>, b: int) -> bool {
    let from = last_segment_start(s, b);
    from == s.len() || (from + 1 == s.len() && s[from] == '.')
}

/// `s` without its last segment and without the separator before it.
pub open spec fn without_last_segment(s: Seq<char>, b: int) -> Seq<char> {
    let from = last_segment_start(s, b);
    if from > b {
        s.take(from - 1)
    } else {
        s.take(b)
    }
}

/// `s` after its trailing blank segments are taken off, down to `b`
/// characters at most.
pub open spec fn trimmed(s: Seq<char>, b: int) -> Seq<char>
    decreases s.len(),
{
    if 0 <= b < s.len() && last_segment_is_blank(s, b) {
        trimmed(without_last_segment(s, b), b)
    } else {
        s
    }
}

/// The path without its last component, if it has one. A path that is
/// empty or only a root has no parent; the parent of a lone `.` is the
/// empty path.
pub open spec fn parent_of(p: Seq<char>) -> Option<Seq<char>> {
    let b = body_start(p);
    let t = trimmed(p, b);
    if t.len() > b {
        Some(trimmed(without_last_segment(t, b), b))
    } else if starts_with_cur_dir(p) {
        Some(Seq::empty())
    } else {
        None
    }
}

/// The last segment starts between `b` and the end, and a separator
/// stands before it unless it starts at `b`.
pub proof fn lemma_last_segment_start(s: Seq<char>, b: int)
    requires
        0 <= b <= s.len(),
    ensures
        b <= last_segment_start(s, b) <= s.len(),
        last_segment_start(s, b) > b ==> s[last_segment_start(s, b) - 1] == '/',
    decreases s.len(),
{
    if s.len() <= b || s.len() == 0 {
    } else if s.last() == '/' {
    } else {
        lemma_last_segment_start(s.drop_last(), b);
    }
}

/// Trimming yields a prefix of the text that keeps its first `b`
/// characters, and what it yields does not end in a blank segment.
pub proof fn lemma_trimmed(s: Seq<char>, b: int)
    requires
        0 <= b <= s.len(),
    ensures
        b <= trimmed(s, b).len() <= s.len(),
        trimmed(s, b) == s.take(trimmed(s, b).len() as int),
        trimmed(s, b).len() > b ==> !last_segment_is_blank(trimmed(s, b), b),
    decreases s.len(),
{
    if b < s.len() && last_segment_is_blank(s, b) {
        lemma_trimmed(without_last_segment(s, b), b);
    }
}

/// The parent of a path is a shorter beginning of the path.
pub proof fn lemma_parent_is_a_beginning(p: Seq<char>)
    requires
        parent_of(p) is Some,
    ensures
        parent_of(p).unwrap().len() < p.len(),
        parent_of(p).unwrap() == p.take(parent_of(p).unwrap().len() as int),
{
    let b = body_start(p);
    let t = trimmed(p, b);
    lemma_trimmed(p, b);
    if t.len() > b {
        lemma_last_segment_start(t, b);
        lemma_trimmed(without_last_segment(t, b), b);
    }
}

/// Where the last segment starts when more text follows the first `k`
/// characters: where it starts in those `k` characters if no separator
/// follows them, and behind them if one does.
pub proof fn lemma_last_segment_start_extends(s: Seq<char>, k: int, b: int)
    requires
        0 <= b <= k <= s.len(),
    ensures
        (forall|j: int| k <= j < s.len() ==> s[j] != '/') ==> last_segment_start(s, b)
            == last_segment_start(s.take(k), b),
        (exists|j: int| k <= j < s.len() && s[j] == '/') ==> last_segment_start(s, b) > k,
    decreases s.len(),
{
    if s.len() == k {
        assert(s.take(k) == s);
    } else if s.last() == '/' {
    } else {
        let front = s.drop_last();
        lemma_last_segment_start_extends(front, k, b);
        assert(front.take(k) == s.take(k));
        if exists|j: int| k <= j < s.len() && s[j] == '/' {
            let j = choose|j: int| k <= j < s.len() && s[j] == '/';
            assert(front[j] == '/');
        }
        if forall|j: int| k <= j < s.len() ==> s[j] != '/' {
            assert forall|j: int| k <= j < front.len() implies front[j] != '/' by {}
        }
    }
}

/// A component that counts is never trimmed away: where the first `k`
/// characters end in a segment that is not blank, at least `k` characters
/// are kept, whatever follows them.
pub proof fn lemma_trimmed_keeps_component(s: Seq<char>, k: int, b: int)
    requires
        0 <= b < k <= s.len(),
        !last_segment_is_blank(s.take(k), b),
    ensures
        trimmed(s, b).len() >= k,
    decreases s.len(),
{
    if s.len() == k {
        assert(s.take(k) == s);
    } else {
        lemma_last_segment_start_extends(s, k, b);
        lemma_last_segment_start(s.take(k), b);
        if (exists|j: int| k <= j < s.len() && s[j] == '/') && last_segment_is_blank(s, b) {
            let shorter = without_last_segment(s, b);
            assert(shorter.take(k) == s.take(k));
            lemma_trimmed_keeps_component(shorter, k, b);
        }
    }
}

/// A relative path adjoined to a path that has a parent has a parent.
pub proof fn lemma_joined_has_parent(base: Seq<char>, rel: Seq<char>)
    requires
        !is_absolute(rel),
        parent_of(base) is Some,
    ensures
        parent_of(joined(base, rel)) is Some,
{
    let whole = joined(base, rel);
    let b = body_start(base);
    if !starts_with_cur_dir(base) {
        lemma_trimmed(base, b);
        let k = trimmed(base, b).len() as int;
        assert(whole.take(k) == base.take(k));
        lemma_trimmed_keeps_component(whole, k, b);
    }
}

/// The body start as a machine number.
fn body_start_of(c: &Vec<char>) -> (b: usize)
    ensures
        b == body_start(c@),
        b <= c.len(),
{
    if c.len() == 0 {
        0
    } else if c[0] == '/' {
        1
    } else if c[0] == '.' && (c.len() == 1 || c[1] == '/') {
        1
    } else {
        0
    }
}

/// Finds where the last segment of the first `end` characters begins.
fn last_segment_start_of(c: &Vec<char>, end: usize, b: usize) -> (from: usize)
    requires
        b <= end <= c.len(),
    ensures
        from == last_segment_start(c@.take(end as int), b as int),
        b <= from <= end,
{
    let mut idx: usize = end;
    while idx > b && c[idx - 1] != '/'
        invariant
            b <= idx <= end <= c.len(),
            last_segment_start(c@.take(end as int), b as int) == last_segment_start(
                c@.take(idx as int),
                b as int,
            ),
        decreases idx,
    {
        proof {
            assert(c@.take(idx as int).drop_last() == c@.take(idx - 1));
        }
        idx -= 1;
    }
    idx
}

/// Takes the trailing blank segments off the first `end` characters and
/// returns how many characters remain.
fn trimmed_len(c: &Vec<char>, end: usize, b: usize) -> (kept: usize)
    requires
        b <= end <= c.len(),
    ensures
        b <= kept <= end,
        trimmed(c@.take(end as int), b as int) == c@.take(kept as int),
{
    let mut cur: usize = end;
    loop
        invariant
            b <= cur <= end <= c.len(),
            trimmed(c@.take(end as int), b as int) == trimmed(c@.take(cur as int), b as int),
        ensures
            b <= cur <= end,
            trimmed(c@.take(end as int), b as int) == c@.take(cur as int),
        decreases cur,
    {
        if cur <= b {
            break ;
        }
        let from = last_segment_start_of(c, cur, b);
        let blank = from == cur || (from + 1 == cur && c[from] == '.');
        if !blank {
            break ;
        }
        let ghost s = c@.take(cur as int);
        let next: usize = if from > b {
            from - 1
        } else {
            b
        };
        proof {
            assert(without_last_segment(s, b as int) == c@.take(next as int));
        }
        cur = next;
    }
    cur
}

/// Tells whether the path begins at the root.
pub fn is_absolute_path(p: &str) -> (out: bool)
    ensures
        out == is_absolute(p@),
{
    let c = chars_of(p);
    c.len() > 0 && c[0] == '/'
}

/// Adjoins `rel` to `base`.
pub fn join(base: &str, rel: &str) -> (out: String)
    ensures
        out@ == joined(base@, rel@),
{
    if is_absolute_path(rel) {
        return String::from_str(rel);
    }
    let b = chars_of(base);
    let mut out = String::from_str(base);
    if b.len() > 0 && b[b.len() - 1] != '/' {
        proof {
            reveal_strlit("/");
        }
        out.append("/");
    }
    out.append(rel);
    out
}

/// Counts the components of the path.
pub fn count_components(p: &str) -> (n: usize)
    ensures
        n == component_count(p@),
{
    let c = chars_of(p);
    let lead = body_start_of(&c);
    let mut n: usize = lead;
    let mut i: usize = lead;
    proof {
        reveal_with_fuel(components_before, 2);
    }
    while i < c.len()
        invariant
            lead <= i <= c.len(),
            lead == body_start(c@),
            n == components_before(c@, i as int) + lead,
            n <= i,
        decreases c.len() - i,
    {
        let starts = c[i] != '/' && (i == 0 || c[i - 1] == '/') && !(c[i] == '.' && (i + 1
            == c.len() || c[i + 1] == '/'));
        if starts {
            n += 1;
        }
        i += 1;
    }
    n
}

/// The path without its last component, if it has one.
pub fn parent(p: &str) -> (out: Option<String>)
    ensures
        out.deep_view() == parent_of(p@),
{
    let c = chars_of(p);
    let b = body_start_of(&c);
    let kept = trimmed_len(&c, c.len(), b);
    proof {
        assert(c@.take(c.len() as int) == c@);
    }
    if kept > b {
        let from = last_segment_start_of(&c, kept, b);
        let cut: usize = if from > b {
            from - 1
        } else {
            b
        };
        proof {
            assert(without_last_segment(c@.take(kept as int), b as int) == c@.take(cut as int));
        }
        let end = trimmed_len(&c, cut, b);
        let text = p.substring_char(0, end);
        Some(String::from_str(text))
    } else if b == 1 && c[0] == '.' {
        Some(String::new())
    } else {
        None
    }
}

/// Tells whether the path has a parent.
pub fn has_parent(p: &str) -> (out: bool)
    ensures
        out == parent_of(p@).is_some(),
{
    parent(p).is_some()
}

} // verus!
