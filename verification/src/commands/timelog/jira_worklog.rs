//! Pieces of logged work.

use crate::clock;
use crate::clock::{
    fault_of, read_moment, utc_day, written_moment, Day, TimeError, TimeFault, Timestamp,
    DAY_PATTERN,
};
use crate::commands::timelog::jira::{issue_link, Jira};
use crate::commands::timelog::jira_issues::JiraIssue;
use crate::commands::timelog::jira_types::WorkType;
use crate::commands::timelog::jira_user::JiraUser;
use crate::text;
use vstd::prelude::*;
use vstd::string::*;

verus! {

/// The pattern after which the start of a piece of work is written.
pub const STARTED_PATTERN: &'static str = "%Y-%m-%dT%H:%M:%S.222+0000";

/// The pattern after which the start of a piece of work is shown.
pub const DISPLAY_PATTERN: &'static str = "%a, %d %b %Y, %H:%M:%S";

/// One piece of logged work.
#[derive(Debug, Clone, PartialEq, Eq)]
pub struct Worklog {
    /// When the work started, as text.
    pub started: String,
    pub author: JiraUser,
    pub comment: Option<String>,
    pub time_spent_seconds: u64,
    /// How long the work took, in the tracker's notation.
    pub time_spent: String,
    pub ticket_key: Option<String>,
    pub ticket_status: Option<String>,
    pub link: Option<String>,
}

/// The mathematical value of a piece of logged work.
pub struct WorklogView {
    pub started: Seq<char>,
    pub author: Seq<char>,
    pub comment: Option<Seq<char>>,
    pub time_spent_seconds: u64,
    pub time_spent: Seq<char>,
    pub ticket_key: Option<Seq<char>>,
    pub ticket_status: Option<Seq<char>>,
    pub link: Option<Seq<char>>,
}

impl DeepView for Worklog {
    type V = WorklogView;

    open spec fn deep_view(&self) -> WorklogView {
        WorklogView {
            started: self.started@,
            author: self.author@,
            comment: self.comment.deep_view(),
            time_spent_seconds: self.time_spent_seconds,
            time_spent: self.time_spent@,
            ticket_key: self.ticket_key.deep_view(),
            ticket_status: self.ticket_status.deep_view(),
            link: self.link.deep_view(),
        }
    }
}

/// Why a piece of work could not be logged.
#[derive(Debug, Clone, PartialEq, Eq)]
pub enum WorklogError {
    /// The tracker refused; the text is its answer.
    CreateFailed(String),
}

/// The piece of work that holds nothing.
pub open spec fn empty_worklog() -> WorklogView {
    WorklogView {
        started: Seq::empty(),
        author: Seq::empty(),
        comment: None,
        time_spent_seconds: 0,
        time_spent: Seq::empty(),
        ticket_key: None,
        ticket_status: None,
        link: None,
    }
}

/// The work type that a comment stands for: overtime where the comment
/// holds the word `overtime`, normal otherwise.
pub open spec fn work_type_of(comment: Option<Seq<char>>) -> WorkType {
    match comment {
        Some(text) => if text::has_substring(text, "overtime"@) {
            WorkType::Overtime
        } else {
            WorkType::Normal
        },
        None => WorkType::Normal,
    }
}

/// A piece of work with the issue it belongs to noted on it.
pub open spec fn tagged(
    worklog: WorklogView,
    key: Seq<char>,
    status: Seq<char>,
    link: Seq<char>,
) -> WorklogView {
    WorklogView {
        ticket_key: Some(key),
        ticket_status: Some(status),
        link: Some(link),
        ..worklog
    }
}

/// Each piece of work of `list` with the issue noted on it.
pub open spec fn tagged_all(
    list: Seq<WorklogView>,
    key: Seq<char>,
    status: Seq<char>,
    link: Seq<char>,
) -> Seq<WorklogView> {
    Seq::new(list.len(), |i: int| tagged(list[i], key, status, link))
}

/// The moment at which work started, from an optional day and an optional
/// time of day. Without both it is `now`. A day alone means noon of that
/// day; a time alone means that time today; both mean that time on that
/// day.
pub open spec fn time_started(
    now: Timestamp,
    date: Option<Seq<char>>,
    time: Option<Seq<char>>,
) -> Result<Timestamp, TimeFault> {
    match (date, time) {
        (None, None) => Ok(now),
        (Some(d), None) => read_moment(d + "T12:00:00+0000"@),
        (None, Some(t)) => match written_moment(now, DAY_PATTERN@) {
            Ok(today) => read_moment(today + "T"@ + t + "+0000"@),
            Err(fault) => Err(fault),
        },
        (Some(d), Some(t)) => read_moment(d + "T"@ + t + "+0000"@),
    }
}

/// The piece of work that is made at the moment `now` from what was
/// given.
pub open spec fn created(
    now: Timestamp,
    date: Option<Seq<char>>,
    time: Option<Seq<char>>,
    spent: Seq<char>,
    comment: Option<Seq<char>>,
) -> Result<WorklogView, TimeFault> {
    match time_started(now, date, time) {
        Ok(at) => match written_moment(at, STARTED_PATTERN@) {
            Ok(started) => Ok(
                WorklogView { started, time_spent: spent, comment, ..empty_worklog() },
            ),
            Err(fault) => Err(fault),
        },
        Err(fault) => Err(fault),
    }
}

/// What is sent of a piece of work: its start, its comment if it has one,
/// and the time spent, each under its name.
pub open spec fn sent_fields(worklog: WorklogView) -> Seq<(Seq<char>, Seq<char>)> {
    let head = seq![("started"@, worklog.started)];
    let middle = match worklog.comment {
        Some(text) => seq![("comment"@, text)],
        None => Seq::empty(),
    };
    head + middle + seq![("timeSpent"@, worklog.time_spent)]
}

/// The message of an error.
pub open spec fn error_message(error: WorklogError) -> Seq<char> {
    match error {
        WorklogError::CreateFailed(answer) => "Create failed: "@ + answer@,
    }
}

/// The text that reports that the work logged against an issue could not
/// be read.
pub open spec fn unreadable_message(issue_id: Seq<char>, error: Seq<char>) -> Seq<char> {
    "issue_id = "@ + issue_id + ", error = "@ + error
}

/// A text or none, written anew.
fn copy_text(text: &Option<String>) -> (out: Option<String>)
    ensures
        out.deep_view() == text.deep_view(),
{
    match text {
        Some(t) => Some(t.clone()),
        None => None,
    }
}

/// Takes optional day and time of day and gives the moment they stand
/// for, with `now` for what is not given.
pub fn get_time_started(now: Timestamp, date: Option<&str>, time: Option<&str>) -> (out: Result<
    Timestamp,
    TimeError,
>)
    ensures
        match out {
            Ok(at) => time_started(now, date.deep_view(), time.deep_view()) == Ok::<
                Timestamp,
                TimeFault,
            >(at),
            Err(error) => time_started(now, date.deep_view(), time.deep_view()) == Err::<
                Timestamp,
                TimeFault,
            >(fault_of(error)),
        },
{
    match (date, time) {
        (None, None) => Ok(now),
        (Some(d), None) => {
            let mut text = String::from_str(d);
            text.append("T12:00:00+0000");
            clock::read(text.as_str())
        },
        (None, Some(t)) => {
            match clock::write(now, DAY_PATTERN) {
                Ok(today) => {
                    let mut text = today;
                    text.append("T");
                    text.append(t);
                    text.append("+0000");
                    clock::read(text.as_str())
                },
                Err(error) => Err(error),
            }
        },
        (Some(d), Some(t)) => {
            let mut text = String::from_str(d);
            text.append("T");
            text.append(t);
            text.append("+0000");
            clock::read(text.as_str())
        },
    }
}

/// What the tracker's answer to a new piece of work comes to: nothing to
/// report where it accepted, its answer as the error where it refused.
pub fn create_outcome(accepted: bool, answer: String) -> (out: Result<(), WorklogError>)
    ensures
        accepted ==> out is Ok,
        !accepted ==> out == Err::<(), WorklogError>(WorklogError::CreateFailed(answer)),
{
    if accepted {
        Ok(())
    } else {
        Err(WorklogError::CreateFailed(answer))
    }
}

/// The text that reports that the work logged against `issue_id` could
/// not be read, for the reason `error`.
pub fn unreadable(issue_id: &str, error: &str) -> (out: String)
    ensures
        out@ == unreadable_message(issue_id@, error@),
{
    let mut out = String::from_str("issue_id = ");
    out.append(issue_id);
    out.append(", error = ");
    out.append(error);
    out
}

impl WorklogError {
    /// The message of the error.
    pub fn to_string(&self) -> (message: String)
        ensures
            message@ == error_message(*self),
    {
        match self {
            WorklogError::CreateFailed(answer) => {
                let mut message = String::from_str("Create failed: ");
                message.append(answer.as_str());
                message
            },
        }
    }
}

impl Default for Worklog {
    /// The piece of work that holds nothing.
    fn default() -> (worklog: Worklog)
        ensures
            worklog.deep_view() == empty_worklog(),
    {
        Worklog {
            started: String::new(),
            author: JiraUser::default(),
            comment: None,
            time_spent_seconds: 0,
            time_spent: String::new(),
            ticket_key: None,
            ticket_status: None,
            link: None,
        }
    }
}

impl Worklog {
    /// The day on which the work started, where `started` can be read.
    pub fn date(&self) -> (out: Result<Day, TimeError>)
        ensures
            match out {
                Ok(d) => read_moment(self.started@) matches Ok(at) && utc_day(at.secs, at.nanos)
                    == Some((d.year, d.month, d.day)),
                Err(error) => match read_moment(self.started@) {
                    Ok(at) => utc_day(at.secs, at.nanos) is None && error is OutOfRange,
                    Err(fault) => fault_of(error) == fault,
                },
            },
    {
        match clock::read(self.started.as_str()) {
            Ok(at) => match clock::day_of(at) {
                Some(d) => Ok(d),
                None => Err(TimeError::OutOfRange),
            },
            Err(error) => Err(error),
        }
    }

    /// The start of the work as it is shown, where `started` can be read.
    pub fn display_started_time(&self) -> (out: Result<String, TimeError>)
        ensures
            match out {
                Ok(text) => read_moment(self.started@) matches Ok(at) && written_moment(
                    at,
                    DISPLAY_PATTERN@,
                ) == Ok::<Seq<char>, TimeFault>(text@),
                Err(error) => match read_moment(self.started@) {
                    Ok(at) => written_moment(at, DISPLAY_PATTERN@) == Err::<Seq<char>, TimeFault>(
                        fault_of(error),
                    ),
                    Err(fault) => fault_of(error) == fault,
                },
            },
    {
        match clock::read(self.started.as_str()) {
            Ok(at) => clock::write(at, DISPLAY_PATTERN),
            Err(error) => Err(error),
        }
    }

    /// Overtime where the comment holds the word `overtime`, normal
    /// otherwise.
    pub fn work_type(&self) -> (work_type: WorkType)
        ensures
            work_type == work_type_of(self.comment.deep_view()),
    {
        match &self.comment {
            Some(comment) => {
                if text::contains(comment.as_str(), "overtime") {
                    WorkType::Overtime
                } else {
                    WorkType::Normal
                }
            },
            None => WorkType::Normal,
        }
    }

    /// Notes on each piece of work fetched for `issue` the issue's key
    /// and status and the address under which it is shown. Where the
    /// fetch failed, its error is handed on.
    pub fn from_issue(jira: &Jira, issue: &JiraIssue, fetched: Result<Vec<Worklog>, String>) -> (out:
        Result<Vec<Worklog>, String>)
        ensures
            match fetched {
                Ok(list) => out matches Ok(noted) && noted.deep_view() == tagged_all(
                    list.deep_view(),
                    issue.key@,
                    issue.fields.status.name@,
                    issue_link(jira.domain@, issue.key@),
                ),
                Err(error) => out == Err::<Vec<Worklog>, String>(error),
            },
    {
        let list = match fetched {
            Ok(list) => list,
            Err(error) => {
                return Err(error);
            },
        };
        let mut noted: Vec<Worklog> = Vec::new();
        let mut i: usize = 0;
        while i < list.len()
            invariant
                i <= list.len(),
                noted.len() == i,
                forall|k: int|
                    0 <= k < i ==> (#[trigger] noted[k]).deep_view() == tagged(
                        list[k].deep_view(),
                        issue.key@,
                        issue.fields.status.name@,
                        issue_link(jira.domain@, issue.key@),
                    ),
            decreases list.len() - i,
        {
            let worklog = &list[i];
            noted.push(
                Worklog {
                    started: worklog.started.clone(),
                    author: worklog.author.duplicate(),
                    comment: copy_text(&worklog.comment),
                    time_spent_seconds: worklog.time_spent_seconds,
                    time_spent: worklog.time_spent.clone(),
                    ticket_key: Some(issue.key.clone()),
                    ticket_status: Some(issue.fields.status.name.clone()),
                    link: Some(jira.issue_link(issue.key.as_str())),
                },
            );
            i += 1;
        }
        proof {
            assert(noted.deep_view() =~= tagged_all(
                list.deep_view(),
                issue.key@,
                issue.fields.status.name@,
                issue_link(jira.domain@, issue.key@),
            ));
        }
        Ok(noted)
    }

    /// Makes a piece of work that starts at the moment that `date` and
    /// `time` stand for, with `now` for what is not given.
    pub fn create_at(
        now: Timestamp,
        date: Option<&str>,
        time: Option<&str>,
        spent: &str,
        comment: Option<&str>,
    ) -> (out: Result<Worklog, TimeError>)
        ensures
            match out {
                Ok(worklog) => created(
                    now,
                    date.deep_view(),
                    time.deep_view(),
                    spent@,
                    comment.deep_view(),
                ) == Ok::<WorklogView, TimeFault>(worklog.deep_view()),
                Err(error) => created(
                    now,
                    date.deep_view(),
                    time.deep_view(),
                    spent@,
                    comment.deep_view(),
                ) == Err::<WorklogView, TimeFault>(fault_of(error)),
            },
    {
        let at = match get_time_started(now, date, time) {
            Ok(at) => at,
            Err(error) => {
                return Err(error);
            },
        };
        let started = match clock::write(at, STARTED_PATTERN) {
            Ok(text) => text,
            Err(error) => {
                return Err(error);
            },
        };
        let blank = Worklog::default();
        Ok(
            Worklog {
                started,
                author: blank.author,
                comment: match comment {
                    Some(text) => Some(String::from_str(text)),
                    None => None,
                },
                time_spent_seconds: blank.time_spent_seconds,
                time_spent: String::from_str(spent),
                ticket_key: blank.ticket_key,
                ticket_status: blank.ticket_status,
                link: blank.link,
            },
        )
    }

    /// Makes a piece of work that starts at the moment that `date` and
    /// `time` stand for, with the present moment for what is not given.
    pub fn create(date: Option<&str>, time: Option<&str>, spent: &str, comment: Option<&str>) -> (out:
        Result<Worklog, TimeError>)
        ensures
            exists|now: Timestamp|
                match out {
                    Ok(worklog) => #[trigger] created(
                        now,
                        date.deep_view(),
                        time.deep_view(),
                        spent@,
                        comment.deep_view(),
                    ) == Ok::<WorklogView, TimeFault>(worklog.deep_view()),
                    Err(error) => created(
                        now,
                        date.deep_view(),
                        time.deep_view(),
                        spent@,
                        comment.deep_view(),
                    ) == Err::<WorklogView, TimeFault>(fault_of(error)),
                },
    {
        let now = clock::now();
        Worklog::create_at(now, date, time, spent, comment)
    }

    /// What is sent of the piece of work when it is logged: its start,
    /// its comment if it has one, and the time spent, each under its
    /// name.
    pub fn serialized_fields(&self) -> (fields: Vec<(String, String)>)
        ensures
            fields.len() == sent_fields(self.deep_view()).len(),
            forall|i: int|
                0 <= i < fields.len() ==> (#[trigger] fields[i]).0@ == sent_fields(
                    self.deep_view(),
                )[i].0 && fields[i].1@ == sent_fields(self.deep_view())[i].1,
    {
        let mut fields: Vec<(String, String)> = Vec::new();
        fields.push((String::from_str("started"), self.started.clone()));
        match &self.comment {
            Some(text) => {
                fields.push((String::from_str("comment"), text.clone()));
            },
            None => {},
        }
        fields.push((String::from_str("timeSpent"), self.time_spent.clone()));
        fields
    }
}

} // verus!
