//! What the tracker says of an issue.

use crate::commands::timelog::jira_worklog::Worklog;
use vstd::prelude::*;
use vstd::string::*;

verus! {

/// The fields of an issue.
#[derive(Debug, Clone, PartialEq, Eq)]
pub struct JiraField {
    pub issuetype: JiraIssueType,
    pub status: JiraStatus,
    pub summary: String,
}

/// The type of an issue.
#[derive(Debug, Clone, PartialEq, Eq)]
pub struct JiraIssueType {
    pub name: String,
}

/// The status of an issue.
#[derive(Debug, Clone, PartialEq, Eq)]
pub struct JiraStatus {
    pub name: String,
}

/// The work logged against one issue.
#[derive(Debug, Clone, PartialEq, Eq)]
pub struct JiraWorklog {
    pub worklogs: Vec<Worklog>,
}

/// Whether work was done in regular hours.
#[derive(Debug, Clone, Copy, PartialEq, Eq, Structural)]
pub enum WorkType {
    Normal,
    Overtime,
}

/// The name of a work type.
pub open spec fn work_type_name(work_type: WorkType) -> Seq<char> {
    match work_type {
        WorkType::Normal => "Normal"@,
        WorkType::Overtime => "Overtime"@,
    }
}

impl WorkType {
    /// The name of the work type, as it is shown.
    pub fn to_string(&self) -> (name: String)
        ensures
            name@ == work_type_name(*self),
    {
        match self {
            WorkType::Normal => String::from_str("Normal"),
            WorkType::Overtime => String::from_str("Overtime"),
        }
    }
}

} // verus!
