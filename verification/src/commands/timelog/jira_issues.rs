//! An issue of the tracker.

use crate::commands::timelog::jira_types::JiraField;
use vstd::prelude::*;

verus! {

/// An issue: its key and its fields.
#[derive(Debug, Clone, PartialEq, Eq)]
pub struct JiraIssue {
    pub key: String,
    pub fields: JiraField,
}

} // verus!
