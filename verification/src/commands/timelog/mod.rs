//! Time logged against the issues of a tracker.

pub mod jira;
pub mod jira_issues;
pub mod jira_types;
pub mod jira_user;
pub mod jira_worklog;
