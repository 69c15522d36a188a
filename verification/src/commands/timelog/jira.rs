//! The tracker and the addresses of what it holds.

use vstd::prelude::*;
use vstd::string::*;

verus! {

/// The tracker of one organisation.
#[derive(Debug, Clone, PartialEq, Eq)]
pub struct Jira {
    /// The organisation's name in the tracker's address.
    pub domain: String,
}

/// The address under which an issue is shown.
pub open spec fn issue_link(domain: Seq<char>, key: Seq<char>) -> Seq<char> {
    "https://"@ + domain + ".atlassian.net/browse/"@ + key
}

/// The address of the work logged against an issue.
pub open spec fn worklog_url(domain: Seq<char>, issue_id: Seq<char>) -> Seq<char> {
    "https://"@ + domain + ".atlassian.net/rest/api/2/issue/"@ + issue_id + "/worklog"@
}

impl Jira {
    /// The address under which the issue `key` is shown.
    pub fn issue_link(&self, key: &str) -> (link: String)
        ensures
            link@ == issue_link(self.domain@, key@),
    {
        let mut link = String::from_str("https://");
        link.append(self.domain.as_str());
        link.append(".atlassian.net/browse/");
        link.append(key);
        link
    }

    /// The address of the work logged against the issue `issue_id`.
    pub fn worklog_url(&self, issue_id: &str) -> (url: String)
        ensures
            url@ == worklog_url(self.domain@, issue_id@),
    {
        let mut url = String::from_str("https://");
        url.append(self.domain.as_str());
        url.append(".atlassian.net/rest/api/2/issue/");
        url.append(issue_id);
        url.append("/worklog");
        url
    }
}

} // verus!
