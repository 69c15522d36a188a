//! The author of a piece of logged work.

use vstd::prelude::*;

verus! {

/// A user of the tracker.
#[derive(Debug, Clone, PartialEq, Eq)]
pub struct JiraUser {
    pub name: String,
}

impl View for JiraUser {
    type V = Seq<char>;

    open spec fn view(&self) -> Seq<char> {
        self.name@
    }
}

impl Default for JiraUser {
    /// The user without a name.
    fn default() -> (user: JiraUser)
        ensures
            user@ == Seq::<char>::empty(),
    {
        JiraUser { name: String::new() }
    }
}

impl JiraUser {
    /// The same user, written anew.
    pub fn duplicate(&self) -> (user: JiraUser)
        ensures
            user@ == self@,
    {
        JiraUser { name: self.name.clone() }
    }
}

} // verus!
