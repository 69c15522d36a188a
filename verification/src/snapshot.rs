//! What was seen of the local filesystem when a plan was made.

use vstd::prelude::*;

verus! {

/// What was seen at one path.
#[derive(Debug, Clone, PartialEq, Eq)]
pub struct LocalEntry {
    pub path: String,
    /// Something is there.
    pub exists: bool,
    /// What is there is a directory.
    pub is_dir: bool,
}

/// The mathematical value of an entry.
pub struct LocalEntryView {
    pub path: Seq<char>,
    pub exists: bool,
    pub is_dir: bool,
}

impl DeepView for LocalEntry {
    type V = LocalEntryView;

    open spec fn deep_view(&self) -> LocalEntryView {
        LocalEntryView { path: self.path@, exists: self.exists, is_dir: self.is_dir }
    }
}

/// The observations taken before planning. A plan goes by them alone: the
/// filesystem is not looked at again, neither while planning nor before
/// the tasks run. A path without an entry counts as absent.
#[derive(Debug, Clone, PartialEq, Eq)]
pub struct Snapshot {
    pub entries: Vec<LocalEntry>,
}

/// Some entry shows a directory at `path`.
pub open spec fn shows_directory(entries: Seq<LocalEntryView>, path: Seq<char>) -> bool {
    exists|i: int|
        0 <= i < entries.len() && (#[trigger] entries[i]).path == path && entries[i].exists
            && entries[i].is_dir
}

impl DeepView for Snapshot {
    type V = Seq<LocalEntryView>;

    open spec fn deep_view(&self) -> Seq<LocalEntryView> {
        self.entries.deep_view()
    }
}

impl Snapshot {
    /// A snapshot without observations.
    pub fn new() -> (snapshot: Snapshot)
        ensures
            snapshot.deep_view() == Seq::<LocalEntryView>::empty(),
    {
        let snapshot = Snapshot { entries: Vec::new() };
        snapshot
    }

    /// Adds what was seen at `path`.
    pub fn record(&mut self, path: &str, exists: bool, is_dir: bool)
        ensures
            final(self).deep_view() == old(self).deep_view().push(
                LocalEntryView { path: path@, exists, is_dir },
            ),
    {
        self.entries.push(LocalEntry { path: path.to_owned(), exists, is_dir });
    }

    /// Tells whether a directory was seen at `path`.
    pub fn is_directory(&self, path: &str) -> (found: bool)
        ensures
            found == shows_directory(self.deep_view(), path@),
    {
        let wanted = path.to_owned();
        let mut i: usize = 0;
        while i < self.entries.len()
            invariant
                i <= self.entries.len(),
                wanted@ == path@,
                forall|k: int|
                    0 <= k < i ==> !((#[trigger] self.deep_view()[k]).path == path@
                        && self.deep_view()[k].exists && self.deep_view()[k].is_dir),
            decreases self.entries.len() - i,
        {
            let entry = &self.entries[i];
            proof {
                assert(self.deep_view()[i as int] == entry.deep_view());
            }
            if entry.exists && entry.is_dir && entry.path == wanted {
                return true;
            }
            i += 1;
        }
        false
    }
}

} // verus!
