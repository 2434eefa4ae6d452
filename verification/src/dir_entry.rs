//! An entry in a directory, as the asynchronous directory stream hands it
//! out.
//!
//! The entry carries the full path — the path given to the directory read,
//! already joined with the entry's own name.  Metadata and file-type
//! queries are blocking calls and live with the unverified shell; what the
//! library models is the value the entry itself holds.

use vstd::prelude::*;

verus! {

/// An entry in a directory.
pub struct DirEntry {
    /// The full path to the entry.
    pub path: String,
}

impl View for DirEntry {
    type V = Seq<char>;

    open spec fn view(&self) -> Seq<char> {
        self.path@
    }
}

impl DirEntry {
    /// Creates an entry for the given full path.
    pub fn new(path: String) -> (e: DirEntry)
        ensures
            e@ == path@,
    {
        DirEntry { path }
    }

    /// Returns the full path to this entry.
    pub fn path(&self) -> (p: String)
        ensures
            p@ == self@,
    {
        self.path.clone()
    }
}

} // verus!
