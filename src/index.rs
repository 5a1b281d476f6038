//! The package index's database, opened on first use.
use vstd::prelude::*;

verus! {

/// Where the index's database lives, and its connection once opened.
pub struct Index {
    location: String,
    connection: Option<rusqlite::Connection>,
}

impl Index {
    /// An index at `location`, not yet connected.
    pub fn new(location: &str) -> (r: Index)
        ensures
            r.location() == location@,
            !r.is_connected(),
    {
        Index { location: location.to_string(), connection: None }
    }

    pub closed spec fn location(&self) -> Seq<char> {
        self.location@
    }

    pub closed spec fn is_connected(&self) -> bool {
        self.connection is Some
    }
}

} // verus!
