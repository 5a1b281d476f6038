//! A package seen through its locator: `scheme://path`.
use vstd::prelude::*;

use crate::sources::FileSource;
use crate::text::{find_separator, has_sep, is_first_sep};

verus! {

/// The part of a locator before its first `://`.
pub open spec fn scheme_of(location: Seq<char>) -> Seq<char> {
    let i = choose|i: int| is_first_sep(location, i);
    location.subrange(0, i)
}

/// The part of a locator after its first `://`.
pub open spec fn path_of(location: Seq<char>) -> Seq<char> {
    let i = choose|i: int| is_first_sep(location, i);
    location.subrange(i + 3, location.len() as int)
}

/// The first `://` of a locator is where it is.
pub proof fn lemma_first_sep_unique(s: Seq<char>, i: int)
    requires
        is_first_sep(s, i),
    ensures
        (choose|k: int| is_first_sep(s, k)) == i,
{
    let k = choose|k: int| is_first_sep(s, k);
    assert(is_first_sep(s, k));
    if k < i {
        assert(!crate::text::sep_at(s, k));
    } else if i < k {
        assert(!crate::text::sep_at(s, i));
    }
}

/// A package by name, version and locator.
#[derive(Debug, Clone, Copy)]
pub struct Package<'a> {
    pub name: &'a str,
    pub version: &'a str,
    pub location: &'a str,
}

impl<'a> Package<'a> {
    /// Whether the locator holds `://`.
    pub fn has_scheme(&self) -> (r: bool)
        ensures
            r == has_sep(self.location@),
    {
        match find_separator(self.location) {
            Some(i) => true,
            None => false,
        }
    }

    /// The path of the locator: what follows its first `://`.
    pub fn path(&self) -> (r: &'a str)
        requires
            has_sep(self.location@),
        ensures
            r@ == path_of(self.location@),
    {
        match find_separator(self.location) {
            Some(i) => {
                proof {
                    lemma_first_sep_unique(self.location@, i as int);
                }
                let n = self.location.unicode_len();
                self.location.substring_char(i + 3, n)
            },
            None => {
                assert(false);
                self.location
            },
        }
    }

    /// The scheme of the locator: what precedes its first `://`.
    pub fn path_prefix(&self) -> (r: &'a str)
        requires
            has_sep(self.location@),
        ensures
            r@ == scheme_of(self.location@),
    {
        match find_separator(self.location) {
            Some(i) => {
                proof {
                    lemma_first_sep_unique(self.location@, i as int);
                }
                self.location.substring_char(0, i)
            },
            None => {
                assert(false);
                self.location
            },
        }
    }

    /// The source that holds the package's bytes. Files are the only kind of
    /// source, whatever the scheme.
    pub fn source(&self) -> (r: FileSource<'a>)
        ensures
            r.pkg == *self,
    {
        FileSource::new(*self)
    }
}

} // verus!
