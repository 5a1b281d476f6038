//! # Repository registry
//!
//! Finds the persistence repository for a locator's scheme.
use vstd::prelude::*;

verus! {

/// Holds the function that gives the repository for a scheme.
pub struct RepositoryRegistry<F> {
    repository_getter: F,
}

impl<F> RepositoryRegistry<F> {
    pub fn new(f: F) -> (r: Self)
        ensures
            r.getter() == f,
    {
        RepositoryRegistry { repository_getter: f }
    }

    pub closed spec fn getter(&self) -> F {
        self.repository_getter
    }
}

} // verus!
