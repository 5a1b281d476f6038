//! Rows of the package table.
use vstd::prelude::*;

verus! {

/// A stored row, with its id.
#[derive(Debug, Clone)]
pub struct IdxPackage {
    pub id: i64,
    pub name: String,
    pub version: String,
    pub location: String,
}

/// A row to insert; the database gives it its id.
#[derive(Debug, Clone)]
pub struct NewIdxPackage {
    pub name: String,
    pub version: String,
    pub location: String,
}

} // verus!
