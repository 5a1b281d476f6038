//! Packages as the domain describes them, and searches for them.
use vstd::prelude::*;

verus! {

/// The metadata for a package: what a search may use, plus its `url`, which
/// says which store keeps it and where within that store.
#[derive(Debug, Clone)]
pub struct PackageMeta {
    pub name: String,
    pub version: String,
    pub url: String,
}

impl PackageMeta {
    pub fn new(name: &str, version: &str, url: &str) -> (r: PackageMeta)
        ensures
            r.name@ == name@,
            r.version@ == version@,
            r.url@ == url@,
    {
        PackageMeta { name: name.to_string(), version: version.to_string(), url: url.to_string() }
    }
}

/// A package's metadata with its bytes.
#[derive(Debug)]
pub struct Package<'a> {
    pub meta: &'a PackageMeta,
    pub data: &'a [u8],
}

/// A search by name, optionally narrowed to versions that compare to
/// `version` as `comparator` says.
#[derive(Debug, Clone)]
pub struct PackageSearch {
    pub name: String,
    pub version: Option<String>,
    pub comparator: Option<String>,
}

} // verus!
