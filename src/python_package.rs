//! Python packages as the simple index lists them.
use vstd::prelude::*;

use crate::model::PkgMeta;

verus! {

/// The metadata for a package: what a search may use, plus its `url`, which
/// says which store keeps it and where within that store.
#[derive(Debug, Clone)]
pub struct PythonPackageMetadata {
    pub name: String,
    pub version: String,
    pub url: String,
}

impl PythonPackageMetadata {
    pub fn new(name: &str, version: &str, url: &str) -> (r: PythonPackageMetadata)
        ensures
            r.name@ == name@,
            r.version@ == version@,
            r.url@ == url@,
    {
        PythonPackageMetadata { name: name.to_string(), version: version.to_string(), url: url.to_string() }
    }

    /// The listing's view of a catalog record.
    pub fn from_record(m: &PkgMeta) -> (r: PythonPackageMetadata)
        ensures
            r.name@ == m.name@,
            r.version@ == m.version@,
            r.url@ == m.location@,
    {
        PythonPackageMetadata { name: m.name.clone(), version: m.version.clone(), url: m.location.clone() }
    }
}

/// A package's metadata with its bytes.
#[derive(Debug)]
pub struct PythonPackage<'a> {
    pub meta: &'a PythonPackageMetadata,
    pub data: &'a [u8],
}

} // verus!
