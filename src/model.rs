//! Package records, the name grammar, and the interfaces of the two stores.
use vstd::prelude::*;

use crate::error::Error;

verus! {

/// The grammar of package names, matched without regard to case: one or more
/// letters or digits, with `.`, `_` or `-` allowed between them.
pub const NAME_PATTERN: &'static str = "(?i)^([A-Z0-9]|[A-Z0-9][A-Z0-9._-]*[A-Z0-9])$";

/// What `regex` answers when `text` is tested against `pattern`: `None` where
/// the pattern does not compile, else whether the text matches.
pub uninterp spec fn regex_verdict(pattern: Seq<char>, text: Seq<char>) -> Option<bool>;

/// Relies on `regex::Regex::new` to compile `pattern` and on `Regex::is_match`
/// to test `text` against it.
#[verifier::external_body]
fn regex_is_match(pattern: &str, text: &str) -> (r: Option<bool>)
    ensures
        r == regex_verdict(pattern@, text@),
{
    match regex::Regex::new(pattern) {
        Ok(re) => Some(re.is_match(text)),
        Err(_) => None,
    }
}

/// A name is valid when it matches the package-name grammar.
pub open spec fn valid_name(name: Seq<char>) -> bool {
    regex_verdict(NAME_PATTERN@, name) == Some(true)
}

/// Whether `name` follows the package-name grammar.
pub fn is_valid_name(name: &str) -> (r: bool)
    ensures
        r == valid_name(name@),
{
    match regex_is_match(NAME_PATTERN, name) {
        Some(b) => b,
        None => false,
    }
}

/// Metadata about a package: its name and version, which together identify
/// it, and the locator of its bytes.
#[derive(Debug, Clone)]
pub struct PkgMeta {
    pub name: String,
    pub version: String,
    pub location: String,
}

/// The mathematical value of a [`PkgMeta`].
pub struct MetaView {
    pub name: Seq<char>,
    pub version: Seq<char>,
    pub location: Seq<char>,
}

impl View for PkgMeta {
    type V = MetaView;

    open spec fn view(&self) -> MetaView {
        MetaView { name: self.name@, version: self.version@, location: self.location@ }
    }
}

impl PkgMeta {
    pub fn new(name: &str, version: &str, location: &str) -> (r: PkgMeta)
        ensures
            r.name@ == name@,
            r.version@ == version@,
            r.location@ == location@,
    {
        PkgMeta {
            name: name.to_string(),
            version: version.to_string(),
            location: location.to_string(),
        }
    }

    /// A copy of the record.
    pub fn duplicate(&self) -> (r: PkgMeta)
        ensures
            r@ == self@,
    {
        PkgMeta {
            name: self.name.clone(),
            version: self.version.clone(),
            location: self.location.clone(),
        }
    }

    /// Whether the record is `other`, field for field.
    pub fn same_as(&self, other: &PkgMeta) -> (r: bool)
        ensures
            r == (self@ == other@),
    {
        self.name == other.name && self.version == other.version && self.location
            == other.location
    }

    /// Whether the record has the given name and version.
    pub fn has_key(&self, name: &str, version: &str) -> (r: bool)
        ensures
            r == (self.name@ == name@ && self.version@ == version@),
    {
        string_eq(self.name.as_str(), name) && string_eq(self.version.as_str(), version)
    }
}

/// Whether two strings hold the same characters.
pub fn string_eq(a: &str, b: &str) -> (r: bool)
    ensures
        r == (a@ == b@),
{
    let n = a.unicode_len();
    if n != b.unicode_len() {
        return false;
    }
    let mut i: usize = 0;
    while i < n
        invariant
            n == a@.len(),
            n == b@.len(),
            i <= n,
            forall|j: int| 0 <= j < i ==> a@[j] == b@[j],
        decreases n - i,
    {
        if a.get_char(i) != b.get_char(i) {
            return false;
        }
        i = i + 1;
    }
    assert(a@ =~= b@);
    true
}

/// A package: its metadata and its bytes.
pub struct Pkg {
    pub meta: PkgMeta,
    pub bytes: Vec<u8>,
}

/// A catalog of package metadata.
pub trait PkgMetaRepo {
    /// Add metadata to the catalog.
    fn add(&mut self, meta: &PkgMeta) -> Result<(), Error>;

    /// Remove a package's metadata from the catalog.
    fn delete(&mut self, meta: &PkgMeta) -> Result<(), Error>;

    /// Get a package by name and version.
    fn get(&self, name: &str, ver: &str) -> Result<Option<PkgMeta>, Error>;

    /// All records of the catalog, in the order they were added.
    fn get_all(&self) -> Result<Vec<PkgMeta>, Error>;

    /// All records with the given name, in the order they were added.
    fn with_name(&self, name: &str) -> Result<Vec<PkgMeta>, Error>;
}

/// A store of whole packages, metadata and bytes together.
pub trait PkgRepo {
    fn add(&mut self, pkg: Pkg) -> Result<PkgMeta, Error>;

    fn delete(&mut self, meta: &PkgMeta) -> Result<(), Error>;

    fn get(&mut self, meta: &PkgMeta) -> Result<Option<Pkg>, Error>;

    fn replace(&mut self, meta: &PkgMeta, pkg: Pkg) -> Result<PkgMeta, Error>;
}

} // verus!
