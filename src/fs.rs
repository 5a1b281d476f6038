//! The artifact store's root directory: the checks made before any save, and
//! the mapping from a record's locator to the address of its bytes.
use vstd::prelude::*;

use crate::error::{ErrType, Error};
use crate::model::PkgMeta;
use crate::packages::{path_of, Package};
use crate::text::{join_text, has_sep};

verus! {

/// What the filesystem reports of an existing path.
#[derive(Debug, Clone, Copy, PartialEq, Eq, Structural)]
pub struct RootStatus {
    pub is_dir: bool,
    pub readonly: bool,
}

/// The path in quotes.
pub open spec fn quoted(path: Seq<char>) -> Seq<char> {
    "\""@ + path + "\""@
}

/// Why a root with the given status cannot hold the store, if it cannot.
pub open spec fn root_refusal(path: Seq<char>, status: Option<RootStatus>) -> Option<Seq<char>> {
    match status {
        None => Some(quoted(path) + " does not exist"@),
        Some(s) => if !s.is_dir {
            Some(quoted(path) + " is not a directory"@)
        } else if s.readonly {
            Some(quoted(path) + " is not writeable"@)
        } else {
            None
        },
    }
}

/// The artifact store, rooted at an existing, writeable directory.
#[derive(Debug)]
pub struct FSPkgRepo {
    path: String,
}

impl FSPkgRepo {
    /// The root directory.
    pub closed spec fn root(&self) -> Seq<char> {
        self.path@
    }

    /// Opens the store at `path`, given what the filesystem reports of it
    /// (`None` where it does not exist). A root that is missing, is no
    /// directory, or is read-only is refused with `Usage`, saying which.
    pub fn new(path: &str, status: Option<RootStatus>) -> (r: Result<FSPkgRepo, Error>)
        ensures
            r is Ok <==> root_refusal(path@, status) is None,
            r matches Ok(repo) ==> repo.root() == path@,
            r matches Err(e) ==> e.kind == ErrType::Usage && e.message is Some
                && e.message->Some_0@ == root_refusal(path@, status)->Some_0,
    {
        let why = match status {
            None => " does not exist",
            Some(s) => if !s.is_dir {
                " is not a directory"
            } else if s.readonly {
                " is not writeable"
            } else {
                return Ok(FSPkgRepo { path: path.to_string() });
            },
        };
        let opened = join_text("\"", path);
        let message = join_text(opened.as_str(), "\"");
        let message = join_text(message.as_str(), why);
        Err(Error { kind: ErrType::Usage, source: None, message: Some(message) })
    }

    /// The root directory.
    pub fn path(&self) -> (r: &str)
        ensures
            r@ == self.root(),
    {
        self.path.as_str()
    }

    /// The address of a record's bytes: the path of its locator, under the
    /// root. A locator without `://` is refused with `Usage`.
    pub fn resolve(&self, meta: &PkgMeta) -> (r: Result<String, Error>)
        ensures
            r is Ok <==> has_sep(meta.location@),
            r matches Ok(a) ==> a@ == self.root() + "/"@ + path_of(meta.location@),
            r matches Err(e) ==> e.kind == ErrType::Usage,
    {
        let pkg = Package {
            name: meta.name.as_str(),
            version: meta.version.as_str(),
            location: meta.location.as_str(),
        };
        if !pkg.has_scheme() {
            return Err(Error::new(ErrType::Usage, "package location has no scheme"));
        }
        let dir = join_text(self.path.as_str(), "/");
        Ok(join_text(dir.as_str(), pkg.path()))
    }
}

} // verus!
