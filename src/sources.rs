//! Where a package's bytes are kept, and how a save reaches them safely.
use vstd::prelude::*;

use crate::packages::{path_of, Package};
use crate::text::{join_text, decimal, decimal_text, has_sep, lemma_decimal_injective};

verus! {

/// A failed load or save, with its description.
#[derive(Debug, Clone)]
pub enum SourceError {
    LoadFailure(String),
    SaveFailure(String),
}

/// Storage that loads and saves a package's bytes.
pub trait PackageSource {
    /// The package's bytes.
    fn load(&self) -> Result<Vec<u8>, SourceError>;

    /// Replaces the package's bytes with `bytes`.
    fn save(&self, bytes: &[u8]) -> Result<(), SourceError>;
}

/// What separates a file's path from the number of a scratch copy of it.
pub const SCRATCH_MARK: &'static str = ".tmp-";

/// The scratch file of save number `token` to `path`: beside the file, in the
/// same directory, so that a rename moves it into place at once.
pub open spec fn scratch_of(path: Seq<char>, token: nat) -> Seq<char> {
    path + SCRATCH_MARK@ + decimal(token)
}

/// A package's bytes kept in a file at the path of its locator.
#[derive(Debug, Clone, Copy)]
pub struct FileSource<'a> {
    pub pkg: Package<'a>,
}

impl<'a> FileSource<'a> {
    pub fn new(pkg: Package<'a>) -> (r: FileSource<'a>)
        ensures
            r.pkg == pkg,
    {
        FileSource { pkg }
    }

    /// The path of the file that holds the bytes.
    pub fn target_path(&self) -> (r: &'a str)
        requires
            has_sep(self.pkg.location@),
        ensures
            r@ == path_of(self.pkg.location@),
    {
        self.pkg.path()
    }

    /// The path to write save number `token` to before it is renamed into
    /// place. Saves with different numbers never share a scratch file.
    pub fn tmp_path(&self, token: u64) -> (r: String)
        requires
            has_sep(self.pkg.location@),
        ensures
            r@ == scratch_of(path_of(self.pkg.location@), token as nat),
    {
        let with_mark = join_text(self.pkg.path(), SCRATCH_MARK);
        let number = decimal_text(token);
        join_text(with_mark.as_str(), number.as_str())
    }
}

/// Two saves to one path with different numbers write different scratch
/// files, each of them other than the file itself.
pub proof fn law_scratch_paths_distinct(path: Seq<char>, a: nat, b: nat)
    requires
        a != b,
    ensures
        scratch_of(path, a) != scratch_of(path, b),
        scratch_of(path, a) != path,
        scratch_of(path, a).subrange(0, path.len() as int) == path,
{
    let pre = path + SCRATCH_MARK@;
    let sa = scratch_of(path, a);
    let sb = scratch_of(path, b);
    assert(sa == pre + decimal(a));
    if sa == sb {
        assert(sa.subrange(pre.len() as int, sa.len() as int) =~= decimal(a));
        assert(sb.subrange(pre.len() as int, sb.len() as int) =~= decimal(b));
        lemma_decimal_injective(a, b);
    }
    reveal_strlit(".tmp-");
    assert(sa.len() > path.len());
    assert(sa.subrange(0, path.len() as int) =~= path);
}

} // verus!
