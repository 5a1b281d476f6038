//! The index projector: from an ordered sequence of records to the entries
//! of a PEP-503 simple index, and from entries to the markup of their links.
//! It reads nothing and keeps no state, so equal inputs give equal outputs.
use vstd::prelude::*;

use crate::python_package::PythonPackageMetadata;
use crate::text::join_text;

verus! {

/// One link of an index: the text shown and the target.
#[derive(Debug, Clone)]
pub struct IndexEntry {
    pub display_name: String,
    pub link: String,
}

/// The names of a sequence of records, in order.
pub open spec fn names_of(metas: Seq<PythonPackageMetadata>) -> Seq<Seq<char>> {
    metas.map_values(|m: PythonPackageMetadata| m.name@)
}

/// Each name once, where it first occurs, in order.
pub open spec fn distinct_names(names: Seq<Seq<char>>) -> Seq<Seq<char>>
    decreases names.len(),
{
    if names.len() == 0 {
        Seq::empty()
    } else {
        let before = distinct_names(names.drop_last());
        if before.contains(names.last()) {
            before
        } else {
            before.push(names.last())
        }
    }
}

/// The link of a package's page in the root index.
pub open spec fn link_of(name: Seq<char>) -> Seq<char> {
    name + "/"@
}

/// The markup of one link, after `indent`.
pub open spec fn line_of(indent: Seq<char>, display: Seq<char>, link: Seq<char>) -> Seq<char> {
    indent + "<a href=\""@ + link + "\">"@ + display + "</a><br/>\n"@
}

/// The text shown and the target of each entry, in order.
pub open spec fn entries_view(entries: Seq<IndexEntry>) -> Seq<(Seq<char>, Seq<char>)> {
    entries.map_values(|e: IndexEntry| (e.display_name@, e.link@))
}

/// The entries of the root index of `metas`: one per distinct name.
pub open spec fn root_index(metas: Seq<PythonPackageMetadata>) -> Seq<(Seq<char>, Seq<char>)> {
    distinct_names(names_of(metas)).map_values(|n: Seq<char>| (n, link_of(n)))
}

/// The entries of the index of one package: one per record, shown by its
/// version and linked to its locator.
pub open spec fn version_index(metas: Seq<PythonPackageMetadata>) -> Seq<(Seq<char>, Seq<char>)> {
    metas.map_values(|m: PythonPackageMetadata| (m.version@, m.url@))
}

/// The markup of a sequence of entries, one line each, in order.
pub open spec fn markup(indent: Seq<char>, entries: Seq<(Seq<char>, Seq<char>)>) -> Seq<char>
    decreases entries.len(),
{
    if entries.len() == 0 {
        Seq::empty()
    } else {
        markup(indent, entries.drop_last()) + line_of(
            indent,
            entries.last().0,
            entries.last().1,
        )
    }
}

/// Whether `names` holds `name`.
pub fn contains_name(names: &Vec<String>, name: &str) -> (r: bool)
    ensures
        r == names@.map_values(|s: String| s@).contains(name@),
{
    let ghost v = names@.map_values(|s: String| s@);
    let mut i: usize = 0;
    while i < names.len()
        invariant
            i <= names@.len(),
            v == names@.map_values(|s: String| s@),
            forall|j: int| 0 <= j < i ==> v[j] != name@,
        decreases names@.len() - i,
    {
        if crate::model::string_eq(names[i].as_str(), name) {
            assert(v[i as int] == name@);
            return true;
        }
        i = i + 1;
    }
    false
}

/// The entries of the root index: one per distinct name, in the order the
/// names first occur, each linked to the name's own page.
pub fn root_entries(metas: &[PythonPackageMetadata]) -> (r: Vec<IndexEntry>)
    ensures
        entries_view(r@) == root_index(metas@),
{
    let ghost all = names_of(metas@);
    let mut seen: Vec<String> = Vec::new();
    let mut out: Vec<IndexEntry> = Vec::new();
    let mut i: usize = 0;
    while i < metas.len()
        invariant
            i <= metas@.len(),
            all == names_of(metas@),
            seen@.map_values(|s: String| s@) == distinct_names(all.subrange(0, i as int)),
            entries_view(out@) == distinct_names(all.subrange(0, i as int)).map_values(
                |n: Seq<char>| (n, link_of(n)),
            ),
        decreases metas@.len() - i,
    {
        let ghost before = all.subrange(0, i as int);
        let ghost after = all.subrange(0, i + 1);
        assert(after.drop_last() =~= before);
        assert(after.last() == metas@[i as int].name@);
        let name = metas[i].name.as_str();
        if !contains_name(&seen, name) {
            let ghost old_seen = seen@;
            let ghost old_out = out@;
            seen.push(metas[i].name.clone());
            let link = join_text(name, "/");
            out.push(IndexEntry { display_name: metas[i].name.clone(), link });
            assert(seen@.map_values(|s: String| s@) =~= old_seen.map_values(|s: String| s@).push(
                name@,
            ));
            assert(entries_view(out@) =~= entries_view(old_out).push((name@, link_of(name@))));
            assert(distinct_names(after).map_values(|n: Seq<char>| (n, link_of(n))) =~= distinct_names(
                before,
            ).map_values(|n: Seq<char>| (n, link_of(n))).push((name@, link_of(name@))));
        }
        i = i + 1;
    }
    assert(all.subrange(0, i as int) =~= all);
    out
}

/// The entries of one package's index: one per record, in order, shown by
/// version and linked to the record's locator.
pub fn version_entries(metas: &[PythonPackageMetadata]) -> (r: Vec<IndexEntry>)
    ensures
        entries_view(r@) == version_index(metas@),
{
    let mut out: Vec<IndexEntry> = Vec::new();
    let mut i: usize = 0;
    while i < metas.len()
        invariant
            i <= metas@.len(),
            entries_view(out@) =~= version_index(metas@).subrange(0, i as int),
        decreases metas@.len() - i,
    {
        let ghost old_out = out@;
        out.push(IndexEntry { display_name: metas[i].version.clone(), link: metas[i].url.clone() });
        assert(entries_view(out@) =~= entries_view(old_out).push(
            (metas@[i as int].version@, metas@[i as int].url@),
        ));
        assert(version_index(metas@).subrange(0, i + 1) =~= version_index(metas@).subrange(
            0,
            i as int,
        ).push((metas@[i as int].version@, metas@[i as int].url@)));
        i = i + 1;
    }
    assert(version_index(metas@).subrange(0, i as int) =~= version_index(metas@));
    out
}

/// The markup of `entries`, one line each after `indent`, in order.
pub fn render_entries(indent: &str, entries: &Vec<IndexEntry>) -> (r: String)
    ensures
        r@ == markup(indent@, entries_view(entries@)),
{
    let ghost all = entries_view(entries@);
    let mut out = String::new();
    let mut i: usize = 0;
    while i < entries.len()
        invariant
            i <= entries@.len(),
            all == entries_view(entries@),
            out@ == markup(indent@, all.subrange(0, i as int)),
        decreases entries@.len() - i,
    {
        let e = &entries[i];
        let a = join_text(indent, "<a href=\"");
        let b = join_text(a.as_str(), e.link.as_str());
        let c = join_text(b.as_str(), "\">");
        let d = join_text(c.as_str(), e.display_name.as_str());
        let line = join_text(d.as_str(), "</a><br/>\n");
        let next = join_text(out.as_str(), line.as_str());
        assert(all.subrange(0, i + 1).drop_last() =~= all.subrange(0, i as int));
        assert(all.subrange(0, i + 1).last() == (e.display_name@, e.link@));
        out = next;
        i = i + 1;
    }
    assert(all.subrange(0, i as int) =~= all);
    out
}

/// The root index lists each name of its input exactly once: no name twice,
/// and no name of the input left out.
pub proof fn law_root_index_distinct(names: Seq<Seq<char>>)
    ensures
        distinct_names(names).no_duplicates(),
        forall|n: Seq<char>| #[trigger] distinct_names(names).contains(n) <==> names.contains(n),
    decreases names.len(),
{
    if names.len() > 0 {
        let init = names.drop_last();
        law_root_index_distinct(init);
        let before = distinct_names(init);
        assert forall|n: Seq<char>| #[trigger] distinct_names(names).contains(n) <==> names.contains(
            n,
        ) by {
            if names.contains(n) && n != names.last() {
                let i = choose|i: int| 0 <= i < names.len() && names[i] == n;
                assert(init[i] == n);
            }
            if init.contains(n) {
                let i = choose|i: int| 0 <= i < init.len() && init[i] == n;
                assert(names[i] == n);
            }
            if !before.contains(names.last()) {
                assert(before.push(names.last())[before.len() as int] == names.last());
                if before.contains(n) {
                    let i = choose|i: int| 0 <= i < before.len() && before[i] == n;
                    assert(before.push(names.last())[i] == n);
                }
                if before.push(names.last()).contains(n) && n != names.last() {
                    let i = choose|i: int|
                        0 <= i < before.len() + 1 && before.push(names.last())[i] == n;
                    assert(before[i] == n);
                }
            }
            assert(names[names.len() - 1] == names.last());
        }
    }
}

/// Equal inputs render to equal listings: the projection depends on the
/// ordered records alone.
pub proof fn law_projection_deterministic(
    a: Seq<PythonPackageMetadata>,
    b: Seq<PythonPackageMetadata>,
    indent: Seq<char>,
)
    requires
        names_of(a) == names_of(b),
    ensures
        root_index(a) == root_index(b),
        markup(indent, root_index(a)) == markup(indent, root_index(b)),
{
}

} // verus!
