//! The catalog's model: a sequence of records in creation order with at most
//! one record per name and version, the queries over it, and a catalog held
//! in memory that implements it exactly.
use vstd::prelude::*;

use crate::error::{ErrType, Error};
use crate::model::{is_valid_name, valid_name, MetaView, PkgMeta, PkgMetaRepo};

verus! {

/// The records of a vector, as values.
pub open spec fn rows_view(rows: Seq<PkgMeta>) -> Seq<MetaView> {
    rows.map_values(|m: PkgMeta| m@)
}

/// Whether `m` has the given name and version.
pub open spec fn key_is(m: MetaView, name: Seq<char>, version: Seq<char>) -> bool {
    m.name == name && m.version == version
}

/// Whether some record has the given name and version.
pub open spec fn has_key(rows: Seq<MetaView>, name: Seq<char>, version: Seq<char>) -> bool {
    exists|i: int| 0 <= i < rows.len() && key_is(#[trigger] rows[i], name, version)
}

/// No two records share a name and version.
pub open spec fn keys_unique(rows: Seq<MetaView>) -> bool {
    forall|i: int, j: int|
        0 <= i < rows.len() && 0 <= j < rows.len() && i != j ==> !key_is(
            #[trigger] rows[i],
            (#[trigger] rows[j]).name,
            rows[j].version,
        )
}

/// The first record with the given name and version.
pub open spec fn first_match(rows: Seq<MetaView>, name: Seq<char>, version: Seq<char>) -> Option<
    MetaView,
>
    decreases rows.len(),
{
    if rows.len() == 0 {
        None
    } else if key_is(rows[0], name, version) {
        Some(rows[0])
    } else {
        first_match(rows.subrange(1, rows.len() as int), name, version)
    }
}

/// How many records have the given name and version.
pub open spec fn key_count(rows: Seq<MetaView>, name: Seq<char>, version: Seq<char>) -> nat
    decreases rows.len(),
{
    if rows.len() == 0 {
        0
    } else {
        key_count(rows.drop_last(), name, version) + if key_is(rows.last(), name, version) {
            1nat
        } else {
            0nat
        }
    }
}

/// The records with the given name, in order.
pub open spec fn named(rows: Seq<MetaView>, name: Seq<char>) -> Seq<MetaView> {
    rows.filter(|m: MetaView| m.name == name)
}

/// The records other than `m`, in order.
pub open spec fn without(rows: Seq<MetaView>, m: MetaView) -> Seq<MetaView> {
    rows.filter(|r: MetaView| r != m)
}

/// Why adding `m` fails, if it does: an invalid name, or a name and version
/// that are already taken.
pub open spec fn add_refusal(rows: Seq<MetaView>, m: MetaView) -> Option<ErrType> {
    if !valid_name(m.name) {
        Some(ErrType::Usage)
    } else if has_key(rows, m.name, m.version) {
        Some(ErrType::Conflict)
    } else {
        None
    }
}

/// The catalog after adding `m`.
pub open spec fn added(rows: Seq<MetaView>, m: MetaView) -> Seq<MetaView> {
    if add_refusal(rows, m) is None {
        rows.push(m)
    } else {
        rows
    }
}

/// The catalog after deleting `m`; deleting a record that is not there
/// changes nothing.
pub open spec fn deleted(rows: Seq<MetaView>, m: MetaView) -> Seq<MetaView> {
    if rows.contains(m) {
        without(rows, m)
    } else {
        rows
    }
}

/// Index of the first record with the given name and version.
pub fn find_key(rows: &Vec<PkgMeta>, name: &str, version: &str) -> (r: Option<usize>)
    ensures
        match r {
            Some(i) => i < rows@.len() && first_match(rows_view(rows@), name@, version@) == Some(
                rows@[i as int]@,
            ),
            None => first_match(rows_view(rows@), name@, version@) is None,
        },
{
    let ghost all = rows_view(rows@);
    let mut i: usize = 0;
    assert(all.subrange(0, all.len() as int) =~= all);
    while i < rows.len()
        invariant
            i <= rows@.len(),
            all == rows_view(rows@),
            first_match(all, name@, version@) == first_match(
                all.subrange(i as int, all.len() as int),
                name@,
                version@,
            ),
        decreases rows@.len() - i,
    {
        let ghost rest = all.subrange(i as int, all.len() as int);
        assert(rest[0] == rows@[i as int]@);
        if rows[i].has_key(name, version) {
            return Some(i);
        }
        assert(rest.subrange(1, rest.len() as int) =~= all.subrange(i + 1, all.len() as int));
        i = i + 1;
    }
    assert(all.subrange(i as int, all.len() as int).len() == 0);
    None
}

/// A copy of the first record of `rows` with the given name and version.
pub fn record_with_key(rows: &Vec<PkgMeta>, name: &str, version: &str) -> (r: Option<PkgMeta>)
    ensures
        match r {
            Some(m) => first_match(rows_view(rows@), name@, version@) == Some(m@),
            None => first_match(rows_view(rows@), name@, version@) is None,
        },
{
    match find_key(rows, name, version) {
        Some(i) => Some(rows[i].duplicate()),
        None => None,
    }
}

/// The records of `rows` with the given name, in order.
pub fn records_named(rows: &Vec<PkgMeta>, name: &str) -> (r: Vec<PkgMeta>)
    ensures
        rows_view(r@) == named(rows_view(rows@), name@),
{
    let ghost all = rows_view(rows@);
    let mut out: Vec<PkgMeta> = Vec::new();
    let mut i: usize = 0;
    while i < rows.len()
        invariant
            i <= rows@.len(),
            all == rows_view(rows@),
            rows_view(out@) == named(all.subrange(0, i as int), name@),
        decreases rows@.len() - i,
    {
        let ghost before = all.subrange(0, i as int);
        let ghost after = all.subrange(0, i + 1);
        assert(after.drop_last() =~= before);
        assert(after.last() == rows@[i as int]@);
        reveal(Seq::filter);
        if crate::model::string_eq(rows[i].name.as_str(), name) {
            out.push(rows[i].duplicate());
            assert(rows_view(out@) =~= named(before, name@).push(rows@[i as int]@));
        }
        i = i + 1;
    }
    assert(all.subrange(0, i as int) =~= all);
    out
}

/// Copies of all records of `rows`, in order.
pub fn copy_records(rows: &Vec<PkgMeta>) -> (r: Vec<PkgMeta>)
    ensures
        rows_view(r@) == rows_view(rows@),
{
    let mut out: Vec<PkgMeta> = Vec::new();
    let mut i: usize = 0;
    while i < rows.len()
        invariant
            i <= rows@.len(),
            out@.len() == i,
            rows_view(out@) =~= rows_view(rows@).subrange(0, i as int),
        decreases rows@.len() - i,
    {
        let ghost prev = out@;
        out.push(rows[i].duplicate());
        assert forall|k: int| 0 <= k < i + 1 implies #[trigger] rows_view(out@)[k] == rows_view(
            rows@,
        )[k] by {
            if k < i {
                assert(out@[k] == prev[k]);
                assert(rows_view(prev)[k] == rows_view(rows@).subrange(0, i as int)[k]);
            }
        }
        assert(rows_view(out@) =~= rows_view(rows@).subrange(0, i + 1));
        i = i + 1;
    }
    assert(rows_view(rows@).subrange(0, i as int) =~= rows_view(rows@));
    out
}

/// The records of `rows` other than `m`, in order.
pub fn records_without(rows: &Vec<PkgMeta>, m: &PkgMeta) -> (r: Vec<PkgMeta>)
    ensures
        rows_view(r@) == without(rows_view(rows@), m@),
{
    let ghost all = rows_view(rows@);
    let mut out: Vec<PkgMeta> = Vec::new();
    let mut i: usize = 0;
    while i < rows.len()
        invariant
            i <= rows@.len(),
            all == rows_view(rows@),
            rows_view(out@) == without(all.subrange(0, i as int), m@),
        decreases rows@.len() - i,
    {
        let ghost before = all.subrange(0, i as int);
        let ghost after = all.subrange(0, i + 1);
        assert(after.drop_last() =~= before);
        assert(after.last() == rows@[i as int]@);
        reveal(Seq::filter);
        if !rows[i].same_as(m) {
            out.push(rows[i].duplicate());
            assert(rows_view(out@) =~= without(before, m@).push(rows@[i as int]@));
        }
        i = i + 1;
    }
    assert(all.subrange(0, i as int) =~= all);
    out
}

/// Index of a record equal to `m`.
pub fn position_of(rows: &Vec<PkgMeta>, m: &PkgMeta) -> (r: Option<usize>)
    ensures
        match r {
            Some(i) => i < rows@.len() && rows@[i as int]@ == m@,
            None => !rows_view(rows@).contains(m@),
        },
{
    let mut i: usize = 0;
    while i < rows.len()
        invariant
            i <= rows@.len(),
            forall|j: int| 0 <= j < i ==> rows_view(rows@)[j] != m@,
        decreases rows@.len() - i,
    {
        if rows[i].same_as(m) {
            return Some(i);
        }
        i = i + 1;
    }
    None
}

/// A catalog held in memory: records in creation order, at most one per
/// name and version.
pub struct MemoryRepo {
    rows: Vec<PkgMeta>,
}

impl View for MemoryRepo {
    type V = Seq<MetaView>;

    closed spec fn view(&self) -> Seq<MetaView> {
        rows_view(self.rows@)
    }
}

impl MemoryRepo {
    /// The catalog's records never share a name and version.
    #[verifier::type_invariant]
    spec fn keys_stay_unique(&self) -> bool {
        keys_unique(rows_view(self.rows@))
    }

    /// An empty catalog.
    pub fn new() -> (r: MemoryRepo)
        ensures
            r@ == Seq::<MetaView>::empty(),
    {
        let r = MemoryRepo { rows: Vec::new() };
        assert(r@ =~= Seq::<MetaView>::empty());
        r
    }

    /// Adds a record: refused with `Usage` where its name breaks the grammar,
    /// with `Conflict` where its name and version are taken.
    pub fn add(&mut self, meta: &PkgMeta) -> (r: Result<(), Error>)
        ensures
            keys_unique(final(self)@),
            final(self)@ == added(old(self)@, meta@),
            r is Ok <==> add_refusal(old(self)@, meta@) is None,
            r is Err ==> add_refusal(old(self)@, meta@) == Some(r->Err_0.kind),
    {
        proof {
            use_type_invariant(&*self);
        }
        if !is_valid_name(meta.name.as_str()) {
            return Err(Error::new(ErrType::Usage, "package name does not follow the name grammar"));
        }
        match find_key(&self.rows, meta.name.as_str(), meta.version.as_str()) {
            Some(_) => {
                proof {
                    lemma_first_match_none(self@, meta@.name, meta@.version);
                }
                Err(Error::new(ErrType::Conflict, "a package with this name and version exists"))
            },
            None => {
                proof {
                    lemma_first_match_none(self@, meta@.name, meta@.version);
                }
                let ghost before = self@;
                let mut rows = copy_records(&self.rows);
                let ghost copied = rows@;
                rows.push(meta.duplicate());
                assert(rows_view(rows@) =~= before.push(meta@)) by {
                    assert forall|k: int| 0 <= k < before.len() implies #[trigger] rows_view(
                        rows@,
                    )[k] == before[k] by {
                        assert(rows@[k] == copied[k]);
                        assert(rows_view(copied)[k] == before[k]);
                    }
                }
                proof {
                    assert forall|i: int, j: int|
                        0 <= i < rows@.len() && 0 <= j < rows@.len() && i != j implies !key_is(
                        #[trigger] rows_view(rows@)[i],
                        (#[trigger] rows_view(rows@)[j]).name,
                        rows_view(rows@)[j].version,
                    ) by {
                        let v = before.push(meta@);
                        if i == before.len() as int {
                            assert(v[j] == before[j]);
                        } else if j == before.len() as int {
                            assert(v[i] == before[i]);
                        }
                    }
                }
                self.rows = rows;
                Ok(())
            },
        }
    }

    /// Removes the record equal to `meta`; `NotFound` where there is none.
    pub fn delete(&mut self, meta: &PkgMeta) -> (r: Result<(), Error>)
        ensures
            keys_unique(final(self)@),
            final(self)@ == deleted(old(self)@, meta@),
            r is Ok <==> old(self)@.contains(meta@),
            r is Err ==> r->Err_0.kind == ErrType::NotFound,
    {
        proof {
            use_type_invariant(&*self);
        }
        match position_of(&self.rows, meta) {
            None => Err(Error::new(ErrType::NotFound, "no such package")),
            Some(i) => {
                assert(self@[i as int] == meta@);
                let kept = records_without(&self.rows, meta);
                proof {
                    lemma_unique_without(self@, meta@);
                }
                self.rows = kept;
                Ok(())
            },
        }
    }

    /// The record with the given name and version, if there is one.
    pub fn get(&self, name: &str, ver: &str) -> (r: Option<PkgMeta>)
        ensures
            match r {
                Some(m) => first_match(self@, name@, ver@) == Some(m@),
                None => first_match(self@, name@, ver@) is None,
            },
    {
        record_with_key(&self.rows, name, ver)
    }

    /// All records, in creation order.
    pub fn get_all(&self) -> (r: Vec<PkgMeta>)
        ensures
            rows_view(r@) == self@,
    {
        copy_records(&self.rows)
    }

    /// All records with the given name, in creation order.
    pub fn with_name(&self, name: &str) -> (r: Vec<PkgMeta>)
        ensures
            rows_view(r@) == named(self@, name@),
    {
        records_named(&self.rows, name)
    }
}

impl PkgMetaRepo for MemoryRepo {
    fn add(&mut self, meta: &PkgMeta) -> Result<(), Error> {
        MemoryRepo::add(self, meta)
    }

    fn delete(&mut self, meta: &PkgMeta) -> Result<(), Error> {
        MemoryRepo::delete(self, meta)
    }

    fn get(&self, name: &str, ver: &str) -> Result<Option<PkgMeta>, Error> {
        Ok(MemoryRepo::get(self, name, ver))
    }

    fn get_all(&self) -> Result<Vec<PkgMeta>, Error> {
        Ok(MemoryRepo::get_all(self))
    }

    fn with_name(&self, name: &str) -> Result<Vec<PkgMeta>, Error> {
        Ok(MemoryRepo::with_name(self, name))
    }
}

// Facts about the model.

/// No record matches exactly when no record has the key.
pub proof fn lemma_first_match_none(rows: Seq<MetaView>, name: Seq<char>, version: Seq<char>)
    ensures
        first_match(rows, name, version) is None <==> !has_key(rows, name, version),
        first_match(rows, name, version) is Some ==> key_is(
            first_match(rows, name, version)->Some_0,
            name,
            version,
        ) && rows.contains(first_match(rows, name, version)->Some_0),
    decreases rows.len(),
{
    if rows.len() > 0 {
        let rest = rows.subrange(1, rows.len() as int);
        lemma_first_match_none(rest, name, version);
        if has_key(rest, name, version) {
            let i = choose|i: int| 0 <= i < rest.len() && key_is(#[trigger] rest[i], name, version);
            assert(rows[i + 1] == rest[i]);
        }
        if has_key(rows, name, version) && !key_is(rows[0], name, version) {
            let i = choose|i: int| 0 <= i < rows.len() && key_is(#[trigger] rows[i], name, version);
            assert(rest[i - 1] == rows[i]);
        }
        if first_match(rest, name, version) is Some && !key_is(rows[0], name, version) {
            let x = first_match(rest, name, version)->Some_0;
            let j = choose|j: int| 0 <= j < rest.len() && rest[j] == x;
            assert(rows[j + 1] == x);
        }
        assert(rows[0] == rows[0]);
        assert(rows.contains(rows[0]));
    }
}

/// Appending a record leaves an earlier match in place.
pub proof fn lemma_first_match_push(
    rows: Seq<MetaView>,
    x: MetaView,
    name: Seq<char>,
    version: Seq<char>,
)
    ensures
        first_match(rows.push(x), name, version) == (if first_match(rows, name, version) is Some {
            first_match(rows, name, version)
        } else if key_is(x, name, version) {
            Some(x)
        } else {
            None
        }),
    decreases rows.len(),
{
    let s = rows.push(x);
    if rows.len() == 0 {
        assert(s.subrange(1, s.len() as int) =~= Seq::<MetaView>::empty());
        assert(s[0] == x);
        assert(first_match(Seq::<MetaView>::empty(), name, version) is None);
    } else {
        let rest = rows.subrange(1, rows.len() as int);
        assert(s[0] == rows[0]);
        assert(s.subrange(1, s.len() as int) =~= rest.push(x));
        lemma_first_match_push(rest, x, name, version);
    }
}

/// Without a record with the key, the count of the key is zero; with one, at
/// least one; with unique keys, at most one.
pub proof fn lemma_key_count(rows: Seq<MetaView>, name: Seq<char>, version: Seq<char>)
    ensures
        !has_key(rows, name, version) ==> key_count(rows, name, version) == 0,
        has_key(rows, name, version) ==> key_count(rows, name, version) >= 1,
        keys_unique(rows) ==> key_count(rows, name, version) <= 1,
    decreases rows.len(),
{
    if rows.len() > 0 {
        let init = rows.drop_last();
        lemma_key_count(init, name, version);
        if has_key(init, name, version) {
            let i = choose|i: int| 0 <= i < init.len() && key_is(#[trigger] init[i], name, version);
            assert(rows[i] == init[i]);
        }
        if has_key(rows, name, version) && !key_is(rows.last(), name, version) {
            let i = choose|i: int| 0 <= i < rows.len() && key_is(#[trigger] rows[i], name, version);
            assert(init[i] == rows[i]);
        }
        if keys_unique(rows) {
            assert forall|i: int, j: int|
                0 <= i < init.len() && 0 <= j < init.len() && i != j implies !key_is(
                #[trigger] init[i],
                (#[trigger] init[j]).name,
                init[j].version,
            ) by {
                assert(rows[i] == init[i] && rows[j] == init[j]);
            }
            if key_is(rows.last(), name, version) && has_key(init, name, version) {
                let i = choose|i: int| 0 <= i < init.len() && key_is(#[trigger] init[i], name, version);
                assert(rows[i] == init[i]);
                assert(!key_is(rows[i], rows[rows.len() - 1].name, rows[rows.len() - 1].version));
            }
        }
    }
}

/// Leaving out a record keeps the keys unique.
pub proof fn lemma_unique_without(rows: Seq<MetaView>, m: MetaView)
    requires
        keys_unique(rows),
    ensures
        keys_unique(without(rows, m)),
    decreases rows.len(),
{
    reveal(Seq::filter);
    if rows.len() > 0 {
        let init = rows.drop_last();
        assert forall|i: int, j: int|
            0 <= i < init.len() && 0 <= j < init.len() && i != j implies !key_is(
            #[trigger] init[i],
            (#[trigger] init[j]).name,
            init[j].version,
        ) by {
            assert(rows[i] == init[i] && rows[j] == init[j]);
        }
        lemma_unique_without(init, m);
        let sub = without(init, m);
        let last = rows.last();
        if last != m {
            assert(without(rows, m) == sub.push(last));
            assert forall|i: int| 0 <= i < sub.len() implies !key_is(
                #[trigger] sub[i],
                last.name,
                last.version,
            ) by {
                broadcast use Seq::lemma_filter_contains_rev;

                assert(sub.contains(sub[i]));
                let k = choose|k: int| 0 <= k < init.len() && init[k] == sub[i];
                assert(rows[k] == init[k]);
            }
        }
    }
}

// Laws of the catalog.

/// Adding a valid record whose name and version are free, then looking up
/// that name and version, gives back exactly the record.
pub proof fn law_add_then_get(rows: Seq<MetaView>, m: MetaView)
    requires
        keys_unique(rows),
        valid_name(m.name),
        !has_key(rows, m.name, m.version),
    ensures
        add_refusal(rows, m) is None,
        first_match(added(rows, m), m.name, m.version) == Some(m),
{
    lemma_first_match_none(rows, m.name, m.version);
    lemma_first_match_push(rows, m, m.name, m.version);
}

/// Adding a valid record twice: the second add is refused with `Conflict`,
/// and the catalog holds exactly one record with that name and version.
pub proof fn law_add_twice(rows: Seq<MetaView>, m: MetaView)
    requires
        keys_unique(rows),
        valid_name(m.name),
    ensures
        add_refusal(added(rows, m), m) == Some(ErrType::Conflict),
        added(added(rows, m), m) == added(rows, m),
        key_count(added(added(rows, m), m), m.name, m.version) == 1,
{
    let once = added(rows, m);
    if !has_key(rows, m.name, m.version) {
        assert(once == rows.push(m));
        assert(key_is(once[rows.len() as int], m.name, m.version));
        lemma_key_count(rows, m.name, m.version);
        assert(once.drop_last() =~= rows);
    } else {
        lemma_key_count(rows, m.name, m.version);
    }
}

/// Adding a record, then deleting it, leaves no record with its name and
/// version, where the name and version were free or held by that very record.
pub proof fn law_add_delete_get(rows: Seq<MetaView>, m: MetaView)
    requires
        keys_unique(rows),
        !has_key(rows, m.name, m.version) || rows.contains(m),
    ensures
        first_match(deleted(added(rows, m), m), m.name, m.version) is None,
{
    let once = added(rows, m);
    if !has_key(rows, m.name, m.version) && add_refusal(rows, m) is Some {
        if rows.contains(m) {
            let i = choose|i: int| 0 <= i < rows.len() && rows[i] == m;
            assert(key_is(rows[i], m.name, m.version));
        }
        lemma_first_match_none(rows, m.name, m.version);
    } else {
        assert(keys_unique(once)) by {
            if !has_key(rows, m.name, m.version) {
                assert forall|i: int, j: int|
                    0 <= i < once.len() && 0 <= j < once.len() && i != j implies !key_is(
                    #[trigger] once[i],
                    (#[trigger] once[j]).name,
                    once[j].version,
                ) by {
                    if i == rows.len() as int {
                        assert(once[j] == rows[j]);
                    } else if j == rows.len() as int {
                        assert(once[i] == rows[i]);
                    }
                }
            }
        }
        assert(once.contains(m)) by {
            if !has_key(rows, m.name, m.version) {
                assert(once[rows.len() as int] == m);
            }
        }
        let b = choose|b: int| 0 <= b < once.len() && once[b] == m;
        let after = without(once, m);
        assert forall|i: int| 0 <= i < after.len() implies !key_is(
            #[trigger] after[i],
            m.name,
            m.version,
        ) by {
            broadcast use Seq::lemma_filter_contains_rev;
            broadcast use vstd::seq_lib::group_filter_ensures;

            assert(after.contains(after[i]));
            let a = choose|a: int| 0 <= a < once.len() && once[a] == after[i];
            assert(once[a] != m);
        }
        lemma_first_match_none(after, m.name, m.version);
    }
}

/// The records with a given name are all and only the catalog's records with
/// that name.
pub proof fn law_named_all_and_only(rows: Seq<MetaView>, name: Seq<char>)
    ensures
        forall|x: MetaView| #[trigger]
            named(rows, name).contains(x) <==> (rows.contains(x) && x.name == name),
{
    broadcast use Seq::lemma_filter_contains_rev;
    broadcast use vstd::seq_lib::group_filter_ensures;

    assert forall|x: MetaView| #[trigger]
        named(rows, name).contains(x) implies rows.contains(x) && x.name == name by {
        let i = choose|i: int| 0 <= i < named(rows, name).len() && named(rows, name)[i] == x;
    }
    assert forall|x: MetaView| rows.contains(x) && x.name == name implies #[trigger] named(
        rows,
        name,
    ).contains(x) by {
        let i = choose|i: int| 0 <= i < rows.len() && rows[i] == x;
    }
}

/// The records with a given name keep creation order: a record added last
/// comes last among those with its name, and leaves the others as they were.
pub proof fn law_named_in_creation_order(rows: Seq<MetaView>, x: MetaView, name: Seq<char>)
    ensures
        named(rows.push(x), name) == (if x.name == name {
            named(rows, name).push(x)
        } else {
            named(rows, name)
        }),
{
    reveal(Seq::filter);
    assert(rows.push(x).drop_last() =~= rows);
}

} // verus!
