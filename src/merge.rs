//! Merging the fields of a base type with the local fields of a type that
//! extends or restricts it.
use vstd::prelude::*;
use crate::text::str_eq;
use crate::types::{fields_view, FieldV, StructField};

verus! {

/// The first field named `name` in `fs`.
pub open spec fn field_named(fs: Seq<FieldV>, name: Seq<char>) -> Option<FieldV>
    decreases fs.len(),
{
    if fs.len() == 0 {
        None
    } else if fs[0].name == name {
        Some(fs[0])
    } else {
        field_named(fs.drop_first(), name)
    }
}

/// The fields of `base` whose names no field of `local` has.
pub open spec fn not_overridden(base: Seq<FieldV>, local: Seq<FieldV>) -> Seq<FieldV>
    decreases base.len(),
{
    if base.len() == 0 {
        Seq::empty()
    } else {
        let p = not_overridden(base.drop_last(), local);
        if field_named(local, base.last().name) is Some {
            p
        } else {
            p.push(base.last())
        }
    }
}

/// Extension: the base fields first, then the local ones; a local field
/// takes the place of a base field of the same name.
pub open spec fn extended(base: Seq<FieldV>, local: Seq<FieldV>) -> Seq<FieldV> {
    not_overridden(base, local) + local
}

/// Restriction: the base fields, in base order, that the local fields list,
/// each replaced by its local version.
pub open spec fn restricted(base: Seq<FieldV>, local: Seq<FieldV>) -> Seq<FieldV>
    decreases base.len(),
{
    if base.len() == 0 {
        Seq::empty()
    } else {
        let p = restricted(base.drop_last(), local);
        match field_named(local, base.last().name) {
            Some(f) => p.push(f),
            None => p,
        }
    }
}

/// The index of the first field of `fs` named `name`.
fn find_field(fs: &Vec<StructField>, name: &str) -> (r: Option<usize>)
    ensures
        match r {
            Some(i) => i < fs@.len() && field_named(fields_view(fs@), name@) == Some(
                fields_view(fs@)[i as int],
            ),
            None => field_named(fields_view(fs@), name@) is None,
        },
{
    let ghost v = fields_view(fs@);
    let n = fs.len();
    let mut i: usize = 0;
    assert(v.subrange(0, n as int) == v);
    while i < n
        invariant
            n == fs@.len(),
            v == fields_view(fs@),
            v.len() == n,
            i <= n,
            field_named(v, name@) == field_named(v.subrange(i as int, n as int), name@),
        decreases n - i,
    {
        assert(v.subrange(i as int, n as int).drop_first() == v.subrange(i + 1, n as int));
        if str_eq(fs[i].name.as_str(), name) {
            return Some(i);
        }
        i = i + 1;
    }
    None
}

/// The fields of a type that extends a base type with fields `base` by the
/// fields `local`.
pub fn merge_extension(base: &Vec<StructField>, local: &Vec<StructField>) -> (r: Vec<StructField>)
    ensures
        fields_view(r@) == extended(fields_view(base@), fields_view(local@)),
{
    let ghost b = fields_view(base@);
    let ghost l = fields_view(local@);
    let mut out: Vec<StructField> = Vec::new();
    let mut i: usize = 0;
    assert(fields_view(out@) =~= not_overridden(b.subrange(0, 0), l));
    while i < base.len()
        invariant
            b == fields_view(base@),
            l == fields_view(local@),
            b.len() == base@.len(),
            i <= b.len(),
            fields_view(out@) == not_overridden(b.subrange(0, i as int), l),
        decreases b.len() - i,
    {
        assert(b.subrange(0, i + 1).drop_last() == b.subrange(0, i as int));
        let f = &base[i];
        if find_field(local, f.name.as_str()).is_none() {
            let ghost before = out@;
            out.push(f.copy());
            assert(fields_view(out@) =~= fields_view(before).push(f@));
        }
        i = i + 1;
    }
    assert(b.subrange(0, b.len() as int) == b);
    let mut j: usize = 0;
    let ghost mid = fields_view(out@);
    while j < local.len()
        invariant
            l == fields_view(local@),
            l.len() == local@.len(),
            j <= l.len(),
            fields_view(out@) == mid + l.subrange(0, j as int),
        decreases l.len() - j,
    {
        let ghost before = out@;
        out.push(local[j].copy());
        assert(fields_view(out@) =~= fields_view(before).push(l[j as int]));
        assert(l.subrange(0, j + 1) == l.subrange(0, j as int).push(l[j as int]));
        j = j + 1;
    }
    assert(l.subrange(0, l.len() as int) == l);
    out
}

/// The fields of a type that restricts a base type with fields `base` to
/// the fields `local`.
pub fn merge_restriction(base: &Vec<StructField>, local: &Vec<StructField>) -> (r: Vec<
    StructField,
>)
    ensures
        fields_view(r@) == restricted(fields_view(base@), fields_view(local@)),
{
    let ghost b = fields_view(base@);
    let ghost l = fields_view(local@);
    let mut out: Vec<StructField> = Vec::new();
    let mut i: usize = 0;
    assert(fields_view(out@) =~= restricted(b.subrange(0, 0), l));
    while i < base.len()
        invariant
            b == fields_view(base@),
            l == fields_view(local@),
            b.len() == base@.len(),
            i <= b.len(),
            fields_view(out@) == restricted(b.subrange(0, i as int), l),
        decreases b.len() - i,
    {
        assert(b.subrange(0, i + 1).drop_last() == b.subrange(0, i as int));
        match find_field(local, base[i].name.as_str()) {
            Some(k) => {
                let ghost before = out@;
                out.push(local[k].copy());
                assert(fields_view(out@) =~= fields_view(before).push(l[k as int]));
            },
            None => {},
        }
        i = i + 1;
    }
    assert(b.subrange(0, b.len() as int) == b);
    out
}

/// The names of a sequence of fields.
pub open spec fn names(fs: Seq<FieldV>) -> Seq<Seq<char>> {
    fs.map_values(|f: FieldV| f.name)
}

proof fn lemma_not_named(fs: Seq<FieldV>, name: Seq<char>)
    requires
        !names(fs).contains(name),
    ensures
        field_named(fs, name) is None,
    decreases fs.len(),
{
    if fs.len() > 0 {
        assert(names(fs)[0] == fs[0].name);
        assert(names(fs.drop_first()) =~= names(fs).drop_first());
        lemma_not_named(fs.drop_first(), name);
    }
}

proof fn lemma_named_unique(fs: Seq<FieldV>, i: int)
    requires
        0 <= i < fs.len(),
        names(fs).no_duplicates(),
    ensures
        field_named(fs, fs[i].name) == Some(fs[i]),
    decreases fs.len(),
{
    if i > 0 {
        assert(names(fs)[0] == fs[0].name);
        assert(names(fs)[i] == fs[i].name);
        assert(fs[0].name != fs[i].name);
        assert(names(fs.drop_first()) =~= names(fs).drop_first());
        assert(fs.drop_first()[i - 1] == fs[i]);
        lemma_named_unique(fs.drop_first(), i - 1);
    }
}

/// Extending a base type by local fields whose names none of the base
/// fields has gives the base fields in their order, then the local ones.
pub proof fn lemma_extension_order(base: Seq<FieldV>, local: Seq<FieldV>)
    requires
        forall|i: int| 0 <= i < base.len() ==> !names(local).contains(#[trigger] base[i].name),
    ensures
        extended(base, local) == base + local,
    decreases base.len(),
{
    lemma_none_overridden(base, local);
}

proof fn lemma_none_overridden(base: Seq<FieldV>, local: Seq<FieldV>)
    requires
        forall|i: int| 0 <= i < base.len() ==> !names(local).contains(#[trigger] base[i].name),
    ensures
        not_overridden(base, local) == base,
    decreases base.len(),
{
    if base.len() > 0 {
        let d = base.drop_last();
        assert forall|i: int| 0 <= i < d.len() implies !names(local).contains(#[trigger] d[i].name) by {
            assert(d[i] == base[i]);
        }
        lemma_none_overridden(d, local);
        assert(!names(local).contains(base[base.len() - 1].name));
        lemma_not_named(local, base.last().name);
        assert(d.push(base.last()) == base);
    }
}

/// Restricting a base type by local fields that list the same names in the
/// same order gives the local fields: each base field is replaced by its
/// restricted version, in base order.
pub proof fn lemma_restriction_replaces(base: Seq<FieldV>, local: Seq<FieldV>)
    requires
        names(base) == names(local),
        names(local).no_duplicates(),
    ensures
        restricted(base, local) == local,
{
    assert(base.len() == names(base).len());
    assert(local.len() == names(local).len());
    lemma_restriction_prefix(base, local, base.len() as int);
    assert(base.subrange(0, base.len() as int) == base);
    assert(local.subrange(0, local.len() as int) == local);
}

proof fn lemma_restriction_prefix(base: Seq<FieldV>, local: Seq<FieldV>, k: int)
    requires
        names(base) == names(local),
        names(local).no_duplicates(),
        0 <= k <= base.len(),
    ensures
        restricted(base.subrange(0, k), local) == local.subrange(0, k),
    decreases k,
{
    assert(base.len() == names(base).len());
    assert(local.len() == names(local).len());
    if k > 0 {
        lemma_restriction_prefix(base, local, k - 1);
        assert(base.subrange(0, k).drop_last() == base.subrange(0, k - 1));
        assert(names(base)[k - 1] == names(local)[k - 1]);
        lemma_named_unique(local, k - 1);
        assert(local.subrange(0, k) == local.subrange(0, k - 1).push(local[k - 1]));
    } else {
        assert(local.subrange(0, 0) =~= Seq::<FieldV>::empty());
    }
}

} // verus!
