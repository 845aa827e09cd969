//! The laws of the generator, stated and proved over the spec-level model.
//! An abstract record value is a map from field names to values of an
//! arbitrary type; an abstract semantics applies a generated construction
//! list to such a record, with the generic conversion capability and the
//! custom map calls taken as arbitrary functions.

use vstd::prelude::*;
use crate::ast::{SpecModPath, SpecTypeExpr, SpecStructField, SpecStruct, SpecAttribute, SpecDgDirection};
use crate::directive::{spec_field_ignored, spec_field_rename, spec_field_map, spec_resolve_direction, spec_attr_direction, spec_first_direction_in};
use crate::ast::SpecDgInner;
use crate::gen::{SpecGenExpr, SpecFieldAssign, spec_assign_of, spec_gen_assigns, spec_source_name, spec_dest_name, spec_process_struct, ConfigError, SpecGeneratedImpl, spec_is_forward};

verus! {

/// The value a generated expression takes on a source record: the generic
/// conversion `conv` of the field's declared type applied to the source
/// field's value, or a custom map call `mapf`.
pub open spec fn spec_eval_expr<V>(
    e: SpecGenExpr,
    src: Map<Seq<char>, V>,
    conv: spec_fn(SpecTypeExpr, V) -> V,
    mapf: spec_fn(SpecModPath, V) -> V,
) -> V {
    match e {
        SpecGenExpr::MirrorCall { typ, source_field } => conv(typ, src[source_field]),
        SpecGenExpr::MapCall { path, source_field } => mapf(path, src[source_field]),
    }
}

/// The record built by a generated construction list from a source record.
pub open spec fn spec_eval_assigns<V>(
    assigns: Seq<SpecFieldAssign>,
    src: Map<Seq<char>, V>,
    conv: spec_fn(SpecTypeExpr, V) -> V,
    mapf: spec_fn(SpecModPath, V) -> V,
) -> Map<Seq<char>, V>
    decreases assigns.len(),
{
    if assigns.len() == 0 {
        Map::empty()
    } else {
        spec_eval_assigns(assigns.drop_last(), src, conv, mapf).insert(
            assigns.last().dest,
            spec_eval_expr(assigns.last().expr, src, conv, mapf),
        )
    }
}

/// What one field of the generated record holds. For a field list without
/// ignored fields or custom maps, the destination field of each entry
/// receives exactly the generic conversion of its source field's value,
/// provided the later entries write to other destination names.
pub proof fn lemma_eval_gen_assigns<V>(
    fields: Seq<SpecStructField>,
    forward: bool,
    src: Map<Seq<char>, V>,
    conv: spec_fn(SpecTypeExpr, V) -> V,
    mapf: spec_fn(SpecModPath, V) -> V,
    i: int,
)
    requires
        forall|k: int| 0 <= k < fields.len() ==> !spec_field_ignored(
            (#[trigger] fields[k]).attributes,
        ),
        forall|k: int| 0 <= k < fields.len() ==> spec_field_map(
            (#[trigger] fields[k]).attributes,
        ) is None,
        0 <= i < fields.len(),
        forall|j: int| i < j < fields.len() ==> spec_dest_name(#[trigger] fields[j], forward)
            != spec_dest_name(fields[i], forward),
    ensures
        spec_eval_assigns(spec_gen_assigns(fields, forward), src, conv, mapf).contains_key(
            spec_dest_name(fields[i], forward),
        ),
        spec_eval_assigns(spec_gen_assigns(fields, forward), src, conv, mapf)[spec_dest_name(
            fields[i],
            forward,
        )] == conv(fields[i].typ, src[spec_source_name(fields[i], forward)]),
    decreases fields.len(),
{
    let assigns = spec_gen_assigns(fields, forward);
    let last = fields.last();
    assert(!spec_field_ignored(last.attributes));
    assert(spec_field_map(last.attributes) is None);
    assert(assigns == spec_gen_assigns(fields.drop_last(), forward).push(
        spec_assign_of(last, forward),
    ));
    if i == fields.len() - 1 {
        assert(assigns.last() == spec_assign_of(last, forward));
        assert(assigns.drop_last() =~= spec_gen_assigns(fields.drop_last(), forward));
    } else {
        lemma_eval_gen_assigns(fields.drop_last(), forward, src, conv, mapf, i);
        assert(fields.drop_last()[i] == fields[i]);
        assert(assigns.drop_last() =~= spec_gen_assigns(fields.drop_last(), forward));
        assert(spec_dest_name(last, forward) != spec_dest_name(fields[i], forward));
    }
}

/// Round-trip law: for a struct whose fields carry no `ignore` and no `map`
/// directives, with pairwise distinct declared names and pairwise distinct
/// destination names, generating Forward and Backward from the same field
/// list and composing the two conversions on an arbitrary record restores
/// every declared field, provided the underlying conversion capability is
/// itself round-trip-preserving on every value.
pub proof fn lemma_round_trip<V>(
    fields: Seq<SpecStructField>,
    src: Map<Seq<char>, V>,
    fconv: spec_fn(SpecTypeExpr, V) -> V,
    bconv: spec_fn(SpecTypeExpr, V) -> V,
    mapf: spec_fn(SpecModPath, V) -> V,
    i: int,
)
    requires
        forall|k: int| 0 <= k < fields.len() ==> !spec_field_ignored(
            (#[trigger] fields[k]).attributes,
        ),
        forall|k: int| 0 <= k < fields.len() ==> spec_field_map(
            (#[trigger] fields[k]).attributes,
        ) is None,
        forall|k: int, j: int| 0 <= k < j < fields.len() ==> (#[trigger] fields[k]).name
            != (#[trigger] fields[j]).name,
        forall|k: int, j: int| 0 <= k < j < fields.len() ==> spec_dest_name(
            #[trigger] fields[k],
            true,
        ) != spec_dest_name(#[trigger] fields[j], true),
        forall|t: SpecTypeExpr, v: V| #[trigger] bconv(t, fconv(t, v)) == v,
        0 <= i < fields.len(),
    ensures
        ({
            let mid = spec_eval_assigns(spec_gen_assigns(fields, true), src, fconv, mapf);
            let back = spec_eval_assigns(spec_gen_assigns(fields, false), mid, bconv, mapf);
            back.contains_key(fields[i].name) && back[fields[i].name] == src[fields[i].name]
        }),
{
    let mid = spec_eval_assigns(spec_gen_assigns(fields, true), src, fconv, mapf);
    let back = spec_eval_assigns(spec_gen_assigns(fields, false), mid, bconv, mapf);
    let f = fields[i];
    lemma_eval_gen_assigns(fields, true, src, fconv, mapf, i);
    assert(mid[spec_dest_name(f, true)] == fconv(f.typ, src[f.name]));
    lemma_eval_gen_assigns(fields, false, mid, bconv, mapf, i);
    assert(spec_dest_name(f, false) == f.name);
    assert(spec_source_name(f, false) == spec_dest_name(f, true));
    assert(back[f.name] == bconv(f.typ, mid[spec_dest_name(f, true)]));
    assert(back[f.name] == bconv(f.typ, fconv(f.typ, src[f.name])));
}

/// Rename symmetry: a field renamed to `x` sends its declared field's value
/// to destination `x` under Forward, and under Backward reads source `x`
/// into its declared field.
pub proof fn lemma_rename_symmetry(f: SpecStructField, x: Seq<char>)
    requires
        spec_field_rename(f.attributes) == Some(x),
        spec_field_map(f.attributes) is None,
    ensures
        spec_assign_of(f, true) == (SpecFieldAssign {
            dest: x,
            expr: SpecGenExpr::MirrorCall { typ: f.typ, source_field: f.name },
        }),
        spec_assign_of(f, false) == (SpecFieldAssign {
            dest: f.name,
            expr: SpecGenExpr::MirrorCall { typ: f.typ, source_field: x },
        }),
{
}

/// Ignore omission: a field marked `ignore` never appears in the generated
/// construction list; removing it from the field list leaves the generated
/// list unchanged, in either direction.
pub proof fn lemma_ignore_omission(fields: Seq<SpecStructField>, i: int, forward: bool)
    requires
        0 <= i < fields.len(),
        spec_field_ignored(fields[i].attributes),
    ensures
        spec_gen_assigns(fields, forward) == spec_gen_assigns(fields.remove(i), forward),
    decreases fields.len(),
{
    if i == fields.len() - 1 {
        assert(fields.remove(i) =~= fields.drop_last());
    } else {
        lemma_ignore_omission(fields.drop_last(), i, forward);
        assert(fields.remove(i).drop_last() =~= fields.drop_last().remove(i));
        assert(fields.remove(i).last() == fields.last());
    }
}

/// Custom map precedence: when a field carries a `map` directive, the
/// generated expression calls the map path on the source field and nothing
/// else, in either direction.
pub proof fn lemma_map_precedence(f: SpecStructField, p: SpecModPath, forward: bool)
    requires
        spec_field_map(f.attributes) == Some(p),
    ensures
        spec_assign_of(f, forward).expr == (SpecGenExpr::MapCall {
            path: p,
            source_field: spec_source_name(f, forward),
        }),
{
}

/// Exactly-one-direction invariant, absence half: generation fails with the
/// missing-direction error precisely when the struct's attributes carry no
/// Direction entry.
pub proof fn lemma_direction_required(s: SpecStruct)
    ensures
        (spec_resolve_direction(s.attributes) is None) <==> spec_process_struct(s) == Err::<
            SpecGeneratedImpl,
            ConfigError,
        >(ConfigError::MissingDirection),
{
}

/// Exactly-one-direction invariant, presence half: a brace-delimited struct
/// carrying a Direction entry always generates.
pub proof fn lemma_direction_generates(s: SpecStruct, d: SpecDgDirection)
    requires
        spec_resolve_direction(s.attributes) == Some(d),
        s.kind matches crate::ast::SpecStructKind::Struct { .. },
    ensures
        spec_process_struct(s) matches Ok(g) && g.direction == d,
{
}

/// Within one `dg` attribute body, the first Direction entry wins.
pub proof fn lemma_first_direction_in_wins(items: Seq<SpecDgInner>, j: int, d: SpecDgDirection)
    requires
        0 <= j < items.len(),
        items[j] == SpecDgInner::Direction(d),
        forall|k: int| 0 <= k < j ==> !((#[trigger] items[k]) matches SpecDgInner::Direction(_)),
    ensures
        spec_first_direction_in(items) == Some(d),
    decreases j,
{
    if j > 0 {
        lemma_first_direction_in_wins(items.drop_first(), j - 1, d);
    }
}

/// Exactly-one-direction invariant, duplicate half: when several attributes
/// carry Direction entries, the one in the earliest attribute wins.
pub proof fn lemma_first_direction_wins(attrs: Seq<SpecAttribute>, i: int, d: SpecDgDirection)
    requires
        0 <= i < attrs.len(),
        spec_attr_direction(attrs[i]) == Some(d),
        forall|k: int| 0 <= k < i ==> spec_attr_direction(#[trigger] attrs[k]) is None,
    ensures
        spec_resolve_direction(attrs) == Some(d),
    decreases i,
{
    if i > 0 {
        lemma_first_direction_wins(attrs.drop_first(), i - 1, d);
    }
}

} // verus!
