//! The directive model: given a parsed struct or field, resolve the
//! effective mapping directives before generation. These are pure scans of
//! the attribute lists; when a directive of one kind appears more than once,
//! the first occurrence in declaration order wins.

use vstd::prelude::*;
use crate::ast::{ModPath, SpecModPath, Attribute, SpecAttribute, AttributeInner, SpecAttributeInner, DgInner, SpecDgInner, DgDirection, SpecDgDirection, StructField, Struct};

verus! {

/// The first Direction entry in one `dg` attribute body, if any.
pub open spec fn spec_first_direction_in(items: Seq<SpecDgInner>) -> Option<SpecDgDirection>
    decreases items.len(),
{
    if items.len() == 0 {
        None
    } else {
        match items[0] {
            SpecDgInner::Direction(d) => Some(d),
            _ => spec_first_direction_in(items.drop_first()),
        }
    }
}

/// The first Direction entry among a struct's attributes, if any.
pub open spec fn spec_resolve_direction(attrs: Seq<SpecAttribute>) -> Option<SpecDgDirection>
    decreases attrs.len(),
{
    if attrs.len() == 0 {
        None
    } else {
        match spec_attr_direction(attrs[0]) {
            Some(d) => Some(d),
            None => spec_resolve_direction(attrs.drop_first()),
        }
    }
}

/// The first Rename value in one `dg` attribute body, if any.
pub open spec fn spec_first_rename_in(items: Seq<SpecDgInner>) -> Option<Seq<char>>
    decreases items.len(),
{
    if items.len() == 0 {
        None
    } else {
        match items[0] {
            SpecDgInner::Rename(s) => Some(s),
            _ => spec_first_rename_in(items.drop_first()),
        }
    }
}

/// The first Rename value among a field's attributes, if any.
pub open spec fn spec_field_rename(attrs: Seq<SpecAttribute>) -> Option<Seq<char>>
    decreases attrs.len(),
{
    if attrs.len() == 0 {
        None
    } else {
        match spec_attr_rename(attrs[0]) {
            Some(s) => Some(s),
            None => spec_field_rename(attrs.drop_first()),
        }
    }
}

/// The first custom-map path in one `dg` attribute body, if any.
pub open spec fn spec_first_map_in(items: Seq<SpecDgInner>) -> Option<SpecModPath>
    decreases items.len(),
{
    if items.len() == 0 {
        None
    } else {
        match items[0] {
            SpecDgInner::MapFn(p) => Some(p),
            _ => spec_first_map_in(items.drop_first()),
        }
    }
}

/// The first custom-map path among a field's attributes, if any.
pub open spec fn spec_field_map(attrs: Seq<SpecAttribute>) -> Option<SpecModPath>
    decreases attrs.len(),
{
    if attrs.len() == 0 {
        None
    } else {
        match spec_attr_map(attrs[0]) {
            Some(p) => Some(p),
            None => spec_field_map(attrs.drop_first()),
        }
    }
}

/// Whether one attribute is a `dg` attribute carrying an Ignore marker.
pub open spec fn spec_attr_has_ignore(a: SpecAttribute) -> bool {
    a.body matches SpecAttributeInner::Dg(items) && exists|j: int|
        0 <= j < items.len() && (#[trigger] items[j]) matches SpecDgInner::Ignore
}

/// Whether any `dg` attribute of the field carries an Ignore marker.
pub open spec fn spec_field_ignored(attrs: Seq<SpecAttribute>) -> bool {
    exists|i: int| 0 <= i < attrs.len() && spec_attr_has_ignore(#[trigger] attrs[i])
}

/// Whether one attribute is a `dg` attribute carrying an Ignore marker.
fn attr_has_ignore(a: &Attribute) -> (r: bool)
    ensures
        r == spec_attr_has_ignore(a@),
{
    match &a.body {
        AttributeInner::Dg(items) => {
            let ghost its = a@.body->Dg_0;
            let mut j: usize = 0;
            while j < items.len()
                invariant
                    j <= items@.len(),
                    a@.body matches SpecAttributeInner::Dg(x) && x == its,
                    its == crate::ast::views_of(items@),
                    forall|jj: int| 0 <= jj < j ==> !((#[trigger] its[jj]) matches
                    SpecDgInner::Ignore),
                decreases items@.len() - j,
            {
                match &items[j] {
                    DgInner::Ignore => {
                        proof {
                            assert(its[j as int] matches SpecDgInner::Ignore);
                        }
                        return true;
                    },
                    _ => {},
                }
                j += 1;
            }
            false
        },
        _ => false,
    }
}

/// The first custom-map path of one attribute, if it is a `dg` attribute.
pub open spec fn spec_attr_map(a: SpecAttribute) -> Option<SpecModPath> {
    match a.body {
        SpecAttributeInner::Dg(items) => spec_first_map_in(items),
        _ => None,
    }
}

fn attr_map(a: &Attribute) -> (r: Option<&ModPath>)
    ensures
        match r {
            Some(p) => spec_attr_map(a@) == Some(p@),
            None => spec_attr_map(a@) is None,
        },
{
    match &a.body {
        AttributeInner::Dg(items) => {
            let ghost its = a@.body->Dg_0;
            let mut j: usize = 0;
            proof {
                assert(its.skip(0) =~= its);
            }
            while j < items.len()
                invariant
                    j <= items@.len(),
                    a@.body matches SpecAttributeInner::Dg(x) && x == its,
                    its == crate::ast::views_of(items@),
                    spec_first_map_in(its) == spec_first_map_in(its.skip(j as int)),
                decreases items@.len() - j,
            {
                match &items[j] {
                    DgInner::MapFn(p) => {
                        proof {
                            assert(its.skip(j as int)[0] == its[j as int]);
                        }
                        return Some(p);
                    },
                    _ => {},
                }
                proof {
                    assert(its.skip(j as int).drop_first() =~= its.skip(j as int + 1));
                    assert(its.skip(j as int)[0] == its[j as int]);
                }
                j += 1;
            }
            proof {
                assert(its.skip(items@.len() as int) =~= Seq::<SpecDgInner>::empty());
            }
            None
        },
        _ => None,
    }
}

/// The first rename value of one attribute, if it is a `dg` attribute.
pub open spec fn spec_attr_rename(a: SpecAttribute) -> Option<Seq<char>> {
    match a.body {
        SpecAttributeInner::Dg(items) => spec_first_rename_in(items),
        _ => None,
    }
}

fn attr_rename(a: &Attribute) -> (r: Option<String>)
    ensures
        match r {
            Some(v) => spec_attr_rename(a@) == Some(v@),
            None => spec_attr_rename(a@) is None,
        },
{
    match &a.body {
        AttributeInner::Dg(items) => {
            let ghost its = a@.body->Dg_0;
            let mut j: usize = 0;
            proof {
                assert(its.skip(0) =~= its);
            }
            while j < items.len()
                invariant
                    j <= items@.len(),
                    a@.body matches SpecAttributeInner::Dg(x) && x == its,
                    its == crate::ast::views_of(items@),
                    spec_first_rename_in(its) == spec_first_rename_in(its.skip(j as int)),
                decreases items@.len() - j,
            {
                match &items[j] {
                    DgInner::Rename(v) => {
                        proof {
                            assert(its.skip(j as int)[0] == its[j as int]);
                        }
                        return Some(v.clone());
                    },
                    _ => {},
                }
                proof {
                    assert(its.skip(j as int).drop_first() =~= its.skip(j as int + 1));
                    assert(its.skip(j as int)[0] == its[j as int]);
                }
                j += 1;
            }
            proof {
                assert(its.skip(items@.len() as int) =~= Seq::<SpecDgInner>::empty());
            }
            None
        },
        _ => None,
    }
}

/// The first Direction entry of one attribute, if it is a `dg` attribute.
pub open spec fn spec_attr_direction(a: SpecAttribute) -> Option<SpecDgDirection> {
    match a.body {
        SpecAttributeInner::Dg(items) => spec_first_direction_in(items),
        _ => None,
    }
}

fn attr_direction(a: &Attribute) -> (r: Option<&DgDirection>)
    ensures
        match r {
            Some(d) => spec_attr_direction(a@) == Some(d@),
            None => spec_attr_direction(a@) is None,
        },
{
    match &a.body {
        AttributeInner::Dg(items) => {
            let ghost its = a@.body->Dg_0;
            let mut j: usize = 0;
            proof {
                assert(its.skip(0) =~= its);
            }
            while j < items.len()
                invariant
                    j <= items@.len(),
                    a@.body matches SpecAttributeInner::Dg(x) && x == its,
                    its == crate::ast::views_of(items@),
                    spec_first_direction_in(its) == spec_first_direction_in(its.skip(j as int)),
                decreases items@.len() - j,
            {
                match &items[j] {
                    DgInner::Direction(d) => {
                        proof {
                            assert(its.skip(j as int)[0] == its[j as int]);
                        }
                        return Some(d);
                    },
                    _ => {},
                }
                proof {
                    assert(its.skip(j as int).drop_first() =~= its.skip(j as int + 1));
                    assert(its.skip(j as int)[0] == its[j as int]);
                }
                j += 1;
            }
            proof {
                assert(its.skip(items@.len() as int) =~= Seq::<SpecDgInner>::empty());
            }
            None
        },
        _ => None,
    }
}

/// Determine whether a field carries an `ignore` directive and is therefore
/// excluded from the generated construction expression.
pub fn field_has_dg_ignore(field: &StructField) -> (r: bool)
    ensures
        r == spec_field_ignored(field@.attributes),
{
    let attrs = &field.attributes;
    let ghost av = field@.attributes;
    let mut i: usize = 0;
    while i < attrs.len()
        invariant
            i <= attrs@.len(),
            av == crate::ast::views_of(attrs@),
            av == field@.attributes,
            forall|ii: int| 0 <= ii < i ==> !spec_attr_has_ignore(#[trigger] av[ii]),
        decreases attrs@.len() - i,
    {
        if attr_has_ignore(&attrs[i]) {
            proof {
                assert(av[i as int] == attrs@[i as int]@);
                assert(spec_attr_has_ignore(av[i as int]));
            }
            return true;
        }
        i += 1;
    }
    false
}

/// Find the first custom-map path on a field, the directive that bypasses
/// the generic conversion capability.
pub fn field_has_dg_map(field: &StructField) -> (r: Option<&ModPath>)
    ensures
        match r {
            Some(p) => spec_field_map(field@.attributes) == Some(p@),
            None => spec_field_map(field@.attributes) is None,
        },
{
    let attrs = &field.attributes;
    let ghost av = field@.attributes;
    let mut i: usize = 0;
    proof {
        assert(av.skip(0) =~= av);
    }
    while i < attrs.len()
        invariant
            i <= attrs@.len(),
            av == crate::ast::views_of(attrs@),
            av == field@.attributes,
            spec_field_map(av) == spec_field_map(av.skip(i as int)),
        decreases attrs@.len() - i,
    {
        proof {
            assert(av.skip(i as int)[0] == av[i as int]);
        }
        match attr_map(&attrs[i]) {
            Some(p) => {
                proof {
                    assert(av[i as int] == attrs@[i as int]@);
                    assert(spec_field_map(av.skip(i as int)) == Some(p@));
                }
                return Some(p);
            },
            None => {},
        }
        proof {
            assert(av.skip(i as int).drop_first() =~= av.skip(i as int + 1));
        }
        i += 1;
    }
    proof {
        assert(av.skip(attrs@.len() as int) =~= Seq::<SpecAttribute>::empty());
    }
    None
}

/// Find the first `rename` value on a field: the counterpart field's name on
/// the other side of the conversion.
pub fn field_get_dg_rename(field: &StructField) -> (r: Option<String>)
    ensures
        match r {
            Some(v) => spec_field_rename(field@.attributes) == Some(v@),
            None => spec_field_rename(field@.attributes) is None,
        },
{
    let attrs = &field.attributes;
    let ghost av = field@.attributes;
    let mut i: usize = 0;
    proof {
        assert(av.skip(0) =~= av);
    }
    while i < attrs.len()
        invariant
            i <= attrs@.len(),
            av == crate::ast::views_of(attrs@),
            av == field@.attributes,
            spec_field_rename(av) == spec_field_rename(av.skip(i as int)),
        decreases attrs@.len() - i,
    {
        proof {
            assert(av.skip(i as int)[0] == av[i as int]);
        }
        match attr_rename(&attrs[i]) {
            Some(v) => {
                proof {
                    assert(av[i as int] == attrs@[i as int]@);
                    assert(spec_field_rename(av.skip(i as int)) == Some(v@));
                }
                return Some(v);
            },
            None => {},
        }
        proof {
            assert(av.skip(i as int).drop_first() =~= av.skip(i as int + 1));
        }
        i += 1;
    }
    proof {
        assert(av.skip(attrs@.len() as int) =~= Seq::<SpecAttribute>::empty());
    }
    None
}

/// Scan a struct's attributes for its mandatory Direction directive. There
/// is no silent default: a struct without one cannot be generated for.
pub fn resolve_direction(s: &Struct) -> (r: Option<&DgDirection>)
    ensures
        match r {
            Some(d) => spec_resolve_direction(s@.attributes) == Some(d@),
            None => spec_resolve_direction(s@.attributes) is None,
        },
{
    let attrs = &s.attributes;
    let ghost av = s@.attributes;
    let mut i: usize = 0;
    proof {
        assert(av.skip(0) =~= av);
    }
    while i < attrs.len()
        invariant
            i <= attrs@.len(),
            av == crate::ast::views_of(attrs@),
            av == s@.attributes,
            spec_resolve_direction(av) == spec_resolve_direction(av.skip(i as int)),
        decreases attrs@.len() - i,
    {
        proof {
            assert(av.skip(i as int)[0] == av[i as int]);
        }
        match attr_direction(&attrs[i]) {
            Some(d) => {
                proof {
                    assert(av[i as int] == attrs@[i as int]@);
                    assert(spec_resolve_direction(av.skip(i as int)) == Some(d@));
                }
                return Some(d);
            },
            None => {},
        }
        proof {
            assert(av.skip(i as int).drop_first() =~= av.skip(i as int + 1));
        }
        i += 1;
    }
    proof {
        assert(av.skip(attrs@.len() as int) =~= Seq::<SpecAttribute>::empty());
    }
    None
}

} // verus!
