//! Rendering of the generated implementation to source text. The spec
//! functions define the exact text; the executable renderer is proved to
//! produce it character for character.

use vstd::prelude::*;
use crate::ast::{ModPath, SpecModPath, TypeExpr, SpecTypeExpr, TypeArg, SpecTypeArg, GenericParam, SpecGenericParam, DgDirection, SpecDgDirection, views_of, type_args_view, lemma_type_args_view_elementwise};
use crate::gen::{GenExpr, SpecGenExpr, FieldAssign, SpecFieldAssign, GeneratedImpl, SpecGeneratedImpl};

verus! {

/// The separator-joined text of a path's segments.
pub open spec fn spec_join_segments(segs: Seq<Seq<char>>) -> Seq<char>
    decreases segs.len(),
{
    if segs.len() == 0 {
        Seq::empty()
    } else if segs.len() == 1 {
        segs[0]
    } else {
        spec_join_segments(segs.drop_last()) + "::"@ + segs.last()
    }
}

pub open spec fn spec_render_mod_path(m: SpecModPath) -> Seq<char> {
    if m.leading {
        "::"@ + spec_join_segments(m.segments)
    } else {
        spec_join_segments(m.segments)
    }
}

pub open spec fn spec_render_type_arg(a: SpecTypeArg) -> Seq<char>
    decreases a,
{
    match a {
        SpecTypeArg::Lifetime(n) => "'"@ + n,
        SpecTypeArg::Type(t) => spec_render_type_expr(t),
    }
}

pub open spec fn spec_join_type_args(args: Seq<SpecTypeArg>) -> Seq<char>
    decreases args,
{
    if args.len() == 0 {
        Seq::empty()
    } else if args.len() == 1 {
        spec_render_type_arg(args[0])
    } else {
        spec_join_type_args(args.drop_last()) + ", "@ + spec_render_type_arg(args.last())
    }
}

pub open spec fn spec_render_type_expr(t: SpecTypeExpr) -> Seq<char>
    decreases t,
{
    if t.args.len() == 0 {
        spec_render_mod_path(t.path)
    } else {
        spec_render_mod_path(t.path) + "<"@ + spec_join_type_args(t.args) + ">"@
    }
}

fn render_mod_path(m: &ModPath) -> (r: String)
    ensures
        r@ == spec_render_mod_path(m@),
{
    let mut out = String::new();
    if m.leading {
        out.append("::");
    }
    let mut i: usize = 0;
    proof {
        assert(m@.segments.take(0) =~= Seq::<Seq<char>>::empty());
    }
    while i < m.segments.len()
        invariant
            i <= m.segments@.len(),
            m@.segments == m.segments.deep_view(),
            out@ == (if m.leading {
                "::"@
            } else {
                Seq::<char>::empty()
            }) + spec_join_segments(m@.segments.take(i as int)),
        decreases m.segments@.len() - i,
    {
        if i > 0 {
            out.append("::");
        }
        out.append(m.segments[i].as_str());
        proof {
            assert(m@.segments.take(i as int + 1).drop_last() =~= m@.segments.take(i as int));
            assert(m@.segments.take(i as int + 1).last() == m@.segments[i as int]);
            assert(m@.segments[i as int] == m.segments@[i as int]@);
            if i == 0 {
                assert(out@ =~= (if m.leading {
                    "::"@
                } else {
                    Seq::<char>::empty()
                }) + spec_join_segments(m@.segments.take(1)));
            } else {
                assert(out@ =~= (if m.leading {
                    "::"@
                } else {
                    Seq::<char>::empty()
                }) + spec_join_segments(m@.segments.take(i as int + 1)));
            }
        }
        i += 1;
    }
    proof {
        assert(m@.segments.take(m.segments@.len() as int) =~= m@.segments);
        if !m.leading {
            assert(out@ =~= spec_render_mod_path(m@));
        }
    }
    out
}

fn render_type_arg(a: &TypeArg) -> (r: String)
    ensures
        r@ == spec_render_type_arg(a@),
    decreases *a,
{
    match a {
        TypeArg::Lifetime(n) => {
            let mut out = String::new();
            out.append("'");
            out.append(n.as_str());
            proof {
                assert(out@ =~= "'"@ + n@);
            }
            out
        },
        TypeArg::Type(t) => render_type_expr(t),
    }
}

fn render_type_expr(t: &TypeExpr) -> (r: String)
    ensures
        r@ == spec_render_type_expr(t@),
    decreases *t,
{
    let mut out = render_mod_path(&t.path);
    if t.args.len() == 0 {
        proof {
            assert(t@.args =~= Seq::<SpecTypeArg>::empty());
        }
        out
    } else {
        out.append("<");
        let ghost av = t@.args;
        let mut i: usize = 0;
        proof {
            lemma_type_args_view_elementwise(t.args@);
            assert(av.take(0) =~= Seq::<SpecTypeArg>::empty());
            assert(spec_join_type_args(av.take(0)) =~= Seq::<char>::empty());
            assert(out@ =~= spec_render_mod_path(t@.path) + "<"@ + spec_join_type_args(
                av.take(0),
            ));
        }
        while i < t.args.len()
            invariant
                i <= t.args@.len(),
                av == type_args_view(t.args@),
                av.len() == t.args@.len(),
                forall|k: int| 0 <= k < t.args@.len() ==> #[trigger] av[k] == t.args@[k]@,
                out@ == spec_render_mod_path(t@.path) + "<"@ + spec_join_type_args(
                    av.take(i as int),
                ),
            decreases t.args@.len() - i,
        {
            if i > 0 {
                out.append(", ");
            }
            let piece = render_type_arg(&t.args[i]);
            out.append(piece.as_str());
            proof {
                assert(av.take(i as int + 1).drop_last() =~= av.take(i as int));
                assert(av.take(i as int + 1).last() == av[i as int]);
                if i == 0 {
                    assert(out@ =~= spec_render_mod_path(t@.path) + "<"@ + spec_join_type_args(
                        av.take(1),
                    ));
                } else {
                    assert(out@ =~= spec_render_mod_path(t@.path) + "<"@ + spec_join_type_args(
                        av.take(i as int + 1),
                    ));
                }
            }
            i += 1;
        }
        out.append(">");
        proof {
            assert(av.take(t.args@.len() as int) =~= av);
            assert(out@ =~= spec_render_type_expr(t@));
        }
        out
    }
}


pub open spec fn spec_join_bounds(bs: Seq<SpecTypeExpr>) -> Seq<char>
    decreases bs,
{
    if bs.len() == 0 {
        Seq::empty()
    } else if bs.len() == 1 {
        spec_render_type_expr(bs[0])
    } else {
        spec_join_bounds(bs.drop_last()) + " + "@ + spec_render_type_expr(bs.last())
    }
}

pub open spec fn spec_render_generic_param(g: SpecGenericParam) -> Seq<char> {
    match g {
        SpecGenericParam::Lifetime { name } => "'"@ + name,
        SpecGenericParam::Type { name, bounds } => if bounds.len() == 0 {
            name
        } else {
            name + ": "@ + spec_join_bounds(bounds)
        },
        SpecGenericParam::Const { name, typ } => "const "@ + name + ": "@ + spec_render_type_expr(
            typ,
        ),
    }
}

/// The parameter's bare name, as it appears in the self type's argument
/// list.
pub open spec fn spec_render_generic_name(g: SpecGenericParam) -> Seq<char> {
    match g {
        SpecGenericParam::Lifetime { name } => "'"@ + name,
        SpecGenericParam::Type { name, .. } => name,
        SpecGenericParam::Const { name, .. } => name,
    }
}

pub open spec fn spec_join_params(gs: Seq<SpecGenericParam>) -> Seq<char>
    decreases gs.len(),
{
    if gs.len() == 0 {
        Seq::empty()
    } else if gs.len() == 1 {
        spec_render_generic_param(gs[0])
    } else {
        spec_join_params(gs.drop_last()) + ", "@ + spec_render_generic_param(gs.last())
    }
}

pub open spec fn spec_join_names(gs: Seq<SpecGenericParam>) -> Seq<char>
    decreases gs.len(),
{
    if gs.len() == 0 {
        Seq::empty()
    } else if gs.len() == 1 {
        spec_render_generic_name(gs[0])
    } else {
        spec_join_names(gs.drop_last()) + ", "@ + spec_render_generic_name(gs.last())
    }
}

/// The generated expression for one field: the capability call on the
/// field's declared type, or the custom map path called directly.
pub open spec fn spec_render_expr(e: SpecGenExpr) -> Seq<char> {
    match e {
        SpecGenExpr::MirrorCall { typ, source_field } => "<"@ + spec_render_type_expr(typ)
            + " as ::doppleganger::Mirror>::mirror(source."@ + source_field + ")"@,
        SpecGenExpr::MapCall { path, source_field } => spec_render_mod_path(path) + "(source."@
            + source_field + ")"@,
    }
}

pub open spec fn spec_render_assigns(assigns: Seq<SpecFieldAssign>) -> Seq<char>
    decreases assigns.len(),
{
    if assigns.len() == 0 {
        Seq::empty()
    } else {
        spec_render_assigns(assigns.drop_last()) + assigns.last().dest + ": "@ + spec_render_expr(
            assigns.last().expr,
        ) + ", "@
    }
}

/// The full generated declaration: one implementation of the conversion
/// capability, with the struct as source shape and the target path as
/// destination under Forward, and the reverse under Backward.
pub open spec fn spec_render_impl(g: SpecGeneratedImpl) -> Seq<char> {
    let params = if g.generics.len() == 0 {
        Seq::<char>::empty()
    } else {
        "<"@ + spec_join_params(g.generics) + "> "@
    };
    let names = if g.generics.len() == 0 {
        Seq::<char>::empty()
    } else {
        "<"@ + spec_join_names(g.generics) + ">"@
    };
    let target = match g.direction {
        SpecDgDirection::Forward { path } => spec_render_mod_path(path),
        SpecDgDirection::Backward { path } => spec_render_mod_path(path),
    };
    let source_shape = if g.direction matches SpecDgDirection::Forward { .. } {
        "Self"@
    } else {
        target
    };
    let dest_shape = if g.direction matches SpecDgDirection::Forward { .. } {
        target
    } else {
        "Self"@
    };
    let ctor = if g.direction matches SpecDgDirection::Forward { .. } {
        "Self::Dest"@
    } else {
        "Self"@
    };
    "impl "@ + params + "::doppleganger::Mirror for "@ + g.self_name + names
        + " { type Source = "@ + source_shape + "; type Dest = "@ + dest_shape
        + "; fn mirror(source: Self::Source) -> Self::Dest { "@ + ctor + " { "@
        + spec_render_assigns(g.assigns) + "} } }"@
}

fn render_generic_param(g: &GenericParam) -> (r: String)
    ensures
        r@ == spec_render_generic_param(g@),
{
    match g {
        GenericParam::Lifetime { name } => {
            let mut out = String::new();
            out.append("'");
            out.append(name.as_str());
            proof {
                assert(out@ =~= "'"@ + name@);
            }
            out
        },
        GenericParam::Type { name, bounds } => {
            let mut out = String::new();
            out.append(name.as_str());
            if bounds.len() == 0 {
                proof {
                    assert(views_of(bounds@) =~= Seq::<SpecTypeExpr>::empty());
                    assert(out@ =~= name@);
                }
                out
            } else {
                out.append(": ");
                let ghost bv = views_of(bounds@);
                let mut i: usize = 0;
                proof {
                    assert(bv.take(0) =~= Seq::<SpecTypeExpr>::empty());
                    assert(out@ =~= name@ + ": "@ + spec_join_bounds(bv.take(0)));
                }
                while i < bounds.len()
                    invariant
                        i <= bounds@.len(),
                        bv == views_of(bounds@),
                        out@ == name@ + ": "@ + spec_join_bounds(bv.take(i as int)),
                    decreases bounds@.len() - i,
                {
                    if i > 0 {
                        out.append(" + ");
                    }
                    let piece = render_type_expr(&bounds[i]);
                    out.append(piece.as_str());
                    proof {
                        assert(bv.take(i as int + 1).drop_last() =~= bv.take(i as int));
                        assert(bv.take(i as int + 1).last() == bv[i as int]);
                        assert(bv[i as int] == bounds@[i as int]@);
                        if i == 0 {
                            assert(out@ =~= name@ + ": "@ + spec_join_bounds(bv.take(1)));
                        } else {
                            assert(out@ =~= name@ + ": "@ + spec_join_bounds(
                                bv.take(i as int + 1),
                            ));
                        }
                    }
                    i += 1;
                }
                proof {
                    assert(bv.take(bounds@.len() as int) =~= bv);
                }
                out
            }
        },
        GenericParam::Const { name, typ } => {
            let mut out = String::new();
            out.append("const ");
            out.append(name.as_str());
            out.append(": ");
            let piece = render_type_expr(typ);
            out.append(piece.as_str());
            proof {
                assert(out@ =~= "const "@ + name@ + ": "@ + spec_render_type_expr(typ@));
            }
            out
        },
    }
}

fn render_generic_name(g: &GenericParam) -> (r: String)
    ensures
        r@ == spec_render_generic_name(g@),
{
    match g {
        GenericParam::Lifetime { name } => {
            let mut out = String::new();
            out.append("'");
            out.append(name.as_str());
            proof {
                assert(out@ =~= "'"@ + name@);
            }
            out
        },
        GenericParam::Type { name, .. } => name.clone(),
        GenericParam::Const { name, .. } => name.clone(),
    }
}

fn render_expr(e: &GenExpr) -> (r: String)
    ensures
        r@ == spec_render_expr(e@),
{
    match e {
        GenExpr::MirrorCall { typ, source_field } => {
            let mut out = String::new();
            out.append("<");
            let piece = render_type_expr(typ);
            out.append(piece.as_str());
            out.append(" as ::doppleganger::Mirror>::mirror(source.");
            out.append(source_field.as_str());
            out.append(")");
            proof {
                assert(out@ =~= spec_render_expr(e@));
            }
            out
        },
        GenExpr::MapCall { path, source_field } => {
            let mut out = render_mod_path(path);
            out.append("(source.");
            out.append(source_field.as_str());
            out.append(")");
            proof {
                assert(out@ =~= spec_render_expr(e@));
            }
            out
        },
    }
}

/// Render the generated implementation as source text.
pub fn render_impl(g: &GeneratedImpl) -> (r: String)
    ensures
        r@ == spec_render_impl(g@),
{
    let mut out = String::new();
    out.append("impl ");
    let ghost gv = views_of(g.generics@);
    if g.generics.len() > 0 {
        out.append("<");
        let mut i: usize = 0;
        proof {
            assert(gv.take(0) =~= Seq::<SpecGenericParam>::empty());
            assert(out@ =~= "impl "@ + "<"@ + spec_join_params(gv.take(0)));
        }
        while i < g.generics.len()
            invariant
                i <= g.generics@.len(),
                gv == views_of(g.generics@),
                out@ == "impl "@ + "<"@ + spec_join_params(gv.take(i as int)),
            decreases g.generics@.len() - i,
        {
            if i > 0 {
                out.append(", ");
            }
            let piece = render_generic_param(&g.generics[i]);
            out.append(piece.as_str());
            proof {
                assert(gv.take(i as int + 1).drop_last() =~= gv.take(i as int));
                assert(gv.take(i as int + 1).last() == gv[i as int]);
                assert(gv[i as int] == g.generics@[i as int]@);
                if i == 0 {
                    assert(out@ =~= "impl "@ + "<"@ + spec_join_params(gv.take(1)));
                } else {
                    assert(out@ =~= "impl "@ + "<"@ + spec_join_params(gv.take(i as int + 1)));
                }
            }
            i += 1;
        }
        out.append("> ");
        proof {
            assert(gv.take(g.generics@.len() as int) =~= gv);
        }
    }
    out.append("::doppleganger::Mirror for ");
    out.append(g.self_name.as_str());
    if g.generics.len() > 0 {
        out.append("<");
        let ghost mid = out@;
        let mut i: usize = 0;
        proof {
            assert(gv.take(0) =~= Seq::<SpecGenericParam>::empty());
            assert(out@ =~= mid + spec_join_names(gv.take(0)));
        }
        while i < g.generics.len()
            invariant
                i <= g.generics@.len(),
                gv == views_of(g.generics@),
                out@ == mid + spec_join_names(gv.take(i as int)),
            decreases g.generics@.len() - i,
        {
            if i > 0 {
                out.append(", ");
            }
            let piece = render_generic_name(&g.generics[i]);
            out.append(piece.as_str());
            proof {
                assert(gv.take(i as int + 1).drop_last() =~= gv.take(i as int));
                assert(gv.take(i as int + 1).last() == gv[i as int]);
                assert(gv[i as int] == g.generics@[i as int]@);
                if i == 0 {
                    assert(out@ =~= mid + spec_join_names(gv.take(1)));
                } else {
                    assert(out@ =~= mid + spec_join_names(gv.take(i as int + 1)));
                }
            }
            i += 1;
        }
        out.append(">");
        proof {
            assert(gv.take(g.generics@.len() as int) =~= gv);
        }
    }
    out.append(" { type Source = ");
    let forward = match &g.direction {
        DgDirection::Forward { .. } => true,
        DgDirection::Backward { .. } => false,
    };
    let target = match &g.direction {
        DgDirection::Forward { path } => render_mod_path(path),
        DgDirection::Backward { path } => render_mod_path(path),
    };
    if forward {
        out.append("Self");
    } else {
        out.append(target.as_str());
    }
    out.append("; type Dest = ");
    if forward {
        out.append(target.as_str());
    } else {
        out.append("Self");
    }
    out.append("; fn mirror(source: Self::Source) -> Self::Dest { ");
    if forward {
        out.append("Self::Dest");
    } else {
        out.append("Self");
    }
    out.append(" { ");
    let ghost mid2 = out@;
    let ghost av = views_of(g.assigns@);
    let mut i: usize = 0;
    proof {
        assert(av.take(0) =~= Seq::<SpecFieldAssign>::empty());
        assert(out@ =~= mid2 + spec_render_assigns(av.take(0)));
    }
    while i < g.assigns.len()
        invariant
            i <= g.assigns@.len(),
            av == views_of(g.assigns@),
            out@ == mid2 + spec_render_assigns(av.take(i as int)),
        decreases g.assigns@.len() - i,
    {
        let a = &g.assigns[i];
        out.append(a.dest.as_str());
        out.append(": ");
        let piece = render_expr(&a.expr);
        out.append(piece.as_str());
        out.append(", ");
        proof {
            assert(av.take(i as int + 1).drop_last() =~= av.take(i as int));
            assert(av.take(i as int + 1).last() == av[i as int]);
            assert(av[i as int] == g.assigns@[i as int]@);
            assert(out@ =~= mid2 + spec_render_assigns(av.take(i as int + 1)));
        }
        i += 1;
    }
    out.append("} } }");
    proof {
        assert(av.take(g.assigns@.len() as int) =~= av);
        assert(out@ =~= spec_render_impl(g@));
    }
    out
}

} // verus!
