//! The transformation generator: given a parsed struct and its resolved
//! Direction, emit the structured description of the conversion routine.
//! Per non-ignored field, in declaration order, the destination field is
//! assigned either the generic recursive conversion of the source field or,
//! when a custom map path is present, a direct call of that path on the
//! source field, which bypasses the generic capability in both directions.

use vstd::prelude::*;
use crate::token::Token;
use crate::ast::{ModPath, SpecModPath, TypeExpr, SpecTypeExpr, TypeArg, SpecTypeArg, type_args_view, GenericParam, SpecGenericParam, DgDirection, SpecDgDirection, StructField, SpecStructField, StructKind, SpecStructKind, Struct, SpecStruct, AdtDecl, SpecAdtDecl, views_of, lemma_views_of_push, lemma_views_of_empty};
use crate::directive::{spec_field_ignored, spec_field_rename, spec_field_map, spec_resolve_direction, field_has_dg_ignore, field_get_dg_rename, field_has_dg_map, resolve_direction};
use crate::parse::{ParseError, parse_decl, spec_parse_decl};

verus! {

broadcast use {lemma_views_of_push, lemma_views_of_empty, vstd::std_specs::vec::group_vec_axioms};

/// One generated field expression: the generic conversion capability applied
/// to the source field, or a custom map path called on it directly.
#[derive(Debug)]
pub enum GenExpr {
    MirrorCall { typ: TypeExpr, source_field: String },
    MapCall { path: ModPath, source_field: String },
}

pub enum SpecGenExpr {
    MirrorCall { typ: SpecTypeExpr, source_field: Seq<char> },
    MapCall { path: SpecModPath, source_field: Seq<char> },
}

impl View for GenExpr {
    type V = SpecGenExpr;

    open spec fn view(&self) -> SpecGenExpr {
        match *self {
            GenExpr::MirrorCall { typ, source_field } => SpecGenExpr::MirrorCall {
                typ: typ@,
                source_field: source_field@,
            },
            GenExpr::MapCall { path, source_field } => SpecGenExpr::MapCall {
                path: path@,
                source_field: source_field@,
            },
        }
    }
}

/// One line of the generated construction expression: destination field
/// name and the expression assigned to it.
#[derive(Debug)]
pub struct FieldAssign {
    pub dest: String,
    pub expr: GenExpr,
}

pub struct SpecFieldAssign {
    pub dest: Seq<char>,
    pub expr: SpecGenExpr,
}

impl View for FieldAssign {
    type V = SpecFieldAssign;

    open spec fn view(&self) -> SpecFieldAssign {
        SpecFieldAssign { dest: self.dest@, expr: self.expr@ }
    }
}

/// The generated declaration: one implementation of the conversion
/// capability for the named struct, with its generic parameters carried
/// through unchanged. Under Forward the struct is the source shape and the
/// direction's target path the destination; under Backward the reverse.
#[derive(Debug)]
pub struct GeneratedImpl {
    pub generics: Vec<GenericParam>,
    pub self_name: String,
    pub direction: DgDirection,
    pub assigns: Vec<FieldAssign>,
}

pub struct SpecGeneratedImpl {
    pub generics: Seq<SpecGenericParam>,
    pub self_name: Seq<char>,
    pub direction: SpecDgDirection,
    pub assigns: Seq<SpecFieldAssign>,
}

impl View for GeneratedImpl {
    type V = SpecGeneratedImpl;

    open spec fn view(&self) -> SpecGeneratedImpl {
        SpecGeneratedImpl {
            generics: views_of(self.generics@),
            self_name: self.self_name@,
            direction: self.direction@,
            assigns: views_of(self.assigns@),
        }
    }
}

/// A structurally valid declaration that the generator must reject.
#[derive(Clone, Copy, PartialEq, Eq, Structural, Debug)]
pub enum ConfigError {
    MissingDirection,
    UnsupportedTupleStruct,
    UnsupportedUnitStruct,
    UnimplementedEnum,
}

/// Everything that can end a generation run: a malformed declaration or a
/// structurally valid one with an unusable configuration.
#[derive(Debug)]
pub enum DgError {
    Parse(ParseError),
    Config(ConfigError),
}

impl ConfigError {
    /// The diagnostic text of this configuration error.
    pub fn message(&self) -> (r: String)
        ensures
            match *self {
                ConfigError::MissingDirection => r@ ==
                    "Missing #[dg(forward = ...)] or #[dg(backward = ...)] attribute on struct"@,
                ConfigError::UnsupportedTupleStruct => r@ == "Tuple structs not yet supported"@,
                ConfigError::UnsupportedUnitStruct => r@ == "Unit structs not yet supported"@,
                ConfigError::UnimplementedEnum => r@ ==
                    "Enum declarations are not yet implemented"@,
            },
    {
        match self {
            ConfigError::MissingDirection => "Missing #[dg(forward = ...)] or #[dg(backward = ...)] attribute on struct".to_owned(),
            ConfigError::UnsupportedTupleStruct => "Tuple structs not yet supported".to_owned(),
            ConfigError::UnsupportedUnitStruct => "Unit structs not yet supported".to_owned(),
            ConfigError::UnimplementedEnum => "Enum declarations are not yet implemented".to_owned(),
        }
    }
}

pub open spec fn spec_is_forward(d: SpecDgDirection) -> bool {
    d matches SpecDgDirection::Forward { .. }
}

/// The source field name: the declared name under Forward; under Backward
/// the rename value if present, else the declared name.
pub open spec fn spec_source_name(f: SpecStructField, forward: bool) -> Seq<char> {
    if forward {
        f.name
    } else {
        match spec_field_rename(f.attributes) {
            Some(r) => r,
            None => f.name,
        }
    }
}

/// The destination field name: under Forward the rename value if present,
/// else the declared name; the declared name under Backward.
pub open spec fn spec_dest_name(f: SpecStructField, forward: bool) -> Seq<char> {
    if forward {
        match spec_field_rename(f.attributes) {
            Some(r) => r,
            None => f.name,
        }
    } else {
        f.name
    }
}

/// The assignment generated for one non-ignored field: a custom map call if
/// a map directive is present, else the generic conversion of the field's
/// declared type.
pub open spec fn spec_assign_of(f: SpecStructField, forward: bool) -> SpecFieldAssign {
    SpecFieldAssign {
        dest: spec_dest_name(f, forward),
        expr: match spec_field_map(f.attributes) {
            Some(p) => SpecGenExpr::MapCall { path: p, source_field: spec_source_name(f, forward) },
            None => SpecGenExpr::MirrorCall {
                typ: f.typ,
                source_field: spec_source_name(f, forward),
            },
        },
    }
}

/// The generated construction list: one assignment per non-ignored field,
/// in declaration order.
pub open spec fn spec_gen_assigns(fields: Seq<SpecStructField>, forward: bool) -> Seq<
    SpecFieldAssign,
>
    decreases fields.len(),
{
    if fields.len() == 0 {
        Seq::empty()
    } else {
        let rest = spec_gen_assigns(fields.drop_last(), forward);
        if spec_field_ignored(fields.last().attributes) {
            rest
        } else {
            rest.push(spec_assign_of(fields.last(), forward))
        }
    }
}

/// What the generator produces for a parsed struct: its conversion
/// implementation, or the exact configuration error that stops it. The
/// Direction is resolved first; a missing Direction is reported even for a
/// struct whose kind would also be rejected.
pub open spec fn spec_process_struct(s: SpecStruct) -> Result<SpecGeneratedImpl, ConfigError> {
    match spec_resolve_direction(s.attributes) {
        None => Err(ConfigError::MissingDirection),
        Some(d) => match s.kind {
            SpecStructKind::Struct { fields } => Ok(
                SpecGeneratedImpl {
                    generics: match s.generics {
                        Some(g) => g,
                        None => Seq::empty(),
                    },
                    self_name: s.name,
                    direction: d,
                    assigns: spec_gen_assigns(fields, spec_is_forward(d)),
                },
            ),
            SpecStructKind::TupleStruct { .. } => Err(ConfigError::UnsupportedTupleStruct),
            SpecStructKind::UnitStruct => Err(ConfigError::UnsupportedUnitStruct),
        },
    }
}

fn clone_mod_path(m: &ModPath) -> (r: ModPath)
    ensures
        r@ == m@,
{
    let mut segments: Vec<String> = Vec::new();
    let mut i: usize = 0;
    while i < m.segments.len()
        invariant
            i <= m.segments@.len(),
            segments@.len() == i,
            forall|k: int| 0 <= k < i ==> #[trigger] segments@[k]@ == m.segments@[k]@,
        decreases m.segments@.len() - i,
    {
        segments.push(m.segments[i].clone());
        i += 1;
    }
    let r = ModPath { leading: m.leading, segments };
    proof {
        assert(r@.segments =~= m@.segments);
    }
    r
}

fn clone_type_arg(a: &TypeArg) -> (r: TypeArg)
    ensures
        r@ == a@,
    decreases *a,
{
    match a {
        TypeArg::Lifetime(n) => TypeArg::Lifetime(n.clone()),
        TypeArg::Type(t) => TypeArg::Type(clone_type_expr(t)),
    }
}

fn clone_type_expr(t: &TypeExpr) -> (r: TypeExpr)
    ensures
        r@ == t@,
    decreases *t,
{
    let path = clone_mod_path(&t.path);
    let mut args: Vec<TypeArg> = Vec::new();
    let mut i: usize = 0;
    while i < t.args.len()
        invariant
            i <= t.args@.len(),
            args@.len() == i,
            forall|k: int| 0 <= k < i ==> #[trigger] args@[k]@ == t.args@[k]@,
        decreases t.args@.len() - i,
    {
        args.push(clone_type_arg(&t.args[i]));
        i += 1;
    }
    let r = TypeExpr { path, args };
    proof {
        lemma_type_args_view_pointwise(r.args@, t.args@);
    }
    r
}

/// Two argument lists with pointwise equal views have equal views.
proof fn lemma_type_args_view_pointwise(a: Seq<TypeArg>, b: Seq<TypeArg>)
    requires
        a.len() == b.len(),
        forall|k: int| 0 <= k < a.len() ==> #[trigger] a[k]@ == b[k]@,
    ensures
        type_args_view(a) == type_args_view(b),
    decreases a.len(),
{
    if a.len() > 0 {
        lemma_type_args_view_pointwise(a.drop_last(), b.drop_last());
        assert(a.last()@ == b.last()@);
        assert(type_args_view(a) =~= type_args_view(b));
    } else {
        assert(type_args_view(a) =~= type_args_view(b));
    }
}

fn clone_generic_param(g: &GenericParam) -> (r: GenericParam)
    ensures
        r@ == g@,
{
    match g {
        GenericParam::Lifetime { name } => GenericParam::Lifetime { name: name.clone() },
        GenericParam::Type { name, bounds } => {
            let mut bs: Vec<TypeExpr> = Vec::new();
            let mut i: usize = 0;
            while i < bounds.len()
                invariant
                    i <= bounds@.len(),
                    bs@.len() == i,
                    forall|k: int| 0 <= k < i ==> #[trigger] bs@[k]@ == bounds@[k]@,
                decreases bounds@.len() - i,
            {
                bs.push(clone_type_expr(&bounds[i]));
                i += 1;
            }
            let r = GenericParam::Type { name: name.clone(), bounds: bs };
            proof {
                assert(views_of(r->Type_bounds@) =~= views_of(bounds@));
            }
            r
        },
        GenericParam::Const { name, typ } => GenericParam::Const {
            name: name.clone(),
            typ: clone_type_expr(typ),
        },
    }
}

fn clone_direction(d: &DgDirection) -> (r: DgDirection)
    ensures
        r@ == d@,
{
    match d {
        DgDirection::Forward { path } => DgDirection::Forward { path: clone_mod_path(path) },
        DgDirection::Backward { path } => DgDirection::Backward { path: clone_mod_path(path) },
    }
}

/// Generate the conversion implementation for a parsed struct, or report
/// exactly why it cannot be generated: a missing Direction directive, or an
/// unsupported struct kind.
pub fn process_struct(s: &Struct) -> (r: Result<GeneratedImpl, ConfigError>)
    ensures
        match r {
            Ok(g) => spec_process_struct(s@) == Ok::<SpecGeneratedImpl, ConfigError>(g@),
            Err(e) => spec_process_struct(s@) == Err::<SpecGeneratedImpl, ConfigError>(e),
        },
{
    let direction = match resolve_direction(s) {
        Some(d) => clone_direction(d),
        None => {
            return Err(ConfigError::MissingDirection);
        },
    };
    let forward = match &direction {
        DgDirection::Forward { .. } => true,
        DgDirection::Backward { .. } => false,
    };
    let fields = match &s.kind {
        StructKind::Struct { fields } => fields,
        StructKind::TupleStruct { .. } => {
            return Err(ConfigError::UnsupportedTupleStruct);
        },
        StructKind::UnitStruct => {
            return Err(ConfigError::UnsupportedUnitStruct);
        },
    };
    let ghost fv = s@.kind->Struct_fields;
    let mut assigns: Vec<FieldAssign> = Vec::new();
    let mut i: usize = 0;
    proof {
        assert(fv.take(0) =~= Seq::<SpecStructField>::empty());
        assert(views_of(assigns@) =~= Seq::<SpecFieldAssign>::empty());
    }
    while i < fields.len()
        invariant
            i <= fields@.len(),
            fv == views_of(fields@),
            views_of(assigns@) == spec_gen_assigns(fv.take(i as int), forward),
        decreases fields@.len() - i,
    {
        let f = &fields[i];
        proof {
            assert(fv[i as int] == fields@[i as int]@);
            assert(fv.take(i as int + 1).drop_last() =~= fv.take(i as int));
            assert(fv.take(i as int + 1).last() == fv[i as int]);
        }
        if !field_has_dg_ignore(f) {
            let rename = field_get_dg_rename(f);
            let (source_field, dest) = if forward {
                let d = match rename {
                    Some(r) => r,
                    None => f.name.clone(),
                };
                (f.name.clone(), d)
            } else {
                let sfn = match rename {
                    Some(r) => r,
                    None => f.name.clone(),
                };
                (sfn, f.name.clone())
            };
            let expr = match field_has_dg_map(f) {
                Some(p) => GenExpr::MapCall { path: clone_mod_path(p), source_field },
                None => GenExpr::MirrorCall { typ: clone_type_expr(&f.typ), source_field },
            };
            let assign = FieldAssign { dest, expr };
            proof {
                assert(assign@ == spec_assign_of(fv[i as int], forward));
            }
            assigns.push(assign);
        }
        i += 1;
    }
    proof {
        assert(fv.take(fields@.len() as int) =~= fv);
    }
    let generics = match &s.generics {
        Some(gs) => {
            let mut v: Vec<GenericParam> = Vec::new();
            let mut k: usize = 0;
            while k < gs.len()
                invariant
                    k <= gs@.len(),
                    v@.len() == k,
                    forall|j: int| 0 <= j < k ==> #[trigger] v@[j]@ == gs@[j]@,
                decreases gs@.len() - k,
            {
                v.push(clone_generic_param(&gs[k]));
                k += 1;
            }
            proof {
                assert(views_of(v@) =~= views_of(gs@));
            }
            v
        },
        None => {
            let v: Vec<GenericParam> = Vec::new();
            proof {
                assert(views_of(v@) =~= Seq::<SpecGenericParam>::empty());
            }
            v
        },
    };
    let g = GeneratedImpl { generics, self_name: s.name.clone(), direction, assigns };
    Ok(g)
}

/// The whole pipeline on one declaration's token stream: parse exactly one
/// algebraic-datatype declaration, reject what the generator does not
/// support, and emit the conversion implementation for a struct.
pub fn dg_macros(ts: &Vec<Token>) -> (r: Result<GeneratedImpl, DgError>)
    ensures
        match r {
            Ok(g) => {
                &&& spec_parse_decl(ts@) matches Some(SpecAdtDecl::Struct(sv))
                &&& spec_process_struct(sv) == Ok::<SpecGeneratedImpl, ConfigError>(g@)
            },
            Err(e) => match e {
                DgError::Parse(_) => spec_parse_decl(ts@) is None,
                DgError::Config(c) => match spec_parse_decl(ts@) {
                    Some(SpecAdtDecl::Struct(sv)) => spec_process_struct(sv) == Err::<
                        SpecGeneratedImpl,
                        ConfigError,
                    >(c),
                    Some(SpecAdtDecl::Enum(_)) => c == ConfigError::UnimplementedEnum,
                    None => false,
                },
            },
        },
{
    match parse_decl(ts) {
        Ok(AdtDecl::Struct(s)) => match process_struct(&s) {
            Ok(g) => Ok(g),
            Err(c) => Err(DgError::Config(c)),
        },
        Ok(AdtDecl::Enum(_)) => Err(DgError::Config(ConfigError::UnimplementedEnum)),
        Err(e) => Err(DgError::Parse(e)),
    }
}

} // verus!
