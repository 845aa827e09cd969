//! The typed syntax tree that the parser produces, together with its
//! mathematical model: each node has a spec-level counterpart over `Seq` and
//! `Seq<char>`, reached through `View`.

use vstd::prelude::*;

verus! {

/// A possibly-qualified type or function name: an optional leading `::`
/// marker and a non-empty ordered list of identifier segments.
#[derive(Debug)]
pub struct ModPath {
    pub leading: bool,
    pub segments: Vec<String>,
}

pub struct SpecModPath {
    pub leading: bool,
    pub segments: Seq<Seq<char>>,
}

impl View for ModPath {
    type V = SpecModPath;

    open spec fn view(&self) -> SpecModPath {
        SpecModPath { leading: self.leading, segments: self.segments.deep_view() }
    }
}

/// One argument inside the angle brackets of a type expression.
#[derive(Debug)]
pub enum TypeArg {
    Lifetime(String),
    Type(TypeExpr),
}

/// A parsed type expression: a module path with optional generic arguments.
#[derive(Debug)]
pub struct TypeExpr {
    pub path: ModPath,
    pub args: Vec<TypeArg>,
}

pub enum SpecTypeArg {
    Lifetime(Seq<char>),
    Type(SpecTypeExpr),
}

pub struct SpecTypeExpr {
    pub path: SpecModPath,
    pub args: Seq<SpecTypeArg>,
}

pub open spec fn type_arg_view(a: TypeArg) -> SpecTypeArg
    decreases a,
{
    match a {
        TypeArg::Lifetime(n) => SpecTypeArg::Lifetime(n@),
        TypeArg::Type(t) => SpecTypeArg::Type(type_expr_view(t)),
    }
}

pub open spec fn type_args_view(s: Seq<TypeArg>) -> Seq<SpecTypeArg>
    decreases s,
{
    if s.len() == 0 {
        Seq::empty()
    } else {
        type_args_view(s.drop_last()).push(type_arg_view(s.last()))
    }
}

pub open spec fn type_expr_view(t: TypeExpr) -> SpecTypeExpr
    decreases t,
{
    SpecTypeExpr { path: t.path@, args: type_args_view(t.args@) }
}

/// `type_args_view` is the elementwise view.
pub proof fn lemma_type_args_view_elementwise(s: Seq<TypeArg>)
    ensures
        type_args_view(s).len() == s.len(),
        forall|k: int| 0 <= k < s.len() ==> #[trigger] type_args_view(s)[k] == type_arg_view(s[k]),
    decreases s.len(),
{
    if s.len() > 0 {
        lemma_type_args_view_elementwise(s.drop_last());
    }
}

impl View for TypeArg {
    type V = SpecTypeArg;

    open spec fn view(&self) -> SpecTypeArg {
        type_arg_view(*self)
    }
}

impl View for TypeExpr {
    type V = SpecTypeExpr;

    open spec fn view(&self) -> SpecTypeExpr {
        type_expr_view(*self)
    }
}

/// The views of a sequence's elements, in order.
pub open spec fn views_of<T: View>(s: Seq<T>) -> Seq<T::V> {
    Seq::new(s.len(), |i: int| s[i]@)
}

pub broadcast proof fn lemma_views_of_push<T: View>(s: Seq<T>, x: T)
    ensures
        #[trigger] views_of(s.push(x)) == views_of(s).push(x@),
{
    assert(views_of(s.push(x)) =~= views_of(s).push(x@));
}

pub broadcast proof fn lemma_views_of_empty<T: View>(s: Seq<T>)
    requires
        s.len() == 0,
    ensures
        #[trigger] views_of(s) == Seq::<T::V>::empty(),
{
    assert(views_of(s) =~= Seq::<T::V>::empty());
}

/// One generic parameter of a struct declaration.
#[derive(Debug)]
pub enum GenericParam {
    Lifetime { name: String },
    Type { name: String, bounds: Vec<TypeExpr> },
    Const { name: String, typ: TypeExpr },
}

pub enum SpecGenericParam {
    Lifetime { name: Seq<char> },
    Type { name: Seq<char>, bounds: Seq<SpecTypeExpr> },
    Const { name: Seq<char>, typ: SpecTypeExpr },
}

impl View for GenericParam {
    type V = SpecGenericParam;

    open spec fn view(&self) -> SpecGenericParam {
        match *self {
            GenericParam::Lifetime { name } => SpecGenericParam::Lifetime { name: name@ },
            GenericParam::Type { name, bounds } => SpecGenericParam::Type {
                name: name@,
                bounds: views_of(bounds@),
            },
            GenericParam::Const { name, typ } => SpecGenericParam::Const {
                name: name@,
                typ: typ@,
            },
        }
    }
}

/// Which of the two related types is the source and which the destination.
#[derive(Debug)]
pub enum DgDirection {
    Forward { path: ModPath },
    Backward { path: ModPath },
}

pub enum SpecDgDirection {
    Forward { path: SpecModPath },
    Backward { path: SpecModPath },
}

impl View for DgDirection {
    type V = SpecDgDirection;

    open spec fn view(&self) -> SpecDgDirection {
        match *self {
            DgDirection::Forward { path } => SpecDgDirection::Forward { path: path@ },
            DgDirection::Backward { path } => SpecDgDirection::Backward { path: path@ },
        }
    }
}

/// One entry inside the body of a `dg` attribute.
#[derive(Debug)]
pub enum DgInner {
    Direction(DgDirection),
    Rename(String),
    Ignore,
    MapFn(ModPath),
}

pub enum SpecDgInner {
    Direction(SpecDgDirection),
    Rename(Seq<char>),
    Ignore,
    MapFn(SpecModPath),
}

impl View for DgInner {
    type V = SpecDgInner;

    open spec fn view(&self) -> SpecDgInner {
        match *self {
            DgInner::Direction(d) => SpecDgInner::Direction(d@),
            DgInner::Rename(s) => SpecDgInner::Rename(s@),
            DgInner::Ignore => SpecDgInner::Ignore,
            DgInner::MapFn(p) => SpecDgInner::MapFn(p@),
        }
    }
}

/// The interpreted body of an attribute: a documentation string, a list of
/// mapping directives, or an unrecognized attribute left uninterpreted.
#[derive(Debug)]
pub enum AttributeInner {
    Doc(String),
    Dg(Vec<DgInner>),
    Other,
}

pub enum SpecAttributeInner {
    Doc(Seq<char>),
    Dg(Seq<SpecDgInner>),
    Other,
}

impl View for AttributeInner {
    type V = SpecAttributeInner;

    open spec fn view(&self) -> SpecAttributeInner {
        match *self {
            AttributeInner::Doc(s) => SpecAttributeInner::Doc(s@),
            AttributeInner::Dg(v) => SpecAttributeInner::Dg(views_of(v@)),
            AttributeInner::Other => SpecAttributeInner::Other,
        }
    }
}

/// One attribute: its name and its interpreted body.
#[derive(Debug)]
pub struct Attribute {
    pub name: String,
    pub body: AttributeInner,
}

pub struct SpecAttribute {
    pub name: Seq<char>,
    pub body: SpecAttributeInner,
}

impl View for Attribute {
    type V = SpecAttribute;

    open spec fn view(&self) -> SpecAttribute {
        SpecAttribute { name: self.name@, body: self.body@ }
    }
}

/// One named field of a struct declaration.
#[derive(Debug)]
pub struct StructField {
    pub name: String,
    pub typ: TypeExpr,
    pub attributes: Vec<Attribute>,
}

pub struct SpecStructField {
    pub name: Seq<char>,
    pub typ: SpecTypeExpr,
    pub attributes: Seq<SpecAttribute>,
}

impl View for StructField {
    type V = SpecStructField;

    open spec fn view(&self) -> SpecStructField {
        SpecStructField {
            name: self.name@,
            typ: self.typ@,
            attributes: views_of(self.attributes@),
        }
    }
}

/// The shape of a struct declaration's body.
#[derive(Debug)]
pub enum StructKind {
    Struct { fields: Vec<StructField> },
    TupleStruct { types: Vec<TypeExpr> },
    UnitStruct,
}

pub enum SpecStructKind {
    Struct { fields: Seq<SpecStructField> },
    TupleStruct { types: Seq<SpecTypeExpr> },
    UnitStruct,
}

impl View for StructKind {
    type V = SpecStructKind;

    open spec fn view(&self) -> SpecStructKind {
        match *self {
            StructKind::Struct { fields } => SpecStructKind::Struct { fields: views_of(fields@) },
            StructKind::TupleStruct { types } => SpecStructKind::TupleStruct {
                types: views_of(types@),
            },
            StructKind::UnitStruct => SpecStructKind::UnitStruct,
        }
    }
}

/// A parsed struct declaration.
#[derive(Debug)]
pub struct Struct {
    pub name: String,
    pub generics: Option<Vec<GenericParam>>,
    pub attributes: Vec<Attribute>,
    pub kind: StructKind,
}

pub struct SpecStruct {
    pub name: Seq<char>,
    pub generics: Option<Seq<SpecGenericParam>>,
    pub attributes: Seq<SpecAttribute>,
    pub kind: SpecStructKind,
}

impl View for Struct {
    type V = SpecStruct;

    open spec fn view(&self) -> SpecStruct {
        SpecStruct {
            name: self.name@,
            generics: match self.generics {
                Some(g) => Some(views_of(g@)),
                None => None,
            },
            attributes: views_of(self.attributes@),
            kind: self.kind@,
        }
    }
}

/// An enum declaration, recognized only far enough to be rejected downstream.
#[derive(Debug)]
pub struct EnumDecl {
    pub name: String,
    pub attributes: Vec<Attribute>,
}

pub struct SpecEnumDecl {
    pub name: Seq<char>,
    pub attributes: Seq<SpecAttribute>,
}

impl View for EnumDecl {
    type V = SpecEnumDecl;

    open spec fn view(&self) -> SpecEnumDecl {
        SpecEnumDecl { name: self.name@, attributes: views_of(self.attributes@) }
    }
}

/// A parsed algebraic-datatype declaration.
#[derive(Debug)]
pub enum AdtDecl {
    Struct(Struct),
    Enum(EnumDecl),
}

pub enum SpecAdtDecl {
    Struct(SpecStruct),
    Enum(SpecEnumDecl),
}

impl View for AdtDecl {
    type V = SpecAdtDecl;

    open spec fn view(&self) -> SpecAdtDecl {
        match *self {
            AdtDecl::Struct(s) => SpecAdtDecl::Struct(s@),
            AdtDecl::Enum(e) => SpecAdtDecl::Enum(e@),
        }
    }
}

} // verus!
