//! The recursive-descent parser. Each grammar rule exists twice: a spec
//! function that is the rule's definition over a token sequence, and an
//! executable function proved to return exactly what the spec function says,
//! both on success and on failure. A failed rule leaves no partial node:
//! the executable functions are pure and return a fresh position on success.
//!
//! A convention on the recursive list rules: before recursing past a parsed
//! element, the spec function tests that the element's parse advanced the
//! position and stayed inside the token sequence. The test makes the rule's
//! termination measure evident, and the executable rules prove that it always
//! passes, so it never rejects an input that the grammar accepts. An
//! executable rule starts by reading the token count, which reminds the
//! prover that every position inside the sequence fits in `usize`.

use vstd::prelude::*;
use crate::token::{Token, Delim, spec_unquote, unquote};
use crate::ast::{ModPath, SpecModPath, TypeArg, SpecTypeArg, TypeExpr, SpecTypeExpr, type_arg_view, type_args_view, views_of, lemma_views_of_push, lemma_views_of_empty, Attribute, SpecAttribute, AttributeInner, SpecAttributeInner, DgInner, SpecDgInner, DgDirection, SpecDgDirection, GenericParam, SpecGenericParam, StructField, SpecStructField, StructKind, SpecStructKind, Struct, SpecStruct, EnumDecl, SpecEnumDecl, AdtDecl, SpecAdtDecl};

verus! {

broadcast use {lemma_views_of_push, lemma_views_of_empty, vstd::std_specs::vec::group_vec_axioms};

/// A parse failure: the construct that was expected and the position of the
/// token that did not fit.
#[derive(Debug)]
pub struct ParseError {
    pub expected: String,
    pub at: usize,
}

pub struct SpecParseError {
    pub expected: Seq<char>,
    pub at: int,
}

impl View for ParseError {
    type V = SpecParseError;

    open spec fn view(&self) -> SpecParseError {
        SpecParseError { expected: self.expected@, at: self.at as int }
    }
}

fn fail(expected: &str, at: usize) -> ParseError {
    ParseError { expected: expected.to_owned(), at }
}

pub open spec fn is_punct(ts: Seq<Token>, p: int, c: char) -> bool {
    0 <= p < ts.len() && (ts[p] matches Token::Punct(d) && d == c)
}

pub open spec fn is_kw(ts: Seq<Token>, p: int, kw: Seq<char>) -> bool {
    0 <= p < ts.len() && (ts[p] matches Token::Ident(s) && s@ == kw)
}

pub open spec fn is_ident(ts: Seq<Token>, p: int) -> bool {
    0 <= p < ts.len() && (ts[p] matches Token::Ident(s))
}

pub open spec fn ident_at(ts: Seq<Token>, p: int) -> Seq<char>
    recommends
        is_ident(ts, p),
{
    ts[p]->Ident_0@
}

pub open spec fn is_open(ts: Seq<Token>, p: int, d: Delim) -> bool {
    0 <= p < ts.len() && (ts[p] matches Token::Open(e) && e == d)
}

pub open spec fn is_close(ts: Seq<Token>, p: int, d: Delim) -> bool {
    0 <= p < ts.len() && (ts[p] matches Token::Close(e) && e == d)
}

/// Two consecutive `:` punctuation tokens form a path separator.
pub open spec fn is_path_sep(ts: Seq<Token>, p: int) -> bool {
    is_punct(ts, p, ':') && is_punct(ts, p + 1, ':')
}

fn str_eq(a: &str, b: &str) -> (r: bool)
    ensures
        r == (a@ == b@),
{
    let x: String = a.to_owned();
    let y: String = b.to_owned();
    x == y
}

fn tok_is_punct(ts: &Vec<Token>, p: usize, c: char) -> (r: bool)
    ensures
        r == is_punct(ts@, p as int, c),
{
    p < ts.len() && match &ts[p] {
        Token::Punct(d) => *d == c,
        _ => false,
    }
}

fn tok_is_kw(ts: &Vec<Token>, p: usize, kw: &str) -> (r: bool)
    ensures
        r == is_kw(ts@, p as int, kw@),
{
    p < ts.len() && match &ts[p] {
        Token::Ident(s) => str_eq(s.as_str(), kw),
        _ => false,
    }
}

fn tok_is_ident(ts: &Vec<Token>, p: usize) -> (r: bool)
    ensures
        r == is_ident(ts@, p as int),
{
    p < ts.len() && match &ts[p] {
        Token::Ident(_) => true,
        _ => false,
    }
}

fn tok_ident(ts: &Vec<Token>, p: usize) -> (r: String)
    requires
        is_ident(ts@, p as int),
    ensures
        r@ == ident_at(ts@, p as int),
{
    match &ts[p] {
        Token::Ident(s) => s.clone(),
        _ => unreached(),
    }
}

fn tok_is_open(ts: &Vec<Token>, p: usize, d: Delim) -> (r: bool)
    ensures
        r == is_open(ts@, p as int, d),
{
    p < ts.len() && match &ts[p] {
        Token::Open(e) => *e == d,
        _ => false,
    }
}

fn tok_is_close(ts: &Vec<Token>, p: usize, d: Delim) -> (r: bool)
    ensures
        r == is_close(ts@, p as int, d),
{
    p < ts.len() && match &ts[p] {
        Token::Close(e) => *e == d,
        _ => false,
    }
}

fn tok_is_path_sep(ts: &Vec<Token>, p: usize) -> (r: bool)
    ensures
        r == is_path_sep(ts@, p as int),
{
    let n = ts.len();
    tok_is_punct(ts, p, ':') && p < usize::MAX && tok_is_punct(ts, p + 1, ':')
}

/// Grammar rule: the identifier segments that follow the first one, each
/// introduced by a path separator. Always succeeds, possibly with no
/// further segments.
pub open spec fn spec_parse_more_segments(ts: Seq<Token>, p: int) -> (Seq<Seq<char>>, int)
    decreases ts.len() - p,
{
    if is_path_sep(ts, p) && is_ident(ts, p + 2) && p + 3 <= ts.len() {
        let (rest, q) = spec_parse_more_segments(ts, p + 3);
        (seq![ident_at(ts, p + 2)] + rest, q)
    } else {
        (Seq::empty(), p)
    }
}

fn parse_more_segments(ts: &Vec<Token>, pos: usize) -> (r: (Vec<String>, usize))
    requires
        pos <= ts@.len(),
    ensures
        spec_parse_more_segments(ts@, pos as int) == (r.0.deep_view(), r.1 as int),
        pos <= r.1 <= ts@.len(),
    decreases ts@.len() - pos,
{
    let n = ts.len();
    if tok_is_path_sep(ts, pos) && pos + 2 < n && tok_is_ident(ts, pos + 2) {
        let seg = tok_ident(ts, pos + 2);
        let (rest, q) = parse_more_segments(ts, pos + 3);
        let mut segs: Vec<String> = Vec::new();
        segs.push(seg);
        let mut rest = rest;
        segs.append(&mut rest);
        proof {
            assert(segs.deep_view() =~= spec_parse_more_segments(ts@, pos as int).0);
        }
        (segs, q)
    } else {
        (Vec::new(), pos)
    }
}

/// Grammar rule for a module path: an optional leading path separator, then
/// a non-empty, separator-delimited list of identifier segments.
pub open spec fn spec_parse_mod_path(ts: Seq<Token>, p: int) -> Option<(SpecModPath, int)> {
    let (leading, q) = if is_path_sep(ts, p) {
        (true, p + 2)
    } else {
        (false, p)
    };
    if is_ident(ts, q) {
        let (rest, r) = spec_parse_more_segments(ts, q + 1);
        Some((SpecModPath { leading, segments: seq![ident_at(ts, q)] + rest }, r))
    } else {
        None
    }
}

pub fn parse_mod_path(ts: &Vec<Token>, pos: usize) -> (r: Result<(ModPath, usize), ParseError>)
    requires
        pos <= ts@.len(),
    ensures
        match r {
            Ok((m, q)) => {
                &&& spec_parse_mod_path(ts@, pos as int) == Some((m@, q as int))
                &&& pos < q <= ts@.len()
            },
            Err(_) => spec_parse_mod_path(ts@, pos as int) is None,
        },
{
    let n = ts.len();
    let (leading, q) = if tok_is_path_sep(ts, pos) {
        (true, pos + 2)
    } else {
        (false, pos)
    };
    if tok_is_ident(ts, q) {
        let first = tok_ident(ts, q);
        let (rest, r) = parse_more_segments(ts, q + 1);
        let mut segments: Vec<String> = Vec::new();
        segments.push(first);
        let mut rest = rest;
        segments.append(&mut rest);
        let m = ModPath { leading, segments };
        proof {
            assert(m@.segments =~= spec_parse_mod_path(ts@, pos as int).unwrap().0.segments);
        }
        Ok((m, r))
    } else {
        Err(fail("a module path", q))
    }
}


/// `type_args_view` distributes over prepending one argument.
pub proof fn lemma_type_args_view_cons(a: TypeArg, s: Seq<TypeArg>)
    ensures
        type_args_view(seq![a] + s) == seq![type_arg_view(a)] + type_args_view(s),
    decreases s.len(),
{
    if s.len() == 0 {
        assert(seq![a] + s =~= seq![a]);
        assert((seq![a] + s).drop_last() =~= Seq::<TypeArg>::empty());
        assert(type_args_view(Seq::<TypeArg>::empty()) == Seq::<SpecTypeArg>::empty());
        assert(type_args_view(s) == Seq::<SpecTypeArg>::empty());
        assert(type_args_view(seq![a] + s) =~= seq![type_arg_view(a)] + type_args_view(s));
    } else {
        lemma_type_args_view_cons(a, s.drop_last());
        assert((seq![a] + s).drop_last() =~= seq![a] + s.drop_last());
        assert((seq![a] + s).last() == s.last());
        assert(type_args_view(seq![a] + s) =~= seq![type_arg_view(a)] + type_args_view(s));
    }
}

/// Grammar rule for one generic argument: a lifetime or a type expression.
pub open spec fn spec_parse_type_arg(ts: Seq<Token>, p: int) -> Option<(SpecTypeArg, int)>
    decreases ts.len() - p, 1int,
{
    if is_punct(ts, p, '\'') && is_ident(ts, p + 1) {
        Some((SpecTypeArg::Lifetime(ident_at(ts, p + 1)), p + 2))
    } else {
        match spec_parse_type_expr(ts, p) {
            Some((t, q)) => Some((SpecTypeArg::Type(t), q)),
            None => None,
        }
    }
}

/// Grammar rule for a comma-separated generic-argument list, ended by `>`.
pub open spec fn spec_parse_type_args(ts: Seq<Token>, p: int) -> Option<(Seq<SpecTypeArg>, int)>
    decreases ts.len() - p, 2int,
{
    if is_punct(ts, p, '>') {
        Some((Seq::empty(), p + 1))
    } else {
        match spec_parse_type_arg(ts, p) {
            Some((a, q)) => {
                if is_punct(ts, q, '>') {
                    Some((seq![a], q + 1))
                } else if is_punct(ts, q, ',') && p < q + 1 {
                    match spec_parse_type_args(ts, q + 1) {
                        Some((rest, r)) => Some((seq![a] + rest, r)),
                        None => None,
                    }
                } else {
                    None
                }
            },
            None => None,
        }
    }
}

/// Grammar rule for a type expression: a module path, optionally followed by
/// a bracketed generic-argument list.
pub open spec fn spec_parse_type_expr(ts: Seq<Token>, p: int) -> Option<(SpecTypeExpr, int)>
    decreases ts.len() - p, 0int,
{
    match spec_parse_mod_path(ts, p) {
        Some((path, q)) => {
            if is_punct(ts, q, '<') && p < q + 1 {
                match spec_parse_type_args(ts, q + 1) {
                    Some((args, r)) => Some((SpecTypeExpr { path, args }, r)),
                    None => None,
                }
            } else {
                Some((SpecTypeExpr { path, args: Seq::empty() }, q))
            }
        },
        None => None,
    }
}

pub fn parse_type_arg(ts: &Vec<Token>, pos: usize) -> (r: Result<(TypeArg, usize), ParseError>)
    requires
        pos <= ts@.len(),
    ensures
        match r {
            Ok((a, q)) => {
                &&& spec_parse_type_arg(ts@, pos as int) == Some((a@, q as int))
                &&& pos < q <= ts@.len()
            },
            Err(_) => spec_parse_type_arg(ts@, pos as int) is None,
        },
    decreases ts@.len() - pos, 1int,
{
    let n = ts.len();
    if tok_is_punct(ts, pos, '\'') && pos + 1 < n && tok_is_ident(ts, pos + 1) {
        let name = tok_ident(ts, pos + 1);
        Ok((TypeArg::Lifetime(name), pos + 2))
    } else {
        match parse_type_expr(ts, pos) {
            Ok((t, q)) => Ok((TypeArg::Type(t), q)),
            Err(e) => Err(e),
        }
    }
}

pub fn parse_type_args(ts: &Vec<Token>, pos: usize) -> (r: Result<(Vec<TypeArg>, usize), ParseError>)
    requires
        pos <= ts@.len(),
    ensures
        match r {
            Ok((v, q)) => {
                &&& spec_parse_type_args(ts@, pos as int) == Some((type_args_view(v@), q as int))
                &&& pos < q <= ts@.len()
            },
            Err(_) => spec_parse_type_args(ts@, pos as int) is None,
        },
    decreases ts@.len() - pos, 2int,
{
    let n = ts.len();
    if tok_is_punct(ts, pos, '>') {
        let v: Vec<TypeArg> = Vec::new();
        proof {
            assert(type_args_view(v@) =~= Seq::<SpecTypeArg>::empty());
        }
        Ok((v, pos + 1))
    } else {
        match parse_type_arg(ts, pos) {
            Ok((a, q)) => {
                if tok_is_punct(ts, q, '>') {
                    let ghost av = a@;
                    let mut v: Vec<TypeArg> = Vec::new();
                    v.push(a);
                    proof {
                        assert(v@.drop_last() =~= Seq::<TypeArg>::empty());
                        assert(type_args_view(Seq::<TypeArg>::empty()) == Seq::<SpecTypeArg>::empty());
                        assert(type_args_view(v@) =~= seq![av]);
                    }
                    Ok((v, q + 1))
                } else if tok_is_punct(ts, q, ',') {
                    match parse_type_args(ts, q + 1) {
                        Ok((rest, r)) => {
                            let ghost av = a@;
                            let ghost restv = rest@;
                            let mut v: Vec<TypeArg> = Vec::new();
                            v.push(a);
                            let mut rest = rest;
                            v.append(&mut rest);
                            proof {
                                assert(v@ =~= seq![v@[0]] + restv);
                                lemma_type_args_view_cons(v@[0], restv);
                                assert(type_args_view(v@) == seq![av] + type_args_view(restv));
                            }
                            Ok((v, r))
                        },
                        Err(e) => Err(e),
                    }
                } else {
                    Err(fail("`,` or `>` in a generic-argument list", q))
                }
            },
            Err(e) => Err(e),
        }
    }
}

pub fn parse_type_expr(ts: &Vec<Token>, pos: usize) -> (r: Result<(TypeExpr, usize), ParseError>)
    requires
        pos <= ts@.len(),
    ensures
        match r {
            Ok((t, q)) => {
                &&& spec_parse_type_expr(ts@, pos as int) == Some((t@, q as int))
                &&& pos < q <= ts@.len()
            },
            Err(_) => spec_parse_type_expr(ts@, pos as int) is None,
        },
    decreases ts@.len() - pos, 0int,
{
    let n = ts.len();
    match parse_mod_path(ts, pos) {
        Ok((path, q)) => {
            if tok_is_punct(ts, q, '<') {
                match parse_type_args(ts, q + 1) {
                    Ok((args, r)) => Ok((TypeExpr { path, args }, r)),
                    Err(e) => Err(e),
                }
            } else {
                let t = TypeExpr { path, args: Vec::new() };
                proof {
                    assert(type_args_view(t.args@) =~= Seq::<SpecTypeArg>::empty());
                }
                Ok((t, q))
            }
        },
        Err(e) => Err(e),
    }
}


pub open spec fn is_literal(ts: Seq<Token>, p: int) -> bool {
    0 <= p < ts.len() && (ts[p] matches Token::Literal(s))
}

pub open spec fn literal_at(ts: Seq<Token>, p: int) -> Seq<char>
    recommends
        is_literal(ts, p),
{
    ts[p]->Literal_0@
}

fn tok_is_literal(ts: &Vec<Token>, p: usize) -> (r: bool)
    ensures
        r == is_literal(ts@, p as int),
{
    p < ts.len() && match &ts[p] {
        Token::Literal(_) => true,
        _ => false,
    }
}

fn tok_literal(ts: &Vec<Token>, p: usize) -> (r: String)
    requires
        is_literal(ts@, p as int),
    ensures
        r@ == literal_at(ts@, p as int),
{
    match &ts[p] {
        Token::Literal(s) => s.clone(),
        _ => unreached(),
    }
}

/// A string-literal token whose raw text carries surrounding quotes.
pub open spec fn is_string_literal(ts: Seq<Token>, p: int) -> bool {
    is_literal(ts, p) && spec_unquote(literal_at(ts, p)) is Some
}

/// The unquoted content of the string literal at `p`.
pub open spec fn string_literal_at(ts: Seq<Token>, p: int) -> Seq<char>
    recommends
        is_string_literal(ts, p),
{
    spec_unquote(literal_at(ts, p)).unwrap()
}

/// Skip over tokens, tracking group nesting, until the closing delimiter of
/// the group we are inside; the result is the position just past it.
pub open spec fn spec_skip_balanced(ts: Seq<Token>, p: int, d: Delim) -> Option<int>
    decreases ts.len() - p, 1int,
{
    if p < 0 || p >= ts.len() {
        None
    } else {
        match ts[p] {
            Token::Close(e) => if e == d {
                Some(p + 1)
            } else {
                None
            },
            Token::Open(e) => match spec_skip_balanced(ts, p + 1, e) {
                Some(q) => if p < q && q <= ts.len() {
                    spec_skip_balanced(ts, q, d)
                } else {
                    None
                },
                None => None,
            },
            _ => spec_skip_balanced(ts, p + 1, d),
        }
    }
}

fn skip_balanced(ts: &Vec<Token>, pos: usize, d: Delim) -> (r: Result<usize, ParseError>)
    requires
        pos <= ts@.len(),
    ensures
        match r {
            Ok(q) => {
                &&& spec_skip_balanced(ts@, pos as int, d) == Some(q as int)
                &&& pos < q <= ts@.len()
            },
            Err(_) => spec_skip_balanced(ts@, pos as int, d) is None,
        },
    decreases ts@.len() - pos,
{
    let n = ts.len();
    if pos >= n {
        return Err(fail("a closing delimiter", pos));
    }
    match &ts[pos] {
        Token::Close(e) => if *e == d {
            Ok(pos + 1)
        } else {
            Err(fail("the matching closing delimiter", pos))
        },
        Token::Open(e) => {
            let e = *e;
            match skip_balanced(ts, pos + 1, e) {
                Ok(q) => skip_balanced(ts, q, d),
                Err(e) => Err(e),
            }
        },
        _ => skip_balanced(ts, pos + 1, d),
    }
}

/// Grammar rule for one entry of a `dg` attribute body, selected by its
/// leading keyword.
pub open spec fn spec_parse_dg_inner(ts: Seq<Token>, p: int) -> Option<(SpecDgInner, int)> {
    if is_kw(ts, p, "forward"@) {
        if is_punct(ts, p + 1, '=') {
            match spec_parse_mod_path(ts, p + 2) {
                Some((m, q)) => Some((
                    SpecDgInner::Direction(SpecDgDirection::Forward { path: m }),
                    q,
                )),
                None => None,
            }
        } else {
            None
        }
    } else if is_kw(ts, p, "backward"@) {
        if is_punct(ts, p + 1, '=') {
            match spec_parse_mod_path(ts, p + 2) {
                Some((m, q)) => Some((
                    SpecDgInner::Direction(SpecDgDirection::Backward { path: m }),
                    q,
                )),
                None => None,
            }
        } else {
            None
        }
    } else if is_kw(ts, p, "rename"@) {
        if is_punct(ts, p + 1, '=') && is_string_literal(ts, p + 2) {
            Some((SpecDgInner::Rename(string_literal_at(ts, p + 2)), p + 3))
        } else {
            None
        }
    } else if is_kw(ts, p, "ignore"@) {
        Some((SpecDgInner::Ignore, p + 1))
    } else if is_kw(ts, p, "map"@) {
        if is_punct(ts, p + 1, '=') {
            match spec_parse_mod_path(ts, p + 2) {
                Some((m, q)) => Some((SpecDgInner::MapFn(m), q)),
                None => None,
            }
        } else {
            None
        }
    } else {
        None
    }
}

pub fn parse_dg_inner(ts: &Vec<Token>, pos: usize) -> (r: Result<(DgInner, usize), ParseError>)
    requires
        pos <= ts@.len(),
    ensures
        match r {
            Ok((d, q)) => {
                &&& spec_parse_dg_inner(ts@, pos as int) == Some((d@, q as int))
                &&& pos < q <= ts@.len()
            },
            Err(_) => spec_parse_dg_inner(ts@, pos as int) is None,
        },
{
    let n = ts.len();
    if tok_is_kw(ts, pos, "forward") {
        if tok_is_punct(ts, pos + 1, '=') {
            match parse_mod_path(ts, pos + 2) {
                Ok((m, q)) => Ok((DgInner::Direction(DgDirection::Forward { path: m }), q)),
                Err(e) => Err(e),
            }
        } else {
            Err(fail("`=` after `forward`", pos + 1))
        }
    } else if tok_is_kw(ts, pos, "backward") {
        if tok_is_punct(ts, pos + 1, '=') {
            match parse_mod_path(ts, pos + 2) {
                Ok((m, q)) => Ok((DgInner::Direction(DgDirection::Backward { path: m }), q)),
                Err(e) => Err(e),
            }
        } else {
            Err(fail("`=` after `backward`", pos + 1))
        }
    } else if tok_is_kw(ts, pos, "rename") {
        if tok_is_punct(ts, pos + 1, '=') && pos + 2 < n && tok_is_literal(ts, pos + 2) {
            let raw = tok_literal(ts, pos + 2);
            match unquote(raw.as_str()) {
                Some(content) => Ok((DgInner::Rename(content), pos + 3)),
                None => Err(fail("a string literal after `rename =`", pos + 2)),
            }
        } else {
            Err(fail("`= \"...\"` after `rename`", pos + 1))
        }
    } else if tok_is_kw(ts, pos, "ignore") {
        Ok((DgInner::Ignore, pos + 1))
    } else if tok_is_kw(ts, pos, "map") {
        if tok_is_punct(ts, pos + 1, '=') {
            match parse_mod_path(ts, pos + 2) {
                Ok((m, q)) => Ok((DgInner::MapFn(m), q)),
                Err(e) => Err(e),
            }
        } else {
            Err(fail("`=` after `map`", pos + 1))
        }
    } else {
        Err(fail("a mapping directive", pos))
    }
}

/// Grammar rule for the comma-separated directive entries of a `dg`
/// attribute body, ended by the closing parenthesis.
pub open spec fn spec_parse_dg_list(ts: Seq<Token>, p: int) -> Option<(Seq<SpecDgInner>, int)>
    decreases ts.len() - p,
{
    if is_close(ts, p, Delim::Paren) {
        Some((Seq::empty(), p + 1))
    } else {
        match spec_parse_dg_inner(ts, p) {
            Some((d, q)) => {
                if is_close(ts, q, Delim::Paren) {
                    Some((seq![d], q + 1))
                } else if is_punct(ts, q, ',') && p < q + 1 {
                    match spec_parse_dg_list(ts, q + 1) {
                        Some((rest, r)) => Some((seq![d] + rest, r)),
                        None => None,
                    }
                } else {
                    None
                }
            },
            None => None,
        }
    }
}

pub fn parse_dg_list(ts: &Vec<Token>, pos: usize) -> (r: Result<(Vec<DgInner>, usize), ParseError>)
    requires
        pos <= ts@.len(),
    ensures
        match r {
            Ok((v, q)) => {
                &&& spec_parse_dg_list(ts@, pos as int) == Some((views_of(v@), q as int))
                &&& pos < q <= ts@.len()
            },
            Err(_) => spec_parse_dg_list(ts@, pos as int) is None,
        },
    decreases ts@.len() - pos,
{
    let n = ts.len();
    if tok_is_close(ts, pos, Delim::Paren) {
        let v: Vec<DgInner> = Vec::new();
        proof {
            assert(views_of(v@) =~= Seq::<SpecDgInner>::empty());
        }
        Ok((v, pos + 1))
    } else {
        match parse_dg_inner(ts, pos) {
            Ok((d, q)) => {
                if tok_is_close(ts, q, Delim::Paren) {
                    let ghost dv = d@;
                    let mut v: Vec<DgInner> = Vec::new();
                    v.push(d);
                    proof {
                        assert(views_of(v@) =~= seq![dv]);
                    }
                    Ok((v, q + 1))
                } else if tok_is_punct(ts, q, ',') {
                    match parse_dg_list(ts, q + 1) {
                        Ok((rest, r)) => {
                            let ghost dv = d@;
                            let ghost restv = rest@;
                            let mut v: Vec<DgInner> = Vec::new();
                            v.push(d);
                            let mut rest = rest;
                            v.append(&mut rest);
                            proof {
                                assert(v@ =~= seq![v@[0]] + restv);
                                assert(views_of(v@) =~= seq![dv] + views_of(restv));
                            }
                            Ok((v, r))
                        },
                        Err(e) => Err(e),
                    }
                } else {
                    Err(fail("`,` or `)` in a `dg` attribute body", q))
                }
            },
            Err(e) => Err(e),
        }
    }
}

/// Grammar rule for one attribute. The attribute's name selects the body:
/// `doc` takes a single string literal, `dg` takes a parenthesized directive
/// list, and any other attribute is recognized but left uninterpreted.
pub open spec fn spec_parse_attribute(ts: Seq<Token>, p: int) -> Option<(SpecAttribute, int)> {
    if is_punct(ts, p, '#') && is_open(ts, p + 1, Delim::Bracket) && is_ident(ts, p + 2) {
        let name = ident_at(ts, p + 2);
        if name == "doc"@ {
            if is_punct(ts, p + 3, '=') && is_string_literal(ts, p + 4) && is_close(
                ts,
                p + 5,
                Delim::Bracket,
            ) {
                Some((
                    SpecAttribute {
                        name,
                        body: SpecAttributeInner::Doc(string_literal_at(ts, p + 4)),
                    },
                    p + 6,
                ))
            } else {
                None
            }
        } else if name == "dg"@ {
            if is_open(ts, p + 3, Delim::Paren) {
                match spec_parse_dg_list(ts, p + 4) {
                    Some((items, q)) => {
                        if is_close(ts, q, Delim::Bracket) {
                            Some((
                                SpecAttribute { name, body: SpecAttributeInner::Dg(items) },
                                q + 1,
                            ))
                        } else {
                            None
                        }
                    },
                    None => None,
                }
            } else {
                None
            }
        } else {
            match spec_skip_balanced(ts, p + 3, Delim::Bracket) {
                Some(q) => Some((SpecAttribute { name, body: SpecAttributeInner::Other }, q)),
                None => None,
            }
        }
    } else {
        None
    }
}

pub fn parse_attribute(ts: &Vec<Token>, pos: usize) -> (r: Result<(Attribute, usize), ParseError>)
    requires
        pos <= ts@.len(),
    ensures
        match r {
            Ok((a, q)) => {
                &&& spec_parse_attribute(ts@, pos as int) == Some((a@, q as int))
                &&& pos < q <= ts@.len()
            },
            Err(_) => spec_parse_attribute(ts@, pos as int) is None,
        },
{
    let n = ts.len();
    if tok_is_punct(ts, pos, '#') && tok_is_open(ts, pos + 1, Delim::Bracket) && pos + 2 < n
        && tok_is_ident(ts, pos + 2) {
        let name = tok_ident(ts, pos + 2);
        if str_eq(name.as_str(), "doc") {
            if tok_is_punct(ts, pos + 3, '=') && pos + 4 < n && tok_is_literal(ts, pos + 4)
                && tok_is_close(ts, pos + 5, Delim::Bracket) {
                let raw = tok_literal(ts, pos + 4);
                match unquote(raw.as_str()) {
                    Some(content) => Ok((
                        Attribute { name, body: AttributeInner::Doc(content) },
                        pos + 6,
                    )),
                    None => Err(fail("a string literal after `doc =`", pos + 4)),
                }
            } else {
                Err(fail("`= \"...\"` in a `doc` attribute", pos + 3))
            }
        } else if str_eq(name.as_str(), "dg") {
            if tok_is_open(ts, pos + 3, Delim::Paren) {
                match parse_dg_list(ts, pos + 4) {
                    Ok((items, q)) => {
                        if tok_is_close(ts, q, Delim::Bracket) {
                            Ok((Attribute { name, body: AttributeInner::Dg(items) }, q + 1))
                        } else {
                            Err(fail("`]` closing a `dg` attribute", q))
                        }
                    },
                    Err(e) => Err(e),
                }
            } else {
                Err(fail("`(` after `dg`", pos + 3))
            }
        } else {
            match skip_balanced(ts, pos + 3, Delim::Bracket) {
                Ok(q) => Ok((Attribute { name, body: AttributeInner::Other }, q)),
                Err(e) => Err(e),
            }
        }
    } else {
        Err(fail("an attribute", pos))
    }
}

/// Grammar rule for a possibly empty run of attributes.
pub open spec fn spec_parse_attributes(ts: Seq<Token>, p: int) -> Option<(Seq<SpecAttribute>, int)>
    decreases ts.len() - p,
{
    if is_punct(ts, p, '#') {
        match spec_parse_attribute(ts, p) {
            Some((a, q)) => {
                if p < q && q <= ts.len() {
                    match spec_parse_attributes(ts, q) {
                        Some((rest, r)) => Some((seq![a] + rest, r)),
                        None => None,
                    }
                } else {
                    None
                }
            },
            None => None,
        }
    } else {
        Some((Seq::empty(), p))
    }
}

pub fn parse_attributes(ts: &Vec<Token>, pos: usize) -> (r: Result<
    (Vec<Attribute>, usize),
    ParseError,
>)
    requires
        pos <= ts@.len(),
    ensures
        match r {
            Ok((v, q)) => {
                &&& spec_parse_attributes(ts@, pos as int) == Some((views_of(v@), q as int))
                &&& pos <= q <= ts@.len()
            },
            Err(_) => spec_parse_attributes(ts@, pos as int) is None,
        },
    decreases ts@.len() - pos,
{
    let n = ts.len();
    if tok_is_punct(ts, pos, '#') {
        match parse_attribute(ts, pos) {
            Ok((a, q)) => {
                match parse_attributes(ts, q) {
                    Ok((rest, r)) => {
                        let ghost av = a@;
                        let ghost restv = rest@;
                        let mut v: Vec<Attribute> = Vec::new();
                        v.push(a);
                        let mut rest = rest;
                        v.append(&mut rest);
                        proof {
                            assert(v@ =~= seq![v@[0]] + restv);
                            assert(views_of(v@) =~= seq![av] + views_of(restv));
                        }
                        Ok((v, r))
                    },
                    Err(e) => Err(e),
                }
            },
            Err(e) => Err(e),
        }
    } else {
        let v: Vec<Attribute> = Vec::new();
        proof {
            assert(views_of(v@) =~= Seq::<SpecAttribute>::empty());
        }
        Ok((v, pos))
    }
}


/// Grammar rule for a `+`-separated list of trait bounds.
pub open spec fn spec_parse_bounds(ts: Seq<Token>, p: int) -> Option<(Seq<SpecTypeExpr>, int)>
    decreases ts.len() - p,
{
    match spec_parse_type_expr(ts, p) {
        Some((t, q)) => {
            if is_punct(ts, q, '+') && p < q + 1 {
                match spec_parse_bounds(ts, q + 1) {
                    Some((rest, r)) => Some((seq![t] + rest, r)),
                    None => None,
                }
            } else {
                Some((seq![t], q))
            }
        },
        None => None,
    }
}

pub fn parse_bounds(ts: &Vec<Token>, pos: usize) -> (r: Result<(Vec<TypeExpr>, usize), ParseError>)
    requires
        pos <= ts@.len(),
    ensures
        match r {
            Ok((v, q)) => {
                &&& spec_parse_bounds(ts@, pos as int) == Some((views_of(v@), q as int))
                &&& pos < q <= ts@.len()
            },
            Err(_) => spec_parse_bounds(ts@, pos as int) is None,
        },
    decreases ts@.len() - pos,
{
    let n = ts.len();    match parse_type_expr(ts, pos) {
        Ok((t, q)) => {
            if tok_is_punct(ts, q, '+') {
                match parse_bounds(ts, q + 1) {
                    Ok((rest, r)) => {
                        let ghost tv = t@;
                        let ghost restv = rest@;
                        let mut v: Vec<TypeExpr> = Vec::new();
                        v.push(t);
                        let mut rest = rest;
                        v.append(&mut rest);
                        proof {
                            assert(v@ =~= seq![v@[0]] + restv);
                            assert(views_of(v@) =~= seq![tv] + views_of(restv));
                        }
                        Ok((v, r))
                    },
                    Err(e) => Err(e),
                }
            } else {
                let ghost tv = t@;
                let mut v: Vec<TypeExpr> = Vec::new();
                v.push(t);
                proof {
                    assert(views_of(v@) =~= seq![tv]);
                }
                Ok((v, q))
            }
        },
        Err(e) => Err(e),
    }
}

/// Grammar rule for one generic parameter, selected by its leading token: a
/// lifetime sigil, the `const` keyword, or a plain type-parameter name with
/// an optional bound clause.
pub open spec fn spec_parse_generic_param(ts: Seq<Token>, p: int) -> Option<
    (SpecGenericParam, int),
> {
    if is_punct(ts, p, '\'') && is_ident(ts, p + 1) {
        Some((SpecGenericParam::Lifetime { name: ident_at(ts, p + 1) }, p + 2))
    } else if is_kw(ts, p, "const"@) && is_ident(ts, p + 1) && is_punct(ts, p + 2, ':') {
        match spec_parse_type_expr(ts, p + 3) {
            Some((t, q)) => Some((
                SpecGenericParam::Const { name: ident_at(ts, p + 1), typ: t },
                q,
            )),
            None => None,
        }
    } else if is_ident(ts, p) {
        if is_punct(ts, p + 1, ':') {
            match spec_parse_bounds(ts, p + 2) {
                Some((bs, q)) => Some((
                    SpecGenericParam::Type { name: ident_at(ts, p), bounds: bs },
                    q,
                )),
                None => None,
            }
        } else {
            Some((SpecGenericParam::Type { name: ident_at(ts, p), bounds: Seq::empty() }, p + 1))
        }
    } else {
        None
    }
}

pub fn parse_generic_param(ts: &Vec<Token>, pos: usize) -> (r: Result<
    (GenericParam, usize),
    ParseError,
>)
    requires
        pos <= ts@.len(),
    ensures
        match r {
            Ok((g, q)) => {
                &&& spec_parse_generic_param(ts@, pos as int) == Some((g@, q as int))
                &&& pos < q <= ts@.len()
            },
            Err(_) => spec_parse_generic_param(ts@, pos as int) is None,
        },
{
    let n = ts.len();
    if tok_is_punct(ts, pos, '\'') && pos + 1 < n && tok_is_ident(ts, pos + 1) {
        let name = tok_ident(ts, pos + 1);
        Ok((GenericParam::Lifetime { name }, pos + 2))
    } else if tok_is_kw(ts, pos, "const") && pos + 1 < n && tok_is_ident(ts, pos + 1)
        && tok_is_punct(ts, pos + 2, ':') {
        let name = tok_ident(ts, pos + 1);
        match parse_type_expr(ts, pos + 3) {
            Ok((t, q)) => Ok((GenericParam::Const { name, typ: t }, q)),
            Err(e) => Err(e),
        }
    } else if tok_is_ident(ts, pos) {
        let name = tok_ident(ts, pos);
        if tok_is_punct(ts, pos + 1, ':') {
            match parse_bounds(ts, pos + 2) {
                Ok((bs, q)) => Ok((GenericParam::Type { name, bounds: bs }, q)),
                Err(e) => Err(e),
            }
        } else {
            let g = GenericParam::Type { name, bounds: Vec::new() };
            proof {
                assert(views_of(g->Type_bounds@) =~= Seq::<SpecTypeExpr>::empty());
            }
            Ok((g, pos + 1))
        }
    } else {
        Err(fail("a generic parameter", pos))
    }
}

/// Grammar rule for a comma-separated generic-parameter list, ended by `>`.
/// An empty list is legal.
pub open spec fn spec_parse_generic_list(ts: Seq<Token>, p: int) -> Option<
    (Seq<SpecGenericParam>, int),
>
    decreases ts.len() - p,
{
    if is_punct(ts, p, '>') {
        Some((Seq::empty(), p + 1))
    } else {
        match spec_parse_generic_param(ts, p) {
            Some((g, q)) => {
                if is_punct(ts, q, '>') {
                    Some((seq![g], q + 1))
                } else if is_punct(ts, q, ',') && p < q + 1 {
                    match spec_parse_generic_list(ts, q + 1) {
                        Some((rest, r)) => Some((seq![g] + rest, r)),
                        None => None,
                    }
                } else {
                    None
                }
            },
            None => None,
        }
    }
}

pub fn parse_generic_list(ts: &Vec<Token>, pos: usize) -> (r: Result<
    (Vec<GenericParam>, usize),
    ParseError,
>)
    requires
        pos <= ts@.len(),
    ensures
        match r {
            Ok((v, q)) => {
                &&& spec_parse_generic_list(ts@, pos as int) == Some((views_of(v@), q as int))
                &&& pos < q <= ts@.len()
            },
            Err(_) => spec_parse_generic_list(ts@, pos as int) is None,
        },
    decreases ts@.len() - pos,
{
    let n = ts.len();    if tok_is_punct(ts, pos, '>') {
        let v: Vec<GenericParam> = Vec::new();
        proof {
            assert(views_of(v@) =~= Seq::<SpecGenericParam>::empty());
        }
        Ok((v, pos + 1))
    } else {
        match parse_generic_param(ts, pos) {
            Ok((g, q)) => {
                if tok_is_punct(ts, q, '>') {
                    let ghost gv = g@;
                    let mut v: Vec<GenericParam> = Vec::new();
                    v.push(g);
                    proof {
                        assert(views_of(v@) =~= seq![gv]);
                    }
                    Ok((v, q + 1))
                } else if tok_is_punct(ts, q, ',') {
                    match parse_generic_list(ts, q + 1) {
                        Ok((rest, r)) => {
                            let ghost gv = g@;
                            let ghost restv = rest@;
                            let mut v: Vec<GenericParam> = Vec::new();
                            v.push(g);
                            let mut rest = rest;
                            v.append(&mut rest);
                            proof {
                                assert(v@ =~= seq![v@[0]] + restv);
                                assert(views_of(v@) =~= seq![gv] + views_of(restv));
                            }
                            Ok((v, r))
                        },
                        Err(e) => Err(e),
                    }
                } else {
                    Err(fail("`,` or `>` in a generic-parameter list", q))
                }
            },
            Err(e) => Err(e),
        }
    }
}

/// An optional visibility marker: `pub`, possibly qualified by a
/// parenthesized restriction, is recognized and ignored semantically.
pub open spec fn spec_skip_vis(ts: Seq<Token>, p: int) -> Option<int> {
    if is_kw(ts, p, "pub"@) {
        if is_open(ts, p + 1, Delim::Paren) {
            spec_skip_balanced(ts, p + 2, Delim::Paren)
        } else {
            Some(p + 1)
        }
    } else {
        Some(p)
    }
}

fn skip_vis(ts: &Vec<Token>, pos: usize) -> (r: Result<usize, ParseError>)
    requires
        pos <= ts@.len(),
    ensures
        match r {
            Ok(q) => {
                &&& spec_skip_vis(ts@, pos as int) == Some(q as int)
                &&& pos <= q <= ts@.len()
            },
            Err(_) => spec_skip_vis(ts@, pos as int) is None,
        },
{
    let n = ts.len();
    if tok_is_kw(ts, pos, "pub") {
        if tok_is_open(ts, pos + 1, Delim::Paren) {
            skip_balanced(ts, pos + 2, Delim::Paren)
        } else {
            Ok(pos + 1)
        }
    } else {
        Ok(pos)
    }
}

/// Grammar rule for one named field: leading attributes, an ignored
/// visibility marker, the field name, `:`, and a type expression.
pub open spec fn spec_parse_field(ts: Seq<Token>, p: int) -> Option<(SpecStructField, int)> {
    match spec_parse_attributes(ts, p) {
        Some((attrs, q)) => match spec_skip_vis(ts, q) {
            Some(q2) => {
                if is_ident(ts, q2) && is_punct(ts, q2 + 1, ':') {
                    match spec_parse_type_expr(ts, q2 + 2) {
                        Some((t, r)) => Some((
                            SpecStructField { name: ident_at(ts, q2), typ: t, attributes: attrs },
                            r,
                        )),
                        None => None,
                    }
                } else {
                    None
                }
            },
            None => None,
        },
        None => None,
    }
}

pub fn parse_field(ts: &Vec<Token>, pos: usize) -> (r: Result<(StructField, usize), ParseError>)
    requires
        pos <= ts@.len(),
    ensures
        match r {
            Ok((f, q)) => {
                &&& spec_parse_field(ts@, pos as int) == Some((f@, q as int))
                &&& pos < q <= ts@.len()
            },
            Err(_) => spec_parse_field(ts@, pos as int) is None,
        },
{
    let n = ts.len();
    match parse_attributes(ts, pos) {
        Ok((attrs, q)) => match skip_vis(ts, q) {
            Ok(q2) => {
                if tok_is_ident(ts, q2) && tok_is_punct(ts, q2 + 1, ':') {
                    let name = tok_ident(ts, q2);
                    match parse_type_expr(ts, q2 + 2) {
                        Ok((t, r)) => Ok((StructField { name, typ: t, attributes: attrs }, r)),
                        Err(e) => Err(e),
                    }
                } else {
                    Err(fail("a field name and `:`", q2))
                }
            },
            Err(e) => Err(e),
        },
        Err(e) => Err(e),
    }
}

/// Grammar rule for a comma-separated named-field list, ended by `}`.
pub open spec fn spec_parse_fields(ts: Seq<Token>, p: int) -> Option<(Seq<SpecStructField>, int)>
    decreases ts.len() - p,
{
    if is_close(ts, p, Delim::Brace) {
        Some((Seq::empty(), p + 1))
    } else {
        match spec_parse_field(ts, p) {
            Some((f, q)) => {
                if is_close(ts, q, Delim::Brace) {
                    Some((seq![f], q + 1))
                } else if is_punct(ts, q, ',') && p < q + 1 && q + 1 <= ts.len() {
                    match spec_parse_fields(ts, q + 1) {
                        Some((rest, r)) => Some((seq![f] + rest, r)),
                        None => None,
                    }
                } else {
                    None
                }
            },
            None => None,
        }
    }
}

pub fn parse_fields(ts: &Vec<Token>, pos: usize) -> (r: Result<
    (Vec<StructField>, usize),
    ParseError,
>)
    requires
        pos <= ts@.len(),
    ensures
        match r {
            Ok((v, q)) => {
                &&& spec_parse_fields(ts@, pos as int) == Some((views_of(v@), q as int))
                &&& pos < q <= ts@.len()
            },
            Err(_) => spec_parse_fields(ts@, pos as int) is None,
        },
    decreases ts@.len() - pos,
{
    let n = ts.len();    if tok_is_close(ts, pos, Delim::Brace) {
        let v: Vec<StructField> = Vec::new();
        proof {
            assert(views_of(v@) =~= Seq::<SpecStructField>::empty());
        }
        Ok((v, pos + 1))
    } else {
        match parse_field(ts, pos) {
            Ok((f, q)) => {
                if tok_is_close(ts, q, Delim::Brace) {
                    let ghost fv = f@;
                    let mut v: Vec<StructField> = Vec::new();
                    v.push(f);
                    proof {
                        assert(views_of(v@) =~= seq![fv]);
                    }
                    Ok((v, q + 1))
                } else if tok_is_punct(ts, q, ',') {
                    match parse_fields(ts, q + 1) {
                        Ok((rest, r)) => {
                            let ghost fv = f@;
                            let ghost restv = rest@;
                            let mut v: Vec<StructField> = Vec::new();
                            v.push(f);
                            let mut rest = rest;
                            v.append(&mut rest);
                            proof {
                                assert(v@ =~= seq![v@[0]] + restv);
                                assert(views_of(v@) =~= seq![fv] + views_of(restv));
                            }
                            Ok((v, r))
                        },
                        Err(e) => Err(e),
                    }
                } else {
                    Err(fail("`,` or `}` in a field list", q))
                }
            },
            Err(e) => Err(e),
        }
    }
}

/// Grammar rule for one positional field of a tuple struct: an ignored
/// visibility marker and a type expression.
pub open spec fn spec_parse_tuple_field(ts: Seq<Token>, p: int) -> Option<(SpecTypeExpr, int)> {
    match spec_skip_vis(ts, p) {
        Some(q) => spec_parse_type_expr(ts, q),
        None => None,
    }
}

pub fn parse_tuple_field(ts: &Vec<Token>, pos: usize) -> (r: Result<
    (TypeExpr, usize),
    ParseError,
>)
    requires
        pos <= ts@.len(),
    ensures
        match r {
            Ok((t, q)) => {
                &&& spec_parse_tuple_field(ts@, pos as int) == Some((t@, q as int))
                &&& pos < q <= ts@.len()
            },
            Err(_) => spec_parse_tuple_field(ts@, pos as int) is None,
        },
{
    match skip_vis(ts, pos) {
        Ok(q) => parse_type_expr(ts, q),
        Err(e) => Err(e),
    }
}

/// Grammar rule for a comma-separated positional-field list, ended by `)`.
pub open spec fn spec_parse_tuple_fields(ts: Seq<Token>, p: int) -> Option<(Seq<SpecTypeExpr>, int)>
    decreases ts.len() - p,
{
    if is_close(ts, p, Delim::Paren) {
        Some((Seq::empty(), p + 1))
    } else {
        match spec_parse_tuple_field(ts, p) {
            Some((t, q)) => {
                if is_close(ts, q, Delim::Paren) {
                    Some((seq![t], q + 1))
                } else if is_punct(ts, q, ',') && p < q + 1 {
                    match spec_parse_tuple_fields(ts, q + 1) {
                        Some((rest, r)) => Some((seq![t] + rest, r)),
                        None => None,
                    }
                } else {
                    None
                }
            },
            None => None,
        }
    }
}

pub fn parse_tuple_fields(ts: &Vec<Token>, pos: usize) -> (r: Result<
    (Vec<TypeExpr>, usize),
    ParseError,
>)
    requires
        pos <= ts@.len(),
    ensures
        match r {
            Ok((v, q)) => {
                &&& spec_parse_tuple_fields(ts@, pos as int) == Some((views_of(v@), q as int))
                &&& pos < q <= ts@.len()
            },
            Err(_) => spec_parse_tuple_fields(ts@, pos as int) is None,
        },
    decreases ts@.len() - pos,
{
    let n = ts.len();    if tok_is_close(ts, pos, Delim::Paren) {
        let v: Vec<TypeExpr> = Vec::new();
        proof {
            assert(views_of(v@) =~= Seq::<SpecTypeExpr>::empty());
        }
        Ok((v, pos + 1))
    } else {
        match parse_tuple_field(ts, pos) {
            Ok((t, q)) => {
                if tok_is_close(ts, q, Delim::Paren) {
                    let ghost tv = t@;
                    let mut v: Vec<TypeExpr> = Vec::new();
                    v.push(t);
                    proof {
                        assert(views_of(v@) =~= seq![tv]);
                    }
                    Ok((v, q + 1))
                } else if tok_is_punct(ts, q, ',') {
                    match parse_tuple_fields(ts, q + 1) {
                        Ok((rest, r)) => {
                            let ghost tv = t@;
                            let ghost restv = rest@;
                            let mut v: Vec<TypeExpr> = Vec::new();
                            v.push(t);
                            let mut rest = rest;
                            v.append(&mut rest);
                            proof {
                                assert(v@ =~= seq![v@[0]] + restv);
                                assert(views_of(v@) =~= seq![tv] + views_of(restv));
                            }
                            Ok((v, r))
                        },
                        Err(e) => Err(e),
                    }
                } else {
                    Err(fail("`,` or `)` in a tuple-field list", q))
                }
            },
            Err(e) => Err(e),
        }
    }
}

/// Grammar rule for the body of a struct declaration, selected by the token
/// after the name and generics: a brace opens named fields, a parenthesis
/// opens positional fields, and a bare `;` is a unit struct.
pub open spec fn spec_parse_struct_kind(ts: Seq<Token>, p: int) -> Option<(SpecStructKind, int)> {
    if is_open(ts, p, Delim::Brace) {
        match spec_parse_fields(ts, p + 1) {
            Some((fs, q)) => Some((SpecStructKind::Struct { fields: fs }, q)),
            None => None,
        }
    } else if is_open(ts, p, Delim::Paren) {
        match spec_parse_tuple_fields(ts, p + 1) {
            Some((tys, q)) => {
                if is_punct(ts, q, ';') {
                    Some((SpecStructKind::TupleStruct { types: tys }, q + 1))
                } else {
                    Some((SpecStructKind::TupleStruct { types: tys }, q))
                }
            },
            None => None,
        }
    } else if is_punct(ts, p, ';') {
        Some((SpecStructKind::UnitStruct, p + 1))
    } else {
        None
    }
}

pub fn parse_struct_kind(ts: &Vec<Token>, pos: usize) -> (r: Result<
    (StructKind, usize),
    ParseError,
>)
    requires
        pos <= ts@.len(),
    ensures
        match r {
            Ok((k, q)) => {
                &&& spec_parse_struct_kind(ts@, pos as int) == Some((k@, q as int))
                &&& pos < q <= ts@.len()
            },
            Err(_) => spec_parse_struct_kind(ts@, pos as int) is None,
        },
{
    let n = ts.len();    if tok_is_open(ts, pos, Delim::Brace) {
        match parse_fields(ts, pos + 1) {
            Ok((fields, q)) => Ok((StructKind::Struct { fields }, q)),
            Err(e) => Err(e),
        }
    } else if tok_is_open(ts, pos, Delim::Paren) {
        match parse_tuple_fields(ts, pos + 1) {
            Ok((types, q)) => {
                if tok_is_punct(ts, q, ';') {
                    Ok((StructKind::TupleStruct { types }, q + 1))
                } else {
                    Ok((StructKind::TupleStruct { types }, q))
                }
            },
            Err(e) => Err(e),
        }
    } else if tok_is_punct(ts, pos, ';') {
        Ok((StructKind::UnitStruct, pos + 1))
    } else {
        Err(fail("a struct body", pos))
    }
}

/// Grammar rule for a struct declaration: leading attributes, an ignored
/// visibility marker, the `struct` keyword, the name, an optional
/// generic-parameter clause, and the body.
pub open spec fn spec_parse_struct(ts: Seq<Token>, p: int) -> Option<(SpecStruct, int)> {
    match spec_parse_attributes(ts, p) {
        Some((attrs, q0)) => match spec_skip_vis(ts, q0) {
            Some(q) => {
                if is_kw(ts, q, "struct"@) && is_ident(ts, q + 1) {
                    let name = ident_at(ts, q + 1);
                    if is_punct(ts, q + 2, '<') {
                        match spec_parse_generic_list(ts, q + 3) {
                            Some((gs, q2)) => match spec_parse_struct_kind(ts, q2) {
                                Some((k, r)) => Some((
                                    SpecStruct {
                                        name,
                                        generics: Some(gs),
                                        attributes: attrs,
                                        kind: k,
                                    },
                                    r,
                                )),
                                None => None,
                            },
                            None => None,
                        }
                    } else {
                        match spec_parse_struct_kind(ts, q + 2) {
                            Some((k, r)) => Some((
                                SpecStruct { name, generics: None, attributes: attrs, kind: k },
                                r,
                            )),
                            None => None,
                        }
                    }
                } else {
                    None
                }
            },
            None => None,
        },
        None => None,
    }
}

pub fn parse_struct(ts: &Vec<Token>, pos: usize) -> (r: Result<(Struct, usize), ParseError>)
    requires
        pos <= ts@.len(),
    ensures
        match r {
            Ok((s, q)) => {
                &&& spec_parse_struct(ts@, pos as int) == Some((s@, q as int))
                &&& pos <= q <= ts@.len()
            },
            Err(_) => spec_parse_struct(ts@, pos as int) is None,
        },
{
    let n = ts.len();
    match parse_attributes(ts, pos) {
        Ok((attributes, q0)) => match skip_vis(ts, q0) {
            Ok(q) => {
                if tok_is_kw(ts, q, "struct") && q + 1 < n && tok_is_ident(ts, q + 1) {
                    let name = tok_ident(ts, q + 1);
                    if tok_is_punct(ts, q + 2, '<') {
                        match parse_generic_list(ts, q + 3) {
                            Ok((gs, q2)) => match parse_struct_kind(ts, q2) {
                                Ok((kind, r)) => Ok((
                                    Struct { name, generics: Some(gs), attributes, kind },
                                    r,
                                )),
                                Err(e) => Err(e),
                            },
                            Err(e) => Err(e),
                        }
                    } else {
                        match parse_struct_kind(ts, q + 2) {
                            Ok((kind, r)) => Ok((
                                Struct { name, generics: None, attributes, kind },
                                r,
                            )),
                            Err(e) => Err(e),
                        }
                    }
                } else {
                    Err(fail("the `struct` keyword and a name", q))
                }
            },
            Err(e) => Err(e),
        },
        Err(e) => Err(e),
    }
}

/// Grammar rule for an enum declaration: recognized far enough to keep the
/// cursor consistent (its body is fully skipped), then handed on to be
/// rejected downstream as unimplemented.
pub open spec fn spec_parse_enum(ts: Seq<Token>, p: int) -> Option<(SpecEnumDecl, int)> {
    match spec_parse_attributes(ts, p) {
        Some((attrs, q0)) => match spec_skip_vis(ts, q0) {
            Some(q) => {
                if is_kw(ts, q, "enum"@) && is_ident(ts, q + 1) {
                    let name = ident_at(ts, q + 1);
                    if is_punct(ts, q + 2, '<') {
                        match spec_parse_generic_list(ts, q + 3) {
                            Some((_gs, q2)) => {
                                if is_open(ts, q2, Delim::Brace) {
                                    match spec_skip_balanced(ts, q2 + 1, Delim::Brace) {
                                        Some(r) => Some((
                                            SpecEnumDecl { name, attributes: attrs },
                                            r,
                                        )),
                                        None => None,
                                    }
                                } else {
                                    None
                                }
                            },
                            None => None,
                        }
                    } else {
                        if is_open(ts, q + 2, Delim::Brace) {
                            match spec_skip_balanced(ts, q + 3, Delim::Brace) {
                                Some(r) => Some((SpecEnumDecl { name, attributes: attrs }, r)),
                                None => None,
                            }
                        } else {
                            None
                        }
                    }
                } else {
                    None
                }
            },
            None => None,
        },
        None => None,
    }
}

pub fn parse_enum(ts: &Vec<Token>, pos: usize) -> (r: Result<(EnumDecl, usize), ParseError>)
    requires
        pos <= ts@.len(),
    ensures
        match r {
            Ok((e, q)) => {
                &&& spec_parse_enum(ts@, pos as int) == Some((e@, q as int))
                &&& pos <= q <= ts@.len()
            },
            Err(_) => spec_parse_enum(ts@, pos as int) is None,
        },
{
    let n = ts.len();
    match parse_attributes(ts, pos) {
        Ok((attributes, q0)) => match skip_vis(ts, q0) {
            Ok(q) => {
                if tok_is_kw(ts, q, "enum") && q + 1 < n && tok_is_ident(ts, q + 1) {
                    let name = tok_ident(ts, q + 1);
                    if tok_is_punct(ts, q + 2, '<') {
                        match parse_generic_list(ts, q + 3) {
                            Ok((_gs, q2)) => {
                                if tok_is_open(ts, q2, Delim::Brace) {
                                    match skip_balanced(ts, q2 + 1, Delim::Brace) {
                                        Ok(r) => Ok((EnumDecl { name, attributes }, r)),
                                        Err(e) => Err(e),
                                    }
                                } else {
                                    Err(fail("`{` opening an enum body", q2))
                                }
                            },
                            Err(e) => Err(e),
                        }
                    } else {
                        if tok_is_open(ts, q + 2, Delim::Brace) {
                            match skip_balanced(ts, q + 3, Delim::Brace) {
                                Ok(r) => Ok((EnumDecl { name, attributes }, r)),
                                Err(e) => Err(e),
                            }
                        } else {
                            Err(fail("`{` opening an enum body", q + 2))
                        }
                    }
                } else {
                    Err(fail("the `enum` keyword and a name", q))
                }
            },
            Err(e) => Err(e),
        },
        Err(e) => Err(e),
    }
}

/// Grammar rule for an algebraic-datatype declaration, selected by the
/// keyword that follows the attributes and visibility marker.
pub open spec fn spec_parse_adt(ts: Seq<Token>, p: int) -> Option<(SpecAdtDecl, int)> {
    match spec_parse_attributes(ts, p) {
        Some((_attrs, q0)) => match spec_skip_vis(ts, q0) {
            Some(q) => {
                if is_kw(ts, q, "struct"@) {
                    match spec_parse_struct(ts, p) {
                        Some((s, r)) => Some((SpecAdtDecl::Struct(s), r)),
                        None => None,
                    }
                } else if is_kw(ts, q, "enum"@) {
                    match spec_parse_enum(ts, p) {
                        Some((e, r)) => Some((SpecAdtDecl::Enum(e), r)),
                        None => None,
                    }
                } else {
                    None
                }
            },
            None => None,
        },
        None => None,
    }
}

pub fn parse_adt(ts: &Vec<Token>, pos: usize) -> (r: Result<(AdtDecl, usize), ParseError>)
    requires
        pos <= ts@.len(),
    ensures
        match r {
            Ok((d, q)) => {
                &&& spec_parse_adt(ts@, pos as int) == Some((d@, q as int))
                &&& pos <= q <= ts@.len()
            },
            Err(_) => spec_parse_adt(ts@, pos as int) is None,
        },
{
    let n = ts.len();    match parse_attributes(ts, pos) {
        Ok((_attrs, q0)) => match skip_vis(ts, q0) {
            Ok(q) => {
                if tok_is_kw(ts, q, "struct") {
                    match parse_struct(ts, pos) {
                        Ok((s, r)) => Ok((AdtDecl::Struct(s), r)),
                        Err(e) => Err(e),
                    }
                } else if tok_is_kw(ts, q, "enum") {
                    match parse_enum(ts, pos) {
                        Ok((e, r)) => Ok((AdtDecl::Enum(e), r)),
                        Err(e) => Err(e),
                    }
                } else {
                    Err(fail("a `struct` or `enum` declaration", q))
                }
            },
            Err(e) => Err(e),
        },
        Err(e) => Err(e),
    }
}

/// The entry point: exactly one declaration followed by the end of the
/// token stream. Trailing tokens are a parse error.
pub open spec fn spec_parse_decl(ts: Seq<Token>) -> Option<SpecAdtDecl> {
    match spec_parse_adt(ts, 0) {
        Some((d, q)) => if q == ts.len() {
            Some(d)
        } else {
            None
        },
        None => None,
    }
}

pub fn parse_decl(ts: &Vec<Token>) -> (r: Result<AdtDecl, ParseError>)
    ensures
        match r {
            Ok(d) => spec_parse_decl(ts@) == Some(d@),
            Err(_) => spec_parse_decl(ts@) is None,
        },
{
    let n = ts.len();    match parse_adt(ts, 0) {
        Ok((d, q)) => {
            if q == ts.len() {
                Ok(d)
            } else {
                Err(fail("the end of the declaration", q))
            }
        },
        Err(e) => Err(e),
    }
}

} // verus!
