use doppleganger::token::{Token, Delim};
use doppleganger::ast::DgDirection;
use doppleganger::gen::{dg_macros, process_struct, GenExpr, ConfigError, DgError};
use doppleganger::parse::parse_struct;
use doppleganger::render::render_impl;

fn gid(s: &str) -> Token {
    Token::Ident(s.to_string())
}

fn gpunct(c: char) -> Token {
    Token::Punct(c)
}

fn glit(s: &str) -> Token {
    Token::Literal(s.to_string())
}

fn gopen(d: Delim) -> Token {
    Token::Open(d)
}

fn gclose(d: Delim) -> Token {
    Token::Close(d)
}

/// `#[dg(<one entry>)]`, entry given as raw tokens.
fn dg_attr(entry: Vec<Token>) -> Vec<Token> {
    let mut ts = vec![gpunct('#'), gopen(Delim::Bracket), gid("dg"), gopen(Delim::Paren)];
    ts.extend(entry);
    ts.push(gclose(Delim::Paren));
    ts.push(gclose(Delim::Bracket));
    ts
}

fn forward_to(target: &str) -> Vec<Token> {
    dg_attr(vec![gid("forward"), gpunct('='), gid(target)])
}

fn backward_to(target: &str) -> Vec<Token> {
    dg_attr(vec![gid("backward"), gpunct('='), gid(target)])
}

fn field(name: &str, typ: &str) -> Vec<Token> {
    vec![gid(name), gpunct(':'), gid(typ), gpunct(',')]
}

#[test]
fn forward_matching_fields_are_mirrored_one_to_one() {
    // #[dg(forward = ApiUser)]
    // pub struct DbUser { id: u64, username: String, email: String, active: bool, }
    let mut ts = forward_to("ApiUser");
    ts.extend(vec![gid("pub"), gid("struct"), gid("DbUser"), gopen(Delim::Brace)]);
    ts.extend(field("id", "u64"));
    ts.extend(field("username", "String"));
    ts.extend(field("email", "String"));
    ts.extend(field("active", "bool"));
    ts.push(gclose(Delim::Brace));

    let g = dg_macros(&ts).unwrap();
    assert_eq!(g.self_name, "DbUser");
    match &g.direction {
        DgDirection::Forward { path } => assert_eq!(&path.segments[0], "ApiUser"),
        _ => panic!("expected the forward direction"),
    }
    assert_eq!(g.assigns.len(), 4);
    let names = ["id", "username", "email", "active"];
    let types = ["u64", "String", "String", "bool"];
    for (i, a) in g.assigns.iter().enumerate() {
        assert_eq!(a.dest, names[i]);
        match &a.expr {
            GenExpr::MirrorCall { typ, source_field } => {
                assert_eq!(source_field, names[i]);
                assert_eq!(&typ.path.segments[0], types[i]);
            }
            _ => panic!("expected the generic conversion"),
        }
    }
}

#[test]
fn forward_rename_sends_declared_field_to_renamed_destination() {
    // #[dg(forward = ApiUser)]
    // struct DbUser { id: u64, #[dg(rename = "username")] db_username: String, email: String, }
    let mut ts = forward_to("ApiUser");
    ts.extend(vec![gid("struct"), gid("DbUser"), gopen(Delim::Brace)]);
    ts.extend(field("id", "u64"));
    ts.extend(dg_attr(vec![gid("rename"), gpunct('='), glit("\"username\"")]));
    ts.extend(field("db_username", "String"));
    ts.extend(field("email", "String"));
    ts.push(gclose(Delim::Brace));

    let g = dg_macros(&ts).unwrap();
    assert_eq!(g.assigns.len(), 3);
    assert_eq!(g.assigns[0].dest, "id");
    assert_eq!(g.assigns[1].dest, "username");
    match &g.assigns[1].expr {
        GenExpr::MirrorCall { source_field, .. } => assert_eq!(source_field, "db_username"),
        _ => panic!("expected the generic conversion"),
    }
    assert_eq!(g.assigns[2].dest, "email");
}

#[test]
fn backward_rename_reads_renamed_source_into_declared_field() {
    // #[dg(backward = SourceData)]
    // struct DestData { value: i32, #[dg(rename = "old_name")] new_name: String, }
    let mut ts = backward_to("SourceData");
    ts.extend(vec![gid("struct"), gid("DestData"), gopen(Delim::Brace)]);
    ts.extend(field("value", "i32"));
    ts.extend(dg_attr(vec![gid("rename"), gpunct('='), glit("\"old_name\"")]));
    ts.extend(field("new_name", "String"));
    ts.push(gclose(Delim::Brace));

    let g = dg_macros(&ts).unwrap();
    match &g.direction {
        DgDirection::Backward { path } => assert_eq!(&path.segments[0], "SourceData"),
        _ => panic!("expected the backward direction"),
    }
    assert_eq!(g.assigns.len(), 2);
    assert_eq!(g.assigns[0].dest, "value");
    assert_eq!(g.assigns[1].dest, "new_name");
    match &g.assigns[1].expr {
        GenExpr::MirrorCall { source_field, .. } => assert_eq!(source_field, "old_name"),
        _ => panic!("expected the generic conversion"),
    }
}

#[test]
fn ignored_field_is_omitted_in_both_directions() {
    for dir in ["forward", "backward"] {
        let mut ts = dg_attr(vec![gid(dir), gpunct('='), gid("Other")]);
        ts.extend(vec![gid("struct"), gid("S"), gopen(Delim::Brace)]);
        ts.extend(field("keep", "u64"));
        ts.extend(dg_attr(vec![gid("ignore")]));
        ts.extend(field("secret", "String"));
        ts.extend(field("tail", "bool"));
        ts.push(gclose(Delim::Brace));

        let g = dg_macros(&ts).unwrap();
        assert_eq!(g.assigns.len(), 2);
        assert_eq!(g.assigns[0].dest, "keep");
        assert_eq!(g.assigns[1].dest, "tail");
    }
}

#[test]
fn custom_map_path_is_used_exclusively() {
    // #[dg(forward = Api)] struct S { #[dg(map = conv::to_api)] value: u64, }
    let mut ts = forward_to("Api");
    ts.extend(vec![gid("struct"), gid("S"), gopen(Delim::Brace)]);
    ts.extend(dg_attr(vec![
        gid("map"),
        gpunct('='),
        gid("conv"),
        gpunct(':'),
        gpunct(':'),
        gid("to_api"),
    ]));
    ts.extend(field("value", "u64"));
    ts.push(gclose(Delim::Brace));

    let g = dg_macros(&ts).unwrap();
    assert_eq!(g.assigns.len(), 1);
    match &g.assigns[0].expr {
        GenExpr::MapCall { path, source_field } => {
            assert_eq!(path.segments, vec!["conv".to_string(), "to_api".to_string()]);
            assert_eq!(source_field, "value");
        }
        _ => panic!("the map path must be used instead of the generic conversion"),
    }
}

#[test]
fn missing_direction_is_a_config_error() {
    let ts = vec![
        gid("struct"),
        gid("S"),
        gopen(Delim::Brace),
        gid("a"),
        gpunct(':'),
        gid("u8"),
        gclose(Delim::Brace),
    ];
    match dg_macros(&ts) {
        Err(DgError::Config(ConfigError::MissingDirection)) => {}
        _ => panic!("a struct without a direction must be rejected"),
    }
}

#[test]
fn first_of_two_directions_wins() {
    // #[dg(forward = A)] #[dg(backward = B)] struct S { x: u8, }
    let mut ts = forward_to("A");
    ts.extend(backward_to("B"));
    ts.extend(vec![gid("struct"), gid("S"), gopen(Delim::Brace)]);
    ts.extend(field("x", "u8"));
    ts.push(gclose(Delim::Brace));

    let g = dg_macros(&ts).unwrap();
    match &g.direction {
        DgDirection::Forward { path } => assert_eq!(&path.segments[0], "A"),
        _ => panic!("the first direction in declaration order must win"),
    }
}

#[test]
fn tuple_and_unit_structs_are_unsupported() {
    let mut tuple = forward_to("A");
    tuple.extend(vec![
        gid("struct"),
        gid("P"),
        gopen(Delim::Paren),
        gid("u8"),
        gclose(Delim::Paren),
        gpunct(';'),
    ]);
    match dg_macros(&tuple) {
        Err(DgError::Config(ConfigError::UnsupportedTupleStruct)) => {}
        _ => panic!("a tuple struct must be rejected"),
    }

    let mut unit = forward_to("A");
    unit.extend(vec![gid("struct"), gid("U"), gpunct(';')]);
    match dg_macros(&unit) {
        Err(DgError::Config(ConfigError::UnsupportedUnitStruct)) => {}
        _ => panic!("a unit struct must be rejected"),
    }
}

#[test]
fn enum_declarations_are_unimplemented() {
    let ts = vec![
        gid("enum"),
        gid("E"),
        gopen(Delim::Brace),
        gid("A"),
        gclose(Delim::Brace),
    ];
    match dg_macros(&ts) {
        Err(DgError::Config(ConfigError::UnimplementedEnum)) => {}
        _ => panic!("an enum must be rejected as unimplemented"),
    }
}

#[test]
fn renders_forward_impl_text_exactly() {
    let mut ts = forward_to("ApiUser");
    ts.extend(vec![gid("struct"), gid("DbUser"), gopen(Delim::Brace)]);
    ts.extend(field("id", "u64"));
    ts.push(gclose(Delim::Brace));

    let g = dg_macros(&ts).unwrap();
    let text = render_impl(&g);
    assert_eq!(
        text,
        "impl ::doppleganger::Mirror for DbUser { type Source = Self; type Dest = ApiUser; \
         fn mirror(source: Self::Source) -> Self::Dest { Self::Dest { \
         id: <u64 as ::doppleganger::Mirror>::mirror(source.id), } } }"
    );
}

#[test]
fn renders_backward_impl_with_map_call() {
    let mut ts = backward_to("Raw");
    ts.extend(vec![gid("struct"), gid("Cooked"), gopen(Delim::Brace)]);
    ts.extend(dg_attr(vec![gid("map"), gpunct('='), gid("cook")]));
    ts.extend(field("value", "u64"));
    ts.push(gclose(Delim::Brace));

    let g = dg_macros(&ts).unwrap();
    let text = render_impl(&g);
    assert_eq!(
        text,
        "impl ::doppleganger::Mirror for Cooked { type Source = Raw; type Dest = Self; \
         fn mirror(source: Self::Source) -> Self::Dest { Self { \
         value: cook(source.value), } } }"
    );
}

#[test]
fn generics_are_carried_through_to_the_impl() {
    // #[dg(forward = Target)] struct S<T: Clone> { inner: T, }
    let mut ts = forward_to("Target");
    ts.extend(vec![
        gid("struct"),
        gid("S"),
        gpunct('<'),
        gid("T"),
        gpunct(':'),
        gid("Clone"),
        gpunct('>'),
        gopen(Delim::Brace),
    ]);
    ts.extend(field("inner", "T"));
    ts.push(gclose(Delim::Brace));

    let (s, _) = parse_struct(&ts, 0).unwrap();
    let g = process_struct(&s).unwrap();
    assert_eq!(g.generics.len(), 1);
    let text = render_impl(&g);
    assert_eq!(
        text,
        "impl <T: Clone> ::doppleganger::Mirror for S<T> { type Source = Self; type Dest = Target; \
         fn mirror(source: Self::Source) -> Self::Dest { Self::Dest { \
         inner: <T as ::doppleganger::Mirror>::mirror(source.inner), } } }"
    );
}

#[test]
fn empty_struct_generates_empty_construction() {
    let mut ts = forward_to("Empty");
    ts.extend(vec![gid("struct"), gid("S"), gopen(Delim::Brace), gclose(Delim::Brace)]);
    let g = dg_macros(&ts).unwrap();
    assert_eq!(g.assigns.len(), 0);
    let text = render_impl(&g);
    assert_eq!(
        text,
        "impl ::doppleganger::Mirror for S { type Source = Self; type Dest = Empty; \
         fn mirror(source: Self::Source) -> Self::Dest { Self::Dest { } } }"
    );
}

#[test]
fn forward_and_backward_assigns_are_mutually_inverse() {
    // The same field list, with one rename, generated in both directions:
    // the destination of each forward assignment is the source of the
    // corresponding backward assignment and the other way round.
    let body = |dir: Vec<Token>| {
        let mut ts = dir;
        ts.extend(vec![gid("struct"), gid("S"), gopen(Delim::Brace)]);
        ts.extend(field("id", "u64"));
        ts.extend(dg_attr(vec![gid("rename"), gpunct('='), glit("\"username\"")]));
        ts.extend(field("db_username", "String"));
        ts.push(gclose(Delim::Brace));
        ts
    };
    let fwd = dg_macros(&body(forward_to("T"))).unwrap();
    let bwd = dg_macros(&body(backward_to("T"))).unwrap();
    assert_eq!(fwd.assigns.len(), bwd.assigns.len());
    for (fa, ba) in fwd.assigns.iter().zip(bwd.assigns.iter()) {
        let fsrc = match &fa.expr {
            GenExpr::MirrorCall { source_field, .. } => source_field.clone(),
            GenExpr::MapCall { source_field, .. } => source_field.clone(),
        };
        let bsrc = match &ba.expr {
            GenExpr::MirrorCall { source_field, .. } => source_field.clone(),
            GenExpr::MapCall { source_field, .. } => source_field.clone(),
        };
        assert_eq!(fa.dest, bsrc);
        assert_eq!(ba.dest, fsrc);
    }
}

#[test]
fn first_of_duplicate_renames_wins() {
    let mut ts = forward_to("T");
    ts.extend(vec![gid("struct"), gid("S"), gopen(Delim::Brace)]);
    ts.extend(dg_attr(vec![gid("rename"), gpunct('='), glit("\"first\"")]));
    ts.extend(dg_attr(vec![gid("rename"), gpunct('='), glit("\"second\"")]));
    ts.extend(field("x", "u8"));
    ts.push(gclose(Delim::Brace));

    let g = dg_macros(&ts).unwrap();
    assert_eq!(g.assigns.len(), 1);
    assert_eq!(g.assigns[0].dest, "first");
}

#[test]
fn rename_and_map_combine_on_one_field() {
    // Under Forward the rename names the destination and the map path is
    // called on the declared source field.
    let mut ts = forward_to("T");
    ts.extend(vec![gid("struct"), gid("S"), gopen(Delim::Brace)]);
    ts.extend(dg_attr(vec![
        gid("rename"),
        gpunct('='),
        glit("\"renamed\""),
        gpunct(','),
        gid("map"),
        gpunct('='),
        gid("convert_it"),
    ]));
    ts.extend(field("x", "u8"));
    ts.push(gclose(Delim::Brace));

    let g = dg_macros(&ts).unwrap();
    assert_eq!(g.assigns.len(), 1);
    assert_eq!(g.assigns[0].dest, "renamed");
    match &g.assigns[0].expr {
        GenExpr::MapCall { path, source_field } => {
            assert_eq!(&path.segments[0], "convert_it");
            assert_eq!(source_field, "x");
        }
        _ => panic!("the map path must be used"),
    }
}

#[test]
fn config_errors_carry_their_diagnostic_text() {
    assert_eq!(
        ConfigError::MissingDirection.message(),
        "Missing #[dg(forward = ...)] or #[dg(backward = ...)] attribute on struct"
    );
    assert_eq!(
        ConfigError::UnsupportedTupleStruct.message(),
        "Tuple structs not yet supported"
    );
    assert_eq!(
        ConfigError::UnsupportedUnitStruct.message(),
        "Unit structs not yet supported"
    );
    assert_eq!(
        ConfigError::UnimplementedEnum.message(),
        "Enum declarations are not yet implemented"
    );
}
