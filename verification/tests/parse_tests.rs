use doppleganger::token::{Token, Delim};
use doppleganger::ast::{StructKind, AttributeInner, AdtDecl};
use doppleganger::parse::{parse_struct, parse_mod_path, parse_decl, parse_dg_inner};
use doppleganger::token::unquote;

fn id(s: &str) -> Token {
    Token::Ident(s.to_string())
}

fn punct(c: char) -> Token {
    Token::Punct(c)
}

fn lit(s: &str) -> Token {
    Token::Literal(s.to_string())
}

fn open(d: Delim) -> Token {
    Token::Open(d)
}

fn close(d: Delim) -> Token {
    Token::Close(d)
}

#[test]
fn test_struct_with_field_doc_comments() {
    // #[derive(Dopplegagner)]
    // pub struct User {
    //     #[doc = " The user's unique identifier"]
    //     pub id: u64,
    // }
    let input = vec![
        punct('#'),
        open(Delim::Bracket),
        id("derive"),
        open(Delim::Paren),
        id("Dopplegagner"),
        close(Delim::Paren),
        close(Delim::Bracket),
        id("pub"),
        id("struct"),
        id("User"),
        open(Delim::Brace),
        punct('#'),
        open(Delim::Bracket),
        id("doc"),
        punct('='),
        lit("\" The user's unique identifier\""),
        close(Delim::Bracket),
        id("pub"),
        id("id"),
        punct(':'),
        id("u64"),
        punct(','),
        close(Delim::Brace),
    ];

    let (parsed, _) = parse_struct(&input, 0).expect("Failed to parse struct");

    // Check that we parsed the struct correctly
    assert_eq!(parsed.name, "User");

    // Extract fields from the struct
    if let StructKind::Struct { fields, .. } = &parsed.kind {
        let field_list = fields;
        assert_eq!(field_list.len(), 1);

        // Check first field (id)
        let id_field = &field_list[0];
        assert_eq!(id_field.name, "id");

        // Extract doc comments from id field
        let mut doc_found = false;
        for attr in &id_field.attributes {
            match &attr.body {
                AttributeInner::Doc(doc_inner) => {
                    assert_eq!(doc_inner, " The user's unique identifier");
                    doc_found = true;
                }
                _ => {
                    // Skip non-doc attributes
                }
            }
        }
        assert!(doc_found, "Should have found a doc comment");
    } else {
        panic!("Expected a regular struct with named fields");
    }
}

#[test]
fn it_parses_mod_path() {
    // axum::http::HeaderMap
    let token_iter = vec![
        id("axum"),
        punct(':'),
        punct(':'),
        id("http"),
        punct(':'),
        punct(':'),
        id("HeaderMap"),
    ];
    let (m, end) = parse_mod_path(&token_iter, 0).unwrap();
    assert!(!m.leading);
    let f = &m.segments[0];
    assert_eq!(f, "axum");
    let f = &m.segments[1];
    assert_eq!(f, "http");
    let f = &m.segments[2];
    assert_eq!(f, "HeaderMap");
    assert_eq!(end, 7);
}

#[test]
fn parses_leading_path_separator() {
    // ::ext::Product
    let ts = vec![punct(':'), punct(':'), id("ext"), punct(':'), punct(':'), id("Product")];
    let (m, end) = parse_mod_path(&ts, 0).unwrap();
    assert!(m.leading);
    assert_eq!(m.segments.len(), 2);
    assert_eq!(&m.segments[0], "ext");
    assert_eq!(&m.segments[1], "Product");
    assert_eq!(end, 6);
}

#[test]
fn rejects_trailing_tokens_after_declaration() {
    // struct S; struct
    let ts = vec![id("struct"), id("S"), punct(';'), id("struct")];
    assert!(parse_decl(&ts).is_err());
}

#[test]
fn parses_unit_and_tuple_struct_kinds() {
    let unit = vec![id("struct"), id("S"), punct(';')];
    match parse_decl(&unit).unwrap() {
        AdtDecl::Struct(s) => assert!(matches!(s.kind, StructKind::UnitStruct)),
        _ => panic!("expected a struct"),
    }

    // struct P(u8, u16);
    let tuple = vec![
        id("struct"),
        id("P"),
        open(Delim::Paren),
        id("u8"),
        punct(','),
        id("u16"),
        close(Delim::Paren),
        punct(';'),
    ];
    match parse_decl(&tuple).unwrap() {
        AdtDecl::Struct(s) => match s.kind {
            StructKind::TupleStruct { types } => {
                assert_eq!(types.len(), 2);
                assert_eq!(&types[0].path.segments[0], "u8");
                assert_eq!(&types[1].path.segments[0], "u16");
            }
            _ => panic!("expected a tuple struct"),
        },
        _ => panic!("expected a struct"),
    }
}

#[test]
fn parses_enum_declaration_shape() {
    // enum E { A, B(u8) }
    let ts = vec![
        id("enum"),
        id("E"),
        open(Delim::Brace),
        id("A"),
        punct(','),
        id("B"),
        open(Delim::Paren),
        id("u8"),
        close(Delim::Paren),
        close(Delim::Brace),
    ];
    match parse_decl(&ts).unwrap() {
        AdtDecl::Enum(e) => assert_eq!(e.name, "E"),
        _ => panic!("expected an enum"),
    }
}

#[test]
fn parses_generic_struct_with_nested_type_arguments() {
    // struct Wrap<T: Clone, const N: usize> { inner: Vec<Option<T>>, }
    let ts = vec![
        id("struct"),
        id("Wrap"),
        punct('<'),
        id("T"),
        punct(':'),
        id("Clone"),
        punct(','),
        id("const"),
        id("N"),
        punct(':'),
        id("usize"),
        punct('>'),
        open(Delim::Brace),
        id("inner"),
        punct(':'),
        id("Vec"),
        punct('<'),
        id("Option"),
        punct('<'),
        id("T"),
        punct('>'),
        punct('>'),
        punct(','),
        close(Delim::Brace),
    ];
    let (s, _) = parse_struct(&ts, 0).unwrap();
    assert_eq!(s.name, "Wrap");
    let generics = s.generics.expect("expected a generics clause");
    assert_eq!(generics.len(), 2);
    match &s.kind {
        StructKind::Struct { fields } => {
            assert_eq!(fields.len(), 1);
            assert_eq!(&fields[0].typ.path.segments[0], "Vec");
            assert_eq!(fields[0].typ.args.len(), 1);
        }
        _ => panic!("expected named fields"),
    }
}

#[test]
fn rejects_unknown_directive_keyword() {
    // would sit inside #[dg(...)]: `flatten` is not a directive
    let ts = vec![id("flatten")];
    assert!(parse_dg_inner(&ts, 0).is_err());
}

#[test]
fn unquote_strips_double_quotes_only() {
    assert_eq!(unquote("\"username\"").unwrap(), "username");
    assert_eq!(unquote("\"\"").unwrap(), "");
    assert!(unquote("username").is_none());
    assert!(unquote("\"").is_none());
}
