//! The flat lexical token model that the parser consumes. A bracketed group
//! appears as an `Open` token, its contents, then the matching `Close` token.

use vstd::prelude::*;

verus! {

/// The three bracket shapes that can delimit a group of tokens.
#[derive(Clone, Copy, PartialEq, Eq, Structural, Debug)]
pub enum Delim {
    Paren,
    Bracket,
    Brace,
}

/// One lexical token. `Literal` carries the raw source text of the literal,
/// quotes included for string literals.
#[derive(Debug)]
pub enum Token {
    Ident(String),
    Punct(char),
    Literal(String),
    Open(Delim),
    Close(Delim),
}

/// The content of a string literal: the raw text stripped of its surrounding
/// double quotes. Any other raw text is not a string literal.
pub open spec fn spec_unquote(raw: Seq<char>) -> Option<Seq<char>> {
    if raw.len() >= 2 && raw[0] == '"' && raw[raw.len() - 1] == '"' {
        Some(raw.subrange(1, raw.len() - 1))
    } else {
        None
    }
}

/// Strip the surrounding double quotes from a string literal's raw text.
pub fn unquote(raw: &str) -> (r: Option<String>)
    ensures
        match r {
            Some(s) => spec_unquote(raw@) == Some(s@),
            None => spec_unquote(raw@) is None,
        },
{
    let n = raw.unicode_len();
    if n >= 2 && raw.get_char(0) == '"' && raw.get_char(n - 1) == '"' {
        Some(raw.substring_char(1, n - 1).to_owned())
    } else {
        None
    }
}

} // verus!
