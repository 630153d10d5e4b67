//! Tokens and their closed set of kinds.

use vstd::prelude::*;

verus! {

/// The closed set of lexical categories a token can belong to. Every token has
/// exactly one kind, and every kind maps to exactly one display category name.
#[derive(Clone, Copy, Debug, PartialEq, Eq, Structural)]
pub enum TokenKind {
    /// One of `( ) [ ] .`, a single character.
    Delimiter,
    /// One of `' `` ,`, a single character.
    QuoteMark,
    /// A maximal run of decimal digits, possibly led by `-`.
    Number,
    /// `#t` or `#f`, exactly two characters.
    Bool,
    /// A symbol-start character followed by a maximal symbol-continue run.
    Symbol,
    /// A `"`-opened literal, closed by an unescaped `"` or by end of input.
    StringLiteral,
    /// A `;` and everything up to (not including) the next line break.
    Comment,
    /// A maximal run of spaces, tabs, newlines, and carriage returns.
    Whitespace,
    /// A maximal run of characters outside every other category.
    Unknown,
}

impl TokenKind {
    /// The display category name this kind is tagged with in rendered output.
    pub closed spec fn spec_class(self) -> Seq<char> {
        match self {
            TokenKind::Delimiter => "delim"@,
            TokenKind::QuoteMark => "quote"@,
            TokenKind::Number => "number"@,
            TokenKind::Bool => "bool"@,
            TokenKind::Symbol => "symbol"@,
            TokenKind::StringLiteral => "string"@,
            TokenKind::Comment => "comment"@,
            TokenKind::Whitespace => "whitespace"@,
            TokenKind::Unknown => "unknown"@,
        }
    }

    /// Maps the kind to its display category name: a fixed, total function over
    /// the enumeration.
    pub fn to_class(&self) -> (r: &'static str)
        ensures
            r@ == self.spec_class(),
    {
        match self {
            TokenKind::Delimiter => "delim",
            TokenKind::QuoteMark => "quote",
            TokenKind::Number => "number",
            TokenKind::Bool => "bool",
            TokenKind::Symbol => "symbol",
            TokenKind::StringLiteral => "string",
            TokenKind::Comment => "comment",
            TokenKind::Whitespace => "whitespace",
            TokenKind::Unknown => "unknown",
        }
    }
}

/// One classified span of the input: a kind together with the exact text
/// consumed while producing the token. The text is never empty.
#[derive(Debug)]
pub struct Token {
    /// The lexical category of this token.
    pub kind: TokenKind,
    /// The characters consumed while producing this token, an exact copy of
    /// one contiguous span of the input.
    pub text: Vec<char>,
}

impl Token {
    /// Pairs a kind with the text it was produced from.
    pub fn new(kind: TokenKind, text: Vec<char>) -> (t: Token)
        ensures
            t.kind == kind,
            t.text@ == text@,
    {
        Token { kind, text }
    }
}

impl View for Token {
    type V = (TokenKind, Seq<char>);

    open spec fn view(&self) -> (TokenKind, Seq<char>) {
        (self.kind, self.text@)
    }
}

} // verus!
