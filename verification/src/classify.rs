//! Character classification: pure, stateless predicates deciding which lexical
//! category a character can begin or continue.
//!
//! Every character maps to exactly one first-character category; the tokenizer
//! dispatches on these predicates to pick a scan rule.

use vstd::prelude::*;

verus! {

/// A decimal digit, `'0'` through `'9'`.
pub open spec fn spec_is_digit(c: char) -> bool {
    '0' <= c && c <= '9'
}

/// A character that may begin a symbol: an ASCII letter or one of the
/// punctuation characters `+ - * / ^ = < > ? ! : $`.
pub open spec fn spec_is_symbol_start(c: char) -> bool {
    ||| ('a' <= c && c <= 'z')
    ||| ('A' <= c && c <= 'Z')
    ||| c == '+' || c == '-' || c == '*' || c == '/' || c == '^' || c == '='
    ||| c == '<' || c == '>' || c == '?' || c == '!' || c == ':' || c == '$'
}

/// A character that may continue a symbol: a symbol-start character or a digit.
pub open spec fn spec_is_symbol_continue(c: char) -> bool {
    spec_is_symbol_start(c) || spec_is_digit(c)
}

/// Lexical whitespace: space, tab, newline, or carriage return.
pub open spec fn spec_is_whitespace(c: char) -> bool {
    c == ' ' || c == '\t' || c == '\n' || c == '\r'
}

/// A delimiter: one of `( ) [ ] .`.
pub open spec fn spec_is_delimiter(c: char) -> bool {
    c == '(' || c == ')' || c == '[' || c == ']' || c == '.'
}

/// A quote mark: `'`, a backquote, or `,`.
pub open spec fn spec_is_quote_mark(c: char) -> bool {
    c == '\'' || c == '`' || c == ','
}

/// A character matched by no other category's first-character rule: not a
/// delimiter, quote mark, `#`, `"`, `;`, symbol character, digit, or
/// whitespace.
pub open spec fn spec_is_unknown(c: char) -> bool {
    &&& !spec_is_delimiter(c)
    &&& !spec_is_quote_mark(c)
    &&& c != '#'
    &&& c != '"'
    &&& c != ';'
    &&& !spec_is_symbol_continue(c)
    &&& !spec_is_whitespace(c)
}

/// The digit predicate as a value, naming the continuation rule of a number
/// run.
pub open spec fn digit_pred() -> spec_fn(char) -> bool {
    |c: char| spec_is_digit(c)
}

/// The symbol-continue predicate as a value, naming the continuation rule of a
/// symbol run.
pub open spec fn symbol_continue_pred() -> spec_fn(char) -> bool {
    |c: char| spec_is_symbol_continue(c)
}

/// The whitespace predicate as a value, naming the continuation rule of a
/// whitespace run.
pub open spec fn whitespace_pred() -> spec_fn(char) -> bool {
    |c: char| spec_is_whitespace(c)
}

/// The unknown predicate as a value, naming the continuation rule of an
/// unknown run.
pub open spec fn unknown_pred() -> spec_fn(char) -> bool {
    |c: char| spec_is_unknown(c)
}

/// The continuation rule of a comment: any character short of a line break.
pub open spec fn comment_pred() -> spec_fn(char) -> bool {
    |c: char| c != '\n' && c != '\r'
}

#[verifier::when_used_as_spec(spec_is_digit)]
pub fn is_digit(c: char) -> (b: bool)
    ensures
        b == spec_is_digit(c),
{
    '0' <= c && c <= '9'
}

#[verifier::when_used_as_spec(spec_is_symbol_start)]
pub fn is_symbol_start(c: char) -> (b: bool)
    ensures
        b == spec_is_symbol_start(c),
{
    ('a' <= c && c <= 'z') || ('A' <= c && c <= 'Z') || c == '+' || c == '-' || c == '*'
        || c == '/' || c == '^' || c == '=' || c == '<' || c == '>' || c == '?' || c == '!'
        || c == ':' || c == '$'
}

#[verifier::when_used_as_spec(spec_is_symbol_continue)]
pub fn is_symbol_continue(c: char) -> (b: bool)
    ensures
        b == spec_is_symbol_continue(c),
{
    is_symbol_start(c) || is_digit(c)
}

#[verifier::when_used_as_spec(spec_is_whitespace)]
pub fn is_whitespace(c: char) -> (b: bool)
    ensures
        b == spec_is_whitespace(c),
{
    c == ' ' || c == '\t' || c == '\n' || c == '\r'
}

#[verifier::when_used_as_spec(spec_is_unknown)]
pub fn is_unknown(c: char) -> (b: bool)
    ensures
        b == spec_is_unknown(c),
{
    !(c == '(' || c == ')' || c == '[' || c == ']' || c == '.' || c == '\'' || c == '`'
        || c == ',' || c == '#' || c == '"' || c == ';' || is_symbol_continue(c)
        || is_whitespace(c))
}

} // verus!
