//! The tokenizer: a cursor over an input buffer that splits it into a gapless
//! sequence of classified tokens.
//!
//! The spec model comes first: `run_end` and `string_end` give the end of one
//! scan, `spec_token` gives the kind and end of the token starting at a
//! position, and `token_seq` gives the whole token sequence. The executable
//! `Lexer` is proved to produce exactly that sequence.

use vstd::prelude::*;

use crate::classify::comment_pred;
use crate::classify::digit_pred;
use crate::classify::is_digit;
use crate::classify::is_symbol_continue;
use crate::classify::is_symbol_start;
use crate::classify::is_unknown;
use crate::classify::is_whitespace;
use crate::classify::spec_is_delimiter;
use crate::classify::spec_is_digit;
use crate::classify::spec_is_quote_mark;
use crate::classify::spec_is_symbol_continue;
use crate::classify::spec_is_symbol_start;
use crate::classify::spec_is_unknown;
use crate::classify::spec_is_whitespace;
use crate::classify::symbol_continue_pred;
use crate::classify::unknown_pred;
use crate::classify::whitespace_pred;
use crate::token::Token;
use crate::token::TokenKind;

verus! {

/// End of the maximal run of characters satisfying `p`, scanning forward from
/// `i`: the first position at or after `i` holding a character that fails `p`,
/// or the end of the input.
pub open spec fn run_end(input: Seq<char>, i: int, p: spec_fn(char) -> bool) -> int
    recommends
        0 <= i <= input.len(),
    decreases input.len() - i,
{
    if i < input.len() && p(input[i]) {
        run_end(input, i + 1, p)
    } else {
        i
    }
}

/// End of a string literal's scan from position `i`, one past its opening
/// quote, with `escaped` saying whether the previous character armed the
/// escape. The scan stops one past an unescaped `"`, or at end of input.
pub open spec fn string_end(input: Seq<char>, i: int, escaped: bool) -> int
    recommends
        0 <= i <= input.len(),
    decreases input.len() - i,
{
    if i >= input.len() {
        i
    } else if !escaped && input[i] == '\\' {
        string_end(input, i + 1, true)
    } else if !escaped && input[i] == '"' {
        i + 1
    } else {
        string_end(input, i + 1, false)
    }
}

/// The kind and end position of the token starting at `start`, dispatched on
/// the first character exactly as the tokenizer scans: delimiters and quote
/// marks are single characters, `-` and `#` take one character of lookahead,
/// and every other rule scans a maximal run.
pub open spec fn spec_token(input: Seq<char>, start: int) -> (TokenKind, int)
    recommends
        0 <= start < input.len(),
{
    let c = input[start];
    let next = start + 1;
    if spec_is_delimiter(c) {
        (TokenKind::Delimiter, next)
    } else if spec_is_quote_mark(c) {
        (TokenKind::QuoteMark, next)
    } else if spec_is_digit(c) {
        (TokenKind::Number, run_end(input, next, digit_pred()))
    } else if c == '-' {
        if next < input.len() && spec_is_digit(input[next]) {
            (TokenKind::Number, run_end(input, next, digit_pred()))
        } else {
            (TokenKind::Symbol, run_end(input, next, symbol_continue_pred()))
        }
    } else if c == '#' {
        if next < input.len() && (input[next] == 't' || input[next] == 'f') {
            (TokenKind::Bool, start + 2)
        } else {
            (TokenKind::Unknown, run_end(input, next, unknown_pred()))
        }
    } else if c == '"' {
        (TokenKind::StringLiteral, string_end(input, next, false))
    } else if c == ';' {
        (TokenKind::Comment, run_end(input, next, comment_pred()))
    } else if spec_is_symbol_start(c) {
        (TokenKind::Symbol, run_end(input, next, symbol_continue_pred()))
    } else if spec_is_whitespace(c) {
        (TokenKind::Whitespace, run_end(input, next, whitespace_pred()))
    } else {
        (TokenKind::Unknown, run_end(input, next, unknown_pred()))
    }
}

/// The kind of the token starting at `start`.
pub open spec fn token_kind_at(input: Seq<char>, start: int) -> TokenKind {
    spec_token(input, start).0
}

/// One past the last character of the token starting at `start`.
pub open spec fn token_end(input: Seq<char>, start: int) -> int {
    spec_token(input, start).1
}

/// A run's end never lies before its start nor past the end of the input.
pub broadcast proof fn lemma_run_end_bounds(input: Seq<char>, i: int, p: spec_fn(char) -> bool)
    requires
        0 <= i <= input.len(),
    ensures
        i <= #[trigger] run_end(input, i, p) <= input.len(),
    decreases input.len() - i,
{
    if i < input.len() && p(input[i]) {
        lemma_run_end_bounds(input, i + 1, p);
    }
}

/// A string scan's end never lies before its start nor past the end of the
/// input.
pub broadcast proof fn lemma_string_end_bounds(input: Seq<char>, i: int, escaped: bool)
    requires
        0 <= i <= input.len(),
    ensures
        i <= #[trigger] string_end(input, i, escaped) <= input.len(),
    decreases input.len() - i,
{
    if i < input.len() && !(!escaped && input[i] == '"') {
        lemma_string_end_bounds(input, i + 1, !escaped && input[i] == '\\');
    }
}

/// Progress: a token starting inside the input consumes at least one character
/// and never runs past the end of the input.
pub proof fn lemma_token_end_bounds(input: Seq<char>, start: int)
    requires
        0 <= start < input.len(),
    ensures
        start < token_end(input, start) <= input.len(),
{
    broadcast use lemma_run_end_bounds, lemma_string_end_bounds;

}

/// The sequence of `(kind, text)` pairs produced by tokenizing `input` from
/// position `pos` to exhaustion. Each token's text is the exact span the scan
/// consumed.
pub open spec fn token_seq(input: Seq<char>, pos: int) -> Seq<(TokenKind, Seq<char>)>
    decreases input.len() - pos,
    when 0 <= pos <= input.len()
    via token_seq_decreases
{
    if pos >= input.len() {
        Seq::empty()
    } else {
        seq![(token_kind_at(input, pos), input.subrange(pos, token_end(input, pos)))]
            + token_seq(input, token_end(input, pos))
    }
}

#[via_fn]
proof fn token_seq_decreases(input: Seq<char>, pos: int) {
    if pos < input.len() {
        lemma_token_end_bounds(input, pos);
    }
}

/// A tokenizer: a borrowed input buffer and a single cursor that advances
/// monotonically as tokens are produced. Copies of a `Lexer` iterate
/// independently over the shared read-only buffer.
#[derive(Clone, Copy)]
pub struct Lexer<'a> {
    input: &'a [char],
    cursor: usize,
}

impl<'a> Lexer<'a> {
    /// The input buffer, as a sequence of characters.
    pub closed spec fn buf(self) -> Seq<char> {
        self.input@
    }

    /// The cursor: how many characters have been consumed so far.
    pub closed spec fn pos(self) -> int {
        self.cursor as int
    }

    /// The cursor never leaves the input: it lies between the start and one
    /// past the last character.
    pub open spec fn wf(self) -> bool {
        0 <= self.pos() <= self.buf().len()
    }

    /// Creates a tokenizer at the start of `input`.
    pub fn new(input: &'a [char]) -> (l: Lexer<'a>)
        ensures
            l.buf() == input@,
            l.pos() == 0,
            l.wf(),
    {
        Lexer { input, cursor: 0 }
    }

    /// What `Lexer::from` builds: a tokenizer over `input` with the cursor at
    /// the start.
    pub closed spec fn from_start(input: &'a [char]) -> Lexer<'a> {
        Lexer { input, cursor: 0 }
    }

    /// A tokenizer built by `Lexer::from` stands over the given buffer with
    /// its cursor at the start.
    pub broadcast proof fn lemma_from_start(input: &'a [char])
        ensures
            (#[trigger] Lexer::from_start(input)).buf() == input@,
            Lexer::from_start(input).pos() == 0,
            Lexer::from_start(input).wf(),
    {
    }

    /// One character of lookahead: the character under the cursor, without
    /// consuming it, or `None` at end of input.
    pub fn peek_char(&self) -> (c: Option<char>)
        requires
            self.wf(),
        ensures
            self.buf().len() <= usize::MAX,
            match c {
                Some(ch) => self.pos() < self.buf().len() && ch == self.buf()[self.pos()],
                None => self.pos() == self.buf().len(),
            },
    {
        if self.cursor < self.input.len() {
            Some(self.input[self.cursor])
        } else {
            None
        }
    }

    /// The cursor's position: the count of characters consumed so far.
    pub fn current_pos(&self) -> (n: usize)
        ensures
            n == self.pos(),
    {
        self.cursor
    }

    /// Consumes the maximal run of characters satisfying `pred`, a decider for
    /// the spec predicate `p`: afterwards the cursor stands at `run_end` of
    /// its old position.
    pub fn skip_while<F: Fn(char) -> bool>(&mut self, pred: F, Ghost(p): Ghost<
        spec_fn(char) -> bool,
    >)
        requires
            old(self).wf(),
            forall|c: char| #[trigger] pred.requires((c,)),
            forall|c: char, b: bool| pred.ensures((c,), b) ==> b == p(c),
        ensures
            final(self).wf(),
            final(self).buf() == old(self).buf(),
            final(self).pos() == run_end(old(self).buf(), old(self).pos(), p),
    {
        let ghost buf0 = self.buf();
        let ghost pos0 = self.pos();
        loop
            invariant
                self.wf(),
                self.buf() == buf0,
                pos0 <= self.pos(),
                forall|c: char| #[trigger] pred.requires((c,)),
                forall|c: char, b: bool| pred.ensures((c,), b) ==> b == p(c),
                run_end(buf0, self.pos(), p) == run_end(buf0, pos0, p),
            ensures
                self.pos() == run_end(buf0, pos0, p),
            decreases buf0.len() - self.pos(),
        {
            match self.peek_char() {
                None => {
                    break;
                },
                Some(c) => {
                    if !pred(c) {
                        break;
                    }
                    self.cursor = self.cursor + 1;
                },
            }
        }
    }

    /// Scans the maximal digit run under the cursor; the token is a `Number`.
    pub fn read_number(&mut self) -> (k: TokenKind)
        requires
            old(self).wf(),
        ensures
            final(self).wf(),
            final(self).buf() == old(self).buf(),
            final(self).pos() == run_end(old(self).buf(), old(self).pos(), digit_pred()),
            k == TokenKind::Number,
    {
        self.skip_while(
            (|c: char| -> (b: bool)
                ensures
                    b == spec_is_digit(c),
                { is_digit(c) }),
            Ghost(digit_pred()),
        );
        TokenKind::Number
    }

    /// Scans the maximal symbol-continue run under the cursor; the token is a
    /// `Symbol`.
    pub fn read_symbol(&mut self) -> (k: TokenKind)
        requires
            old(self).wf(),
        ensures
            final(self).wf(),
            final(self).buf() == old(self).buf(),
            final(self).pos() == run_end(old(self).buf(), old(self).pos(), symbol_continue_pred()),
            k == TokenKind::Symbol,
    {
        self.skip_while(
            (|c: char| -> (b: bool)
                ensures
                    b == spec_is_symbol_continue(c),
                { is_symbol_continue(c) }),
            Ghost(symbol_continue_pred()),
        );
        TokenKind::Symbol
    }

    /// Scans the maximal whitespace run under the cursor; the token is a
    /// `Whitespace`.
    pub fn read_whitespace(&mut self) -> (k: TokenKind)
        requires
            old(self).wf(),
        ensures
            final(self).wf(),
            final(self).buf() == old(self).buf(),
            final(self).pos() == run_end(old(self).buf(), old(self).pos(), whitespace_pred()),
            k == TokenKind::Whitespace,
    {
        self.skip_while(
            (|c: char| -> (b: bool)
                ensures
                    b == spec_is_whitespace(c),
                { is_whitespace(c) }),
            Ghost(whitespace_pred()),
        );
        TokenKind::Whitespace
    }

    /// Scans the maximal run of unknown characters under the cursor; the token
    /// is an `Unknown`.
    pub fn read_unknown(&mut self) -> (k: TokenKind)
        requires
            old(self).wf(),
        ensures
            final(self).wf(),
            final(self).buf() == old(self).buf(),
            final(self).pos() == run_end(old(self).buf(), old(self).pos(), unknown_pred()),
            k == TokenKind::Unknown,
    {
        self.skip_while(
            (|c: char| -> (b: bool)
                ensures
                    b == spec_is_unknown(c),
                { is_unknown(c) }),
            Ghost(unknown_pred()),
        );
        TokenKind::Unknown
    }

    /// Scans up to (not including) the next line break or end of input; the
    /// token is a `Comment`.
    pub fn read_comment(&mut self) -> (k: TokenKind)
        requires
            old(self).wf(),
        ensures
            final(self).wf(),
            final(self).buf() == old(self).buf(),
            final(self).pos() == run_end(old(self).buf(), old(self).pos(), comment_pred()),
            k == TokenKind::Comment,
    {
        self.skip_while(
            (|c: char| -> (b: bool)
                ensures
                    b == (c != '\n' && c != '\r'),
                { c != '\n' && c != '\r' }),
            Ghost(comment_pred()),
        );
        TokenKind::Comment
    }

    /// Disambiguates a consumed `-` with one character of lookahead: a digit
    /// under the cursor starts a `Number` scan, anything else (or end of
    /// input) a `Symbol` scan.
    pub fn read_hyphen(&mut self) -> (k: TokenKind)
        requires
            old(self).wf(),
        ensures
            final(self).wf(),
            final(self).buf() == old(self).buf(),
            ({
                let buf = old(self).buf();
                let pos = old(self).pos();
                if pos < buf.len() && spec_is_digit(buf[pos]) {
                    k == TokenKind::Number && final(self).pos() == run_end(buf, pos, digit_pred())
                } else {
                    k == TokenKind::Symbol && final(self).pos() == run_end(
                        buf,
                        pos,
                        symbol_continue_pred(),
                    )
                }
            }),
    {
        if let Some(c) = self.peek_char() {
            if is_digit(c) {
                self.read_number()
            } else {
                self.read_symbol()
            }
        } else {
            TokenKind::Symbol
        }
    }

    /// Resolves a consumed `#` with one character of lookahead: a `t` or `f`
    /// under the cursor is consumed to finish a `Bool`; anything else leaves
    /// the `#` to an unknown-run scan.
    pub fn read_hash(&mut self) -> (k: TokenKind)
        requires
            old(self).wf(),
        ensures
            final(self).wf(),
            final(self).buf() == old(self).buf(),
            ({
                let buf = old(self).buf();
                let pos = old(self).pos();
                if pos < buf.len() && (buf[pos] == 't' || buf[pos] == 'f') {
                    k == TokenKind::Bool && final(self).pos() == pos + 1
                } else {
                    k == TokenKind::Unknown && final(self).pos() == run_end(
                        buf,
                        pos,
                        unknown_pred(),
                    )
                }
            }),
    {
        match self.peek_char() {
            Some(c) if c == 't' || c == 'f' => {
                self.cursor = self.cursor + 1;
                TokenKind::Bool
            },
            _ => self.read_unknown(),
        }
    }

    /// Scans a string literal's body: everything up to one past the first
    /// unescaped `"`, or to end of input if the literal is unterminated. A
    /// `\` not itself escaped arms the escape for exactly the next character.
    pub fn read_string(&mut self) -> (k: TokenKind)
        requires
            old(self).wf(),
        ensures
            final(self).wf(),
            final(self).buf() == old(self).buf(),
            final(self).pos() == string_end(old(self).buf(), old(self).pos(), false),
            k == TokenKind::StringLiteral,
    {
        let ghost buf0 = self.buf();
        let ghost pos0 = self.pos();
        let mut escape_next = false;
        loop
            invariant_except_break
                self.wf(),
                self.buf() == buf0,
                pos0 <= self.pos(),
                string_end(buf0, self.pos(), escape_next) == string_end(buf0, pos0, false),
            ensures
                self.wf(),
                self.buf() == buf0,
                self.pos() == string_end(buf0, pos0, false),
            decreases buf0.len() - self.pos(),
        {
            match self.peek_char() {
                None => {
                    break;
                },
                Some(c) => {
                    self.cursor = self.cursor + 1;
                    if !escape_next && c == '\\' {
                        escape_next = true;
                    } else if !escape_next && c == '"' {
                        break;
                    } else {
                        escape_next = false;
                    }
                },
            }
        }
        TokenKind::StringLiteral
    }

    /// Produces the next token, or `None` once the cursor has reached the end
    /// of input. A produced token starts at the old cursor, is never empty,
    /// and its kind and span are exactly those of `spec_token` there; the
    /// cursor advances one past the token's last character.
    pub fn read_next(&mut self) -> (t: Option<Token>)
        requires
            old(self).wf(),
        ensures
            final(self).wf(),
            final(self).buf() == old(self).buf(),
            old(self).pos() == old(self).buf().len() ==> t is None && final(self).pos() == old(
                self,
            ).pos(),
            old(self).pos() < old(self).buf().len() ==> ({
                let buf = old(self).buf();
                let start = old(self).pos();
                &&& t is Some
                &&& final(self).pos() == token_end(buf, start)
                &&& start < final(self).pos() <= buf.len()
                &&& t->Some_0.kind == token_kind_at(buf, start)
                &&& t->Some_0.text@ == buf.subrange(start, token_end(buf, start))
            }),
    {
        let ghost buf0 = self.buf();
        let start = self.cursor;
        let c = match self.peek_char() {
            None => {
                return None;
            },
            Some(c) => c,
        };
        self.cursor = self.cursor + 1;
        let kind = if c == '(' || c == ')' || c == '[' || c == ']' || c == '.' {
            TokenKind::Delimiter
        } else if c == '\'' || c == '`' || c == ',' {
            TokenKind::QuoteMark
        } else if is_digit(c) {
            self.read_number()
        } else if c == '-' {
            self.read_hyphen()
        } else if c == '#' {
            self.read_hash()
        } else if c == '"' {
            self.read_string()
        } else if c == ';' {
            self.read_comment()
        } else if is_symbol_start(c) {
            self.read_symbol()
        } else if is_whitespace(c) {
            self.read_whitespace()
        } else {
            self.read_unknown()
        };
        proof {
            assert(kind == token_kind_at(buf0, start as int));
            assert(self.pos() == token_end(buf0, start as int));
            lemma_token_end_bounds(buf0, start as int);
        }
        let end = self.cursor;
        let mut text: Vec<char> = Vec::new();
        let mut i = start;
        while i < end
            invariant
                start <= i <= end <= self.input@.len(),
                self.input@ == buf0,
                text@ == buf0.subrange(start as int, i as int),
            decreases end - i,
        {
            text.push(self.input[i]);
            proof {
                assert(text@ =~= buf0.subrange(start as int, i + 1 as int));
            }
            i = i + 1;
        }
        Some(Token::new(kind, text))
    }

    /// Runs the tokenizer to exhaustion and collects every remaining token, in
    /// order: exactly the `(kind, text)` sequence `token_seq` gives for this
    /// buffer and cursor. The result depends on nothing else, so two
    /// tokenizers over one buffer collect identical sequences.
    pub fn tokenize(&mut self) -> (ts: Vec<Token>)
        requires
            old(self).wf(),
        ensures
            final(self).wf(),
            final(self).buf() == old(self).buf(),
            final(self).pos() == final(self).buf().len(),
            ts@.map_values(|t: Token| t@) == token_seq(old(self).buf(), old(self).pos()),
    {
        let ghost buf0 = self.buf();
        let ghost pos0 = self.pos();
        let mut ts: Vec<Token> = Vec::new();
        loop
            invariant_except_break
                self.wf(),
                self.buf() == buf0,
                0 <= pos0 <= self.pos(),
                token_seq(buf0, pos0) == ts@.map_values(|t: Token| t@) + token_seq(
                    buf0,
                    self.pos(),
                ),
            ensures
                self.wf(),
                self.buf() == buf0,
                self.pos() == buf0.len(),
                ts@.map_values(|t: Token| t@) == token_seq(buf0, pos0),
            decreases buf0.len() - self.pos(),
        {
            let ghost p = self.pos();
            let ghost prefix = ts@.map_values(|t: Token| t@);
            match self.read_next() {
                None => {
                    proof {
                        assert(token_seq(buf0, p) =~= Seq::<(TokenKind, Seq<char>)>::empty());
                        assert(prefix + token_seq(buf0, p) =~= prefix);
                    }
                    break;
                },
                Some(t) => {
                    ts.push(t);
                    proof {
                        assert(ts@.map_values(|t: Token| t@) =~= prefix.push(t@));
                        assert(token_seq(buf0, p) =~= seq![t@] + token_seq(buf0, self.pos()));
                        assert(prefix + token_seq(buf0, p) =~= prefix.push(t@) + token_seq(
                            buf0,
                            self.pos(),
                        ));
                    }
                },
            }
        }
        ts
    }
}

impl<'a> From<&'a [char]> for Lexer<'a> {
    fn from(input: &'a [char]) -> (l: Lexer<'a>) {
        Lexer { input, cursor: 0 }
    }
}

impl<'a> vstd::std_specs::convert::FromSpecImpl<&'a [char]> for Lexer<'a> {
    open spec fn obeys_from_spec() -> bool {
        true
    }

    open spec fn from_spec(input: &'a [char]) -> Lexer<'a> {
        Lexer::from_start(input)
    }
}

} // verus!
