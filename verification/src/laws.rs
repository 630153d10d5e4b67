//! The laws the tokenizer obeys, stated over the spec model and proved once
//! for every input.

use vstd::prelude::*;

use crate::lexer::Lexer;
use crate::lexer::lemma_token_end_bounds;
use crate::lexer::run_end;
use crate::lexer::token_end;
use crate::lexer::token_seq;
use crate::token::TokenKind;

verus! {

/// The concatenation, in order, of the texts of a token sequence.
pub open spec fn texts_concat(toks: Seq<(TokenKind, Seq<char>)>) -> Seq<char>
    decreases toks.len(),
{
    if toks.len() == 0 {
        Seq::empty()
    } else {
        toks[0].1 + texts_concat(toks.drop_first())
    }
}

/// Round trip from any position: concatenating the texts of the tokens
/// produced from `pos` onward reconstructs the rest of the input exactly,
/// with no gaps and no overlaps.
pub proof fn lemma_round_trip_from(input: Seq<char>, pos: int)
    requires
        0 <= pos <= input.len(),
    ensures
        texts_concat(token_seq(input, pos)) == input.subrange(pos, input.len() as int),
    decreases input.len() - pos,
{
    if pos == input.len() {
        assert(texts_concat(token_seq(input, pos)) =~= input.subrange(pos, input.len() as int));
    } else {
        let end = token_end(input, pos);
        lemma_token_end_bounds(input, pos);
        lemma_round_trip_from(input, end);
        let toks = token_seq(input, pos);
        assert(toks.drop_first() =~= token_seq(input, end));
        assert(input.subrange(pos, end) + input.subrange(end, input.len() as int) =~= input
            .subrange(pos, input.len() as int));
    }
}

/// Total coverage / round trip: for every input, concatenating the texts of
/// all tokens produced by tokenizing it to exhaustion yields the input back.
pub proof fn lemma_round_trip(input: Seq<char>)
    ensures
        texts_concat(token_seq(input, 0)) == input,
{
    lemma_round_trip_from(input, 0);
    assert(input.subrange(0, input.len() as int) =~= input);
}

/// Progress: a token produced from non-empty remaining input consumes at
/// least one character, so no token in a tokenization is ever empty.
pub proof fn lemma_progress(input: Seq<char>, pos: int)
    requires
        0 <= pos <= input.len(),
    ensures
        forall|i: int|
            0 <= i < token_seq(input, pos).len() ==> #[trigger] token_seq(input, pos)[i].1.len()
                >= 1,
    decreases input.len() - pos,
{
    if pos < input.len() {
        let end = token_end(input, pos);
        lemma_token_end_bounds(input, pos);
        lemma_progress(input, end);
        let toks = token_seq(input, pos);
        assert(forall|i: int|
            1 <= i < toks.len() ==> toks[i] == #[trigger] token_seq(input, end)[i - 1]);
    }
}

/// Termination: a finite input yields a finite token sequence, of no more
/// tokens than the input has characters beyond `pos`.
pub proof fn lemma_finite(input: Seq<char>, pos: int)
    requires
        0 <= pos <= input.len(),
    ensures
        token_seq(input, pos).len() <= input.len() - pos,
    decreases input.len() - pos,
{
    if pos < input.len() {
        let end = token_end(input, pos);
        lemma_token_end_bounds(input, pos);
        lemma_finite(input, end);
    }
}

/// Maximal-run scanning: every character from `i` up to the run's end
/// satisfies the continuation predicate, and the run stops only at the first
/// character failing it or at end of input — the run is the longest match.
pub proof fn lemma_run_maximal(input: Seq<char>, i: int, p: spec_fn(char) -> bool)
    requires
        0 <= i <= input.len(),
    ensures
        forall|j: int| i <= j < run_end(input, i, p) ==> p(#[trigger] input[j]),
        run_end(input, i, p) < input.len() ==> !p(input[run_end(input, i, p)]),
    decreases input.len() - i,
{
    if i < input.len() && p(input[i]) {
        lemma_run_maximal(input, i + 1, p);
    }
}

/// Idempotent classification: what a tokenizer produces is a function of its
/// buffer and cursor alone, so two tokenizers over the same buffer, each run
/// to exhaustion, yield identical `(kind, text)` sequences.
pub proof fn lemma_idempotent_classification(l1: Lexer<'_>, l2: Lexer<'_>)
    requires
        l1.buf() == l2.buf(),
        l1.pos() == l2.pos(),
    ensures
        token_seq(l1.buf(), l1.pos()) == token_seq(l2.buf(), l2.pos()),
{
}

} // verus!
