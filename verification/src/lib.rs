//! A lexical tokenizer for a Lisp-family source language, meant to drive a
//! syntax-highlighting renderer.
//!
//! The tokenizer splits an input text into a gapless sequence of classified
//! tokens (delimiters, quote marks, numbers, booleans, symbols, string
//! literals, comments, whitespace, and unknown runs). Concatenating the texts
//! of all tokens reconstructs the input exactly.

pub mod classify;
pub mod laws;
pub mod lexer;
pub mod token;
