use crate::syntatic_analyzer::terminals::{lift, Token};
use crate::token;
use crate::token::{advance_line, scan, StreamView};
use std::str::Chars;
use vstd::prelude::*;
use vstd::std_specs::iter::IteratorSpec;

verus! {

/// The source of the terminals that the automaton reads: the scanner's
/// tokens, each as the terminal that it is.
pub struct TokenStream<'a> {
    tokens: token::TokenStream<'a>,
}

impl<'a> View for TokenStream<'a> {
    type V = StreamView;

    closed spec fn view(&self) -> StreamView {
        self.tokens@
    }
}

impl<'a> TokenStream<'a> {
    /// A source at the start of what `it` has still to give.
    pub fn new(it: Chars<'a>) -> (r: Self)
        ensures
            r@ == (StreamView { text: it.remaining(), pos: 0, line: 1 }),
    {
        TokenStream { tokens: token::TokenStream::new(it) }
    }

    /// The next terminal. The stream does not end: after the last token
    /// of the text it gives the end mark, again and again.
    pub fn next(&mut self) -> (r: Option<Token<'a>>)
        ensures
            r is Some,
            r->Some_0@ == lift(scan(old(self)@.text, old(self)@.pos as int).token),
            final(self)@.text == old(self)@.text,
            final(self)@.pos == scan(old(self)@.text, old(self)@.pos as int).end,
            final(self)@.line == advance_line(
                old(self)@.line,
                scan(old(self)@.text, old(self)@.pos as int).feeds,
            ),
    {
        match self.tokens.next() {
            Some(t) => Some(Token::from_token(t)),
            None => None,
        }
    }
}

} // verus!
