//! The parser of one character outside a set.

use vstd::prelude::*;
use vstd::string::*;
use crate::text::{contains_char, slice};
use crate::parser::combinators::{Combinator, ParseInput, ParseResult, SpecResult, State};

verus! {

/// Takes one character, unless it is one of those it holds.
pub struct NoneOf(pub &'static str);

/// A parser that takes one character that is not in `chars`.
#[verifier::allow_in_spec]
pub fn none_of(chars: &'static str) -> NoneOf
    returns
        NoneOf(chars),
{
    NoneOf(chars)
}

impl Combinator for NoneOf {
    type Output = String;

    open spec fn spec_parse(&self, s: State) -> SpecResult<Seq<char>> {
        if 0 <= s.pos < s.text.len() && !self.0@.contains(s.text[s.pos]) {
            Ok((State { pos: s.pos + 1, ..s }, s.text.subrange(s.pos, s.pos + 1)))
        } else {
            Err(s.pos)
        }
    }

    fn parse(&self, input: ParseInput) -> (r: ParseResult<String>) {
        let index = input.1;
        if index < input.0.as_str().unicode_len() {
            let next = input.0.as_str().get_char(index);
            if contains_char(self.0, next) {
                Err(index)
            } else {
                let taken = slice(&input.0, index, index + 1);
                Ok((input.0, index + 1, input.2, taken))
            }
        } else {
            Err(index)
        }
    }
}

} // verus!
