//! The parser of a literal.

use vstd::prelude::*;
use crate::text::{matches_at, starts_at};
use crate::parser::combinators::{Combinator, ParseInput, ParseResult, SpecResult, State};

verus! {

/// Accepts the literal it holds, where it stands at the cursor.
pub struct Tag(pub &'static str);

/// A parser that accepts the literal `expected`.
#[verifier::allow_in_spec]
pub fn tag(expected: &'static str) -> Tag
    returns
        Tag(expected),
{
    Tag(expected)
}

impl Combinator for Tag {
    type Output = ();

    open spec fn spec_parse(&self, s: State) -> SpecResult<()> {
        if matches_at(s.text, s.pos, self.0@) {
            Ok((State { pos: s.pos + self.0@.len(), ..s }, ()))
        } else {
            Err(s.pos)
        }
    }

    fn parse(&self, input: ParseInput) -> (r: ParseResult<()>) {
        if starts_at(input.0.as_str(), input.1, self.0) {
            let n = self.0.unicode_len();
            Ok((input.0, input.1 + n, input.2, ()))
        } else {
            Err(input.1)
        }
    }
}

} // verus!
