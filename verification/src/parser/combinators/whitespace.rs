//! White space: spaces, tabs, carriage returns and line feeds.

use vstd::prelude::*;
use crate::parser::combinators::alt::alt4;
use crate::parser::combinators::many::{many0, many1};
use crate::parser::combinators;
use crate::parser::combinators::map::Discard;
use crate::parser::combinators::tag::tag;
use crate::parser::combinators::{Combinator, ParseInput, ParseResult, SpecResult, State};

verus! {

/// Any run of white space, the empty one too.
#[verifier::opaque]
pub open spec fn spec_whitespace0(s: State) -> SpecResult<()> {
    combinators::map::map(
        many0(alt4(tag(" "), tag("\t"), tag("\r"), tag("\n"))),
        Discard,
    ).spec_parse(s)
}

/// The parser of [`spec_whitespace0`].
pub struct Whitespace0;

/// A parser of [`spec_whitespace0`].
#[verifier::allow_in_spec]
pub fn whitespace0() -> Whitespace0
    returns
        Whitespace0,
{
    Whitespace0
}

impl Combinator for Whitespace0 {
    type Output = ();

    open spec fn spec_parse(&self, s: State) -> SpecResult<()> {
        spec_whitespace0(s)
    }

    fn parse(&self, input: ParseInput) -> (r: ParseResult<()>) {
        proof {
            reveal(spec_whitespace0);
        }
        combinators::map::map(
            many0(alt4(tag(" "), tag("\t"), tag("\r"), tag("\n"))),
            Discard,
        ).parse(input)
    }
}

/// A run of white space of at least one character.
#[verifier::opaque]
pub open spec fn spec_whitespace1(s: State) -> SpecResult<()> {
    combinators::map::map(
        many1(alt4(tag(" "), tag("\t"), tag("\r"), tag("\n"))),
        Discard,
    ).spec_parse(s)
}

/// The parser of [`spec_whitespace1`].
pub struct Whitespace1;

/// A parser of [`spec_whitespace1`].
#[verifier::allow_in_spec]
pub fn whitespace1() -> Whitespace1
    returns
        Whitespace1,
{
    Whitespace1
}

impl Combinator for Whitespace1 {
    type Output = ();

    open spec fn spec_parse(&self, s: State) -> SpecResult<()> {
        spec_whitespace1(s)
    }

    fn parse(&self, input: ParseInput) -> (r: ParseResult<()>) {
        proof {
            reveal(spec_whitespace1);
        }
        combinators::map::map(
            many1(alt4(tag(" "), tag("\t"), tag("\r"), tag("\n"))),
            Discard,
        ).parse(input)
    }
}

} // verus!
