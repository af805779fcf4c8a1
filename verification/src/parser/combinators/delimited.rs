//! A parser between two others.

use vstd::prelude::*;
use crate::repr::Repr;
use crate::parser::combinators::{Combinator, ParseInput, ParseResult, SpecResult, State};

verus! {

/// Runs three parsers in a row and keeps what the middle one found.
pub struct Delimited<P1, P2, P3>(pub P1, pub P2, pub P3);

/// A parser that runs the three parsers in a row and gives what `parser2` found.
#[verifier::allow_in_spec]
pub fn delimited<P1: Combinator, P2: Combinator, P3: Combinator>(
    parser1: P1,
    parser2: P2,
    parser3: P3,
) -> Delimited<P1, P2, P3>
    returns
        Delimited(parser1, parser2, parser3),
{
    Delimited(parser1, parser2, parser3)
}

impl<P1: Combinator, P2: Combinator, P3: Combinator> Combinator for Delimited<P1, P2, P3> {
    type Output = P2::Output;

    open spec fn spec_parse(&self, s: State) -> SpecResult<<P2::Output as Repr>::V> {
        match self.0.spec_parse(s) {
            Ok((s1, _)) => match self.1.spec_parse(s1) {
                Ok((s2, r2)) => match self.2.spec_parse(s2) {
                    Ok((s3, _)) => Ok((s3, r2)),
                    Err(e) => Err(e),
                },
                Err(e) => Err(e),
            },
            Err(e) => Err(e),
        }
    }

    fn parse(&self, input: ParseInput) -> (r: ParseResult<P2::Output>) {
        match self.0.parse(input) {
            Ok((input1, index1, config, _)) => match self.1.parse((input1, index1, config)) {
                Ok((input2, index2, config, result2)) => match self.2.parse(
                    (input2, index2, config),
                ) {
                    Ok((input3, index3, config, _)) => Ok((input3, index3, config, result2)),
                    Err(err) => Err(err),
                },
                Err(err) => Err(err),
            },
            Err(err) => Err(err),
        }
    }
}

} // verus!
