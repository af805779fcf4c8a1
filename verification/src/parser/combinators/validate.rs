//! A parser whose result must pass a test.

use vstd::prelude::*;
use crate::repr::Repr;
use crate::parser::combinators::{Combinator, ParseInput, ParseResult, SpecResult, State};

verus! {

/// A test on values of `A` that computes what `spec_holds` says.
pub trait Predicate<A: Repr> {
    /// Whether the test holds of `a`.
    spec fn spec_holds(&self, a: A::V) -> bool;

    /// Tests `a`.
    fn holds(&self, a: &A) -> (b: bool)
        ensures
            b == self.spec_holds(a.repr()),
    ;
}

/// Runs the parser and accepts what it found only if the test holds of it;
/// otherwise fails at the position where the parser started.
pub struct Validated<P, F>(pub P, pub F);

/// A parser that runs `parser` and accepts what it found only if `validate_fn`
/// holds of it.
#[verifier::allow_in_spec]
pub fn validate<P: Combinator, F: Predicate<P::Output>>(parser: P, validate_fn: F) -> Validated<
    P,
    F,
>
    returns
        Validated(parser, validate_fn),
{
    Validated(parser, validate_fn)
}

impl<P: Combinator, F: Predicate<P::Output>> Combinator for Validated<P, F> {
    type Output = P::Output;

    open spec fn spec_parse(&self, s: State) -> SpecResult<<P::Output as Repr>::V> {
        match self.0.spec_parse(s) {
            Ok((s1, v)) => if self.1.spec_holds(v) {
                Ok((s1, v))
            } else {
                Err(s.pos)
            },
            Err(e) => Err(e),
        }
    }

    fn parse(&self, input: ParseInput) -> (r: ParseResult<P::Output>) {
        let index = input.1;
        match self.0.parse(input) {
            Ok((input2, next_index, config, result)) => {
                if self.1.holds(&result) {
                    Ok((input2, next_index, config, result))
                } else {
                    Err(index)
                }
            },
            Err(err) => Err(err),
        }
    }
}

} // verus!
