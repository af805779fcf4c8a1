//! A parser that may be absent.

use vstd::prelude::*;
use crate::repr::Repr;
use crate::parser::combinators::{
    clone_input, Combinator, ParseInput, ParseResult, SpecResult, State,
};

verus! {

/// Runs the parser; where it fails, succeeds with nothing, on the state it
/// was given.
pub struct Opt<P>(pub P);

/// A parser that runs `parser1` and succeeds with nothing where it fails.
#[verifier::allow_in_spec]
pub fn opt<P: Combinator>(parser1: P) -> Opt<P>
    returns
        Opt(parser1),
{
    Opt(parser1)
}

impl<P: Combinator> Combinator for Opt<P> {
    type Output = Option<P::Output>;

    open spec fn spec_parse(&self, s: State) -> SpecResult<Option<<P::Output as Repr>::V>> {
        match self.0.spec_parse(s) {
            Ok((s1, v)) => Ok((s1, Some(v))),
            Err(_) => Ok((s, None)),
        }
    }

    fn parse(&self, input: ParseInput) -> (r: ParseResult<Option<P::Output>>) {
        match self.0.parse(clone_input(&input)) {
            Ok((input1, index1, config, result1)) => Ok((input1, index1, config, Some(result1))),
            Err(_) => Ok((input.0, input.1, input.2, None)),
        }
    }
}

/// A failed attempt leaves no trace: where the parser fails, the state is
/// the one that was given.
pub proof fn lemma_failed_attempt_leaves_no_trace<P: Combinator>(parser1: P, s: State)
    requires
        parser1.spec_parse(s) is Err,
    ensures
        opt(parser1).spec_parse(s) == Ok::<(State, Option<<P::Output as Repr>::V>), int>(
            (s, None),
        ),
{
}

} // verus!
