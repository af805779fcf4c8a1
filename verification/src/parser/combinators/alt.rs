//! Ordered choice: the alternatives are tried from the left, each on the
//! state that the choice was given, and the first success is the result. When
//! all fail, the failure of the last one is reported.

use vstd::prelude::*;
use crate::repr::Repr;
use crate::parser::combinators::{
    clone_input, Combinator, ParseInput, ParseResult, SpecResult, State,
};

verus! {

/// A choice among two parsers.
pub struct Alt2<P1, P2>(pub P1, pub P2);

/// A choice among the parsers, which are tried in this order.
#[verifier::allow_in_spec]
pub fn alt2<
    P1: Combinator,
    P2: Combinator<Output = P1::Output>,
>(
    parser1: P1,
    parser2: P2,
) -> Alt2<P1, P2>
    returns
        Alt2(parser1, parser2),
{
    Alt2(parser1, parser2)
}

impl<
    P1: Combinator,
    P2: Combinator<Output = P1::Output>,
> Combinator for Alt2<P1, P2> {
    type Output = P1::Output;

    open spec fn spec_parse(&self, s: State) -> SpecResult<<P1::Output as Repr>::V> {
        match self.0.spec_parse(s) {
            Ok(r) => Ok(r),
            Err(_) => self.1.spec_parse(s),
        }
    }

    fn parse(&self, input: ParseInput) -> (r: ParseResult<P1::Output>) {
        match self.0.parse(clone_input(&input)) {
            Ok(parse_result) => Ok(parse_result),
            Err(_) => self.1.parse(input),
        }
    }
}

/// A failed alternative leaves no trace: where the first parser fails, the
/// choice is what the second parser gives on the state that the choice was
/// given, whatever the first one did to the text and the configuration
/// before it failed.
pub proof fn lemma_failed_alternative_leaves_no_trace<
    P1: Combinator,
    P2: Combinator<Output = P1::Output>,
>(parser1: P1, parser2: P2, s: State)
    requires
        parser1.spec_parse(s) is Err,
    ensures
        alt2(parser1, parser2).spec_parse(s) == parser2.spec_parse(s),
{
}

/// A choice among three parsers.
pub struct Alt3<P1, P2, P3>(pub P1, pub P2, pub P3);

/// A choice among the parsers, which are tried in this order.
#[verifier::allow_in_spec]
pub fn alt3<
    P1: Combinator,
    P2: Combinator<Output = P1::Output>,
    P3: Combinator<Output = P1::Output>,
>(
    parser1: P1,
    parser2: P2,
    parser3: P3,
) -> Alt3<P1, P2, P3>
    returns
        Alt3(parser1, parser2, parser3),
{
    Alt3(parser1, parser2, parser3)
}

impl<
    P1: Combinator,
    P2: Combinator<Output = P1::Output>,
    P3: Combinator<Output = P1::Output>,
> Combinator for Alt3<P1, P2, P3> {
    type Output = P1::Output;

    open spec fn spec_parse(&self, s: State) -> SpecResult<<P1::Output as Repr>::V> {
        match self.0.spec_parse(s) {
            Ok(r) => Ok(r),
            Err(_) => match self.1.spec_parse(s) {
                Ok(r) => Ok(r),
                Err(_) => self.2.spec_parse(s),
            },
        }
    }

    fn parse(&self, input: ParseInput) -> (r: ParseResult<P1::Output>) {
        match self.0.parse(clone_input(&input)) {
            Ok(parse_result) => Ok(parse_result),
            Err(_) => match self.1.parse(clone_input(&input)) {
                Ok(parse_result) => Ok(parse_result),
                Err(_) => self.2.parse(input),
            },
        }
    }
}

/// A choice among four parsers.
pub struct Alt4<P1, P2, P3, P4>(pub P1, pub P2, pub P3, pub P4);

/// A choice among the parsers, which are tried in this order.
#[verifier::allow_in_spec]
pub fn alt4<
    P1: Combinator,
    P2: Combinator<Output = P1::Output>,
    P3: Combinator<Output = P1::Output>,
    P4: Combinator<Output = P1::Output>,
>(
    parser1: P1,
    parser2: P2,
    parser3: P3,
    parser4: P4,
) -> Alt4<P1, P2, P3, P4>
    returns
        Alt4(parser1, parser2, parser3, parser4),
{
    Alt4(parser1, parser2, parser3, parser4)
}

impl<
    P1: Combinator,
    P2: Combinator<Output = P1::Output>,
    P3: Combinator<Output = P1::Output>,
    P4: Combinator<Output = P1::Output>,
> Combinator for Alt4<P1, P2, P3, P4> {
    type Output = P1::Output;

    open spec fn spec_parse(&self, s: State) -> SpecResult<<P1::Output as Repr>::V> {
        match self.0.spec_parse(s) {
            Ok(r) => Ok(r),
            Err(_) => match self.1.spec_parse(s) {
                Ok(r) => Ok(r),
                Err(_) => match self.2.spec_parse(s) {
                    Ok(r) => Ok(r),
                    Err(_) => self.3.spec_parse(s),
                },
            },
        }
    }

    fn parse(&self, input: ParseInput) -> (r: ParseResult<P1::Output>) {
        match self.0.parse(clone_input(&input)) {
            Ok(parse_result) => Ok(parse_result),
            Err(_) => match self.1.parse(clone_input(&input)) {
                Ok(parse_result) => Ok(parse_result),
                Err(_) => match self.2.parse(clone_input(&input)) {
                    Ok(parse_result) => Ok(parse_result),
                    Err(_) => self.3.parse(input),
                },
            },
        }
    }
}

/// A choice among five parsers.
pub struct Alt5<P1, P2, P3, P4, P5>(pub P1, pub P2, pub P3, pub P4, pub P5);

/// A choice among the parsers, which are tried in this order.
#[verifier::allow_in_spec]
pub fn alt5<
    P1: Combinator,
    P2: Combinator<Output = P1::Output>,
    P3: Combinator<Output = P1::Output>,
    P4: Combinator<Output = P1::Output>,
    P5: Combinator<Output = P1::Output>,
>(
    parser1: P1,
    parser2: P2,
    parser3: P3,
    parser4: P4,
    parser5: P5,
) -> Alt5<P1, P2, P3, P4, P5>
    returns
        Alt5(parser1, parser2, parser3, parser4, parser5),
{
    Alt5(parser1, parser2, parser3, parser4, parser5)
}

impl<
    P1: Combinator,
    P2: Combinator<Output = P1::Output>,
    P3: Combinator<Output = P1::Output>,
    P4: Combinator<Output = P1::Output>,
    P5: Combinator<Output = P1::Output>,
> Combinator for Alt5<P1, P2, P3, P4, P5> {
    type Output = P1::Output;

    open spec fn spec_parse(&self, s: State) -> SpecResult<<P1::Output as Repr>::V> {
        match self.0.spec_parse(s) {
            Ok(r) => Ok(r),
            Err(_) => match self.1.spec_parse(s) {
                Ok(r) => Ok(r),
                Err(_) => match self.2.spec_parse(s) {
                    Ok(r) => Ok(r),
                    Err(_) => match self.3.spec_parse(s) {
                        Ok(r) => Ok(r),
                        Err(_) => self.4.spec_parse(s),
                    },
                },
            },
        }
    }

    fn parse(&self, input: ParseInput) -> (r: ParseResult<P1::Output>) {
        match self.0.parse(clone_input(&input)) {
            Ok(parse_result) => Ok(parse_result),
            Err(_) => match self.1.parse(clone_input(&input)) {
                Ok(parse_result) => Ok(parse_result),
                Err(_) => match self.2.parse(clone_input(&input)) {
                    Ok(parse_result) => Ok(parse_result),
                    Err(_) => match self.3.parse(clone_input(&input)) {
                        Ok(parse_result) => Ok(parse_result),
                        Err(_) => self.4.parse(input),
                    },
                },
            },
        }
    }
}

/// A choice among six parsers.
pub struct Alt6<P1, P2, P3, P4, P5, P6>(pub P1, pub P2, pub P3, pub P4, pub P5, pub P6);

/// A choice among the parsers, which are tried in this order.
#[verifier::allow_in_spec]
pub fn alt6<
    P1: Combinator,
    P2: Combinator<Output = P1::Output>,
    P3: Combinator<Output = P1::Output>,
    P4: Combinator<Output = P1::Output>,
    P5: Combinator<Output = P1::Output>,
    P6: Combinator<Output = P1::Output>,
>(
    parser1: P1,
    parser2: P2,
    parser3: P3,
    parser4: P4,
    parser5: P5,
    parser6: P6,
) -> Alt6<P1, P2, P3, P4, P5, P6>
    returns
        Alt6(parser1, parser2, parser3, parser4, parser5, parser6),
{
    Alt6(parser1, parser2, parser3, parser4, parser5, parser6)
}

impl<
    P1: Combinator,
    P2: Combinator<Output = P1::Output>,
    P3: Combinator<Output = P1::Output>,
    P4: Combinator<Output = P1::Output>,
    P5: Combinator<Output = P1::Output>,
    P6: Combinator<Output = P1::Output>,
> Combinator for Alt6<P1, P2, P3, P4, P5, P6> {
    type Output = P1::Output;

    open spec fn spec_parse(&self, s: State) -> SpecResult<<P1::Output as Repr>::V> {
        match self.0.spec_parse(s) {
            Ok(r) => Ok(r),
            Err(_) => match self.1.spec_parse(s) {
                Ok(r) => Ok(r),
                Err(_) => match self.2.spec_parse(s) {
                    Ok(r) => Ok(r),
                    Err(_) => match self.3.spec_parse(s) {
                        Ok(r) => Ok(r),
                        Err(_) => match self.4.spec_parse(s) {
                            Ok(r) => Ok(r),
                            Err(_) => self.5.spec_parse(s),
                        },
                    },
                },
            },
        }
    }

    fn parse(&self, input: ParseInput) -> (r: ParseResult<P1::Output>) {
        match self.0.parse(clone_input(&input)) {
            Ok(parse_result) => Ok(parse_result),
            Err(_) => match self.1.parse(clone_input(&input)) {
                Ok(parse_result) => Ok(parse_result),
                Err(_) => match self.2.parse(clone_input(&input)) {
                    Ok(parse_result) => Ok(parse_result),
                    Err(_) => match self.3.parse(clone_input(&input)) {
                        Ok(parse_result) => Ok(parse_result),
                        Err(_) => match self.4.parse(clone_input(&input)) {
                            Ok(parse_result) => Ok(parse_result),
                            Err(_) => self.5.parse(input),
                        },
                    },
                },
            },
        }
    }
}

/// A choice among seven parsers.
pub struct Alt7<P1, P2, P3, P4, P5, P6, P7>(pub P1, pub P2, pub P3, pub P4, pub P5, pub P6, pub P7);

/// A choice among the parsers, which are tried in this order.
#[verifier::allow_in_spec]
pub fn alt7<
    P1: Combinator,
    P2: Combinator<Output = P1::Output>,
    P3: Combinator<Output = P1::Output>,
    P4: Combinator<Output = P1::Output>,
    P5: Combinator<Output = P1::Output>,
    P6: Combinator<Output = P1::Output>,
    P7: Combinator<Output = P1::Output>,
>(
    parser1: P1,
    parser2: P2,
    parser3: P3,
    parser4: P4,
    parser5: P5,
    parser6: P6,
    parser7: P7,
) -> Alt7<P1, P2, P3, P4, P5, P6, P7>
    returns
        Alt7(parser1, parser2, parser3, parser4, parser5, parser6, parser7),
{
    Alt7(parser1, parser2, parser3, parser4, parser5, parser6, parser7)
}

impl<
    P1: Combinator,
    P2: Combinator<Output = P1::Output>,
    P3: Combinator<Output = P1::Output>,
    P4: Combinator<Output = P1::Output>,
    P5: Combinator<Output = P1::Output>,
    P6: Combinator<Output = P1::Output>,
    P7: Combinator<Output = P1::Output>,
> Combinator for Alt7<P1, P2, P3, P4, P5, P6, P7> {
    type Output = P1::Output;

    open spec fn spec_parse(&self, s: State) -> SpecResult<<P1::Output as Repr>::V> {
        match self.0.spec_parse(s) {
            Ok(r) => Ok(r),
            Err(_) => match self.1.spec_parse(s) {
                Ok(r) => Ok(r),
                Err(_) => match self.2.spec_parse(s) {
                    Ok(r) => Ok(r),
                    Err(_) => match self.3.spec_parse(s) {
                        Ok(r) => Ok(r),
                        Err(_) => match self.4.spec_parse(s) {
                            Ok(r) => Ok(r),
                            Err(_) => match self.5.spec_parse(s) {
                                Ok(r) => Ok(r),
                                Err(_) => self.6.spec_parse(s),
                            },
                        },
                    },
                },
            },
        }
    }

    fn parse(&self, input: ParseInput) -> (r: ParseResult<P1::Output>) {
        match self.0.parse(clone_input(&input)) {
            Ok(parse_result) => Ok(parse_result),
            Err(_) => match self.1.parse(clone_input(&input)) {
                Ok(parse_result) => Ok(parse_result),
                Err(_) => match self.2.parse(clone_input(&input)) {
                    Ok(parse_result) => Ok(parse_result),
                    Err(_) => match self.3.parse(clone_input(&input)) {
                        Ok(parse_result) => Ok(parse_result),
                        Err(_) => match self.4.parse(clone_input(&input)) {
                            Ok(parse_result) => Ok(parse_result),
                            Err(_) => match self.5.parse(clone_input(&input)) {
                                Ok(parse_result) => Ok(parse_result),
                                Err(_) => self.6.parse(input),
                            },
                        },
                    },
                },
            },
        }
    }
}

} // verus!
