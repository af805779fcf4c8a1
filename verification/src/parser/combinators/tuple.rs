//! Ordered sequences of parsers: each runs on the state that the one before
//! it left, and the first failure ends the sequence.

use vstd::prelude::*;
use crate::repr::Repr;
use crate::parser::combinators::{Combinator, ParseInput, ParseResult, SpecResult, State};

verus! {

/// Two parsers in a row, and what each of them found.
pub struct Tuple2<P1, P2>(pub P1, pub P2);

/// The parsers in a row.
#[verifier::allow_in_spec]
pub fn tuple2<P1: Combinator, P2: Combinator>(
    parser1: P1,
    parser2: P2,
) -> Tuple2<P1, P2>
    returns
        Tuple2(parser1, parser2),
{
    Tuple2(parser1, parser2)
}

impl<P1: Combinator, P2: Combinator> Combinator for Tuple2<P1, P2> {
    type Output = (P1::Output, P2::Output);

    open spec fn spec_parse(&self, s: State) -> SpecResult<<Self::Output as Repr>::V> {
        match self.0.spec_parse(s) {
            Ok((s1, r1)) => match self.1.spec_parse(s1) {
                Ok((s2, r2)) => Ok((s2, (r1, r2))),
                Err(e) => Err(e),
            },
            Err(e) => Err(e),
        }
    }

    fn parse(&self, input: ParseInput) -> (r: ParseResult<Self::Output>) {
        let (text, index, config, result1) = match self.0.parse(input) {
            Ok(found) => found,
            Err(err) => return Err(err),
        };
        let (text, index, config, result2) = match self.1.parse((text, index, config)) {
            Ok(found) => found,
            Err(err) => return Err(err),
        };
        proof {
            assert((result1, result2).repr() == (result1.repr(), result2.repr()));
        }
        Ok((text, index, config, (result1, result2)))
    }
}

/// Three parsers in a row, and what each of them found.
pub struct Tuple3<P1, P2, P3>(pub P1, pub P2, pub P3);

/// The parsers in a row.
#[verifier::allow_in_spec]
pub fn tuple3<P1: Combinator, P2: Combinator, P3: Combinator>(
    parser1: P1,
    parser2: P2,
    parser3: P3,
) -> Tuple3<P1, P2, P3>
    returns
        Tuple3(parser1, parser2, parser3),
{
    Tuple3(parser1, parser2, parser3)
}

impl<P1: Combinator, P2: Combinator, P3: Combinator> Combinator for Tuple3<P1, P2, P3> {
    type Output = (P1::Output, P2::Output, P3::Output);

    open spec fn spec_parse(&self, s: State) -> SpecResult<<Self::Output as Repr>::V> {
        match self.0.spec_parse(s) {
            Ok((s1, r1)) => match self.1.spec_parse(s1) {
                Ok((s2, r2)) => match self.2.spec_parse(s2) {
                    Ok((s3, r3)) => Ok((s3, (r1, r2, r3))),
                    Err(e) => Err(e),
                },
                Err(e) => Err(e),
            },
            Err(e) => Err(e),
        }
    }

    fn parse(&self, input: ParseInput) -> (r: ParseResult<Self::Output>) {
        let (text, index, config, result1) = match self.0.parse(input) {
            Ok(found) => found,
            Err(err) => return Err(err),
        };
        let (text, index, config, result2) = match self.1.parse((text, index, config)) {
            Ok(found) => found,
            Err(err) => return Err(err),
        };
        let (text, index, config, result3) = match self.2.parse((text, index, config)) {
            Ok(found) => found,
            Err(err) => return Err(err),
        };
        proof {
            assert((result1, result2, result3).repr() == (
                result1.repr(),
                result2.repr(),
                result3.repr(),
            ));
        }
        Ok((text, index, config, (result1, result2, result3)))
    }
}

/// Four parsers in a row, and what each of them found.
pub struct Tuple4<P1, P2, P3, P4>(pub P1, pub P2, pub P3, pub P4);

/// The parsers in a row.
#[verifier::allow_in_spec]
pub fn tuple4<P1: Combinator, P2: Combinator, P3: Combinator, P4: Combinator>(
    parser1: P1,
    parser2: P2,
    parser3: P3,
    parser4: P4,
) -> Tuple4<P1, P2, P3, P4>
    returns
        Tuple4(parser1, parser2, parser3, parser4),
{
    Tuple4(parser1, parser2, parser3, parser4)
}

impl<
    P1: Combinator,
    P2: Combinator,
    P3: Combinator,
    P4: Combinator,
> Combinator for Tuple4<P1, P2, P3, P4> {
    type Output = (P1::Output, P2::Output, P3::Output, P4::Output);

    open spec fn spec_parse(&self, s: State) -> SpecResult<<Self::Output as Repr>::V> {
        match self.0.spec_parse(s) {
            Ok((s1, r1)) => match self.1.spec_parse(s1) {
                Ok((s2, r2)) => match self.2.spec_parse(s2) {
                    Ok((s3, r3)) => match self.3.spec_parse(s3) {
                        Ok((s4, r4)) => Ok((s4, (r1, r2, r3, r4))),
                        Err(e) => Err(e),
                    },
                    Err(e) => Err(e),
                },
                Err(e) => Err(e),
            },
            Err(e) => Err(e),
        }
    }

    fn parse(&self, input: ParseInput) -> (r: ParseResult<Self::Output>) {
        let (text, index, config, result1) = match self.0.parse(input) {
            Ok(found) => found,
            Err(err) => return Err(err),
        };
        let (text, index, config, result2) = match self.1.parse((text, index, config)) {
            Ok(found) => found,
            Err(err) => return Err(err),
        };
        let (text, index, config, result3) = match self.2.parse((text, index, config)) {
            Ok(found) => found,
            Err(err) => return Err(err),
        };
        let (text, index, config, result4) = match self.3.parse((text, index, config)) {
            Ok(found) => found,
            Err(err) => return Err(err),
        };
        proof {
            assert((result1, result2, result3, result4).repr() == (
                result1.repr(),
                result2.repr(),
                result3.repr(),
                result4.repr(),
            ));
        }
        Ok((text, index, config, (result1, result2, result3, result4)))
    }
}

/// Five parsers in a row, and what each of them found.
pub struct Tuple5<P1, P2, P3, P4, P5>(pub P1, pub P2, pub P3, pub P4, pub P5);

/// The parsers in a row.
#[verifier::allow_in_spec]
pub fn tuple5<P1: Combinator, P2: Combinator, P3: Combinator, P4: Combinator, P5: Combinator>(
    parser1: P1,
    parser2: P2,
    parser3: P3,
    parser4: P4,
    parser5: P5,
) -> Tuple5<P1, P2, P3, P4, P5>
    returns
        Tuple5(parser1, parser2, parser3, parser4, parser5),
{
    Tuple5(parser1, parser2, parser3, parser4, parser5)
}

impl<
    P1: Combinator,
    P2: Combinator,
    P3: Combinator,
    P4: Combinator,
    P5: Combinator,
> Combinator for Tuple5<P1, P2, P3, P4, P5> {
    type Output = (P1::Output, P2::Output, P3::Output, P4::Output, P5::Output);

    open spec fn spec_parse(&self, s: State) -> SpecResult<<Self::Output as Repr>::V> {
        match self.0.spec_parse(s) {
            Ok((s1, r1)) => match self.1.spec_parse(s1) {
                Ok((s2, r2)) => match self.2.spec_parse(s2) {
                    Ok((s3, r3)) => match self.3.spec_parse(s3) {
                        Ok((s4, r4)) => match self.4.spec_parse(s4) {
                            Ok((s5, r5)) => Ok((s5, (r1, r2, r3, r4, r5))),
                            Err(e) => Err(e),
                        },
                        Err(e) => Err(e),
                    },
                    Err(e) => Err(e),
                },
                Err(e) => Err(e),
            },
            Err(e) => Err(e),
        }
    }

    fn parse(&self, input: ParseInput) -> (r: ParseResult<Self::Output>) {
        let (text, index, config, result1) = match self.0.parse(input) {
            Ok(found) => found,
            Err(err) => return Err(err),
        };
        let (text, index, config, result2) = match self.1.parse((text, index, config)) {
            Ok(found) => found,
            Err(err) => return Err(err),
        };
        let (text, index, config, result3) = match self.2.parse((text, index, config)) {
            Ok(found) => found,
            Err(err) => return Err(err),
        };
        let (text, index, config, result4) = match self.3.parse((text, index, config)) {
            Ok(found) => found,
            Err(err) => return Err(err),
        };
        let (text, index, config, result5) = match self.4.parse((text, index, config)) {
            Ok(found) => found,
            Err(err) => return Err(err),
        };
        proof {
            assert((result1, result2, result3, result4, result5).repr() == (
                result1.repr(),
                result2.repr(),
                result3.repr(),
                result4.repr(),
                result5.repr(),
            ));
        }
        Ok((text, index, config, (result1, result2, result3, result4, result5)))
    }
}

/// Six parsers in a row, and what each of them found.
pub struct Tuple6<P1, P2, P3, P4, P5, P6>(pub P1, pub P2, pub P3, pub P4, pub P5, pub P6);

/// The parsers in a row.
#[verifier::allow_in_spec]
pub fn tuple6<
    P1: Combinator,
    P2: Combinator,
    P3: Combinator,
    P4: Combinator,
    P5: Combinator,
    P6: Combinator,
>(
    parser1: P1,
    parser2: P2,
    parser3: P3,
    parser4: P4,
    parser5: P5,
    parser6: P6,
) -> Tuple6<P1, P2, P3, P4, P5, P6>
    returns
        Tuple6(parser1, parser2, parser3, parser4, parser5, parser6),
{
    Tuple6(parser1, parser2, parser3, parser4, parser5, parser6)
}

impl<
    P1: Combinator,
    P2: Combinator,
    P3: Combinator,
    P4: Combinator,
    P5: Combinator,
    P6: Combinator,
> Combinator for Tuple6<P1, P2, P3, P4, P5, P6> {
    type Output = (P1::Output, P2::Output, P3::Output, P4::Output, P5::Output, P6::Output);

    open spec fn spec_parse(&self, s: State) -> SpecResult<<Self::Output as Repr>::V> {
        match self.0.spec_parse(s) {
            Ok((s1, r1)) => match self.1.spec_parse(s1) {
                Ok((s2, r2)) => match self.2.spec_parse(s2) {
                    Ok((s3, r3)) => match self.3.spec_parse(s3) {
                        Ok((s4, r4)) => match self.4.spec_parse(s4) {
                            Ok((s5, r5)) => match self.5.spec_parse(s5) {
                                Ok((s6, r6)) => Ok((s6, (r1, r2, r3, r4, r5, r6))),
                                Err(e) => Err(e),
                            },
                            Err(e) => Err(e),
                        },
                        Err(e) => Err(e),
                    },
                    Err(e) => Err(e),
                },
                Err(e) => Err(e),
            },
            Err(e) => Err(e),
        }
    }

    fn parse(&self, input: ParseInput) -> (r: ParseResult<Self::Output>) {
        let (text, index, config, result1) = match self.0.parse(input) {
            Ok(found) => found,
            Err(err) => return Err(err),
        };
        let (text, index, config, result2) = match self.1.parse((text, index, config)) {
            Ok(found) => found,
            Err(err) => return Err(err),
        };
        let (text, index, config, result3) = match self.2.parse((text, index, config)) {
            Ok(found) => found,
            Err(err) => return Err(err),
        };
        let (text, index, config, result4) = match self.3.parse((text, index, config)) {
            Ok(found) => found,
            Err(err) => return Err(err),
        };
        let (text, index, config, result5) = match self.4.parse((text, index, config)) {
            Ok(found) => found,
            Err(err) => return Err(err),
        };
        let (text, index, config, result6) = match self.5.parse((text, index, config)) {
            Ok(found) => found,
            Err(err) => return Err(err),
        };
        proof {
            assert((result1, result2, result3, result4, result5, result6).repr() == (
                result1.repr(),
                result2.repr(),
                result3.repr(),
                result4.repr(),
                result5.repr(),
                result6.repr(),
            ));
        }
        Ok((text, index, config, (result1, result2, result3, result4, result5, result6)))
    }
}

/// Seven parsers in a row, and what each of them found.
pub struct Tuple7<P1, P2, P3, P4, P5, P6, P7>(
    pub P1,
    pub P2,
    pub P3,
    pub P4,
    pub P5,
    pub P6,
    pub P7,
);

/// The parsers in a row.
#[verifier::allow_in_spec]
pub fn tuple7<
    P1: Combinator,
    P2: Combinator,
    P3: Combinator,
    P4: Combinator,
    P5: Combinator,
    P6: Combinator,
    P7: Combinator,
>(
    parser1: P1,
    parser2: P2,
    parser3: P3,
    parser4: P4,
    parser5: P5,
    parser6: P6,
    parser7: P7,
) -> Tuple7<P1, P2, P3, P4, P5, P6, P7>
    returns
        Tuple7(parser1, parser2, parser3, parser4, parser5, parser6, parser7),
{
    Tuple7(parser1, parser2, parser3, parser4, parser5, parser6, parser7)
}

impl<
    P1: Combinator,
    P2: Combinator,
    P3: Combinator,
    P4: Combinator,
    P5: Combinator,
    P6: Combinator,
    P7: Combinator,
> Combinator for Tuple7<P1, P2, P3, P4, P5, P6, P7> {
    type Output = (
        P1::Output,
        P2::Output,
        P3::Output,
        P4::Output,
        P5::Output,
        P6::Output,
        P7::Output,
    );

    open spec fn spec_parse(&self, s: State) -> SpecResult<<Self::Output as Repr>::V> {
        match self.0.spec_parse(s) {
            Ok((s1, r1)) => match self.1.spec_parse(s1) {
                Ok((s2, r2)) => match self.2.spec_parse(s2) {
                    Ok((s3, r3)) => match self.3.spec_parse(s3) {
                        Ok((s4, r4)) => match self.4.spec_parse(s4) {
                            Ok((s5, r5)) => match self.5.spec_parse(s5) {
                                Ok((s6, r6)) => match self.6.spec_parse(s6) {
                                    Ok((s7, r7)) => Ok((s7, (r1, r2, r3, r4, r5, r6, r7))),
                                    Err(e) => Err(e),
                                },
                                Err(e) => Err(e),
                            },
                            Err(e) => Err(e),
                        },
                        Err(e) => Err(e),
                    },
                    Err(e) => Err(e),
                },
                Err(e) => Err(e),
            },
            Err(e) => Err(e),
        }
    }

    fn parse(&self, input: ParseInput) -> (r: ParseResult<Self::Output>) {
        let (text, index, config, result1) = match self.0.parse(input) {
            Ok(found) => found,
            Err(err) => return Err(err),
        };
        let (text, index, config, result2) = match self.1.parse((text, index, config)) {
            Ok(found) => found,
            Err(err) => return Err(err),
        };
        let (text, index, config, result3) = match self.2.parse((text, index, config)) {
            Ok(found) => found,
            Err(err) => return Err(err),
        };
        let (text, index, config, result4) = match self.3.parse((text, index, config)) {
            Ok(found) => found,
            Err(err) => return Err(err),
        };
        let (text, index, config, result5) = match self.4.parse((text, index, config)) {
            Ok(found) => found,
            Err(err) => return Err(err),
        };
        let (text, index, config, result6) = match self.5.parse((text, index, config)) {
            Ok(found) => found,
            Err(err) => return Err(err),
        };
        let (text, index, config, result7) = match self.6.parse((text, index, config)) {
            Ok(found) => found,
            Err(err) => return Err(err),
        };
        proof {
            assert((result1, result2, result3, result4, result5, result6, result7).repr() == (
                result1.repr(),
                result2.repr(),
                result3.repr(),
                result4.repr(),
                result5.repr(),
                result6.repr(),
                result7.repr(),
            ));
        }
        Ok((text, index, config, (result1, result2, result3, result4, result5, result6, result7)))
    }
}

/// Eight parsers in a row, and what each of them found.
pub struct Tuple8<P1, P2, P3, P4, P5, P6, P7, P8>(
    pub P1,
    pub P2,
    pub P3,
    pub P4,
    pub P5,
    pub P6,
    pub P7,
    pub P8,
);

/// The parsers in a row.
#[verifier::allow_in_spec]
pub fn tuple8<
    P1: Combinator,
    P2: Combinator,
    P3: Combinator,
    P4: Combinator,
    P5: Combinator,
    P6: Combinator,
    P7: Combinator,
    P8: Combinator,
>(
    parser1: P1,
    parser2: P2,
    parser3: P3,
    parser4: P4,
    parser5: P5,
    parser6: P6,
    parser7: P7,
    parser8: P8,
) -> Tuple8<P1, P2, P3, P4, P5, P6, P7, P8>
    returns
        Tuple8(parser1, parser2, parser3, parser4, parser5, parser6, parser7, parser8),
{
    Tuple8(parser1, parser2, parser3, parser4, parser5, parser6, parser7, parser8)
}

impl<
    P1: Combinator,
    P2: Combinator,
    P3: Combinator,
    P4: Combinator,
    P5: Combinator,
    P6: Combinator,
    P7: Combinator,
    P8: Combinator,
> Combinator for Tuple8<P1, P2, P3, P4, P5, P6, P7, P8> {
    type Output = (
        P1::Output,
        P2::Output,
        P3::Output,
        P4::Output,
        P5::Output,
        P6::Output,
        P7::Output,
        P8::Output,
    );

    open spec fn spec_parse(&self, s: State) -> SpecResult<<Self::Output as Repr>::V> {
        match self.0.spec_parse(s) {
            Ok((s1, r1)) => match self.1.spec_parse(s1) {
                Ok((s2, r2)) => match self.2.spec_parse(s2) {
                    Ok((s3, r3)) => match self.3.spec_parse(s3) {
                        Ok((s4, r4)) => match self.4.spec_parse(s4) {
                            Ok((s5, r5)) => match self.5.spec_parse(s5) {
                                Ok((s6, r6)) => match self.6.spec_parse(s6) {
                                    Ok((s7, r7)) => match self.7.spec_parse(s7) {
                                        Ok((s8, r8)) => Ok((s8, (r1, r2, r3, r4, r5, r6, r7, r8))),
                                        Err(e) => Err(e),
                                    },
                                    Err(e) => Err(e),
                                },
                                Err(e) => Err(e),
                            },
                            Err(e) => Err(e),
                        },
                        Err(e) => Err(e),
                    },
                    Err(e) => Err(e),
                },
                Err(e) => Err(e),
            },
            Err(e) => Err(e),
        }
    }

    fn parse(&self, input: ParseInput) -> (r: ParseResult<Self::Output>) {
        let (text, index, config, result1) = match self.0.parse(input) {
            Ok(found) => found,
            Err(err) => return Err(err),
        };
        let (text, index, config, result2) = match self.1.parse((text, index, config)) {
            Ok(found) => found,
            Err(err) => return Err(err),
        };
        let (text, index, config, result3) = match self.2.parse((text, index, config)) {
            Ok(found) => found,
            Err(err) => return Err(err),
        };
        let (text, index, config, result4) = match self.3.parse((text, index, config)) {
            Ok(found) => found,
            Err(err) => return Err(err),
        };
        let (text, index, config, result5) = match self.4.parse((text, index, config)) {
            Ok(found) => found,
            Err(err) => return Err(err),
        };
        let (text, index, config, result6) = match self.5.parse((text, index, config)) {
            Ok(found) => found,
            Err(err) => return Err(err),
        };
        let (text, index, config, result7) = match self.6.parse((text, index, config)) {
            Ok(found) => found,
            Err(err) => return Err(err),
        };
        let (text, index, config, result8) = match self.7.parse((text, index, config)) {
            Ok(found) => found,
            Err(err) => return Err(err),
        };
        proof {
            assert((
                result1,
                result2,
                result3,
                result4,
                result5,
                result6,
                result7,
                result8,
            ).repr() == (
                result1.repr(),
                result2.repr(),
                result3.repr(),
                result4.repr(),
                result5.repr(),
                result6.repr(),
                result7.repr(),
                result8.repr(),
            ));
        }
        Ok(
            (
                text,
                index,
                config,
                (
                    result1,
                    result2,
                    result3,
                    result4,
                    result5,
                    result6,
                    result7,
                    result8,
                ),
            ),
        )
    }
}

/// Nine parsers in a row, and what each of them found.
pub struct Tuple9<P1, P2, P3, P4, P5, P6, P7, P8, P9>(
    pub P1,
    pub P2,
    pub P3,
    pub P4,
    pub P5,
    pub P6,
    pub P7,
    pub P8,
    pub P9,
);

/// The parsers in a row.
#[verifier::allow_in_spec]
pub fn tuple9<
    P1: Combinator,
    P2: Combinator,
    P3: Combinator,
    P4: Combinator,
    P5: Combinator,
    P6: Combinator,
    P7: Combinator,
    P8: Combinator,
    P9: Combinator,
>(
    parser1: P1,
    parser2: P2,
    parser3: P3,
    parser4: P4,
    parser5: P5,
    parser6: P6,
    parser7: P7,
    parser8: P8,
    parser9: P9,
) -> Tuple9<P1, P2, P3, P4, P5, P6, P7, P8, P9>
    returns
        Tuple9(parser1, parser2, parser3, parser4, parser5, parser6, parser7, parser8, parser9),
{
    Tuple9(parser1, parser2, parser3, parser4, parser5, parser6, parser7, parser8, parser9)
}

impl<
    P1: Combinator,
    P2: Combinator,
    P3: Combinator,
    P4: Combinator,
    P5: Combinator,
    P6: Combinator,
    P7: Combinator,
    P8: Combinator,
    P9: Combinator,
> Combinator for Tuple9<P1, P2, P3, P4, P5, P6, P7, P8, P9> {
    type Output = (
        P1::Output,
        P2::Output,
        P3::Output,
        P4::Output,
        P5::Output,
        P6::Output,
        P7::Output,
        P8::Output,
        P9::Output,
    );

    open spec fn spec_parse(&self, s: State) -> SpecResult<<Self::Output as Repr>::V> {
        match self.0.spec_parse(s) {
            Ok((s1, r1)) => match self.1.spec_parse(s1) {
                Ok((s2, r2)) => match self.2.spec_parse(s2) {
                    Ok((s3, r3)) => match self.3.spec_parse(s3) {
                        Ok((s4, r4)) => match self.4.spec_parse(s4) {
                            Ok((s5, r5)) => match self.5.spec_parse(s5) {
                                Ok((s6, r6)) => match self.6.spec_parse(s6) {
                                    Ok((s7, r7)) => match self.7.spec_parse(s7) {
                                        Ok((s8, r8)) => match self.8.spec_parse(s8) {
                                            Ok((s9, r9)) => Ok(
                                                (s9, (r1, r2, r3, r4, r5, r6, r7, r8, r9)),
                                            ),
                                            Err(e) => Err(e),
                                        },
                                        Err(e) => Err(e),
                                    },
                                    Err(e) => Err(e),
                                },
                                Err(e) => Err(e),
                            },
                            Err(e) => Err(e),
                        },
                        Err(e) => Err(e),
                    },
                    Err(e) => Err(e),
                },
                Err(e) => Err(e),
            },
            Err(e) => Err(e),
        }
    }

    fn parse(&self, input: ParseInput) -> (r: ParseResult<Self::Output>) {
        let (text, index, config, result1) = match self.0.parse(input) {
            Ok(found) => found,
            Err(err) => return Err(err),
        };
        let (text, index, config, result2) = match self.1.parse((text, index, config)) {
            Ok(found) => found,
            Err(err) => return Err(err),
        };
        let (text, index, config, result3) = match self.2.parse((text, index, config)) {
            Ok(found) => found,
            Err(err) => return Err(err),
        };
        let (text, index, config, result4) = match self.3.parse((text, index, config)) {
            Ok(found) => found,
            Err(err) => return Err(err),
        };
        let (text, index, config, result5) = match self.4.parse((text, index, config)) {
            Ok(found) => found,
            Err(err) => return Err(err),
        };
        let (text, index, config, result6) = match self.5.parse((text, index, config)) {
            Ok(found) => found,
            Err(err) => return Err(err),
        };
        let (text, index, config, result7) = match self.6.parse((text, index, config)) {
            Ok(found) => found,
            Err(err) => return Err(err),
        };
        let (text, index, config, result8) = match self.7.parse((text, index, config)) {
            Ok(found) => found,
            Err(err) => return Err(err),
        };
        let (text, index, config, result9) = match self.8.parse((text, index, config)) {
            Ok(found) => found,
            Err(err) => return Err(err),
        };
        proof {
            assert((
                result1,
                result2,
                result3,
                result4,
                result5,
                result6,
                result7,
                result8,
                result9,
            ).repr() == (
                result1.repr(),
                result2.repr(),
                result3.repr(),
                result4.repr(),
                result5.repr(),
                result6.repr(),
                result7.repr(),
                result8.repr(),
                result9.repr(),
            ));
        }
        Ok(
            (
                text,
                index,
                config,
                (
                    result1,
                    result2,
                    result3,
                    result4,
                    result5,
                    result6,
                    result7,
                    result8,
                    result9,
                ),
            ),
        )
    }
}

/// Ten parsers in a row, and what each of them found.
pub struct Tuple10<P1, P2, P3, P4, P5, P6, P7, P8, P9, P10>(
    pub P1,
    pub P2,
    pub P3,
    pub P4,
    pub P5,
    pub P6,
    pub P7,
    pub P8,
    pub P9,
    pub P10,
);

/// The parsers in a row.
#[verifier::allow_in_spec]
pub fn tuple10<
    P1: Combinator,
    P2: Combinator,
    P3: Combinator,
    P4: Combinator,
    P5: Combinator,
    P6: Combinator,
    P7: Combinator,
    P8: Combinator,
    P9: Combinator,
    P10: Combinator,
>(
    parser1: P1,
    parser2: P2,
    parser3: P3,
    parser4: P4,
    parser5: P5,
    parser6: P6,
    parser7: P7,
    parser8: P8,
    parser9: P9,
    parser10: P10,
) -> Tuple10<P1, P2, P3, P4, P5, P6, P7, P8, P9, P10>
    returns
        Tuple10(
            parser1,
            parser2,
            parser3,
            parser4,
            parser5,
            parser6,
            parser7,
            parser8,
            parser9,
            parser10,
        ),
{
    Tuple10(
        parser1,
        parser2,
        parser3,
        parser4,
        parser5,
        parser6,
        parser7,
        parser8,
        parser9,
        parser10,
    )
}

impl<
    P1: Combinator,
    P2: Combinator,
    P3: Combinator,
    P4: Combinator,
    P5: Combinator,
    P6: Combinator,
    P7: Combinator,
    P8: Combinator,
    P9: Combinator,
    P10: Combinator,
> Combinator for Tuple10<P1, P2, P3, P4, P5, P6, P7, P8, P9, P10> {
    type Output = (
        P1::Output,
        P2::Output,
        P3::Output,
        P4::Output,
        P5::Output,
        P6::Output,
        P7::Output,
        P8::Output,
        P9::Output,
        P10::Output,
    );

    open spec fn spec_parse(&self, s: State) -> SpecResult<<Self::Output as Repr>::V> {
        match self.0.spec_parse(s) {
            Ok((s1, r1)) => match self.1.spec_parse(s1) {
                Ok((s2, r2)) => match self.2.spec_parse(s2) {
                    Ok((s3, r3)) => match self.3.spec_parse(s3) {
                        Ok((s4, r4)) => match self.4.spec_parse(s4) {
                            Ok((s5, r5)) => match self.5.spec_parse(s5) {
                                Ok((s6, r6)) => match self.6.spec_parse(s6) {
                                    Ok((s7, r7)) => match self.7.spec_parse(s7) {
                                        Ok((s8, r8)) => match self.8.spec_parse(s8) {
                                            Ok((s9, r9)) => match self.9.spec_parse(s9) {
                                                Ok((s10, r10)) => Ok(
                                                    (s10, (r1, r2, r3, r4, r5, r6, r7, r8, r9, r10)),
                                                ),
                                                Err(e) => Err(e),
                                            },
                                            Err(e) => Err(e),
                                        },
                                        Err(e) => Err(e),
                                    },
                                    Err(e) => Err(e),
                                },
                                Err(e) => Err(e),
                            },
                            Err(e) => Err(e),
                        },
                        Err(e) => Err(e),
                    },
                    Err(e) => Err(e),
                },
                Err(e) => Err(e),
            },
            Err(e) => Err(e),
        }
    }

    fn parse(&self, input: ParseInput) -> (r: ParseResult<Self::Output>) {
        let (text, index, config, result1) = match self.0.parse(input) {
            Ok(found) => found,
            Err(err) => return Err(err),
        };
        let (text, index, config, result2) = match self.1.parse((text, index, config)) {
            Ok(found) => found,
            Err(err) => return Err(err),
        };
        let (text, index, config, result3) = match self.2.parse((text, index, config)) {
            Ok(found) => found,
            Err(err) => return Err(err),
        };
        let (text, index, config, result4) = match self.3.parse((text, index, config)) {
            Ok(found) => found,
            Err(err) => return Err(err),
        };
        let (text, index, config, result5) = match self.4.parse((text, index, config)) {
            Ok(found) => found,
            Err(err) => return Err(err),
        };
        let (text, index, config, result6) = match self.5.parse((text, index, config)) {
            Ok(found) => found,
            Err(err) => return Err(err),
        };
        let (text, index, config, result7) = match self.6.parse((text, index, config)) {
            Ok(found) => found,
            Err(err) => return Err(err),
        };
        let (text, index, config, result8) = match self.7.parse((text, index, config)) {
            Ok(found) => found,
            Err(err) => return Err(err),
        };
        let (text, index, config, result9) = match self.8.parse((text, index, config)) {
            Ok(found) => found,
            Err(err) => return Err(err),
        };
        let (text, index, config, result10) = match self.9.parse((text, index, config)) {
            Ok(found) => found,
            Err(err) => return Err(err),
        };
        proof {
            assert((
                result1,
                result2,
                result3,
                result4,
                result5,
                result6,
                result7,
                result8,
                result9,
                result10,
            ).repr() == (
                result1.repr(),
                result2.repr(),
                result3.repr(),
                result4.repr(),
                result5.repr(),
                result6.repr(),
                result7.repr(),
                result8.repr(),
                result9.repr(),
                result10.repr(),
            ));
        }
        Ok(
            (
                text,
                index,
                config,
                (
                    result1,
                    result2,
                    result3,
                    result4,
                    result5,
                    result6,
                    result7,
                    result8,
                    result9,
                    result10,
                ),
            ),
        )
    }
}

} // verus!
