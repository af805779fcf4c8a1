//! A parser whose result is passed through a function.

use vstd::prelude::*;
use crate::repr::Repr;
use crate::text::{concat, concat_all};
use crate::parser::combinators::{Combinator, ParseInput, ParseResult, SpecResult, State};

verus! {

/// A function from `A` to `Dst` that computes what `spec_apply` says.
pub trait Mapper<A: Repr> {
    type Dst: Repr;

    /// What the function gives for `a`.
    spec fn spec_apply(&self, a: A::V) -> <Self::Dst as Repr>::V;

    /// Applies the function to `a`.
    fn apply(&self, a: A) -> (b: Self::Dst)
        ensures
            b.repr() == self.spec_apply(a.repr()),
    ;
}

/// Runs the parser and applies the function to what it found.
pub struct Mapped<P, F>(pub P, pub F);

/// A parser that runs `parser` and applies `map_fn` to what it found.
#[verifier::allow_in_spec]
pub fn map<P: Combinator, F: Mapper<P::Output>>(parser: P, map_fn: F) -> Mapped<P, F>
    returns
        Mapped(parser, map_fn),
{
    Mapped(parser, map_fn)
}

impl<P: Combinator, F: Mapper<P::Output>> Combinator for Mapped<P, F> {
    type Output = F::Dst;

    open spec fn spec_parse(&self, s: State) -> SpecResult<<F::Dst as Repr>::V> {
        match self.0.spec_parse(s) {
            Ok((s1, v)) => Ok((s1, self.1.spec_apply(v))),
            Err(e) => Err(e),
        }
    }

    fn parse(&self, input: ParseInput) -> (r: ParseResult<F::Dst>) {
        match self.0.parse(input) {
            Ok((input2, next_index, config, result)) => Ok(
                (input2, next_index, config, self.1.apply(result)),
            ),
            Err(err) => Err(err),
        }
    }
}

/// Drops the value.
pub struct Discard;

impl<A: Repr> Mapper<A> for Discard {
    type Dst = ();

    open spec fn spec_apply(&self, a: A::V) -> () {
        ()
    }

    fn apply(&self, a: A) -> (b: ()) {
        ()
    }
}

/// Replaces the value by the empty text.
pub struct Blank;

impl<A: Repr> Mapper<A> for Blank {
    type Dst = String;

    open spec fn spec_apply(&self, a: A::V) -> Seq<char> {
        Seq::empty()
    }

    fn apply(&self, a: A) -> (b: String) {
        String::new()
    }
}

/// Keeps the first of two values.
pub struct First;

impl<A: Repr, B: Repr> Mapper<(A, B)> for First {
    type Dst = A;

    open spec fn spec_apply(&self, a: (A::V, B::V)) -> A::V {
        a.0
    }

    fn apply(&self, a: (A, B)) -> (b: A) {
        a.0
    }
}

/// Keeps the second of two values.
pub struct Second;

impl<A: Repr, B: Repr> Mapper<(A, B)> for Second {
    type Dst = B;

    open spec fn spec_apply(&self, a: (A::V, B::V)) -> B::V {
        a.1
    }

    fn apply(&self, a: (A, B)) -> (b: B) {
        a.1
    }
}

/// Keeps the fifth of five values.
pub struct Fifth;

impl<A: Repr, B: Repr, C: Repr, D: Repr, E: Repr> Mapper<(A, B, C, D, E)> for Fifth {
    type Dst = E;

    open spec fn spec_apply(&self, a: (A::V, B::V, C::V, D::V, E::V)) -> E::V {
        a.4
    }

    fn apply(&self, a: (A, B, C, D, E)) -> (b: E) {
        a.4
    }
}

/// Keeps the sixth of six values.
pub struct Sixth;

impl<A: Repr, B: Repr, C: Repr, D: Repr, E: Repr, F: Repr> Mapper<(A, B, C, D, E, F)> for Sixth {
    type Dst = F;

    open spec fn spec_apply(&self, a: (A::V, B::V, C::V, D::V, E::V, F::V)) -> F::V {
        a.5
    }

    fn apply(&self, a: (A, B, C, D, E, F)) -> (b: F) {
        a.5
    }
}

/// Joins the texts into one.
pub struct Concat;

impl Mapper<Vec<String>> for Concat {
    type Dst = String;

    open spec fn spec_apply(&self, a: Seq<Seq<char>>) -> Seq<char> {
        concat_all(a)
    }

    fn apply(&self, a: Vec<String>) -> (b: String) {
        proof {
            assert(a.repr() =~= Seq::new(a@.len(), |i: int| a@[i]@));
        }
        concat(&a)
    }
}

} // verus!
