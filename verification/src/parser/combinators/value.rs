//! A parser whose result is replaced by a fixed value.

use vstd::prelude::*;
use crate::repr::Repr;
use crate::item::{Item, ItemView, Value, ValueView};
use crate::qname::{QNameView, QualifiedName};
use crate::parser::combinators::{Combinator, ParseInput, ParseResult, SpecResult, State};

verus! {

/// A value that can be given out again and again: `out` makes a value that
/// stands for what `spec_out` says. A literal gives a text; every other
/// value gives a copy of itself.
pub trait Fixed {
    type Out: Repr;

    /// What the values that are given out stand for.
    spec fn spec_out(&self) -> <Self::Out as Repr>::V;

    /// Gives the value out.
    fn out(&self) -> (r: Self::Out)
        ensures
            r.repr() == self.spec_out(),
    ;
}

impl Fixed for &'static str {
    type Out = String;

    open spec fn spec_out(&self) -> Seq<char> {
        self@
    }

    fn out(&self) -> (r: String) {
        (*self).to_owned()
    }
}

impl Fixed for String {
    type Out = String;

    open spec fn spec_out(&self) -> Seq<char> {
        self@
    }

    fn out(&self) -> (r: String) {
        self.clone()
    }
}

impl Fixed for () {
    type Out = ();

    open spec fn spec_out(&self) -> () {
        ()
    }

    fn out(&self) -> (r: ()) {
        ()
    }
}

impl Fixed for bool {
    type Out = bool;

    open spec fn spec_out(&self) -> bool {
        *self
    }

    fn out(&self) -> (r: bool) {
        *self
    }
}

impl Fixed for u32 {
    type Out = u32;

    open spec fn spec_out(&self) -> u32 {
        *self
    }

    fn out(&self) -> (r: u32) {
        *self
    }
}

impl Fixed for char {
    type Out = char;

    open spec fn spec_out(&self) -> char {
        *self
    }

    fn out(&self) -> (r: char) {
        *self
    }
}

impl Fixed for QualifiedName {
    type Out = QualifiedName;

    open spec fn spec_out(&self) -> QNameView {
        self.repr()
    }

    fn out(&self) -> (r: QualifiedName) {
        self.duplicate()
    }
}

impl Fixed for Value {
    type Out = Value;

    open spec fn spec_out(&self) -> ValueView {
        self.repr()
    }

    fn out(&self) -> (r: Value) {
        self.duplicate()
    }
}

impl Fixed for Item {
    type Out = Item;

    open spec fn spec_out(&self) -> ItemView {
        self.repr()
    }

    fn out(&self) -> (r: Item) {
        self.duplicate()
    }
}

/// Runs the parser and, where it succeeds, gives the value it holds.
pub struct ValueOf<P, V>(pub P, pub V);

/// A parser that runs `parser` and gives the value `val`.
#[verifier::allow_in_spec]
pub fn value<P: Combinator, V: Fixed>(parser: P, val: V) -> ValueOf<P, V>
    returns
        ValueOf(parser, val),
{
    ValueOf(parser, val)
}

impl<P: Combinator, V: Fixed> Combinator for ValueOf<P, V> {
    type Output = V::Out;

    open spec fn spec_parse(&self, s: State) -> SpecResult<<V::Out as Repr>::V> {
        match self.0.spec_parse(s) {
            Ok((s1, _)) => Ok((s1, self.1.spec_out())),
            Err(e) => Err(e),
        }
    }

    fn parse(&self, input: ParseInput) -> (r: ParseResult<V::Out>) {
        match self.0.parse(input) {
            Ok((input1, index1, config, _)) => Ok((input1, index1, config, self.1.out())),
            Err(err) => Err(err),
        }
    }
}

} // verus!
