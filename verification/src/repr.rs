//! The mathematical value that an executable value stands for.

use vstd::prelude::*;

verus! {

/// A type whose values stand for a mathematical value of type `V`.
///
/// Contracts compare executable values through `repr`, because two `String`s
/// or `Vec`s that hold the same items are not the same value to the verifier.
pub trait Repr {
    type V;

    /// The mathematical value that `self` stands for.
    spec fn repr(&self) -> Self::V;
}

impl Repr for () {
    type V = ();

    open spec fn repr(&self) -> () {
        ()
    }
}

impl Repr for bool {
    type V = bool;

    open spec fn repr(&self) -> bool {
        *self
    }
}

impl Repr for char {
    type V = char;

    open spec fn repr(&self) -> char {
        *self
    }
}

impl Repr for u32 {
    type V = u32;

    open spec fn repr(&self) -> u32 {
        *self
    }
}

impl Repr for String {
    type V = Seq<char>;

    open spec fn repr(&self) -> Seq<char> {
        self@
    }
}

impl<T: Repr> Repr for Option<T> {
    type V = Option<T::V>;

    open spec fn repr(&self) -> Option<T::V> {
        match self {
            Some(t) => Some(t.repr()),
            None => None,
        }
    }
}

impl<T: Repr> Repr for Vec<T> {
    type V = Seq<T::V>;

    open spec fn repr(&self) -> Seq<T::V> {
        Seq::new(self@.len(), |i: int| self@[i].repr())
    }
}

impl<A: Repr, B: Repr> Repr for (A, B) {
    type V = (A::V, B::V);

    open spec fn repr(&self) -> (A::V, B::V) {
        (self.0.repr(), self.1.repr())
    }
}

impl<A: Repr, B: Repr, C: Repr> Repr for (A, B, C) {
    type V = (A::V, B::V, C::V);

    open spec fn repr(&self) -> (A::V, B::V, C::V) {
        (self.0.repr(), self.1.repr(), self.2.repr())
    }
}

impl<A: Repr, B: Repr, C: Repr, D: Repr> Repr for (A, B, C, D) {
    type V = (A::V, B::V, C::V, D::V);

    open spec fn repr(&self) -> (A::V, B::V, C::V, D::V) {
        (self.0.repr(), self.1.repr(), self.2.repr(), self.3.repr())
    }
}

impl<A: Repr, B: Repr, C: Repr, D: Repr, E: Repr> Repr for (A, B, C, D, E) {
    type V = (A::V, B::V, C::V, D::V, E::V);

    open spec fn repr(&self) -> (A::V, B::V, C::V, D::V, E::V) {
        (self.0.repr(), self.1.repr(), self.2.repr(), self.3.repr(), self.4.repr())
    }
}

impl<A: Repr, B: Repr, C: Repr, D: Repr, E: Repr, F: Repr> Repr for (A, B, C, D, E, F) {
    type V = (A::V, B::V, C::V, D::V, E::V, F::V);

    open spec fn repr(&self) -> (A::V, B::V, C::V, D::V, E::V, F::V) {
        (
            self.0.repr(),
            self.1.repr(),
            self.2.repr(),
            self.3.repr(),
            self.4.repr(),
            self.5.repr(),
        )
    }
}

impl<A: Repr, B: Repr, C: Repr, D: Repr, E: Repr, F: Repr, G: Repr> Repr for (A, B, C, D, E, F, G) {
    type V = (A::V, B::V, C::V, D::V, E::V, F::V, G::V);

    open spec fn repr(&self) -> (A::V, B::V, C::V, D::V, E::V, F::V, G::V) {
        (
            self.0.repr(),
            self.1.repr(),
            self.2.repr(),
            self.3.repr(),
            self.4.repr(),
            self.5.repr(),
            self.6.repr(),
        )
    }
}

impl<
    A: Repr,
    B: Repr,
    C: Repr,
    D: Repr,
    E: Repr,
    F: Repr,
    G: Repr,
    H: Repr,
> Repr for (A, B, C, D, E, F, G, H) {
    type V = (A::V, B::V, C::V, D::V, E::V, F::V, G::V, H::V);

    open spec fn repr(&self) -> (A::V, B::V, C::V, D::V, E::V, F::V, G::V, H::V) {
        (
            self.0.repr(),
            self.1.repr(),
            self.2.repr(),
            self.3.repr(),
            self.4.repr(),
            self.5.repr(),
            self.6.repr(),
            self.7.repr(),
        )
    }
}

impl<
    A: Repr,
    B: Repr,
    C: Repr,
    D: Repr,
    E: Repr,
    F: Repr,
    G: Repr,
    H: Repr,
    I: Repr,
> Repr for (A, B, C, D, E, F, G, H, I) {
    type V = (A::V, B::V, C::V, D::V, E::V, F::V, G::V, H::V, I::V);

    open spec fn repr(&self) -> (A::V, B::V, C::V, D::V, E::V, F::V, G::V, H::V, I::V) {
        (
            self.0.repr(),
            self.1.repr(),
            self.2.repr(),
            self.3.repr(),
            self.4.repr(),
            self.5.repr(),
            self.6.repr(),
            self.7.repr(),
            self.8.repr(),
        )
    }
}

impl<
    A: Repr,
    B: Repr,
    C: Repr,
    D: Repr,
    E: Repr,
    F: Repr,
    G: Repr,
    H: Repr,
    I: Repr,
    J: Repr,
> Repr for (A, B, C, D, E, F, G, H, I, J) {
    type V = (A::V, B::V, C::V, D::V, E::V, F::V, G::V, H::V, I::V, J::V);

    open spec fn repr(&self) -> (A::V, B::V, C::V, D::V, E::V, F::V, G::V, H::V, I::V, J::V) {
        (
            self.0.repr(),
            self.1.repr(),
            self.2.repr(),
            self.3.repr(),
            self.4.repr(),
            self.5.repr(),
            self.6.repr(),
            self.7.repr(),
            self.8.repr(),
            self.9.repr(),
        )
    }
}

} // verus!
