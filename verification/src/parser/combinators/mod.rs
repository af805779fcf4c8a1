//! The parsing primitives.
//!
//! A parser takes a text, a position in it counted in characters, and a
//! configuration. It gives either the state it reached together with what it
//! found, or the position at which it gave up. A parser that fails leaves no
//! trace: whoever tries another parser next runs it on the state that the
//! failed one was given.
//!
//! The text is part of the state because the expansion of an entity rewrites
//! it. States are ordered by a rank, so that every step of a parser leads to
//! a state of the same or a lower rank; this order is what bounds repetition
//! and the recursion of the grammar.

use vstd::prelude::*;
use crate::repr::Repr;
use crate::parser::{ConfigView, ParserConfig};

pub mod alt;
pub mod delimited;
pub mod expander;
pub mod many;
pub mod map;
pub mod none_of;
pub mod opt;
pub mod tag;
pub mod take;
pub mod tuple;
pub mod validate;
pub mod value;
pub mod whitespace;

verus! {

/// What a parser is given: the text, the position in it, and the configuration.
pub type ParseInput = (String, usize, ParserConfig);

/// What a parser gives: the text, the position reached, the configuration
/// and what was found; or the position at which the parser gave up.
pub type ParseResult<Output> = Result<(String, usize, ParserConfig, Output), usize>;

/// The state of a parse as the contracts see it.
pub struct State {
    pub text: Seq<char>,
    pub pos: int,
    pub config: ConfigView,
}

/// How many characters of `text` lie at and behind the position `pos`:
/// none, where the position is not one of the text.
pub open spec fn remaining(text: Seq<char>, pos: int) -> int {
    if 0 <= pos <= text.len() {
        text.len() - pos
    } else {
        0
    }
}

/// The outcome of a parser as the contracts see it.
pub type SpecResult<T> = Result<(State, T), int>;

impl State {
    /// The depth lies within its limit, and the site of the last expansion
    /// is a machine integer.
    pub open spec fn wf(self) -> bool {
        &&& self.config.depth <= self.config.max_depth
        &&& self.config.entity_index <= usize::MAX
    }

    /// How many characters of the text lie at and behind the position.
    pub open spec fn left(self) -> int {
        remaining(self.text, self.pos)
    }

    /// The rank of the state: how far the site of the last expansion can
    /// still move, how many expansions the site still admits, and how much of
    /// the text is left. Ranks are compared component by component, the
    /// first one first.
    pub open spec fn rank(self) -> (int, int, int) {
        (
            usize::MAX - self.config.entity_index,
            self.config.max_depth - self.config.depth,
            self.left(),
        )
    }

    /// `self` comes strictly after `before`: its rank is lower.
    pub open spec fn after(self, before: State) -> bool {
        let a = self.rank();
        let b = before.rank();
        a.0 < b.0 || (a.0 == b.0 && (a.1 < b.1 || (a.1 == b.1 && a.2 < b.2)))
    }

    /// `self` is `before` or comes after it.
    pub open spec fn not_before(self, before: State) -> bool {
        self.rank() == before.rank() || self.after(before)
    }
}

/// The state that `input` stands for.
pub open spec fn state_of(input: ParseInput) -> State {
    State { text: input.0@, pos: input.1 as int, config: input.2.repr() }
}

/// The outcome that `r` stands for.
pub open spec fn outcome_of<O: Repr>(r: ParseResult<O>) -> SpecResult<O::V> {
    match r {
        Ok((text, pos, config, v)) => Ok(
            (State { text: text@, pos: pos as int, config: config.repr() }, v.repr()),
        ),
        Err(e) => Err(e as int),
    }
}

/// Where `r` is a success, its position does not lie before that of
/// `input`, and its state does not come before the state of `input`.
pub open spec fn output_ok<O>(r: ParseResult<O>, input: ParseInput) -> bool {
    match r {
        Ok((text, pos, config, _)) => {
            &&& input.1 <= pos
            &&& (State { text: text@, pos: pos as int, config: config.repr() }).not_before(
                state_of(input),
            )
        },
        Err(_) => true,
    }
}

/// The outcome `r` of a step from `from`, provided that the step went
/// strictly forward; a failure at `from` where it did not. A repetition ends
/// by it where a step does not move on. The recursion of the grammar is
/// bounded by it; the steps that the grammar takes through it are shown to
/// pass it in the module `order`.
pub open spec fn ahead<T>(r: SpecResult<T>, from: State) -> SpecResult<T> {
    match r {
        Ok((s, v)) => if from.wf() && s.wf() && s.after(from) {
            Ok((s, v))
        } else {
            Err(from.pos)
        },
        Err(e) => Err(e),
    }
}

/// The outcome `r` of a step from `from`, provided that the step did not go
/// back; a failure at `from` where it did.
pub open spec fn onward<T>(r: SpecResult<T>, from: State) -> SpecResult<T> {
    match r {
        Ok((s, v)) => if from.wf() && s.wf() && s.not_before(from) {
            Ok((s, v))
        } else {
            Err(from.pos)
        },
        Err(e) => Err(e),
    }
}

/// A parser: `parse` computes what `spec_parse` says, and never goes back.
pub trait Combinator {
    type Output: Repr;

    /// What the parser gives on the state `s`.
    spec fn spec_parse(&self, s: State) -> SpecResult<<Self::Output as Repr>::V>;

    /// Runs the parser on `input`.
    fn parse(&self, input: ParseInput) -> (r: ParseResult<Self::Output>)
        ensures
            outcome_of(r) == self.spec_parse(state_of(input)),
            output_ok(r, input),
    ;
}

/// A copy of `input` that stands for the same state.
pub fn clone_input(input: &ParseInput) -> (r: ParseInput)
    ensures
        state_of(r) == state_of(*input),
{
    (input.0.clone(), input.1, input.2.duplicate())
}

} // verus!
