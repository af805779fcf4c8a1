//! Parsers that take a run of characters.

use vstd::prelude::*;
use vstd::string::*;
use crate::text::{find_from, first_match, slice};
use crate::parser::combinators::{Combinator, ParseInput, ParseResult, SpecResult, State};

verus! {

/// A set of characters, with a test that computes what `spec_accepts` says.
pub trait CharClass {
    /// Whether `c` is in the set.
    spec fn spec_accepts(&self, c: char) -> bool;

    /// Tests `c`.
    fn accepts(&self, c: char) -> (b: bool)
        ensures
            b == self.spec_accepts(c),
    ;
}

/// Where the longest run of characters of `class` that begins at `from`
/// ends: the first position at or after `from` whose character is not in
/// `class`, or the end of the text.
pub open spec fn run_end<F: CharClass>(class: F, text: Seq<char>, from: int) -> int
    decreases text.len() - from,
{
    if 0 <= from < text.len() && class.spec_accepts(text[from]) {
        run_end(class, text, from + 1)
    } else {
        from
    }
}

/// Where the longest run of characters of `class` that begins at `from` ends.
pub fn scan_run<F: CharClass>(class: &F, text: &str, from: usize) -> (end: usize)
    ensures
        end == run_end(*class, text@, from as int),
        from <= end,
        from < end ==> end <= text@.len(),
{
    let len = text.unicode_len();
    if from > len {
        return from;
    }
    let mut at: usize = from;
    while at < len
        invariant
            from <= at <= len,
            len == text@.len(),
            run_end(*class, text@, from as int) == run_end(*class, text@, at as int),
        decreases len - at,
    {
        if !class.accepts(text.get_char(at)) {
            return at;
        }
        at = at + 1;
    }
    at
}

/// Takes the characters before the first occurrence of the literal it holds.
pub struct TakeUntil(pub &'static str);

/// A parser that takes the characters before the first occurrence of `substr`.
#[verifier::allow_in_spec]
pub fn take_until(substr: &'static str) -> TakeUntil
    returns
        TakeUntil(substr),
{
    TakeUntil(substr)
}

impl Combinator for TakeUntil {
    type Output = String;

    open spec fn spec_parse(&self, s: State) -> SpecResult<Seq<char>> {
        match first_match(s.text, s.pos, self.0@) {
            Some(at) => Ok((State { pos: at, ..s }, s.text.subrange(s.pos, at))),
            None => Err(s.pos),
        }
    }

    fn parse(&self, input: ParseInput) -> (r: ParseResult<String>) {
        let index = input.1;
        match find_from(input.0.as_str(), index, self.0) {
            None => Err(index),
            Some(found) => {
                let taken = slice(&input.0, index, found);
                Ok((input.0, found, input.2, taken))
            },
        }
    }
}

/// Takes the longest run of characters of a class. Fails where the run is
/// empty.
pub struct TakeWhile<F>(pub F);

/// A parser that takes the longest run of characters that `condition` accepts.
#[verifier::allow_in_spec]
pub fn take_while<F: CharClass>(condition: F) -> TakeWhile<F>
    returns
        TakeWhile(condition),
{
    TakeWhile(condition)
}

impl<F: CharClass> Combinator for TakeWhile<F> {
    type Output = String;

    open spec fn spec_parse(&self, s: State) -> SpecResult<Seq<char>> {
        let end = run_end(self.0, s.text, s.pos);
        if end == s.pos {
            Err(s.pos)
        } else {
            Ok((State { pos: end, ..s }, s.text.subrange(s.pos, end)))
        }
    }

    fn parse(&self, input: ParseInput) -> (r: ParseResult<String>) {
        let index = input.1;
        let end = scan_run(&self.0, input.0.as_str(), index);
        if end == index {
            Err(index)
        } else {
            let taken = slice(&input.0, index, end);
            Ok((input.0, end, input.2, taken))
        }
    }
}

/// Takes a run of characters of a class: the longest one, but no more than
/// `max` characters of it. Fails where the longest run has fewer than `min`
/// characters.
pub struct TakeWhileMN<F>(pub usize, pub usize, pub F);

/// A parser that takes a run of at least `min` and at most `max` characters that
/// `condition` accepts.
#[verifier::allow_in_spec]
pub fn take_while_m_n<F: CharClass>(min: usize, max: usize, condition: F) -> TakeWhileMN<F>
    returns
        TakeWhileMN(min, max, condition),
{
    TakeWhileMN(min, max, condition)
}

impl<F: CharClass> Combinator for TakeWhileMN<F> {
    type Output = String;

    open spec fn spec_parse(&self, s: State) -> SpecResult<Seq<char>> {
        let end = run_end(self.2, s.text, s.pos);
        if end - s.pos >= self.0 {
            if end - s.pos > self.1 {
                Ok((State { pos: s.pos + self.1, ..s }, s.text.subrange(s.pos, s.pos + self.1)))
            } else if end == s.pos {
                Ok((s, Seq::empty()))
            } else {
                Ok((State { pos: end, ..s }, s.text.subrange(s.pos, end)))
            }
        } else {
            Err(s.pos)
        }
    }

    fn parse(&self, input: ParseInput) -> (r: ParseResult<String>) {
        let index = input.1;
        let end = scan_run(&self.2, input.0.as_str(), index);
        let pos = end - index;
        if pos >= self.0 {
            if pos > self.1 {
                let taken = slice(&input.0, index, index + self.1);
                Ok((input.0, index + self.1, input.2, taken))
            } else if pos == 0 {
                Ok((input.0, index, input.2, String::new()))
            } else {
                let taken = slice(&input.0, index, end);
                Ok((input.0, end, input.2, taken))
            }
        } else {
            Err(index)
        }
    }
}

} // verus!
