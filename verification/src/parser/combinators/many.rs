//! Repetition.

use vstd::prelude::*;
use vstd::string::*;
use crate::repr::Repr;
use crate::parser::ParserConfig;
use crate::parser::combinators::{
    ahead, clone_input, remaining, state_of, Combinator, ParseInput, ParseResult,
    SpecResult, State,
};

verus! {

/// What repeating `p` from `s` gives: the state after the last step, and
/// what the steps found. The repetition ends where `p` fails, and where a
/// step of `p` succeeds without moving on.
pub open spec fn spec_many0<P: Combinator>(p: P, s: State) -> (State, Seq<<P::Output as Repr>::V>)
    decreases s.rank().0, s.rank().1, s.rank().2,
{
    match ahead(p.spec_parse(s), s) {
        Ok((s1, v)) => {
            let (s2, vs) = spec_many0(p, s1);
            (s2, seq![v] + vs)
        },
        Err(_) => (s, Seq::empty()),
    }
}

/// Whether the state of `text`, `pos` and `config` comes strictly after that
/// of `before`.
pub fn moved_on(before: &ParseInput, text: &String, pos: usize, config: &ParserConfig) -> (b: bool)
    ensures
        b == (State { text: text@, pos: pos as int, config: config.repr() }).after(
            state_of(*before),
        ),
{
    proof {
        use_type_invariant(&before.2);
        before.2.lemma_wf();
        use_type_invariant(&config);
        config.lemma_wf();
    }
    let e1 = before.2.entity_index();
    let e2 = config.entity_index();
    if e2 > e1 {
        return true;
    }
    if e2 < e1 {
        return false;
    }
    let d1 = before.2.depth_left();
    let d2 = config.depth_left();
    if d2 < d1 {
        return true;
    }
    if d2 > d1 {
        return false;
    }
    left(text, pos) < left(&before.0, before.1)
}

/// How many characters of `text` lie at and behind the position `pos`.
fn left(text: &String, pos: usize) -> (n: usize)
    ensures
        n == remaining(text@, pos as int),
{
    let len = text.as_str().unicode_len();
    if pos <= len {
        len - pos
    } else {
        0
    }
}

/// Repeats `parser` from `input` and appends what the steps find to `found`.
pub fn repeat<P: Combinator>(parser: &P, input: ParseInput, found: Vec<P::Output>) -> (r: (
    ParseInput,
    Vec<P::Output>,
))
    ensures
        input.1 <= r.0.1,
        state_of(r.0).not_before(state_of(input)),
        state_of(r.0) == spec_many0(*parser, state_of(input)).0,
        r.1.repr() == found.repr() + spec_many0(*parser, state_of(input)).1,
{
    let ghost start = state_of(input);
    let ghost first = found.repr();
    let index = input.1;
    let mut cur = input;
    let mut result = found;
    proof {
        use_type_invariant(&cur.2);
        cur.2.lemma_wf();
        assert(first + Seq::<<P::Output as Repr>::V>::empty() =~= first);
    }
    loop
        invariant
            index <= cur.1,
            state_of(cur).wf(),
            state_of(cur).not_before(start),
            start.wf(),
            ({
                let all = spec_many0(*parser, start);
                let rest = spec_many0(*parser, state_of(cur));
                all.0 == rest.0 && first + all.1 == result.repr() + rest.1
            }),
        ensures
            index <= cur.1,
            state_of(cur).not_before(start),
            state_of(cur) == spec_many0(*parser, start).0,
            result.repr() == first + spec_many0(*parser, start).1,
        decreases state_of(cur).rank().0, state_of(cur).rank().1, state_of(cur).rank().2,
    {
        match parser.parse(clone_input(&cur)) {
            Ok((text, pos, config, item)) => {
                proof {
                    use_type_invariant(&config);
                    config.lemma_wf();
                }
                if moved_on(&cur, &text, pos, &config) {
                    let ghost before = result.repr();
                    result.push(item);
                    proof {
                        assert(result.repr() =~= before + seq![item.repr()]);
                        let s1 = State { text: text@, pos: pos as int, config: config.repr() };
                        let rest = spec_many0(*parser, s1);
                        assert((before + seq![item.repr()]) + rest.1 =~= before + (seq![
                            item.repr(),
                        ] + rest.1));
                    }
                    cur = (text, pos, config);
                } else {
                    proof {
                        assert(result.repr() + Seq::<<P::Output as Repr>::V>::empty()
                            =~= result.repr());
                    }
                    break ;
                }
            },
            Err(_) => {
                proof {
                    assert(result.repr() + Seq::<<P::Output as Repr>::V>::empty()
                        =~= result.repr());
                }
                break ;
            },
        }
    }
    (cur, result)
}

/// Repeats a parser until it fails, and always succeeds.
pub struct Many0<P>(pub P);

/// A parser that repeats `parser` as often as it succeeds.
#[verifier::allow_in_spec]
pub fn many0<P: Combinator>(parser: P) -> Many0<P>
    returns
        Many0(parser),
{
    Many0(parser)
}

impl<P: Combinator> Combinator for Many0<P> {
    type Output = Vec<P::Output>;

    open spec fn spec_parse(&self, s: State) -> SpecResult<Seq<<P::Output as Repr>::V>> {
        Ok(spec_many0(self.0, s))
    }

    fn parse(&self, input: ParseInput) -> (r: ParseResult<Vec<P::Output>>) {
        let found: Vec<P::Output> = Vec::new();
        proof {
            let rest = spec_many0(self.0, state_of(input)).1;
            assert(found.repr() + rest =~= rest);
        }
        let (end, result) = repeat(&self.0, input, found);
        Ok((end.0, end.1, end.2, result))
    }
}

/// Repeats a parser until it fails. Fails, at the position it was given,
/// where the first step fails.
pub struct Many1<P>(pub P);

/// A parser that repeats `parser` as often as it succeeds, and at least once.
#[verifier::allow_in_spec]
pub fn many1<P: Combinator>(parser: P) -> Many1<P>
    returns
        Many1(parser),
{
    Many1(parser)
}

impl<P: Combinator> Combinator for Many1<P> {
    type Output = Vec<P::Output>;

    open spec fn spec_parse(&self, s: State) -> SpecResult<Seq<<P::Output as Repr>::V>> {
        match self.0.spec_parse(s) {
            Ok((s1, v)) => {
                let (s2, vs) = spec_many0(self.0, s1);
                Ok((s2, seq![v] + vs))
            },
            Err(_) => Err(s.pos),
        }
    }

    fn parse(&self, input: ParseInput) -> (r: ParseResult<Vec<P::Output>>) {
        let index = input.1;
        match self.0.parse(input) {
            Err(_) => Err(index),
            Ok((input1, index1, config1, result1)) => {
                let mut found: Vec<P::Output> = Vec::new();
                found.push(result1);
                proof {
                    assert(found.repr() =~= seq![result1.repr()]);
                }
                let (end, result) = repeat(&self.0, (input1, index1, config1), found);
                Ok((end.0, end.1, end.2, result))
            },
        }
    }
}

} // verus!
