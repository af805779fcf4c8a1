//! The expansion of entity references.
//!
//! A reference is a name between an opening character and a semicolon. Where
//! the name is declared, the reference is replaced in the text by the
//! entity's replacement text, and parsing goes on at the place where the
//! reference began. The configuration counts the expansions that recur at one
//! site, and an expansion is refused once the count has reached its limit.

use vstd::prelude::*;
use vstd::string::*;
use crate::repr::Repr;
use crate::text::{lemma_first_match_at, matches_at, slice};
use crate::parser::{expanded, ParserConfig};
use crate::parser::xml::entity_text;
use crate::parser::combinators::delimited::delimited;
use crate::parser::combinators::tag::tag;
use crate::parser::combinators::take::take_until;
use crate::parser::combinators::{
    outcome_of, Combinator, ParseInput, ParseResult, SpecResult,
    State,
};

verus! {

/// The state `s` after the reference that ends at `end` was replaced by `v`:
/// the text is spliced, the position stays where the reference began, and the
/// configuration records the expansion.
pub open spec fn spliced(s: State, end: int, v: Seq<char>) -> State {
    State {
        text: s.text.subrange(0, s.pos) + v + s.text.subrange(end, s.text.len() as int),
        pos: s.pos,
        config: expanded(s.config, s.pos, v.len() as int),
    }
}

/// What expanding a reference at `s` gives, where `reference` is what the
/// syntax of the reference gave on `s`: the state behind the reference, and
/// the name. A name that is not declared is refused, and so is any
/// expansion once the depth has reached its limit; both fail at `s`.
pub open spec fn spec_expand(
    s: State,
    reference: SpecResult<Seq<char>>,
    general: bool,
) -> SpecResult<Seq<char>> {
    match reference {
        Err(e) => Err(e),
        Ok((s1, name)) => {
            let table = if general {
                s1.config.dtd.generalentities
            } else {
                s1.config.dtd.paramentities
            };
            match entity_text(table, name, general) {
                Some(v) => if s1.config.depth >= s1.config.max_depth {
                    Err(s.pos)
                } else {
                    Ok((spliced(State { pos: s.pos, ..s1 }, s1.pos, v), Seq::empty()))
                },
                None => Err(s.pos),
            }
        },
    }
}

/// Replaces the reference that began at `index` and that `found` describes
/// by the replacement text `entity`, if there is one and the depth admits it.
fn expand(
    index: usize,
    found: (String, usize, ParserConfig, String),
    entity: Option<String>,
) -> (r: ParseResult<String>)
    requires
        index <= found.1 <= found.0@.len(),
    ensures
        match entity {
            Some(v) => if found.2.repr().depth >= found.2.repr().max_depth {
                r == Err::<(String, usize, ParserConfig, String), usize>(index)
            } else {
                &&& r is Ok
                &&& outcome_of(r) == Ok::<(State, Seq<char>), int>(
                    (
                        spliced(
                            State { text: found.0@, pos: index as int, config: found.2.repr() },
                            found.1 as int,
                            v@,
                        ),
                        Seq::empty(),
                    ),
                )
            },
            None => r == Err::<(String, usize, ParserConfig, String), usize>(index),
        },
{
    let (input1, newindex, mut config, _) = found;
    match entity {
        Some(v) => {
            proof {
                use_type_invariant(&config);
                config.lemma_wf();
            }
            if config.depth_left() == 0 {
                Err(index)
            } else {
                let len = input1.as_str().unicode_len();
                let mut text = slice(&input1, 0, index);
                text.append(v.as_str());
                text.append(input1.as_str().substring_char(newindex, len));
                let vlen = v.as_str().unicode_len();
                // the new text holds the inserted one behind `index`, so the
                // new site is at most its length
                let total = text.as_str().unicode_len();
                assert(index + vlen <= total);
                config.record_expansion(index, vlen);
                Ok((text, index, config, String::new()))
            }
        },
        None => Err(index),
    }
}

/// Expands a reference to a general entity: `&name;`.
pub struct GenEntityExpander;

/// A parser that expands a reference to a general entity.
#[verifier::allow_in_spec]
pub fn genentityexpander() -> GenEntityExpander
    returns
        GenEntityExpander,
{
    GenEntityExpander
}

impl Combinator for GenEntityExpander {
    type Output = String;

    open spec fn spec_parse(&self, s: State) -> SpecResult<Seq<char>> {
        spec_expand(s, delimited(tag("&"), take_until(";"), tag(";")).spec_parse(s), true)
    }

    fn parse(&self, input: ParseInput) -> (r: ParseResult<String>) {
        let index = input.1;
        proof {
            use_type_invariant(&input.2);
            input.2.lemma_wf();
        }
        match delimited(tag("&"), take_until(";"), tag(";")).parse(input) {
            Err(err) => Err(err),
            Ok(found) => {
                proof {
                    use_type_invariant(&found.2);
                    found.2.lemma_wf();
                }
                let entity = found.2.general_entity(&found.3);
                expand(index, found, entity)
            },
        }
    }
}

/// Expands a reference to a parameter entity: `%name;`.
pub struct ParamEntityExpander;

/// A parser that expands a reference to a parameter entity.
#[verifier::allow_in_spec]
pub fn paramentityexpander() -> ParamEntityExpander
    returns
        ParamEntityExpander,
{
    ParamEntityExpander
}

impl Combinator for ParamEntityExpander {
    type Output = String;

    open spec fn spec_parse(&self, s: State) -> SpecResult<Seq<char>> {
        spec_expand(s, delimited(tag("%"), take_until(";"), tag(";")).spec_parse(s), false)
    }

    fn parse(&self, input: ParseInput) -> (r: ParseResult<String>) {
        let index = input.1;
        proof {
            use_type_invariant(&input.2);
            input.2.lemma_wf();
        }
        match delimited(tag("%"), take_until(";"), tag(";")).parse(input) {
            Err(err) => Err(err),
            Ok(found) => {
                proof {
                    use_type_invariant(&found.2);
                    found.2.lemma_wf();
                }
                let entity = found.2.param_entity(&found.3);
                expand(index, found, entity)
            },
        }
    }
}

/// The replacement text that is declared for `name`: that of a general
/// entity, if `general`, or else that of a parameter entity.
pub open spec fn declared_text(s: State, name: Seq<char>, general: bool) -> Option<Seq<char>> {
    if general {
        entity_text(s.config.dtd.generalentities, name, true)
    } else {
        entity_text(s.config.dtd.paramentities, name, false)
    }
}

/// A reference as it is written: `&` for a general entity or `%` for a
/// parameter entity, the name, and `;`.
pub open spec fn reference_text(name: Seq<char>, general: bool) -> Seq<char> {
    seq![if general {
        '&'
    } else {
        '%'
    }] + name + seq![';']
}

/// A reference to a declared entity is expanded: where the reference stands
/// at the position, its name is declared with the replacement text `v`, and
/// the depth has not reached its limit, the expander succeeds. The text is
/// then the one in which `v` stands in place of the reference and nothing
/// else has changed; the position is the one where the reference began, so
/// that parsing goes on with the inserted text; the configuration has
/// recorded the expansion; and what is found is the empty text.
pub proof fn lemma_declared_entity_is_expanded(
    s: State,
    name: Seq<char>,
    v: Seq<char>,
    general: bool,
)
    requires
        matches_at(s.text, s.pos, reference_text(name, general)),
        !name.contains(';'),
        declared_text(s, name, general) == Some(v),
        s.config.depth < s.config.max_depth,
    ensures
        (if general {
            genentityexpander().spec_parse(s)
        } else {
            paramentityexpander().spec_parse(s)
        }) == Ok::<(State, Seq<char>), int>(
            (
                State {
                    text: s.text.subrange(0, s.pos) + v + s.text.subrange(
                        s.pos + name.len() + 2,
                        s.text.len() as int,
                    ),
                    pos: s.pos,
                    config: expanded(s.config, s.pos, v.len() as int),
                },
                Seq::empty(),
            ),
        ),
{
    reveal_strlit("&");
    reveal_strlit("%");
    reveal_strlit(";");
    let written = reference_text(name, general);
    let p = s.pos;
    let n = name.len() as int;
    let found = s.text.subrange(p, p + n + 2);
    assert(found == written);
    assert(written.len() == n + 2);
    assert(s.text[p] == found[0]);
    assert(s.text[p + n + 1] == found[n + 1]);
    assert forall|i: int| 0 <= i < n implies s.text[p + 1 + i] == name[i] by {
        assert(s.text[p + 1 + i] == found[i + 1]);
        assert(written[i + 1] == name[i]);
    }
    let opening = if general {
        "&"@
    } else {
        "%"@
    };
    assert(s.text.subrange(p, p + 1) =~= opening);
    assert(s.text.subrange(p + n + 1, p + n + 2) =~= ";"@);
    assert forall|j: int| p + 1 <= j < p + 1 + n implies !matches_at(s.text, j, ";"@) by {
        if matches_at(s.text, j, ";"@) {
            assert(s.text.subrange(j, j + 1)[0] == ';');
            assert(name[j - p - 1] == ';');
        }
    }
    lemma_first_match_at(s.text, p + 1, p + 1 + n, ";"@);
    assert(s.text.subrange(p + 1, p + 1 + n) =~= name);
}

/// What expanding references one after another gives: beginning with the
/// state `s`, each step goes to a position and expands there a general
/// entity, if the step is marked true, or a parameter entity.
pub open spec fn spec_expansions(s: State, steps: Seq<(bool, int)>) -> SpecResult<Seq<char>>
    decreases steps.len(),
{
    if steps.len() == 0 {
        Ok((s, Seq::empty()))
    } else {
        match spec_expansions(s, steps.drop_last()) {
            Ok((s1, _)) => {
                let here = State { pos: steps.last().1, ..s1 };
                if steps.last().0 {
                    genentityexpander().spec_parse(here)
                } else {
                    paramentityexpander().spec_parse(here)
                }
            },
            Err(e) => Err(e),
        }
    }
}

/// Whether the steps behind the first one stay within the site: none of
/// them lies beyond the place that the expansions before it have recorded.
pub open spec fn within_site(s: State, steps: Seq<(bool, int)>) -> bool
    decreases steps.len(),
{
    if steps.len() <= 1 {
        true
    } else {
        &&& within_site(s, steps.drop_last())
        &&& match spec_expansions(s, steps.drop_last()) {
            Ok((s1, _)) => steps.last().1 <= s1.config.entity_index,
            Err(_) => true,
        }
    }
}

/// What one expansion does to the state: it stays where it began, and it
/// either starts a new site or counts at the old one.
proof fn lemma_expansion(s: State, general: bool)
    ensures
        match spec_expand(
            s,
            delimited(
                tag(
                    if general {
                        "&"
                    } else {
                        "%"
                    },
                ),
                take_until(";"),
                tag(";"),
            ).spec_parse(s),
            general,
        ) {
            Ok((s1, _)) => {
                &&& s1.pos == s.pos
                &&& s1.config.max_depth == s.config.max_depth
                &&& s.config.depth < s.config.max_depth
                &&& if s.pos > s.config.entity_index {
                    s1.config.depth == 0 && s1.config.entity_index >= s.pos
                } else {
                    s1.config.depth == s.config.depth + 1 && s1.config.entity_index
                        == s.config.entity_index
                }
            },
            Err(_) => true,
        },
{
}

/// Within a site, each expansion behind the first one counts.
proof fn lemma_expansions_count(s: State, steps: Seq<(bool, int)>)
    requires
        steps.len() >= 1,
        within_site(s, steps),
    ensures
        match spec_expansions(s, steps) {
            Ok((s1, _)) => {
                &&& s1.pos == steps.last().1
                &&& s1.config.max_depth == s.config.max_depth
                &&& s1.config.entity_index >= s1.pos
                &&& s1.config.depth + 1 >= steps.len()
                &&& s1.config.depth <= s1.config.max_depth
            },
            Err(_) => true,
        },
    decreases steps.len(),
{
    if steps.len() > 1 {
        lemma_expansions_count(s, steps.drop_last());
        match spec_expansions(s, steps.drop_last()) {
            Ok((s1, _)) => {
                lemma_expansion(State { pos: steps.last().1, ..s1 }, steps.last().0);
            },
            Err(_) => {},
        }
    } else {
        assert(steps.drop_last().len() == 0);
        lemma_expansion(State { pos: steps.last().1, ..s }, steps.last().0);
    }
}

/// The depth guard: of the expansions that follow one another within one
/// site, no more succeed than the depth limit and one. Only an expansion
/// beyond the site, which lies behind the text that the last new site
/// inserted, starts to count anew.
pub proof fn lemma_expansion_is_bounded(s: State, steps: Seq<(bool, int)>)
    requires
        within_site(s, steps),
        steps.len() >= s.config.max_depth + 2,
    ensures
        spec_expansions(s, steps) is Err,
{
    lemma_expansions_count(s, steps);
}

/// Steps that all go to one position stay within the site.
proof fn lemma_one_place_is_within_site(s: State, steps: Seq<(bool, int)>)
    requires
        forall|i: int| 0 <= i < steps.len() ==> (#[trigger] steps[i]).1 == s.pos,
    ensures
        within_site(s, steps),
    decreases steps.len(),
{
    if steps.len() > 1 {
        let before = steps.drop_last();
        lemma_one_place_is_within_site(s, before);
        lemma_expansions_count(s, before);
        assert(before.last() == steps[steps.len() - 2]);
    }
}

/// An entity whose replacement text begins with a reference to itself,
/// directly or through other entities, is refused: of the expansions that
/// follow one another at one position, no more succeed than the depth limit
/// and one.
pub proof fn lemma_self_reference_is_refused(s: State, steps: Seq<(bool, int)>)
    requires
        forall|i: int| 0 <= i < steps.len() ==> (#[trigger] steps[i]).1 == s.pos,
        steps.len() >= s.config.max_depth + 2,
    ensures
        spec_expansions(s, steps) is Err,
{
    lemma_one_place_is_within_site(s, steps);
    lemma_expansion_is_bounded(s, steps);
}

} // verus!
