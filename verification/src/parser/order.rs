//! The steps of the grammar keep the order of the states.
//!
//! The recursive parts of the grammar, which are the elements with their
//! content and the groups of content particles, pass some of their steps
//! through `ahead` and `onward`, which refuse a step that would break the
//! order of the states. Here it is shown that on a well-formed state none of
//! these steps breaks it, so that an element with content, the content of an
//! element and a group of content particles are what their grammar says,
//! without provisos. What is left is the proviso of every repetition, that a
//! step which does not move on ends it.

use vstd::prelude::*;
use crate::repr::Repr;
use crate::text::{first_match, lemma_first_match};
use crate::parser::chardata::{
    chardata, chardata_cdata, chardata_escapes, chardata_literal, spec_chardata,
    spec_chardata_cdata, spec_chardata_escapes, spec_chardata_literal,
    spec_chardata_unicode_codepoint, spec_parse_decimal, spec_parse_hex, DecimalDigit, HexDigit,
};
use crate::parser::common::{
    name, spec_name, spec_ncname, NameChar, NameStartChar, NcNameChar, NcNameStartChar,
};
use crate::parser::doctype::{spec_cp, spec_group, spec_group_rest, spec_occurrence};
use crate::parser::element::{
    attribute, attributes, content_nodes, qualname, spec_attributes, spec_content,
    spec_content_items, spec_prefixed_name, spec_qualname, spec_taggedelem,
    spec_unprefixed_name,
};
use crate::parser::combinators::alt::{alt3, alt4};
use crate::parser::xml::NodeView;
use crate::parser::combinators::many::spec_many0;
use crate::parser::combinators::none_of::{none_of, NoneOf};
use crate::parser::combinators::opt::opt;
use crate::parser::combinators::tag::{tag, Tag};
use crate::parser::combinators::take::{
    run_end, take_until, take_while, take_while_m_n, CharClass, TakeUntil, TakeWhile,
    TakeWhileMN,
};
use crate::parser::combinators::tuple::{tuple2, tuple3, tuple4};
use crate::parser::combinators::whitespace::{spec_whitespace0, spec_whitespace1, whitespace0};
use crate::parser::combinators::{ahead, onward, Combinator, SpecResult, State};

verus! {

/// Whether the outcome `r` of a step from `s` keeps the order: where it is a
/// success, its state is well formed and does not come before `s`.
pub open spec fn keeps_order<T>(r: SpecResult<T>, s: State) -> bool {
    match r {
        Ok((s1, _)) => s1.wf() && s1.not_before(s),
        Err(_) => true,
    }
}

/// Whether the outcome `r` of a step from `s` moves on: where it is a
/// success, its state is well formed and comes after `s`.
pub open spec fn moves_on<T>(r: SpecResult<T>, s: State) -> bool {
    match r {
        Ok((s1, _)) => s1.wf() && s1.after(s),
        Err(_) => true,
    }
}

/// A literal keeps the order, and one that is not empty moves on.
pub proof fn lemma_tag(p: Tag, s: State)
    requires
        s.wf(),
    ensures
        keeps_order(p.spec_parse(s), s),
        p.0@.len() > 0 ==> moves_on(p.spec_parse(s), s),
{
}

/// Taking the characters before a literal keeps the order.
pub proof fn lemma_take_until(p: TakeUntil, s: State)
    requires
        s.wf(),
    ensures
        keeps_order(p.spec_parse(s), s),
{
    if first_match(s.text, s.pos, p.0@) is Some {
        lemma_first_match(s.text, s.pos, p.0@);
    }
}

/// A run of characters ends at or behind its start, and one that is not
/// empty lies within the text.
proof fn lemma_run_end<F: CharClass>(class: F, text: Seq<char>, from: int)
    ensures
        from <= run_end(class, text, from),
        from < run_end(class, text, from) ==> 0 <= from && run_end(class, text, from)
            <= text.len(),
    decreases text.len() - from,
{
    if 0 <= from < text.len() && class.spec_accepts(text[from]) {
        lemma_run_end(class, text, from + 1);
    }
}

/// Taking a run of characters moves on.
pub proof fn lemma_take_while<F: CharClass>(p: TakeWhile<F>, s: State)
    requires
        s.wf(),
    ensures
        moves_on(p.spec_parse(s), s),
{
    lemma_run_end(p.0, s.text, s.pos);
}

/// Taking a bounded run of characters keeps the order, and moves on where
/// at least one character is wanted and admitted.
pub proof fn lemma_take_while_m_n<F: CharClass>(p: TakeWhileMN<F>, s: State)
    requires
        s.wf(),
    ensures
        keeps_order(p.spec_parse(s), s),
        p.0 > 0 && p.1 > 0 ==> moves_on(p.spec_parse(s), s),
{
    lemma_run_end(p.2, s.text, s.pos);
}

/// Taking one character moves on.
pub proof fn lemma_none_of(p: NoneOf, s: State)
    requires
        s.wf(),
    ensures
        moves_on(p.spec_parse(s), s),
{
}

/// A repetition keeps the order.
pub proof fn lemma_many0<P: Combinator>(p: P, s: State)
    requires
        s.wf(),
    ensures
        spec_many0(p, s).0.wf(),
        spec_many0(p, s).0.not_before(s),
    decreases s.rank().0, s.rank().1, s.rank().2,
{
    match ahead(p.spec_parse(s), s) {
        Ok((s1, _)) => {
            lemma_many0(p, s1);
        },
        Err(_) => {},
    }
}

/// White space keeps the order.
pub proof fn lemma_whitespace0(s: State)
    requires
        s.wf(),
    ensures
        keeps_order(spec_whitespace0(s), s),
{
    reveal(spec_whitespace0);
    lemma_many0(alt4(tag(" "), tag("\t"), tag("\r"), tag("\n")), s);
}

/// White space of at least one character keeps the order.
pub proof fn lemma_whitespace1(s: State)
    requires
        s.wf(),
    ensures
        keeps_order(spec_whitespace1(s), s),
{
    reveal(spec_whitespace1);
    let p = alt4(tag(" "), tag("\t"), tag("\r"), tag("\n"));
    match p.spec_parse(s) {
        Ok((s1, _)) => {
            lemma_many0(p, s1);
        },
        Err(_) => {},
    }
}

/// A name without colons moves on.
pub proof fn lemma_ncname(s: State)
    requires
        s.wf(),
    ensures
        moves_on(spec_ncname(s), s),
{
    reveal(spec_ncname);
    let first = take_while_m_n(1, 1, NcNameStartChar);
    lemma_take_while_m_n(first, s);
    match first.spec_parse(s) {
        Ok((s1, _)) => {
            lemma_take_while(take_while(NcNameChar), s1);
        },
        Err(_) => {},
    }
}

/// A name moves on.
pub proof fn lemma_name(s: State)
    requires
        s.wf(),
    ensures
        moves_on(spec_name(s), s),
{
    reveal(spec_name);
    let first = take_while_m_n(1, 1, NameStartChar);
    lemma_take_while_m_n(first, s);
    match first.spec_parse(s) {
        Ok((s1, _)) => {
            lemma_take_while(take_while(NameChar), s1);
        },
        Err(_) => {},
    }
}

/// A qualified name moves on.
pub proof fn lemma_qualname(s: State)
    requires
        s.wf(),
    ensures
        moves_on(spec_qualname(s), s),
{
    reveal(spec_qualname);
    reveal(spec_prefixed_name);
    reveal(spec_unprefixed_name);
    lemma_ncname(s);
    match spec_ncname(s) {
        Ok((s1, _)) => {
            lemma_tag(tag(":"), s1);
            match tag(":").spec_parse(s1) {
                Ok((s2, _)) => {
                    lemma_ncname(s2);
                },
                Err(_) => {},
            }
        },
        Err(_) => {},
    }
}

/// The attributes of an element keep the order.
pub proof fn lemma_attributes(s: State)
    requires
        s.wf(),
    ensures
        keeps_order(spec_attributes(s), s),
{
    reveal(spec_attributes);
    lemma_many0(attribute(), s);
}

/// The digits of a number move on.
proof fn lemma_digits(s: State)
    requires
        s.wf(),
    ensures
        moves_on(spec_parse_hex(s), s),
        moves_on(spec_parse_decimal(s), s),
{
    reveal(spec_parse_hex);
    reveal(spec_parse_decimal);
    lemma_take_while_m_n(take_while_m_n(1, 6, HexDigit), s);
    lemma_take_while_m_n(take_while_m_n(1, 7, DecimalDigit), s);
}

/// A numeric character reference keeps the order.
pub proof fn lemma_chardata_unicode_codepoint(s: State)
    requires
        s.wf(),
    ensures
        keeps_order(spec_chardata_unicode_codepoint(s), s),
{
    reveal(spec_chardata_unicode_codepoint);
    lemma_tag(tag("&#x"), s);
    match tag("&#x").spec_parse(s) {
        Ok((s1, _)) => {
            lemma_digits(s1);
            match spec_parse_hex(s1) {
                Ok((s2, _)) => {
                    lemma_tag(tag(";"), s2);
                },
                Err(_) => {},
            }
        },
        Err(_) => {},
    }
    lemma_tag(tag("&#"), s);
    match tag("&#").spec_parse(s) {
        Ok((s1, _)) => {
            lemma_digits(s1);
            match spec_parse_decimal(s1) {
                Ok((s2, _)) => {
                    lemma_tag(tag(";"), s2);
                },
                Err(_) => {},
            }
        },
        Err(_) => {},
    }
}

/// An escape keeps the order.
pub proof fn lemma_chardata_escapes(s: State)
    requires
        s.wf(),
    ensures
        keeps_order(spec_chardata_escapes(s), s),
{
    reveal(spec_chardata_escapes);
    lemma_chardata_unicode_codepoint(s);
    lemma_tag(tag("&gt;"), s);
    lemma_tag(tag("&lt;"), s);
    lemma_tag(tag("&amp;"), s);
    lemma_tag(tag("&quot;"), s);
    lemma_tag(tag("&apos;"), s);
}

/// A CDATA section keeps the order.
pub proof fn lemma_chardata_cdata(s: State)
    requires
        s.wf(),
    ensures
        keeps_order(spec_chardata_cdata(s), s),
{
    reveal(spec_chardata_cdata);
    lemma_tag(tag("<![CDATA["), s);
    match tag("<![CDATA[").spec_parse(s) {
        Ok((s1, _)) => {
            lemma_take_until(take_until("]]>"), s1);
            match take_until("]]>").spec_parse(s1) {
                Ok((s2, _)) => {
                    lemma_tag(tag("]]>"), s2);
                },
                Err(_) => {},
            }
        },
        Err(_) => {},
    }
}

/// A literal run of character data keeps the order.
pub proof fn lemma_chardata_literal(s: State)
    requires
        s.wf(),
    ensures
        keeps_order(spec_chardata_literal(s), s),
{
    reveal(spec_chardata_literal);
    lemma_none_of(none_of("<&"), s);
    match none_of("<&").spec_parse(s) {
        Ok((s1, _)) => {
            lemma_many0(none_of("<&"), s1);
        },
        Err(_) => {},
    }
}

/// Character data keeps the order.
pub proof fn lemma_chardata(s: State)
    requires
        s.wf(),
    ensures
        keeps_order(spec_chardata(s), s),
{
    reveal(spec_chardata);
    lemma_chardata_cdata(s);
    lemma_chardata_escapes(s);
    lemma_chardata_literal(s);
    let p = alt3(chardata_cdata(), chardata_escapes(), chardata_literal());
    match p.spec_parse(s) {
        Ok((s1, _)) => {
            lemma_many0(p, s1);
        },
        Err(_) => {},
    }
}

/// An occurrence mark keeps the order.
proof fn lemma_occurrence(s: State)
    requires
        s.wf(),
    ensures
        keeps_order(spec_occurrence(s), s),
{
    lemma_tag(tag("?"), s);
    lemma_tag(tag("*"), s);
    lemma_tag(tag("+"), s);
}

/// A content particle keeps the order.
pub proof fn lemma_cp(s: State)
    requires
        s.wf(),
    ensures
        keeps_order(spec_cp(s), s),
    decreases s.rank().0, s.rank().1, s.rank().2, 2int,
{
    lemma_name(s);
    lemma_group(s, "|");
    lemma_group(s, ",");
    match name().spec_parse(s) {
        Ok((s1, _)) => {
            lemma_occurrence(s1);
        },
        Err(_) => match spec_group(s, "|") {
            Ok((s1, _)) => {
                lemma_occurrence(s1);
            },
            Err(_) => match spec_group(s, ",") {
                Ok((s1, _)) => {
                    lemma_occurrence(s1);
                },
                Err(_) => {},
            },
        },
    }
}

/// A group of content particles keeps the order.
pub proof fn lemma_group(s: State, sep: &'static str)
    requires
        s.wf(),
    ensures
        keeps_order(spec_group(s, sep), s),
    decreases s.rank().0, s.rank().1, s.rank().2, 1int,
{
    match ahead(tuple2(tag("("), whitespace0()).spec_parse(s), s) {
        Err(_) => {},
        Ok((s1, _)) => match onward(spec_cp(s1), s1) {
            Err(_) => {},
            Ok((s2, _)) => {
                lemma_group_rest(s2, sep);
                let s3 = spec_group_rest(s2, sep);
                lemma_whitespace0(s3);
                match spec_whitespace0(s3) {
                    Ok((s4, _)) => {
                        lemma_tag(tag(")"), s4);
                    },
                    Err(_) => {},
                }
            },
        },
    }
}

/// The content particles behind the first one of a group keep the order.
pub proof fn lemma_group_rest(s: State, sep: &'static str)
    requires
        s.wf(),
    ensures
        spec_group_rest(s, sep).wf(),
        spec_group_rest(s, sep).not_before(s),
    decreases s.rank().0, s.rank().1, s.rank().2, 0int,
{
    match ahead(tuple3(whitespace0(), tag(sep), whitespace0()).spec_parse(s), s) {
        Err(_) => {},
        Ok((s1, _)) => match onward(spec_cp(s1), s1) {
            Err(_) => {},
            Ok((s2, _)) => {
                lemma_group_rest(s2, sep);
            },
        },
    }
}

/// A group of content particles is what its grammar says: `(` and white
/// space, a content particle, the content particles behind it, and white
/// space and `)`.
pub proof fn lemma_group_is_its_grammar(s: State, sep: &'static str)
    requires
        s.wf(),
    ensures
        spec_group(s, sep) == (match tuple2(tag("("), whitespace0()).spec_parse(s) {
            Err(e) => Err(e),
            Ok((s1, _)) => match spec_cp(s1) {
                Err(e) => Err(e),
                Ok((s2, _)) => match tuple2(whitespace0(), tag(")")).spec_parse(
                    spec_group_rest(s2, sep),
                ) {
                    Ok((s3, _)) => Ok((s3, Seq::<char>::empty())),
                    Err(e) => Err(e),
                },
            },
        }),
{
    reveal_strlit("(");
    lemma_tag(tag("("), s);
    match tag("(").spec_parse(s) {
        Ok((s0, _)) => {
            lemma_whitespace0(s0);
            match spec_whitespace0(s0) {
                Ok((s1, _)) => {
                    lemma_cp(s1);
                },
                Err(_) => {},
            }
        },
        Err(_) => {},
    }
}

/// The content particles behind the first one of a group are what their
/// grammar says: as long as white space, the separator, white space and a
/// content particle follow, they are taken.
pub proof fn lemma_group_rest_is_its_grammar(s: State, sep: &'static str)
    requires
        s.wf(),
        sep@.len() > 0,
    ensures
        spec_group_rest(s, sep) == (match tuple3(
            whitespace0(),
            tag(sep),
            whitespace0(),
        ).spec_parse(s) {
            Err(_) => s,
            Ok((s1, _)) => match spec_cp(s1) {
                Err(_) => s,
                Ok((s2, _)) => spec_group_rest(s2, sep),
            },
        }),
{
    lemma_whitespace0(s);
    match spec_whitespace0(s) {
        Ok((s0, _)) => {
            lemma_tag(tag(sep), s0);
            match tag(sep).spec_parse(s0) {
                Ok((s1, _)) => {
                    lemma_whitespace0(s1);
                    match spec_whitespace0(s1) {
                        Ok((s2, _)) => {
                            lemma_cp(s2);
                        },
                        Err(_) => {},
                    }
                },
                Err(_) => {},
            }
        },
        Err(_) => {},
    }
}

/// The content of an element is what its grammar says: character data, if
/// there is some, and then the steps.
pub proof fn lemma_content_is_its_grammar(s: State)
    requires
        s.wf(),
    ensures
        spec_content(s) == (match opt(chardata()).spec_parse(s) {
            Err(e) => Err(e),
            Ok((s1, lead)) => Ok(
                (spec_content_items(s1).0, content_nodes(lead, spec_content_items(s1).1)),
            ),
        }),
{
    lemma_chardata(s);
}

/// An element with content is what its grammar says: `<`, a name,
/// attributes, white space and `>`; content; and `</`, a name, white space
/// and `>`, where the two names are the same.
pub proof fn lemma_taggedelem_is_its_grammar(s: State)
    requires
        s.wf(),
    ensures
        spec_taggedelem(s) == (match tag("<").spec_parse(s) {
            Err(e) => Err(e),
            Ok((s0, _)) => match tuple4(
                qualname(),
                attributes(),
                whitespace0(),
                tag(">"),
            ).spec_parse(s0) {
                Err(e) => Err(e),
                Ok((s1, start)) => match spec_content(s1) {
                    Err(e) => Err(e),
                    Ok((s2, c)) => match tuple4(
                        tag("</"),
                        qualname(),
                        whitespace0(),
                        tag(">"),
                    ).spec_parse(s2) {
                        Err(e) => Err(e),
                        Ok((s3, end)) => if start.0.text() == end.1.text() {
                            Ok((s3, NodeView::Element(start.0, start.1, c)))
                        } else {
                            Err(s.pos)
                        },
                    },
                },
            },
        }),
{
    reveal_strlit("<");
    lemma_tag(tag("<"), s);
    match tag("<").spec_parse(s) {
        Ok((s0, _)) => {
            lemma_qualname(s0);
            match spec_qualname(s0) {
                Ok((s1, _)) => {
                    lemma_attributes(s1);
                    match spec_attributes(s1) {
                        Ok((s2, _)) => {
                            lemma_whitespace0(s2);
                            match spec_whitespace0(s2) {
                                Ok((s3, _)) => {
                                    lemma_tag(tag(">"), s3);
                                },
                                Err(_) => {},
                            }
                        },
                        Err(_) => {},
                    }
                },
                Err(_) => {},
            }
        },
        Err(_) => {},
    }
}

} // verus!
