//! What holds of every document that the grammar accepts.

use vstd::prelude::*;
use crate::item::ValueView;
use crate::text::{first_match, lemma_first_match, lemma_first_match_is_first, matches_at};
use crate::parser::common::all_legal;
use crate::parser::element::{
    distinct_names, item_nodes, items_nodes, spec_attributes, spec_child,
    spec_content, spec_content_item, spec_content_items, spec_element, spec_emptyelem,
    spec_taggedelem,
};
use crate::parser::xml::{
    is_reserved, spec_comment, spec_document, spec_misc, spec_processing_instruction,
    spec_prolog, spec_reference, NodeView,
};
use crate::repr::Repr;
use crate::xdmerror::Error;
use crate::parser::initial_config;
use crate::parser::combinators;
use crate::parser::combinators::alt::alt2;
use crate::parser::combinators::many::spec_many0;
use crate::parser::combinators::map::Second;
use crate::parser::combinators::opt::opt;
use crate::parser::combinators::tag::tag;
use crate::parser::combinators::tuple::{tuple2};
use crate::parser::combinators::whitespace::whitespace0;
use crate::parser::combinators::{ahead, onward, Combinator, State};
use crate::parser::chardata::chardata;
use crate::parser::element::{element, qualname};
use crate::parser::xml::{
    comment, misc, parse_returns, processing_instruction, prolog, XMLDocument,
};

verus! {

/// Whether `pat` stands somewhere in `text`.
pub open spec fn occurs(text: Seq<char>, pat: Seq<char>) -> bool {
    exists|i: int| matches_at(text, i, pat)
}

/// Whether `node` keeps the rules of a document, and so do the nodes below
/// it: no two attributes of an element have the same name; the text of a
/// comment holds legal characters only and no `--`; the body of a processing
/// instruction holds legal characters only, and its target is not the
/// reserved name.
pub open spec fn well_formed(node: NodeView) -> bool
    decreases node,
{
    match node {
        NodeView::Element(_, attributes, content) => {
            &&& distinct_names(attributes)
            &&& forall|i: int| 0 <= i < content.len() ==> well_formed(#[trigger] content[i])
        },
        NodeView::Comment(ValueView::String(text)) => all_legal(text) && !occurs(text, "--"@),
        NodeView::PI(target, ValueView::String(body)) => all_legal(body) && !is_reserved(target),
        _ => true,
    }
}

/// Whether each of `nodes` is well formed.
pub open spec fn all_well_formed(nodes: Seq<NodeView>) -> bool {
    forall|i: int| 0 <= i < nodes.len() ==> well_formed(#[trigger] nodes[i])
}

/// What lies before the first place at which `pat` stands, does not hold `pat`.
proof fn lemma_taken_has_no_match(text: Seq<char>, from: int, pat: Seq<char>)
    requires
        pat.len() > 0,
        0 <= from,
        first_match(text, from, pat) is Some,
    ensures
        !occurs(text.subrange(from, first_match(text, from, pat)->0), pat),
{
    let at = first_match(text, from, pat)->0;
    lemma_first_match(text, from, pat);
    let taken = text.subrange(from, at);
    assert forall|i: int| !matches_at(taken, i, pat) by {
        if matches_at(taken, i, pat) {
            assert(text.subrange(from + i, from + i + pat.len()) =~= taken.subrange(
                i,
                i + pat.len(),
            ));
            assert(matches_at(text, from + i, pat));
            lemma_first_match_is_first(text, from, pat, from + i);
        }
    }
}

/// A comment that is accepted is well formed: `--` does not stand in its
/// text, and every character of it is legal.
pub proof fn lemma_comment_is_well_formed(s: State)
    ensures
        match spec_comment(s) {
            Ok((_, node)) => node is Comment && well_formed(node),
            Err(_) => true,
        },
{
    reveal(spec_comment);
    reveal_strlit("--");
    match spec_comment(s) {
        Ok((_, node)) => {
            let begin = s.pos + "<!--"@.len();
            lemma_taken_has_no_match(s.text, begin, "--"@);
        },
        Err(_) => {},
    }
}

/// A processing instruction that is accepted is well formed: its target is
/// not the reserved name, in whatever case, and every character of its body
/// is legal.
pub proof fn lemma_processing_instruction_is_well_formed(s: State)
    ensures
        match spec_processing_instruction(s) {
            Ok((_, node)) => node is PI && well_formed(node),
            Err(_) => true,
        },
{
    reveal(spec_processing_instruction);
}

/// The attributes that are accepted have names that differ from one another.
pub proof fn lemma_attributes_are_distinct(s: State)
    ensures
        match spec_attributes(s) {
            Ok((_, attributes)) => distinct_names(attributes),
            Err(_) => true,
        },
{
    reveal(spec_attributes);
}

/// The nodes of well-formed steps are well formed.
proof fn lemma_items_nodes(items: Seq<(NodeView, Option<Seq<char>>)>)
    requires
        forall|i: int| 0 <= i < items.len() ==> well_formed((#[trigger] items[i]).0),
    ensures
        all_well_formed(items_nodes(items)),
    decreases items.len(),
{
    if items.len() > 0 {
        lemma_items_nodes(items.drop_last());
        let head = items_nodes(items.drop_last());
        let tail = item_nodes(items.last());
        assert(well_formed(items.last().0));
        assert forall|i: int| 0 <= i < (head + tail).len() implies well_formed(
            #[trigger] (head + tail)[i],
        ) by {
            if i < head.len() {
                assert((head + tail)[i] == head[i]);
            } else {
                assert((head + tail)[i] == tail[i - head.len()]);
            }
        }
    }
}

/// An element with content that is accepted is well formed.
proof fn lemma_taggedelem(s: State)
    ensures
        match spec_taggedelem(s) {
            Ok((_, node)) => well_formed(node),
            Err(_) => true,
        },
    decreases s.rank().0, s.rank().1, s.rank().2, 0int,
{
    match spec_taggedelem(s) {
        Ok((_, node)) => {
            let s0 = ahead(tag("<").spec_parse(s), s)->Ok_0.0;
            let s1 = qualname().spec_parse(s0)->Ok_0.0;
            lemma_attributes_are_distinct(s1);
            let s2 = spec_attributes(s1)->Ok_0.0;
            let s3 = whitespace0().spec_parse(s2)->Ok_0.0;
            let s4 = tag(">").spec_parse(s3)->Ok_0.0;
            lemma_content(s4);
        },
        Err(_) => {},
    }
}

/// An element that is accepted is well formed.
proof fn lemma_element(s: State)
    ensures
        match spec_element(s) {
            Ok((_, node)) => well_formed(node),
            Err(_) => true,
        },
    decreases s.rank().0, s.rank().1, s.rank().2, 1int,
{
    reveal(spec_emptyelem);
    match spec_emptyelem(s) {
        Ok((_, node)) => {
            let s0 = tag("<").spec_parse(s)->Ok_0.0;
            let s1 = qualname().spec_parse(s0)->Ok_0.0;
            lemma_attributes_are_distinct(s1);
        },
        Err(_) => {
            lemma_taggedelem(s);
        },
    }
}

/// A child that is accepted is well formed.
proof fn lemma_child(s: State)
    ensures
        match spec_child(s) {
            Ok((_, node)) => well_formed(node),
            Err(_) => true,
        },
    decreases s.rank().0, s.rank().1, s.rank().2, 2int,
{
    lemma_element(s);
    reveal(spec_reference);
    lemma_processing_instruction_is_well_formed(s);
    lemma_comment_is_well_formed(s);
}

/// The child of a step that is accepted is well formed.
proof fn lemma_content_item(s: State)
    ensures
        match spec_content_item(s) {
            Ok((_, item)) => well_formed(item.0),
            Err(_) => true,
        },
    decreases s.rank().0, s.rank().1, s.rank().2, 3int,
{
    lemma_child(s);
}

/// The children of the steps that are accepted are well formed.
proof fn lemma_content_items(s: State)
    ensures
        forall|i: int|
            0 <= i < spec_content_items(s).1.len() ==> well_formed(
                (#[trigger] spec_content_items(s).1[i]).0,
            ),
    decreases s.rank().0, s.rank().1, s.rank().2, 4int,
{
    match ahead(spec_content_item(s), s) {
        Ok((s1, v)) => {
            lemma_content_item(s);
            lemma_content_items(s1);
            let rest = spec_content_items(s1).1;
            assert forall|i: int| 0 <= i < (seq![v] + rest).len() implies well_formed(
                (#[trigger] (seq![v] + rest)[i]).0,
            ) by {
                if i > 0 {
                    assert((seq![v] + rest)[i] == rest[i - 1]);
                }
            }
        },
        Err(_) => {},
    }
}

/// The content that is accepted is well formed.
proof fn lemma_content(s: State)
    ensures
        match spec_content(s) {
            Ok((_, nodes)) => all_well_formed(nodes),
            Err(_) => true,
        },
    decreases s.rank().0, s.rank().1, s.rank().2, 5int,
{
    match spec_content(s) {
        Ok((_, nodes)) => {
            let found = onward(opt(chardata()).spec_parse(s), s)->Ok_0;
            lemma_content_items(found.0);
            let items = spec_content_items(found.0).1;
            lemma_items_nodes(items);
            let tail = items_nodes(items);
            match found.1 {
                Some(text) => {
                    let head = seq![NodeView::Text(ValueView::String(text))];
                    assert forall|i: int| 0 <= i < (head + tail).len() implies well_formed(
                        #[trigger] (head + tail)[i],
                    ) by {
                        if i > 0 {
                            assert((head + tail)[i] == tail[i - 1]);
                        }
                    }
                },
                None => {},
            }
        },
        Err(_) => {},
    }
}

/// Where every result of `p` is good, so is every result of its repetition.
proof fn lemma_many0_all<P: Combinator>(
    p: P,
    s: State,
    good: spec_fn(<P::Output as Repr>::V) -> bool,
)
    requires
        forall|t: State|
            match #[trigger] p.spec_parse(t) {
                Ok((_, v)) => good(v),
                Err(_) => true,
            },
    ensures
        forall|i: int| 0 <= i < spec_many0(p, s).1.len() ==> good(#[trigger] spec_many0(p, s).1[i]),
    decreases s.rank().0, s.rank().1, s.rank().2,
{
    match ahead(p.spec_parse(s), s) {
        Ok((s1, v)) => {
            lemma_many0_all(p, s1, good);
            let rest = spec_many0(p, s1).1;
            assert forall|i: int| 0 <= i < (seq![v] + rest).len() implies good(
                #[trigger] (seq![v] + rest)[i],
            ) by {
                if i > 0 {
                    assert((seq![v] + rest)[i] == rest[i - 1]);
                }
            }
        },
        Err(_) => {},
    }
}

/// The comments and processing instructions that are accepted around the
/// root element are well formed.
pub proof fn lemma_misc_is_well_formed(s: State)
    ensures
        match spec_misc(s) {
            Ok((_, nodes)) => all_well_formed(nodes),
            Err(_) => true,
        },
{
    reveal(spec_misc);
    let p = combinators::map::map(
        alt2(tuple2(whitespace0(), comment()), tuple2(whitespace0(), processing_instruction())),
        Second,
    );
    assert forall|t: State|
        match #[trigger] p.spec_parse(t) {
            Ok((_, v)) => well_formed(v),
            Err(_) => true,
        } by {
        match whitespace0().spec_parse(t) {
            Ok((t1, _)) => {
                lemma_comment_is_well_formed(t1);
                lemma_processing_instruction_is_well_formed(t1);
            },
            Err(_) => {},
        }
    }
    lemma_many0_all(p, s, |v: NodeView| well_formed(v));
}

/// An element that is accepted is well formed, and so are the elements, the
/// comments and the processing instructions below it.
pub proof fn lemma_element_is_well_formed(s: State)
    ensures
        match spec_element(s) {
            Ok((_, node)) => node is Element && well_formed(node),
            Err(_) => true,
        },
{
    lemma_element(s);
    reveal(spec_emptyelem);
}

/// A document that is accepted is well formed: in its root element and in
/// every element below it, no two attributes have the same name; in none of
/// its comments stands `--`; none of its processing instructions has the
/// reserved name for its target.
pub proof fn lemma_document_is_well_formed(text: Seq<char>)
    ensures
        match spec_document(text) {
            Ok((_, doc)) => {
                &&& all_well_formed(doc.prologue)
                &&& doc.content.len() == 1
                &&& doc.content[0] is Element
                &&& all_well_formed(doc.content)
                &&& all_well_formed(doc.epilogue)
            },
            Err(_) => true,
        },
{
    let s = State { text, pos: 0, config: initial_config() };
    match spec_document(text) {
        Ok((_, doc)) => {
            reveal(spec_prolog);
            let (s1, p) = prolog().spec_parse(s)->Ok_0;
            let (s2, e) = element().spec_parse(s1)->Ok_0;
            lemma_element_is_well_formed(s1);
            lemma_misc_is_well_formed(s2);
            lemma_prolog_is_well_formed(s);
        },
        Err(_) => {},
    }
}

/// The nodes of a prolog that is accepted are well formed.
proof fn lemma_prolog_is_well_formed(s: State)
    ensures
        match spec_prolog(s) {
            Ok((_, found)) => all_well_formed(found.1),
            Err(_) => true,
        },
{
    reveal(spec_prolog);
    match spec_prolog(s) {
        Ok((_, found)) => {
            let s1 = opt(crate::parser::xml::xmldecl()).spec_parse(s)->Ok_0.0;
            lemma_misc_is_well_formed(s1);
            let (s2, m1) = misc().spec_parse(s1)->Ok_0;
            let s3 = opt(crate::parser::doctype::doctypedecl()).spec_parse(s2)->Ok_0.0;
            lemma_misc_is_well_formed(s3);
            let (_, m2) = misc().spec_parse(s3)->Ok_0;
            assert forall|i: int| 0 <= i < (m1 + m2).len() implies well_formed(
                #[trigger] (m1 + m2)[i],
            ) by {
                if i < m1.len() {
                    assert((m1 + m2)[i] == m1[i]);
                } else {
                    assert((m1 + m2)[i] == m2[i - m1.len()]);
                }
            }
        },
        Err(_) => {},
    }
}

/// What `parse` returns is well formed.
pub proof fn lemma_parsed_document_is_well_formed(text: Seq<char>, r: Result<XMLDocument, Error>)
    requires
        parse_returns(text, r),
        r is Ok,
    ensures
        all_well_formed(r->Ok_0.repr().prologue),
        all_well_formed(r->Ok_0.repr().content),
        all_well_formed(r->Ok_0.repr().epilogue),
        r->Ok_0.repr().content.len() == 1,
        r->Ok_0.repr().content[0] is Element,
{
    lemma_document_is_well_formed(text);
}

} // verus!
