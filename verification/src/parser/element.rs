//! Elements, their names and attributes, and their content.

use vstd::prelude::*;
use vstd::string::*;
use crate::repr::Repr;
use crate::item::{Value, ValueView};
use crate::qname::{QNameView, QualifiedName};
use crate::text::same_text;
use crate::parser::xml::{
    comment, lemma_nodes_repr, nodes_view, processing_instruction, reference, NodeView,
    XMLNode,
};
use crate::parser::common::ncname;
use crate::parser::chardata::{attvalue, chardata};
use crate::parser::combinators;
use crate::parser::combinators::alt::{alt2, alt3};
use crate::parser::combinators::many::many0;
use crate::parser::combinators::map::Mapper;
use crate::parser::combinators::opt::opt;
use crate::parser::combinators::tag::tag;
use crate::parser::combinators::tuple::{tuple3, tuple4, tuple5, tuple6};
use crate::parser::combinators::validate::{validate, Predicate};
use crate::parser::combinators::whitespace::{whitespace0, whitespace1};
use crate::parser::combinators::{
    ahead, clone_input, onward, outcome_of, output_ok, state_of, Combinator,
    ParseInput, ParseResult, SpecResult, State,
};

verus! {

/// The name without a prefix whose local part is the text.
pub struct Unprefixed;

impl Mapper<String> for Unprefixed {
    type Dst = QualifiedName;

    open spec fn spec_apply(&self, a: Seq<char>) -> QNameView {
        QNameView { nsuri: None, prefix: None, localname: a }
    }

    fn apply(&self, a: String) -> (b: QualifiedName) {
        QualifiedName::new(None, None, a)
    }
}

/// The name whose prefix is the first text and whose local part is the last.
pub struct Prefixed;

impl Mapper<(String, (), String)> for Prefixed {
    type Dst = QualifiedName;

    open spec fn spec_apply(&self, a: (Seq<char>, (), Seq<char>)) -> QNameView {
        QNameView { nsuri: None, prefix: Some(a.0), localname: a.2 }
    }

    fn apply(&self, a: (String, (), String)) -> (b: QualifiedName) {
        QualifiedName::new(None, Some(a.0), a.2)
    }
}

/// A name without a prefix.
#[verifier::opaque]
pub open spec fn spec_unprefixed_name(s: State) -> SpecResult<QNameView> {
    combinators::map::map(ncname(), Unprefixed).spec_parse(s)
}

/// The parser of [`spec_unprefixed_name`].
pub struct UnprefixedName;

/// A parser of [`spec_unprefixed_name`].
#[verifier::allow_in_spec]
pub fn unprefixed_name() -> UnprefixedName
    returns
        UnprefixedName,
{
    UnprefixedName
}

impl Combinator for UnprefixedName {
    type Output = QualifiedName;

    open spec fn spec_parse(&self, s: State) -> SpecResult<QNameView> {
        spec_unprefixed_name(s)
    }

    fn parse(&self, input: ParseInput) -> (r: ParseResult<QualifiedName>) {
        proof {
            reveal(spec_unprefixed_name);
        }
        combinators::map::map(ncname(), Unprefixed).parse(input)
    }
}

/// A name with a prefix: two names without colons, and a colon between them.
#[verifier::opaque]
pub open spec fn spec_prefixed_name(s: State) -> SpecResult<QNameView> {
    combinators::map::map(tuple3(ncname(), tag(":"), ncname()), Prefixed).spec_parse(s)
}

/// The parser of [`spec_prefixed_name`].
pub struct PrefixedName;

/// A parser of [`spec_prefixed_name`].
#[verifier::allow_in_spec]
pub fn prefixed_name() -> PrefixedName
    returns
        PrefixedName,
{
    PrefixedName
}

impl Combinator for PrefixedName {
    type Output = QualifiedName;

    open spec fn spec_parse(&self, s: State) -> SpecResult<QNameView> {
        spec_prefixed_name(s)
    }

    fn parse(&self, input: ParseInput) -> (r: ParseResult<QualifiedName>) {
        proof {
            reveal(spec_prefixed_name);
        }
        combinators::map::map(tuple3(ncname(), tag(":"), ncname()), Prefixed).parse(input)
    }
}

/// A qualified name, with a prefix or without.
#[verifier::opaque]
pub open spec fn spec_qualname(s: State) -> SpecResult<QNameView> {
    alt2(prefixed_name(), unprefixed_name()).spec_parse(s)
}

/// The parser of [`spec_qualname`].
pub struct QualName;

/// A parser of [`spec_qualname`].
#[verifier::allow_in_spec]
pub fn qualname() -> QualName
    returns
        QualName,
{
    QualName
}

impl Combinator for QualName {
    type Output = QualifiedName;

    open spec fn spec_parse(&self, s: State) -> SpecResult<QNameView> {
        spec_qualname(s)
    }

    fn parse(&self, input: ParseInput) -> (r: ParseResult<QualifiedName>) {
        proof {
            reveal(spec_qualname);
        }
        alt2(prefixed_name(), unprefixed_name()).parse(input)
    }
}

/// The attribute with the name and the value that were found.
pub struct MakeAttribute;

impl Mapper<((), QualifiedName, (), (), (), String)> for MakeAttribute {
    type Dst = XMLNode;

    open spec fn spec_apply(&self, a: ((), QNameView, (), (), (), Seq<char>)) -> NodeView {
        NodeView::Attribute(a.1, ValueView::String(a.5))
    }

    fn apply(&self, a: ((), QualifiedName, (), (), (), String)) -> (b: XMLNode) {
        XMLNode::Attribute(a.1, Value::String(a.5))
    }
}

/// An attribute: white space, a name, `=` and an attribute value.
#[verifier::opaque]
pub open spec fn spec_attribute(s: State) -> SpecResult<NodeView> {
    combinators::map::map(
        tuple6(whitespace1(), qualname(), whitespace0(), tag("="), whitespace0(), attvalue()),
        MakeAttribute,
    ).spec_parse(s)
}

/// The parser of [`spec_attribute`].
pub struct Attribute;

/// A parser of [`spec_attribute`].
#[verifier::allow_in_spec]
pub fn attribute() -> Attribute
    returns
        Attribute,
{
    Attribute
}

impl Combinator for Attribute {
    type Output = XMLNode;

    open spec fn spec_parse(&self, s: State) -> SpecResult<NodeView> {
        spec_attribute(s)
    }

    fn parse(&self, input: ParseInput) -> (r: ParseResult<XMLNode>) {
        proof {
            reveal(spec_attribute);
        }
        combinators::map::map(
            tuple6(whitespace1(), qualname(), whitespace0(), tag("="), whitespace0(), attvalue()),
            MakeAttribute,
        ).parse(input)
    }
}

/// The name by which an attribute is told from the others of its element:
/// the name as written. A node that is no attribute has the empty one.
pub open spec fn attribute_key(node: NodeView) -> Seq<char> {
    match node {
        NodeView::Attribute(q, _) => q.text(),
        _ => Seq::empty(),
    }
}

/// Whether no two of `nodes` have the same name.
pub open spec fn distinct_names(nodes: Seq<NodeView>) -> bool {
    forall|i: int, j: int|
        0 <= i < j < nodes.len() ==> attribute_key(nodes[i]) != attribute_key(nodes[j])
}

fn key_of(node: &XMLNode) -> (r: String)
    ensures
        r@ == attribute_key(node.repr()),
{
    match node {
        XMLNode::Attribute(q, _) => q.to_string(),
        _ => String::new(),
    }
}

/// Holds of the attributes of which no two have the same name.
pub struct UniqueNames;

impl Predicate<Vec<XMLNode>> for UniqueNames {
    open spec fn spec_holds(&self, a: Seq<NodeView>) -> bool {
        distinct_names(a)
    }

    fn holds(&self, a: &Vec<XMLNode>) -> (b: bool) {
        let ghost nodes = a.repr();
        let n = a.len();
        let mut keys: Vec<String> = Vec::new();
        let mut k: usize = 0;
        while k < n
            invariant
                k <= n,
                n == a@.len(),
                nodes == a.repr(),
                keys@.len() == k,
                forall|i: int| 0 <= i < k ==> (#[trigger] keys@[i])@ == attribute_key(nodes[i]),
            decreases n - k,
        {
            keys.push(key_of(&a[k]));
            k = k + 1;
        }
        let mut j: usize = 0;
        while j < n
            invariant
                j <= n,
                n == a@.len(),
                nodes == a.repr(),
                keys@.len() == n,
                forall|i: int| 0 <= i < n ==> (#[trigger] keys@[i])@ == attribute_key(nodes[i]),
                forall|i: int, l: int|
                    0 <= i < l < j ==> attribute_key(nodes[i]) != attribute_key(nodes[l]),
            decreases n - j,
        {
            let mut i: usize = 0;
            while i < j
                invariant
                    i <= j < n,
                    n == a@.len(),
                    nodes == a.repr(),
                    keys@.len() == n,
                    forall|i: int|
                        0 <= i < n ==> (#[trigger] keys@[i])@ == attribute_key(nodes[i]),
                    forall|l: int|
                        0 <= l < i ==> attribute_key(nodes[l]) != attribute_key(nodes[j as int]),
                decreases j - i,
            {
                if same_text(&keys[i], &keys[j]) {
                    return false;
                }
                i = i + 1;
            }
            j = j + 1;
        }
        true
    }
}

/// The attributes of an element: as many as there are, no two of them with the same name.
#[verifier::opaque]
pub open spec fn spec_attributes(s: State) -> SpecResult<Seq<NodeView>> {
    validate(many0(attribute()), UniqueNames).spec_parse(s)
}

/// The parser of [`spec_attributes`].
pub struct Attributes;

/// A parser of [`spec_attributes`].
#[verifier::allow_in_spec]
pub fn attributes() -> Attributes
    returns
        Attributes,
{
    Attributes
}

impl Combinator for Attributes {
    type Output = Vec<XMLNode>;

    open spec fn spec_parse(&self, s: State) -> SpecResult<Seq<NodeView>> {
        spec_attributes(s)
    }

    fn parse(&self, input: ParseInput) -> (r: ParseResult<Vec<XMLNode>>) {
        proof {
            reveal(spec_attributes);
        }
        validate(many0(attribute()), UniqueNames).parse(input)
    }
}

/// The element without content that has the name and the attributes that
/// were found.
pub struct EmptyElement;

impl Mapper<((), QualifiedName, Vec<XMLNode>, (), ())> for EmptyElement {
    type Dst = XMLNode;

    open spec fn spec_apply(&self, a: ((), QNameView, Seq<NodeView>, (), ())) -> NodeView {
        NodeView::Element(a.1, a.2, Seq::empty())
    }

    fn apply(&self, a: ((), QualifiedName, Vec<XMLNode>, (), ())) -> (b: XMLNode) {
        let content: Vec<XMLNode> = Vec::new();
        proof {
            lemma_nodes_repr(a.2);
            assert(nodes_view(content@) =~= Seq::<NodeView>::empty());
        }
        XMLNode::Element(a.1, a.2, content)
    }
}

/// An element without content: `<`, a name, attributes and `/>`.
#[verifier::opaque]
pub open spec fn spec_emptyelem(s: State) -> SpecResult<NodeView> {
    combinators::map::map(
        tuple5(tag("<"), qualname(), attributes(), whitespace0(), tag("/>")),
        EmptyElement,
    ).spec_parse(s)
}

/// The parser of [`spec_emptyelem`].
pub struct EmptyElem;

/// A parser of [`spec_emptyelem`].
#[verifier::allow_in_spec]
pub fn emptyelem() -> EmptyElem
    returns
        EmptyElem,
{
    EmptyElem
}

impl Combinator for EmptyElem {
    type Output = XMLNode;

    open spec fn spec_parse(&self, s: State) -> SpecResult<NodeView> {
        spec_emptyelem(s)
    }

    fn parse(&self, input: ParseInput) -> (r: ParseResult<XMLNode>) {
        proof {
            reveal(spec_emptyelem);
        }
        combinators::map::map(
            tuple5(tag("<"), qualname(), attributes(), whitespace0(), tag("/>")),
            EmptyElement,
        ).parse(input)
    }
}

/// The nodes that one step of an element's content gives: the child, and a
/// text node for the character data behind it, where there is some.
pub open spec fn item_nodes(item: (NodeView, Option<Seq<char>>)) -> Seq<NodeView> {
    match item.1 {
        Some(text) => seq![item.0, NodeView::Text(ValueView::String(text))],
        None => seq![item.0],
    }
}

/// The nodes that the steps of an element's content give, in order.
pub open spec fn items_nodes(items: Seq<(NodeView, Option<Seq<char>>)>) -> Seq<NodeView>
    decreases items.len(),
{
    if items.len() == 0 {
        Seq::empty()
    } else {
        items_nodes(items.drop_last()) + item_nodes(items.last())
    }
}

/// The nodes of an element's content: a text node for the leading character
/// data, where there is some, and then the nodes of the steps.
pub open spec fn content_nodes(
    lead: Option<Seq<char>>,
    items: Seq<(NodeView, Option<Seq<char>>)>,
) -> Seq<NodeView> {
    match lead {
        Some(text) => seq![NodeView::Text(ValueView::String(text))] + items_nodes(items),
        None => items_nodes(items),
    }
}

/// An element with content: a start tag, content, and an end tag whose name
/// is that of the start tag.
pub open spec fn spec_taggedelem(s: State) -> SpecResult<NodeView>
    decreases s.rank().0, s.rank().1, s.rank().2, 0int,
{
    match ahead(tag("<").spec_parse(s), s) {
        Err(e) => Err(e),
        Ok((s0, _)) => match onward(
            tuple4(qualname(), attributes(), whitespace0(), tag(">")).spec_parse(s0),
            s0,
        ) {
            Err(e) => Err(e),
            Ok((s1, start)) => match spec_content(s1) {
                Err(e) => Err(e),
                Ok((s2, c)) => match tuple4(
                    tag("</"),
                    qualname(),
                    whitespace0(),
                    tag(">"),
                ).spec_parse(s2) {
                    Err(e) => Err(e),
                    Ok((s3, end)) => if start.0.text() == end.1.text() {
                        Ok((s3, NodeView::Element(start.0, start.1, c)))
                    } else {
                        Err(s.pos)
                    },
                },
            },
        },
    }
}

/// An element: one without content, or one with.
pub open spec fn spec_element(s: State) -> SpecResult<NodeView>
    decreases s.rank().0, s.rank().1, s.rank().2, 1int,
{
    match emptyelem().spec_parse(s) {
        Ok(r) => Ok(r),
        Err(_) => spec_taggedelem(s),
    }
}

/// A child of an element: an element, a reference, a processing instruction
/// or a comment.
pub open spec fn spec_child(s: State) -> SpecResult<NodeView>
    decreases s.rank().0, s.rank().1, s.rank().2, 2int,
{
    match spec_element(s) {
        Ok(r) => Ok(r),
        Err(_) => alt3(reference(), processing_instruction(), comment()).spec_parse(s),
    }
}

/// One step of an element's content: a child, and the character data behind
/// it, if there is some.
pub open spec fn spec_content_item(s: State) -> SpecResult<(NodeView, Option<Seq<char>>)>
    decreases s.rank().0, s.rank().1, s.rank().2, 3int,
{
    match spec_child(s) {
        Ok((s1, n)) => match opt(chardata()).spec_parse(s1) {
            Ok((s2, c)) => Ok((s2, (n, c))),
            Err(e) => Err(e),
        },
        Err(e) => Err(e),
    }
}

/// The steps of an element's content, as many as there are: the state after
/// the last one, and what they found.
pub open spec fn spec_content_items(s: State) -> (State, Seq<(NodeView, Option<Seq<char>>)>)
    decreases s.rank().0, s.rank().1, s.rank().2, 4int,
{
    match ahead(spec_content_item(s), s) {
        Ok((s1, v)) => {
            let (s2, vs) = spec_content_items(s1);
            (s2, seq![v] + vs)
        },
        Err(_) => (s, Seq::empty()),
    }
}

/// The content of an element: character data, if there is some, and then
/// the steps.
pub open spec fn spec_content(s: State) -> SpecResult<Seq<NodeView>>
    decreases s.rank().0, s.rank().1, s.rank().2, 5int,
{
    match onward(opt(chardata()).spec_parse(s), s) {
        Err(e) => Err(e),
        Ok((s1, lead)) => {
            let (s2, items) = spec_content_items(s1);
            Ok((s2, content_nodes(lead, items)))
        },
    }
}

/// Parses an element with content.
pub fn parse_taggedelem(input: ParseInput) -> (r: ParseResult<XMLNode>)
    ensures
        outcome_of(r) == spec_taggedelem(state_of(input)),
        output_ok(r, input),
    decreases state_of(input).rank().0, state_of(input).rank().1, state_of(input).rank().2, 0int,
{
    let index = input.1;
    proof {
        reveal_strlit("<");
        use_type_invariant(&input.2);
        input.2.lemma_wf();
    }
    match tag("<").parse(input) {
        Err(e) => Err(e),
        Ok((d, i, c, _)) => {
            proof {
                use_type_invariant(&c);
                c.lemma_wf();
            }
            match tuple4(qualname(), attributes(), whitespace0(), tag(">")).parse((d, i, c)) {
                Err(e) => Err(e),
                Ok((d, i, c, (n, a, _, _))) => {
                    proof {
                        use_type_invariant(&c);
                        c.lemma_wf();
                    }
                    match parse_content((d, i, c)) {
                        Err(e) => Err(e),
                        Ok((d, i, c, children)) => match tuple4(
                            tag("</"),
                            qualname(),
                            whitespace0(),
                            tag(">"),
                        ).parse((d, i, c)) {
                            Err(e) => Err(e),
                            Ok((d, i, c, (_, e, _, _))) => {
                                if same_text(&n.to_string(), &e.to_string()) {
                                    proof {
                                        lemma_nodes_repr(a);
                                        lemma_nodes_repr(children);
                                    }
                                    Ok((d, i, c, XMLNode::Element(n, a, children)))
                                } else {
                                    Err(index)
                                }
                            },
                        },
                    }
                },
            }
        },
    }
}

/// Parses an element.
pub fn parse_element(input: ParseInput) -> (r: ParseResult<XMLNode>)
    ensures
        outcome_of(r) == spec_element(state_of(input)),
        output_ok(r, input),
    decreases state_of(input).rank().0, state_of(input).rank().1, state_of(input).rank().2, 1int,
{
    match emptyelem().parse(clone_input(&input)) {
        Ok(parse_result) => Ok(parse_result),
        Err(_) => parse_taggedelem(input),
    }
}

/// Parses a child of an element.
pub fn parse_child(input: ParseInput) -> (r: ParseResult<XMLNode>)
    ensures
        outcome_of(r) == spec_child(state_of(input)),
        output_ok(r, input),
    decreases state_of(input).rank().0, state_of(input).rank().1, state_of(input).rank().2, 2int,
{
    match parse_element(clone_input(&input)) {
        Ok(parse_result) => Ok(parse_result),
        Err(_) => alt3(reference(), processing_instruction(), comment()).parse(input),
    }
}

/// Parses one step of an element's content.
pub fn parse_content_item(input: ParseInput) -> (r: ParseResult<(XMLNode, Option<String>)>)
    ensures
        outcome_of(r) == spec_content_item(state_of(input)),
        output_ok(r, input),
    decreases state_of(input).rank().0, state_of(input).rank().1, state_of(input).rank().2, 3int,
{
    match parse_child(input) {
        Ok((d, i, c, w)) => match opt(chardata()).parse((d, i, c)) {
            Ok((d, i, c, tail)) => Ok((d, i, c, (w, tail))),
            Err(e) => Err(e),
        },
        Err(e) => Err(e),
    }
}

/// Where a step succeeds and goes forward, the steps from `s` are that step
/// and the steps from where it ended.
proof fn lemma_items_step(s: State, s1: State, item: (NodeView, Option<Seq<char>>))
    requires
        s.wf(),
        s1.wf(),
        s1.after(s),
        spec_content_item(s) == Ok::<(State, (NodeView, Option<Seq<char>>)), int>((s1, item)),
    ensures
        spec_content_items(s) == (
            spec_content_items(s1).0,
            seq![item] + spec_content_items(s1).1,
        ),
{
}

/// Where a step fails, or does not go forward, there are no steps from `s`.
proof fn lemma_items_stop(s: State)
    requires
        match spec_content_item(s) {
            Ok((s1, _)) => !(s.wf() && s1.wf() && s1.after(s)),
            Err(_) => true,
        },
    ensures
        spec_content_items(s) == (s, Seq::<(NodeView, Option<Seq<char>>)>::empty()),
{
}

/// A step of the content flattens to the nodes that it gives.
proof fn lemma_items_push(
    items: Seq<(NodeView, Option<Seq<char>>)>,
    item: (NodeView, Option<Seq<char>>),
)
    ensures
        items_nodes(items.push(item)) == items_nodes(items) + item_nodes(item),
{
    assert(items.push(item).drop_last() =~= items);
}

/// Parses the content of an element.
pub fn parse_content(input: ParseInput) -> (r: ParseResult<Vec<XMLNode>>)
    ensures
        outcome_of(r) == spec_content(state_of(input)),
        output_ok(r, input),
    decreases state_of(input).rank().0, state_of(input).rank().1, state_of(input).rank().2, 5int,
{
    let ghost start = state_of(input);
    let index = input.1;
    proof {
        use_type_invariant(&input.2);
        input.2.lemma_wf();
    }
    match opt(chardata()).parse(input) {
        Err(e) => Err(e),
        Ok((d, i, c, lead)) => {
            proof {
                use_type_invariant(&c);
                c.lemma_wf();
            }
            let mut new: Vec<XMLNode> = Vec::new();
            match lead {
                Some(text) => {
                    new.push(XMLNode::Text(Value::String(text)));
                },
                None => {},
            }
            let mut cur = (d, i, c);
            let ghost first = state_of(cur);
            let ghost found: Seq<(NodeView, Option<Seq<char>>)> = Seq::empty();
            proof {
                assert(nodes_view(new@) =~= content_nodes(lead.repr(), found));
                assert(found + spec_content_items(first).1 =~= spec_content_items(first).1);
            }
            loop
                invariant
                    index <= cur.1,
                    start == state_of(input),
                    start.wf(),
                    state_of(cur).wf(),
                    state_of(cur).not_before(start),
                    nodes_view(new@) == content_nodes(lead.repr(), found),
                    spec_content_items(first).0 == spec_content_items(state_of(cur)).0,
                    spec_content_items(first).1 == found + spec_content_items(state_of(cur)).1,
                ensures
                    index <= cur.1,
                    state_of(cur).not_before(start),
                    nodes_view(new@) == content_nodes(lead.repr(), found),
                    spec_content_items(first) == (state_of(cur), found),
                decreases
                        state_of(cur).rank().0,
                        state_of(cur).rank().1,
                        state_of(cur).rank().2,
            {
                let step = parse_content_item(clone_input(&cur));
                match step {
                    Ok((text, pos, config, (w, tail))) => {
                        proof {
                            use_type_invariant(&config);
                            config.lemma_wf();
                        }
                        if crate::parser::combinators::many::moved_on(&cur, &text, pos, &config) {
                            let ghost item = (w.repr(), tail.repr());
                            let ghost before = new@;
                            new.push(w);
                            match tail {
                                Some(t) => {
                                    new.push(XMLNode::Text(Value::String(t)));
                                },
                                None => {},
                            }
                            proof {
                                let next = State {
                                    text: text@,
                                    pos: pos as int,
                                    config: config.repr(),
                                };
                                lemma_items_step(state_of(cur), next, item);
                                lemma_items_push(found, item);
                                assert(nodes_view(new@) =~= nodes_view(before) + item_nodes(item));
                                let rest = spec_content_items(next).1;
                                assert(found + (seq![item] + rest) =~= found.push(item) + rest);
                                found = found.push(item);
                            }
                            cur = (text, pos, config);
                        } else {
                            proof {
                                lemma_items_stop(state_of(cur));
                                assert(found + Seq::<(NodeView, Option<Seq<char>>)>::empty()
                                    =~= found);
                            }
                            break ;
                        }
                    },
                    Err(_) => {
                        proof {
                            lemma_items_stop(state_of(cur));
                            assert(found + Seq::<(NodeView, Option<Seq<char>>)>::empty() =~= found);
                        }
                        break ;
                    },
                }
            }
            proof {
                lemma_nodes_repr(new);
            }
            Ok((cur.0, cur.1, cur.2, new))
        },
    }
}

/// An element with content.
pub struct TaggedElem;

/// A parser of [`spec_taggedelem`].
#[verifier::allow_in_spec]
pub fn taggedelem() -> TaggedElem
    returns
        TaggedElem,
{
    TaggedElem
}

impl Combinator for TaggedElem {
    type Output = XMLNode;

    open spec fn spec_parse(&self, s: State) -> SpecResult<NodeView> {
        spec_taggedelem(s)
    }

    fn parse(&self, input: ParseInput) -> (r: ParseResult<XMLNode>) {
        parse_taggedelem(input)
    }
}

/// An element.
pub struct Element;

/// A parser of [`spec_element`].
#[verifier::allow_in_spec]
pub fn element() -> Element
    returns
        Element,
{
    Element
}

impl Combinator for Element {
    type Output = XMLNode;

    open spec fn spec_parse(&self, s: State) -> SpecResult<NodeView> {
        spec_element(s)
    }

    fn parse(&self, input: ParseInput) -> (r: ParseResult<XMLNode>) {
        parse_element(input)
    }
}

/// The content of an element.
pub struct Content;

/// A parser of [`spec_content`].
#[verifier::allow_in_spec]
pub fn content() -> Content
    returns
        Content,
{
    Content
}

impl Combinator for Content {
    type Output = Vec<XMLNode>;

    open spec fn spec_parse(&self, s: State) -> SpecResult<Seq<NodeView>> {
        spec_content(s)
    }

    fn parse(&self, input: ParseInput) -> (r: ParseResult<Vec<XMLNode>>) {
        parse_content(input)
    }
}

} // verus!
