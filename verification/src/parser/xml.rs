//! The document model and the document grammar.

use vstd::prelude::*;
use vstd::string::*;
use crate::repr::Repr;
use crate::qname::{QNameView, QualifiedName};
use crate::item::{Value, ValueView};
use crate::text::{decimal, digit_char, same_text, to_decimal};
use crate::xdmerror::{Error, ErrorKind, ErrorView};
use crate::parser::{initial_config, ParserConfig};
use crate::parser::table::DeclTable;
use crate::parser::chardata::delimited_string;
use crate::parser::doctype::doctypedecl;
use crate::parser::element::element;
use crate::parser::common::{all_legal, is_legal_text, name};
use crate::parser::combinators;
use crate::parser::combinators::alt::alt2;
use crate::parser::combinators::delimited::delimited;
use crate::parser::combinators::expander::genentityexpander;
use crate::parser::combinators::many::many0;
use crate::parser::combinators::map::{Fifth, First, Mapper, Second, Sixth};
use crate::parser::combinators::opt::opt;
use crate::parser::combinators::tag::tag;
use crate::parser::combinators::take::take_until;
use crate::parser::combinators::tuple::{tuple2, tuple3, tuple4, tuple5, tuple6, tuple8};
use crate::parser::combinators::validate::{validate, Predicate};
use crate::parser::combinators::whitespace::{whitespace0, whitespace1};
use crate::parser::combinators::{
    outcome_of, Combinator, ParseInput, ParseResult, SpecResult, State,
};

verus! {

// The document model.

/// What an `XMLNode` stands for.
pub enum NodeView {
    Element(QNameView, Seq<NodeView>, Seq<NodeView>),
    Attribute(QNameView, ValueView),
    Text(ValueView),
    PI(Seq<char>, ValueView),
    Comment(ValueView),
    DTD(DeclView),
    Reference(QNameView),
}

/// What an `XMLdecl` stands for.
pub struct XmlDeclView {
    pub version: Seq<char>,
    pub encoding: Option<Seq<char>>,
    pub standalone: Option<Seq<char>>,
}

/// What an `XMLDocument` stands for.
pub struct DocumentView {
    pub prologue: Seq<NodeView>,
    pub content: Seq<NodeView>,
    pub epilogue: Seq<NodeView>,
    pub xmldecl: Option<XmlDeclView>,
}

/// What a `DTDDecl` stands for.
pub enum DeclView {
    Element(QNameView, Seq<char>),
    Attlist(QNameView, Seq<char>),
    Notation(QNameView, Seq<char>),
    GeneralEntity(QNameView, Seq<char>),
    ParamEntity(QNameView, Seq<char>),
}

/// What a `DTD` stands for: the declarations of each kind, by name.
pub struct DtdView {
    pub elements: Map<Seq<char>, DeclView>,
    pub attlists: Map<Seq<char>, DeclView>,
    pub notations: Map<Seq<char>, DeclView>,
    pub generalentities: Map<Seq<char>, DeclView>,
    pub paramentities: Map<Seq<char>, DeclView>,
    pub publicid: Option<Seq<char>>,
    pub systemid: Option<Seq<char>>,
    pub name: Option<Seq<char>>,
}

/// A document: the nodes before the root element, the root element, the
/// nodes after it, and the declaration that the document began with.
#[derive(Debug, PartialEq)]
pub struct XMLDocument {
    pub prologue: Vec<XMLNode>,
    pub content: Vec<XMLNode>,
    pub epilogue: Vec<XMLNode>,
    pub xmldecl: Option<XMLdecl>,
}

/// A node of a document.
#[derive(Debug, PartialEq)]
pub enum XMLNode {
    /// Name, attributes, content.
    Element(QualifiedName, Vec<XMLNode>, Vec<XMLNode>),
    Attribute(QualifiedName, Value),
    Text(Value),
    PI(String, Value),
    Comment(Value),
    DTD(DTDDecl),
    Reference(QualifiedName),
}

/// The declaration that a document began with.
#[derive(Debug, PartialEq)]
pub struct XMLdecl {
    version: String,
    encoding: Option<String>,
    standalone: Option<String>,
}

/// A declaration of a document type definition.
#[derive(Debug, PartialEq)]
pub enum DTDDecl {
    Element(QualifiedName, String),
    Attlist(QualifiedName, String),
    Notation(QualifiedName, String),
    GeneralEntity(QualifiedName, String),
    ParamEntity(QualifiedName, String),
}

/// The declarations collected from a document type definition.
#[derive(Debug, PartialEq)]
pub struct DTD {
    elements: DeclTable,
    attlists: DeclTable,
    notations: DeclTable,
    generalentities: DeclTable,
    paramentities: DeclTable,
    publicid: Option<String>,
    systemid: Option<String>,
    name: Option<String>,
}

/// The nodes of `nodes`, each as what it stands for.
pub open spec fn nodes_view(nodes: Seq<XMLNode>) -> Seq<NodeView>
    decreases nodes,
{
    Seq::new(
        nodes.len(),
        |i: int|
            if 0 <= i < nodes.len() {
                node_view(nodes[i])
            } else {
                NodeView::Text(ValueView::Boolean(false))
            },
    )
}

/// What `node` stands for.
pub open spec fn node_view(node: XMLNode) -> NodeView
    decreases node,
{
    match node {
        XMLNode::Element(n, a, c) => NodeView::Element(n.repr(), nodes_view(a@), nodes_view(c@)),
        XMLNode::Attribute(n, v) => NodeView::Attribute(n.repr(), v.repr()),
        XMLNode::Text(v) => NodeView::Text(v.repr()),
        XMLNode::PI(n, v) => NodeView::PI(n@, v.repr()),
        XMLNode::Comment(v) => NodeView::Comment(v.repr()),
        XMLNode::DTD(d) => NodeView::DTD(d.repr()),
        XMLNode::Reference(n) => NodeView::Reference(n.repr()),
    }
}

impl Repr for XMLNode {
    type V = NodeView;

    open spec fn repr(&self) -> NodeView {
        node_view(*self)
    }
}

/// The view of a vector of nodes is the view of its nodes.
pub proof fn lemma_nodes_repr(nodes: Vec<XMLNode>)
    ensures
        nodes.repr() == nodes_view(nodes@),
{
    assert(nodes.repr() =~= nodes_view(nodes@));
}

impl XMLNode {
    /// A copy that stands for the same node.
    pub fn duplicate(&self) -> (n: XMLNode)
        ensures
            n.repr() == self.repr(),
        decreases *self,
    {
        match self {
            XMLNode::Element(q, a, c) => {
                let attributes = duplicate_nodes(a);
                let content = duplicate_nodes(c);
                XMLNode::Element(q.duplicate(), attributes, content)
            },
            XMLNode::Attribute(q, v) => XMLNode::Attribute(q.duplicate(), v.duplicate()),
            XMLNode::Text(v) => XMLNode::Text(v.duplicate()),
            XMLNode::PI(t, v) => XMLNode::PI(t.clone(), v.duplicate()),
            XMLNode::Comment(v) => XMLNode::Comment(v.duplicate()),
            XMLNode::DTD(d) => XMLNode::DTD(d.duplicate()),
            XMLNode::Reference(q) => XMLNode::Reference(q.duplicate()),
        }
    }
}

/// Copies of `nodes` that stand for the same nodes.
pub fn duplicate_nodes(nodes: &Vec<XMLNode>) -> (r: Vec<XMLNode>)
    ensures
        nodes_view(r@) == nodes_view(nodes@),
    decreases *nodes,
{
    let mut r: Vec<XMLNode> = Vec::new();
    let mut i: usize = 0;
    while i < nodes.len()
        invariant
            i <= nodes@.len(),
            r@.len() == i,
            forall|j: int| 0 <= j < i ==> node_view(r@[j]) == node_view(nodes@[j]),
        decreases nodes@.len() - i,
    {
        r.push(nodes[i].duplicate());
        i = i + 1;
    }
    proof {
        assert(nodes_view(r@) =~= nodes_view(nodes@));
    }
    r
}

impl Clone for XMLNode {
    fn clone(&self) -> (n: XMLNode)
        ensures
            n.repr() == self.repr(),
    {
        self.duplicate()
    }
}

impl Repr for XMLdecl {
    type V = XmlDeclView;

    closed spec fn repr(&self) -> XmlDeclView {
        XmlDeclView {
            version: self.version@,
            encoding: self.encoding.repr(),
            standalone: self.standalone.repr(),
        }
    }
}

impl Repr for XMLDocument {
    type V = DocumentView;

    open spec fn repr(&self) -> DocumentView {
        DocumentView {
            prologue: self.prologue.repr(),
            content: self.content.repr(),
            epilogue: self.epilogue.repr(),
            xmldecl: self.xmldecl.repr(),
        }
    }
}

impl Repr for DTDDecl {
    type V = DeclView;

    open spec fn repr(&self) -> DeclView {
        match self {
            DTDDecl::Element(n, s) => DeclView::Element(n.repr(), s@),
            DTDDecl::Attlist(n, s) => DeclView::Attlist(n.repr(), s@),
            DTDDecl::Notation(n, s) => DeclView::Notation(n.repr(), s@),
            DTDDecl::GeneralEntity(n, s) => DeclView::GeneralEntity(n.repr(), s@),
            DTDDecl::ParamEntity(n, s) => DeclView::ParamEntity(n.repr(), s@),
        }
    }
}

impl Clone for DTDDecl {
    fn clone(&self) -> (d: DTDDecl)
        ensures
            d.repr() == self.repr(),
    {
        self.duplicate()
    }
}

impl DTDDecl {
    /// Whether `self` and `other` stand for the same declaration.
    pub fn same_as(&self, other: &DTDDecl) -> (r: bool)
        ensures
            r == (self.repr() == other.repr()),
    {
        match (self, other) {
            (DTDDecl::Element(n, s), DTDDecl::Element(m, t)) => n.same_as(m) && same_text(s, t),
            (DTDDecl::Attlist(n, s), DTDDecl::Attlist(m, t)) => n.same_as(m) && same_text(s, t),
            (DTDDecl::Notation(n, s), DTDDecl::Notation(m, t)) => n.same_as(m) && same_text(s, t),
            (DTDDecl::GeneralEntity(n, s), DTDDecl::GeneralEntity(m, t)) => n.same_as(m)
                && same_text(s, t),
            (DTDDecl::ParamEntity(n, s), DTDDecl::ParamEntity(m, t)) => n.same_as(m)
                && same_text(s, t),
            _ => false,
        }
    }

    /// A copy that stands for the same declaration.
    pub fn duplicate(&self) -> (d: DTDDecl)
        ensures
            d.repr() == self.repr(),
    {
        match self {
            DTDDecl::Element(n, s) => DTDDecl::Element(n.duplicate(), s.clone()),
            DTDDecl::Attlist(n, s) => DTDDecl::Attlist(n.duplicate(), s.clone()),
            DTDDecl::Notation(n, s) => DTDDecl::Notation(n.duplicate(), s.clone()),
            DTDDecl::GeneralEntity(n, s) => DTDDecl::GeneralEntity(n.duplicate(), s.clone()),
            DTDDecl::ParamEntity(n, s) => DTDDecl::ParamEntity(n.duplicate(), s.clone()),
        }
    }
}

impl XMLdecl {
    /// The declaration with these parts.
    pub fn new(version: String, encoding: Option<String>, standalone: Option<String>) -> (d:
        XMLdecl)
        ensures
            d.repr() == (XmlDeclView {
                version: version@,
                encoding: encoding.repr(),
                standalone: standalone.repr(),
            }),
    {
        XMLdecl { version, encoding, standalone }
    }

    /// The version.
    pub fn version(&self) -> (r: String)
        ensures
            r@ == self.repr().version,
    {
        self.version.clone()
    }

    /// The encoding, if one was declared.
    pub fn encoding(&self) -> (r: Option<String>)
        ensures
            r.repr() == self.repr().encoding,
    {
        match &self.encoding {
            Some(e) => Some(e.clone()),
            None => None,
        }
    }

    /// The standalone flag, if one was declared.
    pub fn standalone(&self) -> (r: Option<String>)
        ensures
            r.repr() == self.repr().standalone,
    {
        match &self.standalone {
            Some(e) => Some(e.clone()),
            None => None,
        }
    }
}

impl Repr for DTD {
    type V = DtdView;

    closed spec fn repr(&self) -> DtdView {
        DtdView {
            elements: self.elements@,
            attlists: self.attlists@,
            notations: self.notations@,
            generalentities: self.generalentities@,
            paramentities: self.paramentities@,
            publicid: self.publicid.repr(),
            systemid: self.systemid.repr(),
            name: self.name.repr(),
        }
    }
}

impl Clone for DTD {
    fn clone(&self) -> (d: DTD)
        ensures
            d.repr() == self.repr(),
    {
        self.duplicate()
    }
}

impl DTD {
    /// A definition without declarations.
    pub fn new() -> (d: DTD)
        ensures
            d.repr() == (DtdView {
                elements: Map::empty(),
                attlists: Map::empty(),
                notations: Map::empty(),
                generalentities: Map::empty(),
                paramentities: Map::empty(),
                publicid: None,
                systemid: None,
                name: None,
            }),
    {
        DTD {
            elements: DeclTable::new(),
            attlists: DeclTable::new(),
            notations: DeclTable::new(),
            generalentities: DeclTable::new(),
            paramentities: DeclTable::new(),
            publicid: None,
            systemid: None,
            name: None,
        }
    }

    /// A copy that holds the same declarations.
    pub fn duplicate(&self) -> (d: DTD)
        ensures
            d.repr() == self.repr(),
    {
        DTD {
            elements: self.elements.duplicate(),
            attlists: self.attlists.duplicate(),
            notations: self.notations.duplicate(),
            generalentities: self.generalentities.duplicate(),
            paramentities: self.paramentities.duplicate(),
            publicid: match &self.publicid {
                Some(s) => Some(s.clone()),
                None => None,
            },
            systemid: match &self.systemid {
                Some(s) => Some(s.clone()),
                None => None,
            },
            name: match &self.name {
                Some(s) => Some(s.clone()),
                None => None,
            },
        }
    }

    /// The replacement text of the general entity `name`, if one is declared.
    pub fn general_entity(&self, name: &String) -> (r: Option<String>)
        ensures
            r.repr() == entity_text(self.repr().generalentities, name@, true),
    {
        match self.generalentities.get(name) {
            Some(DTDDecl::GeneralEntity(_, v)) => Some(v.clone()),
            _ => None,
        }
    }

    /// The replacement text of the parameter entity `name`, if one is declared.
    pub fn param_entity(&self, name: &String) -> (r: Option<String>)
        ensures
            r.repr() == entity_text(self.repr().paramentities, name@, false),
    {
        match self.paramentities.get(name) {
            Some(DTDDecl::ParamEntity(_, v)) => Some(v.clone()),
            _ => None,
        }
    }

    /// The definition with `decl` recorded under `name`, in the table of its kind.
    pub fn declare(self, name: String, decl: DTDDecl) -> (d: DTD)
        ensures
            d.repr() == declared(self.repr(), name@, decl.repr()),
    {
        let mut d = self;
        match decl {
            DTDDecl::Element(_, _) => {
                d.elements = d.elements.insert(name, decl);
            },
            DTDDecl::Attlist(_, _) => {
                d.attlists = d.attlists.insert(name, decl);
            },
            DTDDecl::Notation(_, _) => {
                d.notations = d.notations.insert(name, decl);
            },
            DTDDecl::GeneralEntity(_, _) => {
                d.generalentities = d.generalentities.insert(name, decl);
            },
            DTDDecl::ParamEntity(_, _) => {
                d.paramentities = d.paramentities.insert(name, decl);
            },
        }
        d
    }
}

/// The replacement text that `table` holds for the entity `name`: that of a
/// general entity if `general`, else that of a parameter entity.
pub open spec fn entity_text(table: Map<Seq<char>, DeclView>, name: Seq<char>, general: bool)
    -> Option<Seq<char>> {
    if table.contains_key(name) {
        match table[name] {
            DeclView::GeneralEntity(_, v) => if general {
                Some(v)
            } else {
                None
            },
            DeclView::ParamEntity(_, v) => if general {
                None
            } else {
                Some(v)
            },
            _ => None,
        }
    } else {
        None
    }
}

/// The definition `dtd` after `decl` was recorded under `name`.
pub open spec fn declared(dtd: DtdView, name: Seq<char>, decl: DeclView) -> DtdView {
    match decl {
        DeclView::Element(_, _) => DtdView { elements: dtd.elements.insert(name, decl), ..dtd },
        DeclView::Attlist(_, _) => DtdView { attlists: dtd.attlists.insert(name, decl), ..dtd },
        DeclView::Notation(_, _) => DtdView { notations: dtd.notations.insert(name, decl), ..dtd },
        DeclView::GeneralEntity(_, _) => DtdView {
            generalentities: dtd.generalentities.insert(name, decl),
            ..dtd
        },
        DeclView::ParamEntity(_, _) => DtdView {
            paramentities: dtd.paramentities.insert(name, decl),
            ..dtd
        },
    }
}

/// The empty text node that stands where a reference was expanded.
pub struct EmptyText;

impl Mapper<String> for EmptyText {
    type Dst = XMLNode;

    open spec fn spec_apply(&self, a: Seq<char>) -> NodeView {
        NodeView::Text(ValueView::String(Seq::empty()))
    }

    fn apply(&self, a: String) -> (b: XMLNode) {
        XMLNode::Text(Value::String(String::new()))
    }
}

/// A reference to a general entity in content. The reference is expanded in
/// the text, and an empty text node stands for it.
#[verifier::opaque]
pub open spec fn spec_reference(s: State) -> SpecResult<NodeView> {
    combinators::map::map(genentityexpander(), EmptyText).spec_parse(s)
}

/// The parser of [`spec_reference`].
pub struct Reference;

/// A parser of [`spec_reference`].
#[verifier::allow_in_spec]
pub fn reference() -> Reference
    returns
        Reference,
{
    Reference
}

impl Combinator for Reference {
    type Output = XMLNode;

    open spec fn spec_parse(&self, s: State) -> SpecResult<NodeView> {
        spec_reference(s)
    }

    fn parse(&self, input: ParseInput) -> (r: ParseResult<XMLNode>) {
        proof {
            reveal(spec_reference);
        }
        combinators::map::map(genentityexpander(), EmptyText).parse(input)
    }
}

/// The processing instruction with the target and the body that were found.
pub struct MakePI;

impl Mapper<((), String, Option<((), String)>, (), ())> for MakePI {
    type Dst = XMLNode;

    open spec fn spec_apply(
        &self,
        a: ((), Seq<char>, Option<((), Seq<char>)>, (), ()),
    ) -> NodeView {
        match a.2 {
            None => NodeView::PI(a.1, ValueView::String(Seq::empty())),
            Some(body) => NodeView::PI(a.1, ValueView::String(body.1)),
        }
    }

    fn apply(&self, a: ((), String, Option<((), String)>, (), ())) -> (b: XMLNode) {
        match a.2 {
            None => XMLNode::PI(a.1, Value::String(String::new())),
            Some((_, v)) => XMLNode::PI(a.1, Value::String(v)),
        }
    }
}

/// Whether `target` is the reserved name `xml`, in any case of its letters.
pub open spec fn is_reserved(target: Seq<char>) -> bool {
    &&& target.len() == 3
    &&& (target[0] == 'x' || target[0] == 'X')
    &&& (target[1] == 'm' || target[1] == 'M')
    &&& (target[2] == 'l' || target[2] == 'L')
}

fn reserved(target: &String) -> (b: bool)
    ensures
        b == is_reserved(target@),
{
    let t = target.as_str();
    if t.unicode_len() != 3 {
        return false;
    }
    let x = t.get_char(0);
    let m = t.get_char(1);
    let l = t.get_char(2);
    (x == 'x' || x == 'X') && (m == 'm' || m == 'M') && (l == 'l' || l == 'L')
}

/// Whether `node` is a processing instruction that a document may hold: its
/// body holds legal characters only, and its target is not the reserved name.
pub open spec fn legal_pi(node: NodeView) -> bool {
    match node {
        NodeView::PI(target, ValueView::String(body)) => all_legal(body) && !is_reserved(target),
        _ => false,
    }
}

/// Holds of the processing instructions that a document may hold.
pub struct LegalPI;

impl Predicate<XMLNode> for LegalPI {
    open spec fn spec_holds(&self, a: NodeView) -> bool {
        legal_pi(a)
    }

    fn holds(&self, a: &XMLNode) -> (b: bool) {
        match a {
            XMLNode::PI(target, Value::String(body)) => {
                if !is_legal_text(body) {
                    false
                } else if reserved(target) {
                    false
                } else {
                    true
                }
            },
            _ => false,
        }
    }
}

/// A processing instruction: `<?`, a target, a body behind white space if
/// there is one, and `?>`.
#[verifier::opaque]
pub open spec fn spec_processing_instruction(s: State) -> SpecResult<NodeView> {
    validate(
        combinators::map::map(
            tuple5(
                tag("<?"),
                name(),
                opt(tuple2(whitespace1(), take_until("?>"))),
                whitespace0(),
                tag("?>"),
            ),
            MakePI,
        ),
        LegalPI,
    ).spec_parse(s)
}

/// The parser of [`spec_processing_instruction`].
pub struct ProcessingInstruction;

/// A parser of [`spec_processing_instruction`].
#[verifier::allow_in_spec]
pub fn processing_instruction() -> ProcessingInstruction
    returns
        ProcessingInstruction,
{
    ProcessingInstruction
}

impl Combinator for ProcessingInstruction {
    type Output = XMLNode;

    open spec fn spec_parse(&self, s: State) -> SpecResult<NodeView> {
        spec_processing_instruction(s)
    }

    fn parse(&self, input: ParseInput) -> (r: ParseResult<XMLNode>) {
        proof {
            reveal(spec_processing_instruction);
        }
        validate(
            combinators::map::map(
                tuple5(
                    tag("<?"),
                    name(),
                    opt(tuple2(whitespace1(), take_until("?>"))),
                    whitespace0(),
                    tag("?>"),
                ),
                MakePI,
            ),
            LegalPI,
        ).parse(input)
    }
}

/// The comment with the text that was found.
pub struct MakeComment;

impl Mapper<String> for MakeComment {
    type Dst = XMLNode;

    open spec fn spec_apply(&self, a: Seq<char>) -> NodeView {
        NodeView::Comment(ValueView::String(a))
    }

    fn apply(&self, a: String) -> (b: XMLNode) {
        XMLNode::Comment(Value::String(a))
    }
}

/// Whether `node` is a comment that a document may hold: its text holds
/// legal characters only.
pub open spec fn legal_comment(node: NodeView) -> bool {
    match node {
        NodeView::Comment(ValueView::String(text)) => all_legal(text),
        _ => false,
    }
}

/// Holds of the comments that a document may hold.
pub struct LegalComment;

impl Predicate<XMLNode> for LegalComment {
    open spec fn spec_holds(&self, a: NodeView) -> bool {
        legal_comment(a)
    }

    fn holds(&self, a: &XMLNode) -> (b: bool) {
        match a {
            XMLNode::Comment(Value::String(text)) => is_legal_text(text),
            _ => false,
        }
    }
}

/// A comment: `<!--`, the text up to the next `--`, and `-->`. So `--` cannot
/// stand in the text of a comment.
#[verifier::opaque]
pub open spec fn spec_comment(s: State) -> SpecResult<NodeView> {
    validate(
        combinators::map::map(delimited(tag("<!--"), take_until("--"), tag("-->")), MakeComment),
        LegalComment,
    ).spec_parse(s)
}

/// The parser of [`spec_comment`].
pub struct Comment;

/// A parser of [`spec_comment`].
#[verifier::allow_in_spec]
pub fn comment() -> Comment
    returns
        Comment,
{
    Comment
}

impl Combinator for Comment {
    type Output = XMLNode;

    open spec fn spec_parse(&self, s: State) -> SpecResult<NodeView> {
        spec_comment(s)
    }

    fn parse(&self, input: ParseInput) -> (r: ParseResult<XMLNode>) {
        proof {
            reveal(spec_comment);
        }
        validate(
            combinators::map::map(
                delimited(tag("<!--"), take_until("--"), tag("-->")),
                MakeComment,
            ),
            LegalComment,
        ).parse(input)
    }
}

/// Comments and processing instructions, each behind white space if there is
/// some, as many as there are, and white space behind them.
#[verifier::opaque]
pub open spec fn spec_misc(s: State) -> SpecResult<Seq<NodeView>> {
    combinators::map::map(
        tuple2(
            many0(
                combinators::map::map(
                    alt2(
                        tuple2(whitespace0(), comment()),
                        tuple2(whitespace0(), processing_instruction()),
                    ),
                    Second,
                ),
            ),
            whitespace0(),
        ),
        First,
    ).spec_parse(s)
}

/// The parser of [`spec_misc`].
pub struct Misc;

/// A parser of [`spec_misc`].
#[verifier::allow_in_spec]
pub fn misc() -> Misc
    returns
        Misc,
{
    Misc
}

impl Combinator for Misc {
    type Output = Vec<XMLNode>;

    open spec fn spec_parse(&self, s: State) -> SpecResult<Seq<NodeView>> {
        spec_misc(s)
    }

    fn parse(&self, input: ParseInput) -> (r: ParseResult<Vec<XMLNode>>) {
        proof {
            reveal(spec_misc);
        }
        combinators::map::map(
            tuple2(
                many0(
                    combinators::map::map(
                        alt2(
                            tuple2(whitespace0(), comment()),
                            tuple2(whitespace0(), processing_instruction()),
                        ),
                        Second,
                    ),
                ),
                whitespace0(),
            ),
            First,
        ).parse(input)
    }
}

/// The declaration with the version, the encoding and the standalone flag
/// that were found.
pub struct MakeXmlDecl;

impl Mapper<((), (), String, Option<String>, Option<String>, (), (), ())> for MakeXmlDecl {
    type Dst = XMLdecl;

    open spec fn spec_apply(
        &self,
        a: ((), (), Seq<char>, Option<Seq<char>>, Option<Seq<char>>, (), (), ()),
    ) -> XmlDeclView {
        XmlDeclView { version: a.2, encoding: a.3, standalone: a.4 }
    }

    fn apply(&self, a: ((), (), String, Option<String>, Option<String>, (), (), ())) -> (b:
        XMLdecl) {
        XMLdecl::new(a.2, a.3, a.4)
    }
}

/// The declaration that a document may begin with: `<?xml`, white space and
/// the version; then the encoding and the standalone flag, each behind white
/// space, and each only if it is there; and `?>`, which white space may
/// precede and follow.
#[verifier::opaque]
pub open spec fn spec_xmldecl(s: State) -> SpecResult<XmlDeclView> {
    combinators::map::map(
        tuple8(
            tag("<?xml"),
            whitespace1(),
            combinators::map::map(
                tuple5(
                    tag("version"),
                    whitespace0(),
                    tag("="),
                    whitespace0(),
                    delimited_string(),
                ),
                Fifth,
            ),
            opt(
                combinators::map::map(
                    tuple6(
                        whitespace1(),
                        tag("encoding"),
                        whitespace0(),
                        tag("="),
                        whitespace0(),
                        delimited_string(),
                    ),
                    Sixth,
                ),
            ),
            opt(
                combinators::map::map(
                    tuple6(
                        whitespace1(),
                        tag("standalone"),
                        whitespace0(),
                        tag("="),
                        whitespace0(),
                        delimited_string(),
                    ),
                    Sixth,
                ),
            ),
            whitespace0(),
            tag("?>"),
            whitespace0(),
        ),
        MakeXmlDecl,
    ).spec_parse(s)
}

/// The parser of [`spec_xmldecl`].
pub struct XmlDecl;

/// A parser of [`spec_xmldecl`].
#[verifier::allow_in_spec]
pub fn xmldecl() -> XmlDecl
    returns
        XmlDecl,
{
    XmlDecl
}

impl Combinator for XmlDecl {
    type Output = XMLdecl;

    open spec fn spec_parse(&self, s: State) -> SpecResult<XmlDeclView> {
        spec_xmldecl(s)
    }

    fn parse(&self, input: ParseInput) -> (r: ParseResult<XMLdecl>) {
        proof {
            reveal(spec_xmldecl);
        }
        combinators::map::map(
            tuple8(
                tag("<?xml"),
                whitespace1(),
                combinators::map::map(
                    tuple5(
                        tag("version"),
                        whitespace0(),
                        tag("="),
                        whitespace0(),
                        delimited_string(),
                    ),
                    Fifth,
                ),
                opt(
                    combinators::map::map(
                        tuple6(
                            whitespace1(),
                            tag("encoding"),
                            whitespace0(),
                            tag("="),
                            whitespace0(),
                            delimited_string(),
                        ),
                        Sixth,
                    ),
                ),
                opt(
                    combinators::map::map(
                        tuple6(
                            whitespace1(),
                            tag("standalone"),
                            whitespace0(),
                            tag("="),
                            whitespace0(),
                            delimited_string(),
                        ),
                        Sixth,
                    ),
                ),
                whitespace0(),
                tag("?>"),
                whitespace0(),
            ),
            MakeXmlDecl,
        ).parse(input)
    }
}

/// The declaration, and the nodes before and behind the document type
/// declaration, in one sequence.
pub struct JoinMisc;

impl Mapper<(Option<XMLdecl>, Vec<XMLNode>, Option<()>, Vec<XMLNode>)> for JoinMisc {
    type Dst = (Option<XMLdecl>, Vec<XMLNode>);

    open spec fn spec_apply(
        &self,
        a: (Option<XmlDeclView>, Seq<NodeView>, Option<()>, Seq<NodeView>),
    ) -> (Option<XmlDeclView>, Seq<NodeView>) {
        (a.0, a.1 + a.3)
    }

    fn apply(&self, a: (Option<XMLdecl>, Vec<XMLNode>, Option<()>, Vec<XMLNode>)) -> (b: (
        Option<XMLdecl>,
        Vec<XMLNode>,
    )) {
        let (xmld, mut m1, _, mut m2) = a;
        let ghost before = (m1.repr(), m2.repr());
        m1.append(&mut m2);
        proof {
            assert(m1.repr() =~= before.0 + before.1);
        }
        (xmld, m1)
    }
}

/// The prolog: the declaration if there is one, comments and processing
/// instructions, the document type declaration if there is one, and again
/// comments and processing instructions.
#[verifier::opaque]
pub open spec fn spec_prolog(s: State) -> SpecResult<(Option<XmlDeclView>, Seq<NodeView>)> {
    combinators::map::map(
        tuple4(opt(xmldecl()), misc(), opt(doctypedecl()), misc()),
        JoinMisc,
    ).spec_parse(s)
}

/// The parser of [`spec_prolog`].
pub struct Prolog;

/// A parser of [`spec_prolog`].
#[verifier::allow_in_spec]
pub fn prolog() -> Prolog
    returns
        Prolog,
{
    Prolog
}

impl Combinator for Prolog {
    type Output = (Option<XMLdecl>, Vec<XMLNode>);

    open spec fn spec_parse(&self, s: State) -> SpecResult<(Option<XmlDeclView>, Seq<NodeView>)> {
        spec_prolog(s)
    }

    fn parse(&self, input: ParseInput) -> (r: ParseResult<(Option<XMLdecl>, Vec<XMLNode>)>) {
        proof {
            reveal(spec_prolog);
        }
        combinators::map::map(
            tuple4(opt(xmldecl()), misc(), opt(doctypedecl()), misc()),
            JoinMisc,
        ).parse(input)
    }
}

/// What the parts of a document give on `text`, from its beginning and with
/// the configuration that a parse starts with: a prolog, one element, and
/// the comments and processing instructions behind it.
pub open spec fn spec_document_parts(text: Seq<char>) -> SpecResult<
    ((Option<XmlDeclView>, Seq<NodeView>), NodeView, Option<Seq<NodeView>>),
> {
    tuple3(prolog(), element(), opt(misc())).spec_parse(
        State { text, pos: 0, config: initial_config() },
    )
}

/// What parsing `text` as a document gives. The parts of a document are
/// accepted as a document only if nothing of the text is left behind them;
/// what is left makes a failure at the first position that was not consumed.
pub open spec fn spec_document(text: Seq<char>) -> SpecResult<DocumentView> {
    match spec_document_parts(text) {
        Ok((s, found)) => if s.pos == s.text.len() {
            Ok(
                (
                    s,
                    DocumentView {
                        prologue: found.0.1,
                        content: seq![found.1],
                        epilogue: match found.2 {
                            Some(nodes) => nodes,
                            None => Seq::empty(),
                        },
                        xmldecl: found.0.0,
                    },
                ),
            )
        } else {
            Err(s.pos)
        },
        Err(e) => Err(e),
    }
}

/// Parses `input` as a document.
pub fn document(input: String) -> (r: ParseResult<XMLDocument>)
    ensures
        outcome_of(r) == spec_document(input@),
{
    match tuple3(prolog(), element(), opt(misc())).parse((input, 0, ParserConfig::new())) {
        Ok((d, i, pc, ((xmld, pr), c, e))) => {
            if d.as_str().unicode_len() == i {
                let mut content: Vec<XMLNode> = Vec::new();
                content.push(c);
                let epilogue: Vec<XMLNode> = match e {
                    Some(nodes) => nodes,
                    None => Vec::new(),
                };
                proof {
                    assert(content.repr() =~= seq![c.repr()]);
                    if e is None {
                        assert(epilogue.repr() =~= Seq::<NodeView>::empty());
                    }
                }
                Ok((d, i, pc, XMLDocument { prologue: pr, content, epilogue, xmldecl: xmld }))
            } else {
                Err(i)
            }
        },
        Err(err) => Err(err),
    }
}

/// The message of the error for a parse that gave up at `pos`.
pub open spec fn failure_message(pos: int) -> Seq<char> {
    "unrecoverable parser error at "@ + decimal(pos as nat)
}

/// What `parse` returns for `text`: the document, or the error with the
/// position at which parsing gave up.
pub open spec fn spec_parse_document(text: Seq<char>) -> Result<DocumentView, ErrorView> {
    match spec_document(text) {
        Ok((_, doc)) => Ok(doc),
        Err(pos) => Err(ErrorView { kind: ErrorKind::Unknown, message: failure_message(pos) }),
    }
}

/// Whether `r` is what `parse` returns for `text`.
pub open spec fn parse_returns(text: Seq<char>, r: Result<XMLDocument, Error>) -> bool {
    match r {
        Ok(doc) => spec_parse_document(text) == Ok::<DocumentView, ErrorView>(doc.repr()),
        Err(err) => spec_parse_document(text) == Err::<DocumentView, ErrorView>(err.repr()),
    }
}

/// Parses `e` as a document. A text that is no document gives an error of the
/// kind `Unknown` whose message names the position at which parsing gave up.
pub fn parse(e: String) -> (r: Result<XMLDocument, Error>)
    ensures
        parse_returns(e@, r),
{
    match document(e) {
        Ok((_, _, _, doc)) => Ok(doc),
        Err(u) => {
            let mut message = "unrecoverable parser error at ".to_owned();
            message.append(to_decimal(u).as_str());
            Err(Error { kind: ErrorKind::Unknown, message })
        },
    }
}

/// The digit for a number below ten has the code that is 48 more.
proof fn lemma_digit_code(d: nat)
    requires
        d < 10,
    ensures
        digit_char(d) as u32 == 0x30 + d,
{
}

/// The decimal digits of a number tell the number.
proof fn lemma_decimal_injective(a: nat, b: nat)
    requires
        decimal(a) == decimal(b),
    ensures
        a == b,
    decreases a,
{
    lemma_digit_code(a % 10);
    lemma_digit_code(b % 10);
    if a >= 10 {
        lemma_decimal_nonempty(a / 10);
        assert(decimal(a).drop_last() =~= decimal(a / 10));
    }
    if b >= 10 {
        lemma_decimal_nonempty(b / 10);
        assert(decimal(b).drop_last() =~= decimal(b / 10));
    }
    assert(decimal(a).last() == digit_char(a % 10));
    assert(decimal(b).last() == digit_char(b % 10));
    if a >= 10 && b >= 10 {
        lemma_decimal_injective(a / 10, b / 10);
    }
}

/// A number has at least one decimal digit.
proof fn lemma_decimal_nonempty(a: nat)
    ensures
        decimal(a).len() >= 1,
    decreases a,
{
    if a >= 10 {
        lemma_decimal_nonempty(a / 10);
    }
}

/// A failure is repeated: where `parse` fails on a text, it fails on the
/// same text again, with the same error, and so at the same position.
pub proof fn lemma_failure_is_repeated(
    text: Seq<char>,
    first: Result<XMLDocument, Error>,
    second: Result<XMLDocument, Error>,
)
    requires
        parse_returns(text, first),
        parse_returns(text, second),
        first is Err,
    ensures
        second is Err,
        second->Err_0.repr() == first->Err_0.repr(),
        forall|p: int, q: int|
            0 <= p && 0 <= q && first->Err_0.repr().message == failure_message(p)
                && second->Err_0.repr().message == failure_message(q) ==> p == q,
{
    assert forall|p: int, q: int|
        0 <= p && 0 <= q && first->Err_0.repr().message == failure_message(p)
            && second->Err_0.repr().message == failure_message(q) implies p == q by {
        let head = "unrecoverable parser error at "@;
        assert(decimal(p as nat) =~= failure_message(p).subrange(
            head.len() as int,
            failure_message(p).len() as int,
        ));
        assert(decimal(q as nat) =~= failure_message(q).subrange(
            head.len() as int,
            failure_message(q).len() as int,
        ));
        lemma_decimal_injective(p as nat, q as nat);
    }
}

/// The whole text is consumed: `parse` succeeds only where the parts of a
/// document have reached the end of the text. Where they stop before the
/// end, `parse` fails at the position where they stopped.
pub proof fn lemma_parse_consumes_all(text: Seq<char>, r: Result<XMLDocument, Error>)
    requires
        parse_returns(text, r),
    ensures
        r is Ok ==> (match spec_document_parts(text) {
            Ok((s, _)) => s.pos == s.text.len(),
            Err(_) => false,
        }),
        match spec_document_parts(text) {
            Ok((s, _)) => s.pos != s.text.len() ==> r is Err && r->Err_0.repr().message
                == failure_message(s.pos),
            Err(e) => r is Err && r->Err_0.repr().message == failure_message(e),
        },
{
}

} // verus!
