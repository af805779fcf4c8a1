//! The document type declaration and the declarations of its internal subset.

use vstd::prelude::*;
use vstd::string::*;
use crate::repr::Repr;
use crate::qname::{QNameView, QualifiedName};
use crate::parser::ConfigView;
use crate::parser::xml::{declared, DTDDecl, DeclView};
use crate::parser::common::{name, NameChar};
use crate::parser::chardata::attvalue;
use crate::parser::element::qualname;
use crate::parser::combinators;
use crate::parser::combinators::alt::{alt2, alt3, alt4, alt6, alt7};
use crate::parser::combinators::delimited::delimited;
use crate::parser::combinators::many::{many0, many1};
use crate::parser::combinators::map::{Blank, Discard, Mapper};
use crate::parser::combinators::opt::opt;
use crate::parser::combinators::tag::tag;
use crate::parser::combinators::take::{take_until, take_while};
use crate::parser::combinators::tuple::{
    tuple2, tuple3, tuple4, tuple5, tuple6, tuple7, tuple8, tuple9,
};
use crate::parser::combinators::value::value;
use crate::parser::combinators::whitespace::{whitespace0, whitespace1};
use crate::parser::combinators::{
    ahead, clone_input, onward, outcome_of, output_ok, state_of, Combinator,
    ParseInput, ParseResult, SpecResult, State,
};

verus! {

/// The name that `decl` declares.
pub open spec fn declared_name(decl: DeclView) -> QNameView {
    match decl {
        DeclView::Element(n, _) => n,
        DeclView::Attlist(n, _) => n,
        DeclView::Notation(n, _) => n,
        DeclView::GeneralEntity(n, _) => n,
        DeclView::ParamEntity(n, _) => n,
    }
}

/// The state `s` after `decl` was recorded under the name it declares.
pub open spec fn with_decl(s: State, decl: DeclView) -> State {
    State {
        config: ConfigView {
            dtd: declared(s.config.dtd, declared_name(decl).text(), decl),
            ..s.config
        },
        ..s
    }
}

/// Runs the parser, makes a declaration of what it found, and records the
/// declaration in the configuration.
pub struct Declare<P, F>(pub P, pub F);

/// A parser that runs `parser`, makes a declaration of what it found with `make`,
/// and records it.
#[verifier::allow_in_spec]
pub fn declare<P: Combinator, F: Mapper<P::Output, Dst = DTDDecl>>(parser: P, make: F) -> Declare<
    P,
    F,
>
    returns
        Declare(parser, make),
{
    Declare(parser, make)
}

/// The name that `decl` declares, as written.
fn key_of(decl: &DTDDecl) -> (r: String)
    ensures
        r@ == declared_name(decl.repr()).text(),
{
    match decl {
        DTDDecl::Element(n, _) => n.to_string(),
        DTDDecl::Attlist(n, _) => n.to_string(),
        DTDDecl::Notation(n, _) => n.to_string(),
        DTDDecl::GeneralEntity(n, _) => n.to_string(),
        DTDDecl::ParamEntity(n, _) => n.to_string(),
    }
}

impl<P: Combinator, F: Mapper<P::Output, Dst = DTDDecl>> Combinator for Declare<P, F> {
    type Output = ();

    open spec fn spec_parse(&self, s: State) -> SpecResult<()> {
        match self.0.spec_parse(s) {
            Ok((s1, v)) => Ok((with_decl(s1, self.1.spec_apply(v)), ())),
            Err(e) => Err(e),
        }
    }

    fn parse(&self, input: ParseInput) -> (r: ParseResult<()>) {
        match self.0.parse(input) {
            Ok((d, i, c, found)) => {
                let decl = self.1.apply(found);
                let key = key_of(&decl);
                Ok((d, i, c.declare(key, decl), ()))
            },
            Err(err) => Err(err),
        }
    }
}

/// The system identifier of an external identifier without a public one.
pub struct SystemId;

impl Mapper<((), (), String)> for SystemId {
    type Dst = (String, Option<String>);

    open spec fn spec_apply(&self, a: ((), (), Seq<char>)) -> (Seq<char>, Option<Seq<char>>) {
        (a.2, None)
    }

    fn apply(&self, a: ((), (), String)) -> (b: (String, Option<String>)) {
        (a.2, None)
    }
}

/// The system identifier of an external identifier, with its public one.
pub struct PublicId;

impl Mapper<((), (), String, (), String)> for PublicId {
    type Dst = (String, Option<String>);

    open spec fn spec_apply(&self, a: ((), (), Seq<char>, (), Seq<char>)) -> (
        Seq<char>,
        Option<Seq<char>>,
    ) {
        (a.4, Some(a.2))
    }

    fn apply(&self, a: ((), (), String, (), String)) -> (b: (String, Option<String>)) {
        (a.4, Some(a.2))
    }
}

/// An external identifier: `SYSTEM` and a literal, or `PUBLIC` and two.
#[verifier::opaque]
pub open spec fn spec_externalid(s: State) -> SpecResult<(Seq<char>, Option<Seq<char>>)> {
    alt2(
        combinators::map::map(
            tuple3(
                tag("SYSTEM"),
                whitespace0(),
                alt2(
                    delimited(tag("'"), take_until("'"), tag("'")),
                    delimited(tag("\""), take_until("\""), tag("\"")),
                ),
            ),
            SystemId,
        ),
        combinators::map::map(
            tuple5(
                tag("PUBLIC"),
                whitespace0(),
                alt2(
                    delimited(tag("'"), take_until("'"), tag("'")),
                    delimited(tag("\""), take_until("\""), tag("\"")),
                ),
                whitespace1(),
                alt2(
                    delimited(tag("'"), take_until("'"), tag("'")),
                    delimited(tag("\""), take_until("\""), tag("\"")),
                ),
            ),
            PublicId,
        ),
    ).spec_parse(s)
}

/// The parser of [`spec_externalid`].
pub struct ExternalId;

/// A parser of [`spec_externalid`].
#[verifier::allow_in_spec]
pub fn externalid() -> ExternalId
    returns
        ExternalId,
{
    ExternalId
}

impl Combinator for ExternalId {
    type Output = (String, Option<String>);

    open spec fn spec_parse(&self, s: State) -> SpecResult<(Seq<char>, Option<Seq<char>>)> {
        spec_externalid(s)
    }

    fn parse(&self, input: ParseInput) -> (r: ParseResult<(String, Option<String>)>) {
        proof {
            reveal(spec_externalid);
        }
        alt2(
            combinators::map::map(
                tuple3(
                    tag("SYSTEM"),
                    whitespace0(),
                    alt2(
                        delimited(tag("'"), take_until("'"), tag("'")),
                        delimited(tag("\""), take_until("\""), tag("\"")),
                    ),
                ),
                SystemId,
            ),
            combinators::map::map(
                tuple5(
                    tag("PUBLIC"),
                    whitespace0(),
                    alt2(
                        delimited(tag("'"), take_until("'"), tag("'")),
                        delimited(tag("\""), take_until("\""), tag("\"")),
                    ),
                    whitespace1(),
                    alt2(
                        delimited(tag("'"), take_until("'"), tag("'")),
                        delimited(tag("\""), take_until("\""), tag("\"")),
                    ),
                ),
                PublicId,
            ),
        ).parse(input)
    }
}

/// The occurrence mark that may follow a content particle.
pub open spec fn spec_occurrence(s: State) -> SpecResult<Option<()>> {
    opt(alt3(tag("?"), tag("*"), tag("+"))).spec_parse(s)
}

/// A content particle: a name, a choice or a sequence, and an occurrence
/// mark if one follows.
pub open spec fn spec_cp(s: State) -> SpecResult<Seq<char>>
    decreases s.rank().0, s.rank().1, s.rank().2, 2int,
{
    let particle = match name().spec_parse(s) {
        Ok((s1, _)) => Ok((s1, Seq::<char>::empty())),
        Err(_) => match spec_group(s, "|") {
            Ok(r) => Ok(r),
            Err(_) => spec_group(s, ","),
        },
    };
    match particle {
        Ok((s1, _)) => match spec_occurrence(s1) {
            Ok((s2, _)) => Ok((s2, Seq::empty())),
            Err(e) => Err(e),
        },
        Err(e) => Err(e),
    }
}

/// Content particles between parentheses, with `sep` between them.
pub open spec fn spec_group(s: State, sep: &'static str) -> SpecResult<Seq<char>>
    decreases s.rank().0, s.rank().1, s.rank().2, 1int,
{
    match ahead(tuple2(tag("("), whitespace0()).spec_parse(s), s) {
        Err(e) => Err(e),
        Ok((s1, _)) => match onward(spec_cp(s1), s1) {
            Err(e) => Err(e),
            Ok((s2, _)) => match tuple2(whitespace0(), tag(")")).spec_parse(
                spec_group_rest(s2, sep),
            ) {
                Ok((s3, _)) => Ok((s3, Seq::empty())),
                Err(e) => Err(e),
            },
        },
    }
}

/// The state after the content particles that follow the first one of a
/// group, each behind `sep`: as many as there are.
pub open spec fn spec_group_rest(s: State, sep: &'static str) -> State
    decreases s.rank().0, s.rank().1, s.rank().2, 0int,
{
    match ahead(tuple3(whitespace0(), tag(sep), whitespace0()).spec_parse(s), s) {
        Err(_) => s,
        Ok((s1, _)) => match onward(spec_cp(s1), s1) {
            Err(_) => s,
            Ok((s2, _)) => spec_group_rest(s2, sep),
        },
    }
}

/// Parses a content particle.
pub fn parse_cp(input: ParseInput) -> (r: ParseResult<String>)
    ensures
        outcome_of(r) == spec_cp(state_of(input)),
        output_ok(r, input),
    decreases state_of(input).rank().0, state_of(input).rank().1, state_of(input).rank().2, 2int,
{
    proof {
        reveal_strlit("|");
        reveal_strlit(",");
    }
    let particle = match name().parse(clone_input(&input)) {
        Ok((d, i, c, _)) => Ok((d, i, c)),
        Err(_) => match parse_group(clone_input(&input), "|") {
            Ok((d, i, c, _)) => Ok((d, i, c)),
            Err(_) => match parse_group(input, ",") {
                Ok((d, i, c, _)) => Ok((d, i, c)),
                Err(e) => Err(e),
            },
        },
    };
    match particle {
        Ok((d, i, c)) => match opt(alt3(tag("?"), tag("*"), tag("+"))).parse((d, i, c)) {
            Ok((d, i, c, _)) => Ok((d, i, c, String::new())),
            Err(e) => Err(e),
        },
        Err(e) => Err(e),
    }
}

/// Parses content particles between parentheses, with `sep` between them.
fn parse_group(input: ParseInput, sep: &'static str) -> (r: ParseResult<String>)
    requires
        sep@.len() > 0,
    ensures
        outcome_of(r) == spec_group(state_of(input), sep),
        output_ok(r, input),
    decreases state_of(input).rank().0, state_of(input).rank().1, state_of(input).rank().2, 1int,
{
    let ghost start = state_of(input);
    let index = input.1;
    proof {
        reveal_strlit("(");
        use_type_invariant(&input.2);
        input.2.lemma_wf();
    }
    let opened = match tag("(").parse(input) {
        Ok((d, i, c, _)) => whitespace0().parse((d, i, c)),
        Err(e) => Err(e),
    };
    match opened {
        Err(e) => Err(e),
        Ok((d, i, c, _)) => {
            proof {
                use_type_invariant(&c);
                c.lemma_wf();
            }
            match parse_cp((d, i, c)) {
                Err(e) => Err(e),
                Ok((d, i, c, _)) => {
                    proof {
                        use_type_invariant(&c);
                        c.lemma_wf();
                    }
                    let mut cur = (d, i, c);
                    let ghost first = state_of(cur);
                    loop
                        invariant
                            index <= cur.1,
                            start == state_of(input),
                            start.wf(),
                            sep@.len() > 0,
                            state_of(cur).wf(),
                            state_of(cur).after(start),
                            spec_group_rest(first, sep) == spec_group_rest(state_of(cur), sep),
                        ensures
                            index <= cur.1,
                            state_of(cur).after(start),
                            state_of(cur) == spec_group_rest(first, sep),
                        decreases
                                state_of(cur).rank().0,
                                state_of(cur).rank().1,
                                state_of(cur).rank().2,
                    {
                        let next = match whitespace0().parse(clone_input(&cur)) {
                            Ok((d, i, c, _)) => match tag(sep).parse((d, i, c)) {
                                Ok((d, i, c, _)) => whitespace0().parse((d, i, c)),
                                Err(e) => Err(e),
                            },
                            Err(e) => Err(e),
                        };
                        match next {
                            Err(_) => {
                                break ;
                            },
                            Ok((d, i, c, _)) => {
                                proof {
                                    use_type_invariant(&c);
                                    c.lemma_wf();
                                }
                                match parse_cp((d, i, c)) {
                                    Err(_) => {
                                        break ;
                                    },
                                    Ok((d, i, c, _)) => {
                                        proof {
                                            use_type_invariant(&c);
                                            c.lemma_wf();
                                        }
                                        cur = (d, i, c);
                                    },
                                }
                            },
                        }
                    }
                    match tuple2(whitespace0(), tag(")")).parse(cur) {
                        Ok((d, i, c, _)) => Ok((d, i, c, String::new())),
                        Err(e) => Err(e),
                    }
                },
            }
        },
    }
}

/// A content particle.
pub struct Cp;

/// A parser of [`spec_cp`].
#[verifier::allow_in_spec]
pub fn cp() -> Cp
    returns
        Cp,
{
    Cp
}

impl Combinator for Cp {
    type Output = String;

    open spec fn spec_parse(&self, s: State) -> SpecResult<Seq<char>> {
        spec_cp(s)
    }

    fn parse(&self, input: ParseInput) -> (r: ParseResult<String>) {
        parse_cp(input)
    }
}

/// A choice: content particles between parentheses, with `|` between them.
pub struct Choice;

/// A parser of a choice.
#[verifier::allow_in_spec]
pub fn choice() -> Choice
    returns
        Choice,
{
    Choice
}

impl Combinator for Choice {
    type Output = String;

    open spec fn spec_parse(&self, s: State) -> SpecResult<Seq<char>> {
        spec_group(s, "|")
    }

    fn parse(&self, input: ParseInput) -> (r: ParseResult<String>) {
        proof {
            reveal_strlit("|");
        }
        parse_group(input, "|")
    }
}

/// A sequence: content particles between parentheses, with `,` between them.
pub struct Sequence;

/// A parser of a sequence.
#[verifier::allow_in_spec]
pub fn seq() -> Sequence
    returns
        Sequence,
{
    Sequence
}

impl Combinator for Sequence {
    type Output = String;

    open spec fn spec_parse(&self, s: State) -> SpecResult<Seq<char>> {
        spec_group(s, ",")
    }

    fn parse(&self, input: ParseInput) -> (r: ParseResult<String>) {
        proof {
            reveal_strlit(",");
        }
        parse_group(input, ",")
    }
}

/// The declaration of an element, from what its syntax gave.
pub struct MakeElementDecl;

impl Mapper<((), (), QualifiedName, (), String, (), ())> for MakeElementDecl {
    type Dst = DTDDecl;

    open spec fn spec_apply(&self, a: ((), (), QNameView, (), Seq<char>, (), ())) -> DeclView {
        DeclView::Element(a.2, a.4)
    }

    fn apply(&self, a: ((), (), QualifiedName, (), String, (), ())) -> (b: DTDDecl) {
        DTDDecl::Element(a.2, a.4)
    }
}

/// The declaration of an attribute list, from what its syntax gave.
pub struct MakeAttlistDecl;

impl Mapper<((), (), QualifiedName, Vec<String>, (), ())> for MakeAttlistDecl {
    type Dst = DTDDecl;

    open spec fn spec_apply(&self, a: ((), (), QNameView, Seq<Seq<char>>, (), ())) -> DeclView {
        DeclView::Attlist(a.2, Seq::empty())
    }

    fn apply(&self, a: ((), (), QualifiedName, Vec<String>, (), ())) -> (b: DTDDecl) {
        DTDDecl::Attlist(a.2, String::new())
    }
}

/// The declaration of a parameter entity, from what its syntax gave.
pub struct MakeParamEntityDecl;

impl Mapper<((), (), (), (), QualifiedName, (), String, (), ())> for MakeParamEntityDecl {
    type Dst = DTDDecl;

    open spec fn spec_apply(
        &self,
        a: ((), (), (), (), QNameView, (), Seq<char>, (), ()),
    ) -> DeclView {
        DeclView::ParamEntity(a.4, a.6)
    }

    fn apply(&self, a: ((), (), (), (), QualifiedName, (), String, (), ())) -> (b: DTDDecl) {
        DTDDecl::ParamEntity(a.4, a.6)
    }
}

/// The declaration of a general entity, from what its syntax gave.
pub struct MakeGeneralEntityDecl;

impl Mapper<((), (), QualifiedName, (), String, (), ())> for MakeGeneralEntityDecl {
    type Dst = DTDDecl;

    open spec fn spec_apply(&self, a: ((), (), QNameView, (), Seq<char>, (), ())) -> DeclView {
        DeclView::GeneralEntity(a.2, a.4)
    }

    fn apply(&self, a: ((), (), QualifiedName, (), String, (), ())) -> (b: DTDDecl) {
        DTDDecl::GeneralEntity(a.2, a.4)
    }
}

/// The declaration of a notation, from what its syntax gave.
pub struct MakeNotationDecl;

impl Mapper<((), (), QualifiedName, (), String, (), ())> for MakeNotationDecl {
    type Dst = DTDDecl;

    open spec fn spec_apply(&self, a: ((), (), QNameView, (), Seq<char>, (), ())) -> DeclView {
        DeclView::Notation(a.2, a.4)
    }

    fn apply(&self, a: ((), (), QualifiedName, (), String, (), ())) -> (b: DTDDecl) {
        DTDDecl::Notation(a.2, a.4)
    }
}

/// The default value of an attribute, behind `#FIXED` where that was written.
pub struct FixedDefault;

impl Mapper<(Option<(String, ())>, String)> for FixedDefault {
    type Dst = String;

    open spec fn spec_apply(&self, a: (Option<(Seq<char>, ())>, Seq<char>)) -> Seq<char> {
        match a.0 {
            None => a.1,
            Some(f) => f.0 + a.1,
        }
    }

    fn apply(&self, a: (Option<(String, ())>, String)) -> (b: String) {
        match a.0 {
            None => a.1,
            Some((mut f, _)) => {
                f.append(a.1.as_str());
                f
            },
        }
    }
}

/// Mixed content: `#PCDATA` between parentheses, alone or with names behind it.
#[verifier::opaque]
pub open spec fn spec_mixed(s: State) -> SpecResult<Seq<char>> {
    alt2(
        combinators::map::map(
            tuple6(
                tag("("),
                whitespace0(),
                tag("#PCDATA"),
                many0(tuple4(whitespace0(), tag("|"), whitespace0(), name())),
                whitespace0(),
                tag(")*"),
            ),
            Blank,
        ),
        combinators::map::map(
            tuple5(tag("("), whitespace0(), tag("#PCDATA"), whitespace0(), tag(")")),
            Blank,
        ),
    ).spec_parse(s)
}

/// The parser of [`spec_mixed`].
pub struct Mixed;

/// A parser of [`spec_mixed`].
#[verifier::allow_in_spec]
pub fn mixed() -> Mixed
    returns
        Mixed,
{
    Mixed
}

impl Combinator for Mixed {
    type Output = String;

    open spec fn spec_parse(&self, s: State) -> SpecResult<Seq<char>> {
        spec_mixed(s)
    }

    fn parse(&self, input: ParseInput) -> (r: ParseResult<String>) {
        proof {
            reveal(spec_mixed);
        }
        alt2(
            combinators::map::map(
                tuple6(
                    tag("("),
                    whitespace0(),
                    tag("#PCDATA"),
                    many0(tuple4(whitespace0(), tag("|"), whitespace0(), name())),
                    whitespace0(),
                    tag(")*"),
                ),
                Blank,
            ),
            combinators::map::map(
                tuple5(tag("("), whitespace0(), tag("#PCDATA"), whitespace0(), tag(")")),
                Blank,
            ),
        ).parse(input)
    }
}

/// Element content: a choice or a sequence, and an occurrence mark if one follows.
#[verifier::opaque]
pub open spec fn spec_children(s: State) -> SpecResult<Seq<char>> {
    combinators::map::map(
        tuple2(alt2(choice(), seq()), opt(alt3(tag("?"), tag("*"), tag("+")))),
        Blank,
    ).spec_parse(s)
}

/// The parser of [`spec_children`].
pub struct Children;

/// A parser of [`spec_children`].
#[verifier::allow_in_spec]
pub fn children() -> Children
    returns
        Children,
{
    Children
}

impl Combinator for Children {
    type Output = String;

    open spec fn spec_parse(&self, s: State) -> SpecResult<Seq<char>> {
        spec_children(s)
    }

    fn parse(&self, input: ParseInput) -> (r: ParseResult<String>) {
        proof {
            reveal(spec_children);
        }
        combinators::map::map(
            tuple2(alt2(choice(), seq()), opt(alt3(tag("?"), tag("*"), tag("+")))),
            Blank,
        ).parse(input)
    }
}

/// What an element may hold: `EMPTY`, `ANY`, mixed content or element content.
#[verifier::opaque]
pub open spec fn spec_contentspec(s: State) -> SpecResult<Seq<char>> {
    alt4(
        value(tag("EMPTY"), "EMPTY"),
        value(tag("ANY"), "ANY"),
        mixed(),
        children(),
    ).spec_parse(s)
}

/// The parser of [`spec_contentspec`].
pub struct ContentSpec;

/// A parser of [`spec_contentspec`].
#[verifier::allow_in_spec]
pub fn contentspec() -> ContentSpec
    returns
        ContentSpec,
{
    ContentSpec
}

impl Combinator for ContentSpec {
    type Output = String;

    open spec fn spec_parse(&self, s: State) -> SpecResult<Seq<char>> {
        spec_contentspec(s)
    }

    fn parse(&self, input: ParseInput) -> (r: ParseResult<String>) {
        proof {
            reveal(spec_contentspec);
        }
        alt4(
            value(tag("EMPTY"), "EMPTY"),
            value(tag("ANY"), "ANY"),
            mixed(),
            children(),
        ).parse(input)
    }
}

/// The declaration of an element. It is recorded in the configuration.
#[verifier::opaque]
pub open spec fn spec_elementdecl(s: State) -> SpecResult<()> {
    declare(
        tuple7(
            tag("<!ELEMENT"),
            whitespace1(),
            qualname(),
            whitespace1(),
            contentspec(),
            whitespace0(),
            tag(">"),
        ),
        MakeElementDecl,
    ).spec_parse(s)
}

/// The parser of [`spec_elementdecl`].
pub struct ElementDecl;

/// A parser of [`spec_elementdecl`].
#[verifier::allow_in_spec]
pub fn elementdecl() -> ElementDecl
    returns
        ElementDecl,
{
    ElementDecl
}

impl Combinator for ElementDecl {
    type Output = ();

    open spec fn spec_parse(&self, s: State) -> SpecResult<()> {
        spec_elementdecl(s)
    }

    fn parse(&self, input: ParseInput) -> (r: ParseResult<()>) {
        proof {
            reveal(spec_elementdecl);
        }
        declare(
            tuple7(
                tag("<!ELEMENT"),
                whitespace1(),
                qualname(),
                whitespace1(),
                contentspec(),
                whitespace0(),
                tag(">"),
            ),
            MakeElementDecl,
        ).parse(input)
    }
}

/// A name token: runs of name characters.
#[verifier::opaque]
pub open spec fn spec_nmtoken(s: State) -> SpecResult<()> {
    combinators::map::map(many1(take_while(NameChar)), Discard).spec_parse(s)
}

/// The parser of [`spec_nmtoken`].
pub struct Nmtoken;

/// A parser of [`spec_nmtoken`].
#[verifier::allow_in_spec]
pub fn nmtoken() -> Nmtoken
    returns
        Nmtoken,
{
    Nmtoken
}

impl Combinator for Nmtoken {
    type Output = ();

    open spec fn spec_parse(&self, s: State) -> SpecResult<()> {
        spec_nmtoken(s)
    }

    fn parse(&self, input: ParseInput) -> (r: ParseResult<()>) {
        proof {
            reveal(spec_nmtoken);
        }
        combinators::map::map(many1(take_while(NameChar)), Discard).parse(input)
    }
}

/// An enumeration: name tokens between parentheses, with `|` between them.
#[verifier::opaque]
pub open spec fn spec_enumeration(s: State) -> SpecResult<()> {
    combinators::map::map(
        tuple6(
            tag("("),
            whitespace0(),
            nmtoken(),
            many0(tuple4(whitespace0(), tag("|"), whitespace0(), nmtoken())),
            whitespace0(),
            tag(")"),
        ),
        Discard,
    ).spec_parse(s)
}

/// The parser of [`spec_enumeration`].
pub struct Enumeration;

/// A parser of [`spec_enumeration`].
#[verifier::allow_in_spec]
pub fn enumeration() -> Enumeration
    returns
        Enumeration,
{
    Enumeration
}

impl Combinator for Enumeration {
    type Output = ();

    open spec fn spec_parse(&self, s: State) -> SpecResult<()> {
        spec_enumeration(s)
    }

    fn parse(&self, input: ParseInput) -> (r: ParseResult<()>) {
        proof {
            reveal(spec_enumeration);
        }
        combinators::map::map(
            tuple6(
                tag("("),
                whitespace0(),
                nmtoken(),
                many0(tuple4(whitespace0(), tag("|"), whitespace0(), nmtoken())),
                whitespace0(),
                tag(")"),
            ),
            Discard,
        ).parse(input)
    }
}

/// A notation type: `NOTATION` and names between parentheses, with `|` between them.
#[verifier::opaque]
pub open spec fn spec_notationtype(s: State) -> SpecResult<()> {
    combinators::map::map(
        tuple8(
            tag("NOTATION"),
            whitespace1(),
            tag("("),
            whitespace0(),
            name(),
            many0(tuple4(whitespace0(), tag("|"), whitespace0(), name())),
            whitespace0(),
            tag(")"),
        ),
        Discard,
    ).spec_parse(s)
}

/// The parser of [`spec_notationtype`].
pub struct NotationType;

/// A parser of [`spec_notationtype`].
#[verifier::allow_in_spec]
pub fn notationtype() -> NotationType
    returns
        NotationType,
{
    NotationType
}

impl Combinator for NotationType {
    type Output = ();

    open spec fn spec_parse(&self, s: State) -> SpecResult<()> {
        spec_notationtype(s)
    }

    fn parse(&self, input: ParseInput) -> (r: ParseResult<()>) {
        proof {
            reveal(spec_notationtype);
        }
        combinators::map::map(
            tuple8(
                tag("NOTATION"),
                whitespace1(),
                tag("("),
                whitespace0(),
                name(),
                many0(tuple4(whitespace0(), tag("|"), whitespace0(), name())),
                whitespace0(),
                tag(")"),
            ),
            Discard,
        ).parse(input)
    }
}

/// An enumerated type: a notation type or an enumeration.
#[verifier::opaque]
pub open spec fn spec_enumeratedtype(s: State) -> SpecResult<()> {
    alt2(notationtype(), enumeration()).spec_parse(s)
}

/// The parser of [`spec_enumeratedtype`].
pub struct EnumeratedType;

/// A parser of [`spec_enumeratedtype`].
#[verifier::allow_in_spec]
pub fn enumeratedtype() -> EnumeratedType
    returns
        EnumeratedType,
{
    EnumeratedType
}

impl Combinator for EnumeratedType {
    type Output = ();

    open spec fn spec_parse(&self, s: State) -> SpecResult<()> {
        spec_enumeratedtype(s)
    }

    fn parse(&self, input: ParseInput) -> (r: ParseResult<()>) {
        proof {
            reveal(spec_enumeratedtype);
        }
        alt2(notationtype(), enumeration()).parse(input)
    }
}

/// The type of an attribute: the string type, a tokenized type or an
/// enumerated type. Of two tokenized types of which one begins the other, the
/// longer one is tried first.
#[verifier::opaque]
pub open spec fn spec_atttype(s: State) -> SpecResult<()> {
    alt3(
        tag("CDATA"),
        alt7(
            tag("IDREFS"),
            tag("IDREF"),
            tag("ID"),
            tag("ENTITIES"),
            tag("ENTITY"),
            tag("NMTOKENS"),
            tag("NMTOKEN"),
        ),
        enumeratedtype(),
    ).spec_parse(s)
}

/// The parser of [`spec_atttype`].
pub struct AttType;

/// A parser of [`spec_atttype`].
#[verifier::allow_in_spec]
pub fn atttype() -> AttType
    returns
        AttType,
{
    AttType
}

impl Combinator for AttType {
    type Output = ();

    open spec fn spec_parse(&self, s: State) -> SpecResult<()> {
        spec_atttype(s)
    }

    fn parse(&self, input: ParseInput) -> (r: ParseResult<()>) {
        proof {
            reveal(spec_atttype);
        }
        alt3(
            tag("CDATA"),
            alt7(
                tag("IDREFS"),
                tag("IDREF"),
                tag("ID"),
                tag("ENTITIES"),
                tag("ENTITY"),
                tag("NMTOKENS"),
                tag("NMTOKEN"),
            ),
            enumeratedtype(),
        ).parse(input)
    }
}

/// The default of an attribute: `#REQUIRED`, `#IMPLIED`, or a value, which `#FIXED` may precede.
#[verifier::opaque]
pub open spec fn spec_defaultdecl(s: State) -> SpecResult<()> {
    combinators::map::map(
        alt3(
            value(tag("#REQUIRED"), "#REQUIRED"),
            value(tag("#IMPLIED"), "#IMPLIED"),
            combinators::map::map(
                tuple2(opt(tuple2(value(tag("#FIXED"), "#FIXED"), whitespace1())), attvalue()),
                FixedDefault,
            ),
        ),
        Discard,
    ).spec_parse(s)
}

/// The parser of [`spec_defaultdecl`].
pub struct DefaultDecl;

/// A parser of [`spec_defaultdecl`].
#[verifier::allow_in_spec]
pub fn defaultdecl() -> DefaultDecl
    returns
        DefaultDecl,
{
    DefaultDecl
}

impl Combinator for DefaultDecl {
    type Output = ();

    open spec fn spec_parse(&self, s: State) -> SpecResult<()> {
        spec_defaultdecl(s)
    }

    fn parse(&self, input: ParseInput) -> (r: ParseResult<()>) {
        proof {
            reveal(spec_defaultdecl);
        }
        combinators::map::map(
            alt3(
                value(tag("#REQUIRED"), "#REQUIRED"),
                value(tag("#IMPLIED"), "#IMPLIED"),
                combinators::map::map(
                    tuple2(opt(tuple2(value(tag("#FIXED"), "#FIXED"), whitespace1())), attvalue()),
                    FixedDefault,
                ),
            ),
            Discard,
        ).parse(input)
    }
}

/// The definition of one attribute: its name, its type and its default.
#[verifier::opaque]
pub open spec fn spec_attdef(s: State) -> SpecResult<Seq<char>> {
    combinators::map::map(
        tuple6(whitespace1(), name(), whitespace1(), atttype(), whitespace1(), defaultdecl()),
        Blank,
    ).spec_parse(s)
}

/// The parser of [`spec_attdef`].
pub struct AttDef;

/// A parser of [`spec_attdef`].
#[verifier::allow_in_spec]
pub fn attdef() -> AttDef
    returns
        AttDef,
{
    AttDef
}

impl Combinator for AttDef {
    type Output = String;

    open spec fn spec_parse(&self, s: State) -> SpecResult<Seq<char>> {
        spec_attdef(s)
    }

    fn parse(&self, input: ParseInput) -> (r: ParseResult<String>) {
        proof {
            reveal(spec_attdef);
        }
        combinators::map::map(
            tuple6(whitespace1(), name(), whitespace1(), atttype(), whitespace1(), defaultdecl()),
            Blank,
        ).parse(input)
    }
}

/// The declaration of an attribute list. It is recorded in the configuration.
#[verifier::opaque]
pub open spec fn spec_attlistdecl(s: State) -> SpecResult<()> {
    declare(
        tuple6(
            tag("<!ATTLIST"),
            whitespace1(),
            qualname(),
            many0(attdef()),
            whitespace0(),
            tag(">"),
        ),
        MakeAttlistDecl,
    ).spec_parse(s)
}

/// The parser of [`spec_attlistdecl`].
pub struct AttlistDecl;

/// A parser of [`spec_attlistdecl`].
#[verifier::allow_in_spec]
pub fn attlistdecl() -> AttlistDecl
    returns
        AttlistDecl,
{
    AttlistDecl
}

impl Combinator for AttlistDecl {
    type Output = ();

    open spec fn spec_parse(&self, s: State) -> SpecResult<()> {
        spec_attlistdecl(s)
    }

    fn parse(&self, input: ParseInput) -> (r: ParseResult<()>) {
        proof {
            reveal(spec_attlistdecl);
        }
        declare(
            tuple6(
                tag("<!ATTLIST"),
                whitespace1(),
                qualname(),
                many0(attdef()),
                whitespace0(),
                tag(">"),
            ),
            MakeAttlistDecl,
        ).parse(input)
    }
}

/// The declaration of a parameter entity. It is recorded in the configuration.
#[verifier::opaque]
pub open spec fn spec_pedecl(s: State) -> SpecResult<()> {
    declare(
        tuple9(
            tag("<!ENTITY"),
            whitespace1(),
            tag("%"),
            whitespace1(),
            qualname(),
            whitespace1(),
            alt2(
                delimited(tag("'"), take_until("'"), tag("'")),
                delimited(tag("\""), take_until("\""), tag("\"")),
            ),
            whitespace0(),
            tag(">"),
        ),
        MakeParamEntityDecl,
    ).spec_parse(s)
}

/// The parser of [`spec_pedecl`].
pub struct PeDecl;

/// A parser of [`spec_pedecl`].
#[verifier::allow_in_spec]
pub fn pedecl() -> PeDecl
    returns
        PeDecl,
{
    PeDecl
}

impl Combinator for PeDecl {
    type Output = ();

    open spec fn spec_parse(&self, s: State) -> SpecResult<()> {
        spec_pedecl(s)
    }

    fn parse(&self, input: ParseInput) -> (r: ParseResult<()>) {
        proof {
            reveal(spec_pedecl);
        }
        declare(
            tuple9(
                tag("<!ENTITY"),
                whitespace1(),
                tag("%"),
                whitespace1(),
                qualname(),
                whitespace1(),
                alt2(
                    delimited(tag("'"), take_until("'"), tag("'")),
                    delimited(tag("\""), take_until("\""), tag("\"")),
                ),
                whitespace0(),
                tag(">"),
            ),
            MakeParamEntityDecl,
        ).parse(input)
    }
}

/// The declaration of a general entity. It is recorded in the configuration.
#[verifier::opaque]
pub open spec fn spec_gedecl(s: State) -> SpecResult<()> {
    declare(
        tuple7(
            tag("<!ENTITY"),
            whitespace1(),
            qualname(),
            whitespace1(),
            alt2(
                delimited(tag("'"), take_until("'"), tag("'")),
                delimited(tag("\""), take_until("\""), tag("\"")),
            ),
            whitespace0(),
            tag(">"),
        ),
        MakeGeneralEntityDecl,
    ).spec_parse(s)
}

/// The parser of [`spec_gedecl`].
pub struct GeDecl;

/// A parser of [`spec_gedecl`].
#[verifier::allow_in_spec]
pub fn gedecl() -> GeDecl
    returns
        GeDecl,
{
    GeDecl
}

impl Combinator for GeDecl {
    type Output = ();

    open spec fn spec_parse(&self, s: State) -> SpecResult<()> {
        spec_gedecl(s)
    }

    fn parse(&self, input: ParseInput) -> (r: ParseResult<()>) {
        proof {
            reveal(spec_gedecl);
        }
        declare(
            tuple7(
                tag("<!ENTITY"),
                whitespace1(),
                qualname(),
                whitespace1(),
                alt2(
                    delimited(tag("'"), take_until("'"), tag("'")),
                    delimited(tag("\""), take_until("\""), tag("\"")),
                ),
                whitespace0(),
                tag(">"),
            ),
            MakeGeneralEntityDecl,
        ).parse(input)
    }
}

/// The declaration of a notation. It is recorded in the configuration.
#[verifier::opaque]
pub open spec fn spec_ndatadecl(s: State) -> SpecResult<()> {
    declare(
        tuple7(
            tag("<!NOTATION"),
            whitespace1(),
            qualname(),
            whitespace1(),
            take_until(">"),
            whitespace0(),
            tag(">"),
        ),
        MakeNotationDecl,
    ).spec_parse(s)
}

/// The parser of [`spec_ndatadecl`].
pub struct NdataDecl;

/// A parser of [`spec_ndatadecl`].
#[verifier::allow_in_spec]
pub fn ndatadecl() -> NdataDecl
    returns
        NdataDecl,
{
    NdataDecl
}

impl Combinator for NdataDecl {
    type Output = ();

    open spec fn spec_parse(&self, s: State) -> SpecResult<()> {
        spec_ndatadecl(s)
    }

    fn parse(&self, input: ParseInput) -> (r: ParseResult<()>) {
        proof {
            reveal(spec_ndatadecl);
        }
        declare(
            tuple7(
                tag("<!NOTATION"),
                whitespace1(),
                qualname(),
                whitespace1(),
                take_until(">"),
                whitespace0(),
                tag(">"),
            ),
            MakeNotationDecl,
        ).parse(input)
    }
}

/// The internal subset: declarations and white space, as many as there are.
#[verifier::opaque]
pub open spec fn spec_intsubset(s: State) -> SpecResult<Seq<()>> {
    many0(
        alt6(elementdecl(), attlistdecl(), pedecl(), gedecl(), ndatadecl(), whitespace1()),
    ).spec_parse(s)
}

/// The parser of [`spec_intsubset`].
pub struct IntSubset;

/// A parser of [`spec_intsubset`].
#[verifier::allow_in_spec]
pub fn intsubset() -> IntSubset
    returns
        IntSubset,
{
    IntSubset
}

impl Combinator for IntSubset {
    type Output = Vec<()>;

    open spec fn spec_parse(&self, s: State) -> SpecResult<Seq<()>> {
        spec_intsubset(s)
    }

    fn parse(&self, input: ParseInput) -> (r: ParseResult<Vec<()>>) {
        proof {
            reveal(spec_intsubset);
        }
        many0(
            alt6(elementdecl(), attlistdecl(), pedecl(), gedecl(), ndatadecl(), whitespace1()),
        ).parse(input)
    }
}

/// The document type declaration: `<!DOCTYPE`, white space and a name; an
/// external identifier behind white space, if there is one; an internal
/// subset between brackets, if there is one; and `>`. White space may stand
/// before and behind the subset. The declarations of the subset are recorded
/// in the configuration; the declaration itself gives no node.
#[verifier::opaque]
pub open spec fn spec_doctypedecl(s: State) -> SpecResult<()> {
    combinators::map::map(
        tuple8(
            tag("<!DOCTYPE"),
            whitespace1(),
            name(),
            opt(tuple2(whitespace1(), externalid())),
            whitespace0(),
            opt(delimited(tag("["), intsubset(), tag("]"))),
            whitespace0(),
            tag(">"),
        ),
        Discard,
    ).spec_parse(s)
}

/// The parser of [`spec_doctypedecl`].
pub struct DoctypeDecl;

/// A parser of [`spec_doctypedecl`].
#[verifier::allow_in_spec]
pub fn doctypedecl() -> DoctypeDecl
    returns
        DoctypeDecl,
{
    DoctypeDecl
}

impl Combinator for DoctypeDecl {
    type Output = ();

    open spec fn spec_parse(&self, s: State) -> SpecResult<()> {
        spec_doctypedecl(s)
    }

    fn parse(&self, input: ParseInput) -> (r: ParseResult<()>) {
        proof {
            reveal(spec_doctypedecl);
        }
        combinators::map::map(
            tuple8(
                tag("<!DOCTYPE"),
                whitespace1(),
                name(),
                opt(tuple2(whitespace1(), externalid())),
                whitespace0(),
                opt(delimited(tag("["), intsubset(), tag("]"))),
                whitespace0(),
                tag(">"),
            ),
            Discard,
        ).parse(input)
    }
}

} // verus!
