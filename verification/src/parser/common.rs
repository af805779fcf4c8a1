//! Character classes and names.

use vstd::prelude::*;
use vstd::string::*;
use crate::parser::combinators;
use crate::parser::combinators::map::Mapper;
use crate::parser::combinators::opt::opt;
use crate::parser::combinators::take::{take_while, take_while_m_n, CharClass};
use crate::parser::combinators::tuple::tuple2;
use crate::parser::combinators::{Combinator, ParseInput, ParseResult, SpecResult, State};

verus! {

/// Whether a name without colons may begin with `ch`.
pub open spec fn spec_is_ncnamestartchar(ch: char) -> bool {
    let c = ch as u32;
    ||| 0x41 <= c <= 0x5A
    ||| c == 0x5F
    ||| 0x61 <= c <= 0x7A
    ||| 0xC0 <= c <= 0xD6
    ||| 0xD8 <= c <= 0xF6
    ||| 0xF8 <= c <= 0x2FF
    ||| 0x370 <= c <= 0x37D
    ||| 0x37F <= c <= 0x1FFF
    ||| 0x200C <= c <= 0x200D
    ||| 0x2070 <= c <= 0x218F
    ||| 0x2C00 <= c <= 0x2FEF
    ||| 0x3001 <= c <= 0xD7FF
    ||| 0xF900 <= c <= 0xFDCF
    ||| 0xFDF0 <= c <= 0xFFFD
    ||| 0x10000 <= c <= 0xEFFFF
}

/// Whether a name may begin with `ch`.
pub open spec fn spec_is_namestartchar(ch: char) -> bool {
    ch == ':' || spec_is_ncnamestartchar(ch)
}

/// Whether `ch` may follow the first character of a name, besides those
/// that may begin one.
pub open spec fn spec_is_name_extra(ch: char) -> bool {
    let c = ch as u32;
    ||| ch == '.'
    ||| ch == '-'
    ||| 0x30 <= c <= 0x39
    ||| c == 0xB7
    ||| 0x0300 <= c <= 0x036F
    ||| 0x203F <= c <= 0x2040
}

/// Whether `ch` may stand in a name.
pub open spec fn spec_is_namechar(ch: char) -> bool {
    spec_is_namestartchar(ch) || spec_is_name_extra(ch)
}

/// Whether `ch` may stand in a name without colons.
pub open spec fn spec_is_ncnamechar(ch: char) -> bool {
    spec_is_ncnamestartchar(ch) || spec_is_name_extra(ch)
}

/// Whether `ch` is a character that a document may hold.
pub open spec fn spec_is_char(ch: char) -> bool {
    let c = ch as u32;
    ||| c == 0x9
    ||| c == 0xA
    ||| c == 0xD
    ||| 0x20 <= c <= 0xD7FF
    ||| 0xE000 <= c <= 0xFFFD
    ||| 0x10000 <= c <= 0x10FFFF
}

/// Whether `ch` may follow the first character of a name, besides those that
/// may begin one.
fn is_name_extra(ch: char) -> (b: bool)
    ensures
        b == spec_is_name_extra(ch),
{
    let c = ch as u32;
    ch == '.' || ch == '-' || (0x30 <= c && c <= 0x39) || c == 0xB7 || (0x0300 <= c && c <= 0x036F)
        || (0x203F <= c && c <= 0x2040)
}

/// Whether `ch` may stand in a name.
pub fn is_namechar(ch: char) -> (b: bool)
    ensures
        b == spec_is_namechar(ch),
{
    if is_namestartchar(ch) {
        true
    } else {
        is_name_extra(ch)
    }
}

/// Whether `ch` may stand in a name without colons.
pub fn is_ncnamechar(ch: char) -> (b: bool)
    ensures
        b == spec_is_ncnamechar(ch),
{
    if is_ncnamestartchar(ch) {
        true
    } else {
        is_name_extra(ch)
    }
}

/// Whether a name may begin with `ch`.
pub fn is_namestartchar(ch: char) -> (b: bool)
    ensures
        b == spec_is_namestartchar(ch),
{
    if ch == ':' {
        true
    } else {
        is_ncnamestartchar(ch)
    }
}

/// Whether a name without colons may begin with `ch`.
pub fn is_ncnamestartchar(ch: char) -> (b: bool)
    ensures
        b == spec_is_ncnamestartchar(ch),
{
    let c = ch as u32;
    (0x41 <= c && c <= 0x5A) || c == 0x5F || (0x61 <= c && c <= 0x7A) || (0xC0 <= c && c <= 0xD6)
        || (0xD8 <= c && c <= 0xF6) || (0xF8 <= c && c <= 0x2FF) || (0x370 <= c && c <= 0x37D) || (
    0x37F <= c && c <= 0x1FFF) || (0x200C <= c && c <= 0x200D) || (0x2070 <= c && c <= 0x218F) || (
    0x2C00 <= c && c <= 0x2FEF) || (0x3001 <= c && c <= 0xD7FF) || (0xF900 <= c && c <= 0xFDCF)
        || (0xFDF0 <= c && c <= 0xFFFD) || (0x10000 <= c && c <= 0xEFFFF)
}

/// Whether `ch` is a character that a document may hold.
pub fn is_legal_char(ch: char) -> (b: bool)
    ensures
        b == spec_is_char(ch),
{
    let c = ch as u32;
    c == 0x9 || c == 0xA || c == 0xD || (0x20 <= c && c <= 0xD7FF) || (0xE000 <= c && c <= 0xFFFD)
        || (0x10000 <= c && c <= 0x10FFFF)
}

/// Whether the first character of `ch` is one that a document may hold.
pub fn is_char(ch: &String) -> (b: bool)
    requires
        ch@.len() > 0,
    ensures
        b == spec_is_char(ch@[0]),
{
    is_legal_char(ch.as_str().get_char(0))
}

/// Whether every character of `text` is one that a document may hold.
pub open spec fn all_legal(text: Seq<char>) -> bool {
    forall|i: int| 0 <= i < text.len() ==> spec_is_char(#[trigger] text[i])
}

/// Whether every character of `text` is one that a document may hold.
pub fn is_legal_text(text: &String) -> (b: bool)
    ensures
        b == all_legal(text@),
{
    let n = text.as_str().unicode_len();
    let mut i: usize = 0;
    while i < n
        invariant
            i <= n,
            n == text@.len(),
            forall|j: int| 0 <= j < i ==> spec_is_char(#[trigger] text@[j]),
        decreases n - i,
    {
        if !is_legal_char(text.as_str().get_char(i)) {
            return false;
        }
        i = i + 1;
    }
    true
}

/// The characters that may begin a name.
pub struct NameStartChar;

impl CharClass for NameStartChar {
    open spec fn spec_accepts(&self, c: char) -> bool {
        spec_is_namestartchar(c)
    }

    fn accepts(&self, c: char) -> (b: bool) {
        is_namestartchar(c)
    }
}

/// The characters that may stand in a name.
pub struct NameChar;

impl CharClass for NameChar {
    open spec fn spec_accepts(&self, c: char) -> bool {
        spec_is_namechar(c)
    }

    fn accepts(&self, c: char) -> (b: bool) {
        is_namechar(c)
    }
}

/// The characters that may begin a name without colons.
pub struct NcNameStartChar;

impl CharClass for NcNameStartChar {
    open spec fn spec_accepts(&self, c: char) -> bool {
        spec_is_ncnamestartchar(c)
    }

    fn accepts(&self, c: char) -> (b: bool) {
        is_ncnamestartchar(c)
    }
}

/// The characters that may stand in a name without colons.
pub struct NcNameChar;

impl CharClass for NcNameChar {
    open spec fn spec_accepts(&self, c: char) -> bool {
        spec_is_ncnamechar(c)
    }

    fn accepts(&self, c: char) -> (b: bool) {
        is_ncnamechar(c)
    }
}

/// The characters that are not in the set it holds.
pub struct NotIn(pub &'static str);

impl CharClass for NotIn {
    open spec fn spec_accepts(&self, c: char) -> bool {
        !self.0@.contains(c)
    }

    fn accepts(&self, c: char) -> (b: bool) {
        !crate::text::contains_char(self.0, c)
    }
}

/// Joins a text and the text that may follow it.
pub struct JoinOptional;

impl Mapper<(String, Option<String>)> for JoinOptional {
    type Dst = String;

    open spec fn spec_apply(&self, a: (Seq<char>, Option<Seq<char>>)) -> Seq<char> {
        match a.1 {
            Some(b) => a.0 + b,
            None => a.0,
        }
    }

    fn apply(&self, a: (String, Option<String>)) -> (b: String) {
        let (mut head, tail) = a;
        match tail {
            Some(t) => {
                head.append(t.as_str());
                head
            },
            None => head,
        }
    }
}

/// A name without colons: a character that may begin one, then any that may
/// stand in one.
#[verifier::opaque]
pub open spec fn spec_ncname(s: State) -> SpecResult<Seq<char>> {
    combinators::map::map(
        tuple2(take_while_m_n(1, 1, NcNameStartChar), opt(take_while(NcNameChar))),
        JoinOptional,
    ).spec_parse(s)
}

/// The parser of [`spec_ncname`].
pub struct NcName;

/// A parser of [`spec_ncname`].
#[verifier::allow_in_spec]
pub fn ncname() -> NcName
    returns
        NcName,
{
    NcName
}

impl Combinator for NcName {
    type Output = String;

    open spec fn spec_parse(&self, s: State) -> SpecResult<Seq<char>> {
        spec_ncname(s)
    }

    fn parse(&self, input: ParseInput) -> (r: ParseResult<String>) {
        proof {
            reveal(spec_ncname);
        }
        combinators::map::map(
            tuple2(take_while_m_n(1, 1, NcNameStartChar), opt(take_while(NcNameChar))),
            JoinOptional,
        ).parse(input)
    }
}

/// A name: a character that may begin one, then any that may stand in one.
#[verifier::opaque]
pub open spec fn spec_name(s: State) -> SpecResult<Seq<char>> {
    combinators::map::map(
        tuple2(take_while_m_n(1, 1, NameStartChar), opt(take_while(NameChar))),
        JoinOptional,
    ).spec_parse(s)
}

/// The parser of [`spec_name`].
pub struct Name;

/// A parser of [`spec_name`].
#[verifier::allow_in_spec]
pub fn name() -> Name
    returns
        Name,
{
    Name
}

impl Combinator for Name {
    type Output = String;

    open spec fn spec_parse(&self, s: State) -> SpecResult<Seq<char>> {
        spec_name(s)
    }

    fn parse(&self, input: ParseInput) -> (r: ParseResult<String>) {
        proof {
            reveal(spec_name);
        }
        combinators::map::map(
            tuple2(take_while_m_n(1, 1, NameStartChar), opt(take_while(NameChar))),
            JoinOptional,
        ).parse(input)
    }
}

} // verus!
