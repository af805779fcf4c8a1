//! Character data, character references and quoted strings.

use vstd::prelude::*;
use vstd::string::*;
use crate::repr::Repr;
use crate::text::is_scalar;
use crate::parser::common::{is_legal_char, spec_is_char, NotIn};
use crate::parser::combinators;
use crate::parser::combinators::alt::{alt2, alt3, alt4, alt6};
use crate::parser::combinators::delimited::delimited;
use crate::parser::combinators::expander::{genentityexpander, paramentityexpander};
use crate::parser::combinators::many::{many0, many1};
use crate::parser::combinators::map::{Concat, Mapper};
use crate::parser::combinators::none_of::none_of;
use crate::parser::combinators::tag::tag;
use crate::parser::combinators::take::{take_until, take_while, take_while_m_n, CharClass};
use crate::parser::combinators::validate::{validate, Predicate};
use crate::parser::combinators::value::value;
use crate::parser::combinators::{Combinator, ParseInput, ParseResult, SpecResult, State};

verus! {

/// The value of `c` as a digit: that of a decimal or hexadecimal digit, and
/// 0 for any other character.
pub open spec fn digit_value(c: char) -> nat {
    let v = c as u32;
    if 0x30 <= v <= 0x39 {
        (v - 0x30) as nat
    } else if 0x61 <= v <= 0x66 {
        (v - 0x61 + 10) as nat
    } else if 0x41 <= v <= 0x46 {
        (v - 0x41 + 10) as nat
    } else {
        0
    }
}

/// The number that the digits of `s` write in base `radix`.
pub open spec fn radix_value(s: Seq<char>, radix: nat) -> nat
    decreases s.len(),
{
    if s.len() == 0 {
        0
    } else {
        radix_value(s.drop_last(), radix) * radix + digit_value(s.last())
    }
}

/// The number that a text of at most 7 digits writes in base `radix`; a
/// longer text gives 0.
pub open spec fn number(s: Seq<char>, radix: nat) -> u32 {
    if s.len() <= 7 {
        radix_value(s, radix) as u32
    } else {
        0
    }
}

/// 16 to the power of `i`: more than any number of `i` digits.
spec fn bound(i: nat) -> nat
    decreases i,
{
    if i == 0 {
        1
    } else {
        16 * bound((i - 1) as nat)
    }
}

/// A number of at most 7 digits fits in 28 bits.
proof fn lemma_bound(i: nat)
    requires
        i <= 7,
    ensures
        bound(i) <= 0x10000000,
{
    reveal_with_fuel(bound, 9);
}

/// The value of `c` as a digit.
fn digit(c: char) -> (d: u64)
    ensures
        d == digit_value(c),
        d <= 15,
{
    let v = c as u32;
    if 0x30 <= v && v <= 0x39 {
        (v - 0x30) as u64
    } else if 0x61 <= v && v <= 0x66 {
        (v - 0x61 + 10) as u64
    } else if 0x41 <= v && v <= 0x46 {
        (v - 0x41 + 10) as u64
    } else {
        0
    }
}

/// The number that `s` writes in base `radix`.
fn read_number(s: &String, radix: u64) -> (r: u32)
    requires
        2 <= radix <= 16,
    ensures
        r == number(s@, radix as nat),
{
    let n = s.as_str().unicode_len();
    if n > 7 {
        return 0;
    }
    let mut value: u64 = 0;
    let mut i: usize = 0;
    while i < n
        invariant
            i <= n <= 7,
            n == s@.len(),
            2 <= radix <= 16,
            value == radix_value(s@.subrange(0, i as int), radix as nat),
            value < bound(i as nat),
        decreases n - i,
    {
        let d = digit(s.as_str().get_char(i));
        proof {
            lemma_bound(i as nat);
            lemma_bound((i + 1) as nat);
            let next = s@.subrange(0, i + 1);
            assert(next.drop_last() =~= s@.subrange(0, i as int));
            assert(value * radix + d < bound((i + 1) as nat)) by (nonlinear_arith)
                requires
                    value < bound(i as nat),
                    d <= 15,
                    radix <= 16,
                    bound((i + 1) as nat) == 16 * bound(i as nat),
            ;
        }
        value = value * radix + d;
        i = i + 1;
    }
    proof {
        lemma_bound(n as nat);
        assert(s@.subrange(0, n as int) =~= s@);
    }
    value as u32
}

/// The hexadecimal digits.
pub struct HexDigit;

impl CharClass for HexDigit {
    open spec fn spec_accepts(&self, c: char) -> bool {
        let v = c as u32;
        0x30 <= v <= 0x39 || 0x61 <= v <= 0x66 || 0x41 <= v <= 0x46
    }

    fn accepts(&self, c: char) -> (b: bool) {
        let v = c as u32;
        (0x30 <= v && v <= 0x39) || (0x61 <= v && v <= 0x66) || (0x41 <= v && v <= 0x46)
    }
}

/// The decimal digits.
pub struct DecimalDigit;

impl CharClass for DecimalDigit {
    open spec fn spec_accepts(&self, c: char) -> bool {
        let v = c as u32;
        0x30 <= v <= 0x39
    }

    fn accepts(&self, c: char) -> (b: bool) {
        let v = c as u32;
        0x30 <= v && v <= 0x39
    }
}

/// Reads a text as a hexadecimal number.
pub struct FromHex;

impl Mapper<String> for FromHex {
    type Dst = u32;

    open spec fn spec_apply(&self, a: Seq<char>) -> u32 {
        number(a, 16)
    }

    fn apply(&self, a: String) -> (b: u32) {
        read_number(&a, 16)
    }
}

/// Reads a text as a decimal number.
pub struct FromDecimal;

impl Mapper<String> for FromDecimal {
    type Dst = u32;

    open spec fn spec_apply(&self, a: Seq<char>) -> u32 {
        number(a, 10)
    }

    fn apply(&self, a: String) -> (b: u32) {
        read_number(&a, 10)
    }
}

/// From 1 to 6 hexadecimal digits, as the number they write.
#[verifier::opaque]
pub open spec fn spec_parse_hex(s: State) -> SpecResult<u32> {
    combinators::map::map(take_while_m_n(1, 6, HexDigit), FromHex).spec_parse(s)
}

/// The parser of [`spec_parse_hex`].
pub struct ParseHex;

/// A parser of [`spec_parse_hex`].
#[verifier::allow_in_spec]
pub fn parse_hex() -> ParseHex
    returns
        ParseHex,
{
    ParseHex
}

impl Combinator for ParseHex {
    type Output = u32;

    open spec fn spec_parse(&self, s: State) -> SpecResult<u32> {
        spec_parse_hex(s)
    }

    fn parse(&self, input: ParseInput) -> (r: ParseResult<u32>) {
        proof {
            reveal(spec_parse_hex);
        }
        combinators::map::map(take_while_m_n(1, 6, HexDigit), FromHex).parse(input)
    }
}

/// From 1 to 7 decimal digits, as the number they write: as many as the
/// largest character code has.
#[verifier::opaque]
pub open spec fn spec_parse_decimal(s: State) -> SpecResult<u32> {
    combinators::map::map(take_while_m_n(1, 7, DecimalDigit), FromDecimal).spec_parse(s)
}

/// The parser of [`spec_parse_decimal`].
pub struct ParseDecimal;

/// A parser of [`spec_parse_decimal`].
#[verifier::allow_in_spec]
pub fn parse_decimal() -> ParseDecimal
    returns
        ParseDecimal,
{
    ParseDecimal
}

impl Combinator for ParseDecimal {
    type Output = u32;

    open spec fn spec_parse(&self, s: State) -> SpecResult<u32> {
        spec_parse_decimal(s)
    }

    fn parse(&self, input: ParseInput) -> (r: ParseResult<u32>) {
        proof {
            reveal(spec_parse_decimal);
        }
        combinators::map::map(take_while_m_n(1, 7, DecimalDigit), FromDecimal).parse(input)
    }
}

/// Holds of the Unicode scalar values.
pub struct ScalarValue;

impl Predicate<u32> for ScalarValue {
    open spec fn spec_holds(&self, a: u32) -> bool {
        is_scalar(a)
    }

    fn holds(&self, a: &u32) -> (b: bool) {
        *a <= 0xD7FF || (0xE000 <= *a && *a <= 0x10FFFF)
    }
}

/// The text of one character, that whose code is the number; the empty text
/// where the number is no Unicode scalar value.
pub struct Decode;

impl Mapper<u32> for Decode {
    type Dst = String;

    open spec fn spec_apply(&self, a: u32) -> Seq<char> {
        if is_scalar(a) {
            seq![a as char]
        } else {
            Seq::empty()
        }
    }

    fn apply(&self, a: u32) -> (b: String) {
        let mut text = String::new();
        match char::from_u32(a) {
            Some(c) => {
                text.push(c);
                proof {
                    assert(text@ =~= seq![a as char]);
                }
            },
            None => {},
        }
        text
    }
}

/// A numeric character reference, `&#x` and hexadecimal digits or `&#` and
/// decimal digits, then `;`, as the character it names. A number that is no
/// Unicode scalar value is refused.
#[verifier::opaque]
pub open spec fn spec_chardata_unicode_codepoint(s: State) -> SpecResult<Seq<char>> {
    combinators::map::map(
        validate(
            alt2(
                delimited(tag("&#x"), parse_hex(), tag(";")),
                delimited(tag("&#"), parse_decimal(), tag(";")),
            ),
            ScalarValue,
        ),
        Decode,
    ).spec_parse(s)
}

/// The parser of [`spec_chardata_unicode_codepoint`].
pub struct ChardataUnicodeCodepoint;

/// A parser of [`spec_chardata_unicode_codepoint`].
#[verifier::allow_in_spec]
pub fn chardata_unicode_codepoint() -> ChardataUnicodeCodepoint
    returns
        ChardataUnicodeCodepoint,
{
    ChardataUnicodeCodepoint
}

impl Combinator for ChardataUnicodeCodepoint {
    type Output = String;

    open spec fn spec_parse(&self, s: State) -> SpecResult<Seq<char>> {
        spec_chardata_unicode_codepoint(s)
    }

    fn parse(&self, input: ParseInput) -> (r: ParseResult<String>) {
        proof {
            reveal(spec_chardata_unicode_codepoint);
        }
        combinators::map::map(
            validate(
                alt2(
                    delimited(tag("&#x"), parse_hex(), tag(";")),
                    delimited(tag("&#"), parse_decimal(), tag(";")),
                ),
                ScalarValue,
            ),
            Decode,
        ).parse(input)
    }
}

/// A character reference or one of the five predefined escapes, as the
/// character it stands for.
#[verifier::opaque]
pub open spec fn spec_chardata_escapes(s: State) -> SpecResult<Seq<char>> {
    alt6(
        chardata_unicode_codepoint(),
        value(tag("&gt;"), ">"),
        value(tag("&lt;"), "<"),
        value(tag("&amp;"), "&"),
        value(tag("&quot;"), "\""),
        value(tag("&apos;"), "\'"),
    ).spec_parse(s)
}

/// The parser of [`spec_chardata_escapes`].
pub struct ChardataEscapes;

/// A parser of [`spec_chardata_escapes`].
#[verifier::allow_in_spec]
pub fn chardata_escapes() -> ChardataEscapes
    returns
        ChardataEscapes,
{
    ChardataEscapes
}

impl Combinator for ChardataEscapes {
    type Output = String;

    open spec fn spec_parse(&self, s: State) -> SpecResult<Seq<char>> {
        spec_chardata_escapes(s)
    }

    fn parse(&self, input: ParseInput) -> (r: ParseResult<String>) {
        proof {
            reveal(spec_chardata_escapes);
        }
        alt6(
            chardata_unicode_codepoint(),
            value(tag("&gt;"), ">"),
            value(tag("&lt;"), "<"),
            value(tag("&amp;"), "&"),
            value(tag("&quot;"), "\""),
            value(tag("&apos;"), "\'"),
        ).parse(input)
    }
}

/// A CDATA section, as the text between its brackets. Nothing in it is expanded.
#[verifier::opaque]
pub open spec fn spec_chardata_cdata(s: State) -> SpecResult<Seq<char>> {
    delimited(tag("<![CDATA["), take_until("]]>"), tag("]]>")).spec_parse(s)
}

/// The parser of [`spec_chardata_cdata`].
pub struct ChardataCdata;

/// A parser of [`spec_chardata_cdata`].
#[verifier::allow_in_spec]
pub fn chardata_cdata() -> ChardataCdata
    returns
        ChardataCdata,
{
    ChardataCdata
}

impl Combinator for ChardataCdata {
    type Output = String;

    open spec fn spec_parse(&self, s: State) -> SpecResult<Seq<char>> {
        spec_chardata_cdata(s)
    }

    fn parse(&self, input: ParseInput) -> (r: ParseResult<String>) {
        proof {
            reveal(spec_chardata_cdata);
        }
        delimited(tag("<![CDATA["), take_until("]]>"), tag("]]>")).parse(input)
    }
}

/// Whether `]]>` stands in `parts` at `i`, one character to a part.
pub open spec fn closes_at(parts: Seq<Seq<char>>, i: int) -> bool {
    &&& 0 <= i
    &&& i + 2 < parts.len()
    &&& parts[i] == seq![']']
    &&& parts[i + 1] == seq![']']
    &&& parts[i + 2] == seq!['>']
}

/// Whether `part` begins with a character that a document may hold.
pub open spec fn legal_part(part: Seq<char>) -> bool {
    part.len() > 0 && spec_is_char(part[0])
}

/// Whether `parts` may be character data: each part begins with a legal
/// character, and `]]>` stands nowhere in them.
pub open spec fn legal_chardata(parts: Seq<Seq<char>>) -> bool {
    &&& forall|i: int| 0 <= i < parts.len() ==> legal_part(#[trigger] parts[i])
    &&& forall|i: int| !closes_at(parts, i)
}

fn is_one(part: &String, c: char) -> (b: bool)
    ensures
        b == (part@ == seq![c]),
{
    let b = part.as_str().unicode_len() == 1 && part.as_str().get_char(0) == c;
    proof {
        if b {
            assert(part@ =~= seq![c]);
        }
    }
    b
}

/// Holds of the parts that may be character data.
pub struct LegalChardata;

impl Predicate<Vec<String>> for LegalChardata {
    open spec fn spec_holds(&self, a: Seq<Seq<char>>) -> bool {
        legal_chardata(a)
    }

    fn holds(&self, a: &Vec<String>) -> (b: bool) {
        let ghost parts = a.repr();
        proof {
            assert(parts =~= Seq::new(a@.len(), |i: int| a@[i]@));
        }
        let n = a.len();
        let mut i: usize = 0;
        while i < n
            invariant
                i <= n,
                n == a@.len(),
                parts == a.repr(),
                parts.len() == n,
                forall|j: int| 0 <= j < n ==> parts[j] == a@[j]@,
                forall|j: int| 0 <= j < i ==> legal_part(#[trigger] parts[j]),
                forall|j: int| 0 <= j < i ==> !closes_at(parts, j),
            decreases n - i,
        {
            if a[i].as_str().unicode_len() == 0 {
                proof {
                    assert(!legal_part(parts[i as int]));
                }
                return false;
            }
            if !is_legal_char(a[i].as_str().get_char(0)) {
                proof {
                    assert(!legal_part(parts[i as int]));
                }
                return false;
            }
            if n - i > 2 && is_one(&a[i], ']') && is_one(&a[i + 1], ']') && is_one(&a[i + 2], '>') {
                proof {
                    assert(closes_at(parts, i as int));
                }
                return false;
            }
            i = i + 1;
        }
        true
    }
}

/// A run of characters other than `<` and `&`, all of them legal, in which
/// `]]>` does not occur.
#[verifier::opaque]
pub open spec fn spec_chardata_literal(s: State) -> SpecResult<Seq<char>> {
    combinators::map::map(validate(many1(none_of("<&")), LegalChardata), Concat).spec_parse(s)
}

/// The parser of [`spec_chardata_literal`].
pub struct ChardataLiteral;

/// A parser of [`spec_chardata_literal`].
#[verifier::allow_in_spec]
pub fn chardata_literal() -> ChardataLiteral
    returns
        ChardataLiteral,
{
    ChardataLiteral
}

impl Combinator for ChardataLiteral {
    type Output = String;

    open spec fn spec_parse(&self, s: State) -> SpecResult<Seq<char>> {
        spec_chardata_literal(s)
    }

    fn parse(&self, input: ParseInput) -> (r: ParseResult<String>) {
        proof {
            reveal(spec_chardata_literal);
        }
        combinators::map::map(validate(many1(none_of("<&")), LegalChardata), Concat).parse(input)
    }
}

/// Character data: CDATA sections, escapes and literal runs, one after
/// another and at least one of them, as one text.
#[verifier::opaque]
pub open spec fn spec_chardata(s: State) -> SpecResult<Seq<char>> {
    combinators::map::map(
        many1(alt3(chardata_cdata(), chardata_escapes(), chardata_literal())),
        Concat,
    ).spec_parse(s)
}

/// The parser of [`spec_chardata`].
pub struct Chardata;

/// A parser of [`spec_chardata`].
#[verifier::allow_in_spec]
pub fn chardata() -> Chardata
    returns
        Chardata,
{
    Chardata
}

impl Combinator for Chardata {
    type Output = String;

    open spec fn spec_parse(&self, s: State) -> SpecResult<Seq<char>> {
        spec_chardata(s)
    }

    fn parse(&self, input: ParseInput) -> (r: ParseResult<String>) {
        proof {
            reveal(spec_chardata);
        }
        combinators::map::map(
            many1(alt3(chardata_cdata(), chardata_escapes(), chardata_literal())),
            Concat,
        ).parse(input)
    }
}

/// A string between single quotes.
#[verifier::opaque]
pub open spec fn spec_string_single(s: State) -> SpecResult<Seq<char>> {
    delimited(
        tag("\'"),
        combinators::map::map(
            many0(
                alt3(
                    chardata_escapes(),
                    chardata_unicode_codepoint(),
                    take_while(NotIn("&\'<")),
                ),
            ),
            Concat,
        ),
        tag("\'"),
    ).spec_parse(s)
}

/// The parser of [`spec_string_single`].
pub struct StringSingle;

/// A parser of [`spec_string_single`].
#[verifier::allow_in_spec]
pub fn string_single() -> StringSingle
    returns
        StringSingle,
{
    StringSingle
}

impl Combinator for StringSingle {
    type Output = String;

    open spec fn spec_parse(&self, s: State) -> SpecResult<Seq<char>> {
        spec_string_single(s)
    }

    fn parse(&self, input: ParseInput) -> (r: ParseResult<String>) {
        proof {
            reveal(spec_string_single);
        }
        delimited(
            tag("\'"),
            combinators::map::map(
                many0(
                    alt3(
                        chardata_escapes(),
                        chardata_unicode_codepoint(),
                        take_while(NotIn("&\'<")),
                    ),
                ),
                Concat,
            ),
            tag("\'"),
        ).parse(input)
    }
}

/// A string between double quotes.
#[verifier::opaque]
pub open spec fn spec_string_double(s: State) -> SpecResult<Seq<char>> {
    delimited(
        tag("\""),
        combinators::map::map(
            many0(alt2(chardata_escapes(), take_while(NotIn("&\"<")))),
            Concat,
        ),
        tag("\""),
    ).spec_parse(s)
}

/// The parser of [`spec_string_double`].
pub struct StringDouble;

/// A parser of [`spec_string_double`].
#[verifier::allow_in_spec]
pub fn string_double() -> StringDouble
    returns
        StringDouble,
{
    StringDouble
}

impl Combinator for StringDouble {
    type Output = String;

    open spec fn spec_parse(&self, s: State) -> SpecResult<Seq<char>> {
        spec_string_double(s)
    }

    fn parse(&self, input: ParseInput) -> (r: ParseResult<String>) {
        proof {
            reveal(spec_string_double);
        }
        delimited(
            tag("\""),
            combinators::map::map(
                many0(alt2(chardata_escapes(), take_while(NotIn("&\"<")))),
                Concat,
            ),
            tag("\""),
        ).parse(input)
    }
}

/// A string between single or double quotes.
#[verifier::opaque]
pub open spec fn spec_delimited_string(s: State) -> SpecResult<Seq<char>> {
    alt2(string_single(), string_double()).spec_parse(s)
}

/// The parser of [`spec_delimited_string`].
pub struct DelimitedString;

/// A parser of [`spec_delimited_string`].
#[verifier::allow_in_spec]
pub fn delimited_string() -> DelimitedString
    returns
        DelimitedString,
{
    DelimitedString
}

impl Combinator for DelimitedString {
    type Output = String;

    open spec fn spec_parse(&self, s: State) -> SpecResult<Seq<char>> {
        spec_delimited_string(s)
    }

    fn parse(&self, input: ParseInput) -> (r: ParseResult<String>) {
        proof {
            reveal(spec_delimited_string);
        }
        alt2(string_single(), string_double()).parse(input)
    }
}

/// An attribute value: between single or double quotes, escapes and
/// character references, runs of ordinary characters, and references to
/// entities, which are expanded. A reference to an entity that is not
/// declared ends the value, so that the value is refused. A percent sign is
/// an ordinary character, so that a parameter entity is not recognised in a
/// value: its expander is tried only where no run of ordinary characters can
/// begin.
#[verifier::opaque]
pub open spec fn spec_attvalue(s: State) -> SpecResult<Seq<char>> {
    alt2(
        delimited(
            tag("\'"),
            combinators::map::map(
                many0(
                    alt4(
                        chardata_escapes(),
                        take_while(NotIn("&\'<")),
                        genentityexpander(),
                        paramentityexpander(),
                    ),
                ),
                Concat,
            ),
            tag("\'"),
        ),
        delimited(
            tag("\""),
            combinators::map::map(
                many0(
                    alt4(
                        chardata_escapes(),
                        take_while(NotIn("&\"<")),
                        genentityexpander(),
                        paramentityexpander(),
                    ),
                ),
                Concat,
            ),
            tag("\""),
        ),
    ).spec_parse(s)
}

/// The parser of [`spec_attvalue`].
pub struct AttValue;

/// A parser of [`spec_attvalue`].
#[verifier::allow_in_spec]
pub fn attvalue() -> AttValue
    returns
        AttValue,
{
    AttValue
}

impl Combinator for AttValue {
    type Output = String;

    open spec fn spec_parse(&self, s: State) -> SpecResult<Seq<char>> {
        spec_attvalue(s)
    }

    fn parse(&self, input: ParseInput) -> (r: ParseResult<String>) {
        proof {
            reveal(spec_attvalue);
        }
        alt2(
            delimited(
                tag("\'"),
                combinators::map::map(
                    many0(
                        alt4(
                            chardata_escapes(),
                            take_while(NotIn("&\'<")),
                            genentityexpander(),
                            paramentityexpander(),
                        ),
                    ),
                    Concat,
                ),
                tag("\'"),
            ),
            delimited(
                tag("\""),
                combinators::map::map(
                    many0(
                        alt4(
                            chardata_escapes(),
                            take_while(NotIn("&\"<")),
                            genentityexpander(),
                            paramentityexpander(),
                        ),
                    ),
                    Concat,
                ),
                tag("\""),
            ),
        ).parse(input)
    }
}

} // verus!
