use xrust::parser::chardata::{
    attvalue, chardata, chardata_cdata, chardata_escapes, chardata_literal,
    chardata_unicode_codepoint, delimited_string, parse_decimal, parse_hex, string_double,
    string_single, DecimalDigit, HexDigit, LegalChardata, ScalarValue,
};
use xrust::parser::combinators::alt::{alt2, alt3, alt4, alt5, alt6, alt7};
use xrust::parser::combinators::delimited::delimited;
use xrust::parser::combinators::expander::{genentityexpander, paramentityexpander};
use xrust::parser::combinators::many::{many0, many1, moved_on};
use xrust::parser::combinators;
use xrust::parser::combinators::map::{Blank, Concat, Discard, Fifth, First, Second};
use xrust::parser::combinators::none_of::none_of;
use xrust::parser::combinators::opt::opt;
use xrust::parser::combinators::tag::tag;
use xrust::parser::combinators::take::{take_until, take_while, take_while_m_n};
use xrust::parser::combinators::tuple::{
    tuple10, tuple2, tuple3, tuple4, tuple5, tuple6, tuple7, tuple8, tuple9,
};
use xrust::parser::combinators::validate::{validate, Predicate};
use xrust::parser::combinators::value::value;
use xrust::parser::combinators::whitespace::{whitespace0, whitespace1};
use xrust::parser::combinators::{clone_input, Combinator, ParseInput};
use xrust::parser::common::{name, ncname, NameChar, NotIn};
use xrust::parser::xml::DTDDecl;
use xrust::parser::ParserConfig;
use xrust::item::{Item, Value};
use xrust::qname::QualifiedName;

fn at(text: &str, pos: usize) -> ParseInput {
    (text.to_string(), pos, ParserConfig::new())
}

/// The position reached and what was found, or the position of the failure.
fn run<P: Combinator>(p: P, text: &str, pos: usize) -> Result<(usize, P::Output), usize> {
    match p.parse(at(text, pos)) {
        Ok((t, i, c, v)) => {
            assert_eq!(t, text);
            assert_eq!(c, ParserConfig::new());
            Ok((i, v))
        }
        Err(e) => Err(e),
    }
}

fn with_entities(general: &[(&str, &str)], param: &[(&str, &str)]) -> ParserConfig {
    let mut c = ParserConfig::new();
    for (n, v) in general {
        let q = QualifiedName::new(None, None, n.to_string());
        c = c.declare(n.to_string(), DTDDecl::GeneralEntity(q, v.to_string()));
    }
    for (n, v) in param {
        let q = QualifiedName::new(None, None, n.to_string());
        c = c.declare(n.to_string(), DTDDecl::ParamEntity(q, v.to_string()));
    }
    c
}

#[test]
fn parser_tag_test1() {
    let testdoc = "<doc>".to_string();
    let parse_doc = tag("<");
    assert_eq!(
        Ok(("<doc>".to_string(), 1, ParserConfig::new(), ())),
        parse_doc.parse((testdoc, 0, ParserConfig::new()))
    );
}

#[test]
fn parser_tag_test2() {
    let testdoc = "<doc>".to_string();
    let parse_doc = tag(">");
    assert_eq!(Err(0), parse_doc.parse((testdoc, 0, ParserConfig::new())));
}

#[test]
fn tag_matches_a_literal_at_the_cursor() {
    assert_eq!(run(tag("<doc"), "<doc>", 0), Ok((4, ())));
    assert_eq!(run(tag("doc"), "<doc>", 1), Ok((4, ())));
    assert_eq!(run(tag("doc>"), "<doc>", 1), Ok((5, ())));
    assert_eq!(run(tag("doc>x"), "<doc>", 1), Err(1));
    assert_eq!(run(tag("dox"), "<doc>", 1), Err(1));
    assert_eq!(run(tag(">"), "<doc>", 5), Err(5));
    assert_eq!(run(tag(""), "<doc>", 5), Ok((5, ())));
    assert_eq!(run(tag(""), "", 0), Ok((0, ())));
    // positions count characters
    assert_eq!(run(tag("é>"), "<é>", 1), Ok((3, ())));
}

#[test]
fn alternatives_are_tried_in_order() {
    assert_eq!(run(alt2(tag("a"), tag("ab")), "abc", 0), Ok((1, ())));
    assert_eq!(run(alt2(tag("ab"), tag("a")), "abc", 0), Ok((2, ())));
    assert_eq!(run(alt2(tag("x"), tag("a")), "abc", 0), Ok((1, ())));
    assert_eq!(run(alt3(tag("x"), tag("y"), tag("a")), "abc", 0), Ok((1, ())));
    assert_eq!(run(alt4(tag("x"), tag("y"), tag("z"), tag("a")), "abc", 0), Ok((1, ())));
    assert_eq!(run(alt5(tag("x"), tag("y"), tag("z"), tag("w"), tag("a")), "abc", 0), Ok((1, ())));
    assert_eq!(
        run(alt6(tag("x"), tag("y"), tag("z"), tag("w"), tag("v"), tag("a")), "abc", 0),
        Ok((1, ()))
    );
    assert_eq!(
        run(alt7(tag("x"), tag("y"), tag("z"), tag("w"), tag("v"), tag("u"), tag("abc")), "abc", 0),
        Ok((3, ()))
    );
    assert_eq!(run(alt3(tag("x"), tag("b"), tag("y")), "abc", 1), Ok((2, ())));
}

#[test]
fn a_choice_fails_as_its_last_alternative() {
    // the first alternative fails at 1, the last at 0
    let first = tuple2(tag("a"), tag("x"));
    assert_eq!(run(tuple2(tag("a"), tag("x")), "abc", 0), Err(1));
    assert_eq!(run(alt2(first, tuple2(tag("x"), tag("y"))), "abc", 0), Err(0));
    assert_eq!(
        run(alt2(tuple2(tag("x"), tag("y")), tuple2(tag("a"), tag("x"))), "abc", 0),
        Err(1)
    );
    assert_eq!(run(alt6(tag("x"), tag("y"), tag("z"), tag("w"), tag("v"), tag("u")), "abc", 2), Err(2));
}

#[test]
fn a_failed_alternative_leaves_no_trace() {
    // the first alternative expands an entity and then fails; the second
    // sees the text and the configuration as they were
    let c = with_entities(&[("ee", "long replacement")], &[]);
    let p = alt2(
        combinators::map::map(tuple2(genentityexpander(), tag("nothing")), Blank),
        combinators::map::map(tag("&ee;"), Blank),
    );
    match p.parse(("&ee;x".to_string(), 0, c)) {
        Ok((text, pos, config, _)) => {
            assert_eq!(text, "&ee;x");
            assert_eq!(pos, 4);
            assert_eq!(config, with_entities(&[("ee", "long replacement")], &[]));
            assert_eq!(config.depth_left(), 4);
            assert_eq!(config.entity_index(), 0);
        }
        Err(e) => panic!("failed at {}", e),
    }
    // so does opt
    let c = with_entities(&[("ee", "r")], &[]);
    let p = opt(tuple2(tuple2(tag("a"), genentityexpander()), tag("nothing")));
    match p.parse(("a&ee;x".to_string(), 0, c)) {
        Ok((text, pos, config, found)) => {
            assert_eq!(text, "a&ee;x");
            assert_eq!(pos, 0);
            assert_eq!(config.entity_index(), 0);
            assert!(found.is_none());
        }
        Err(e) => panic!("failed at {}", e),
    }
}

#[test]
fn sequences_thread_the_position() {
    assert_eq!(run(tuple2(tag("a"), tag("b")), "abcdefghijk", 0), Ok((2, ((), ()))));
    assert_eq!(
        run(tuple3(tag("a"), take_until("d"), tag("d")), "abcdefghijk", 0),
        Ok((4, ((), "bc".to_string(), ())))
    );
    assert_eq!(
        run(tuple4(tag("a"), tag("b"), tag("c"), take_until("f")), "abcdefghijk", 0),
        Ok((5, ((), (), (), "de".to_string())))
    );
    assert_eq!(
        run(tuple5(tag("a"), tag("b"), tag("c"), tag("d"), tag("e")), "abcdefghijk", 0),
        Ok((5, ((), (), (), (), ())))
    );
    assert_eq!(
        run(
            tuple6(tag("a"), none_of("x"), tag("c"), none_of("x"), tag("e"), none_of("x")),
            "abcdefghijk",
            0
        ),
        Ok((6, ((), "b".to_string(), (), "d".to_string(), (), "f".to_string())))
    );
    assert_eq!(
        run(
            tuple7(tag("a"), tag("b"), tag("c"), tag("d"), tag("e"), tag("f"), none_of("x")),
            "abcdefghijk",
            0
        ),
        Ok((7, ((), (), (), (), (), (), "g".to_string())))
    );
    assert_eq!(
        run(
            tuple8(
                tag("a"),
                tag("b"),
                tag("c"),
                tag("d"),
                tag("e"),
                tag("f"),
                tag("g"),
                none_of("x")
            ),
            "abcdefghijk",
            0
        ),
        Ok((8, ((), (), (), (), (), (), (), "h".to_string())))
    );
    assert_eq!(
        run(
            tuple9(
                tag("a"),
                tag("b"),
                tag("c"),
                tag("d"),
                tag("e"),
                tag("f"),
                tag("g"),
                tag("h"),
                none_of("x")
            ),
            "abcdefghijk",
            0
        ),
        Ok((9, ((), (), (), (), (), (), (), (), "i".to_string())))
    );
    assert_eq!(
        run(
            tuple10(
                none_of("x"),
                tag("b"),
                tag("c"),
                tag("d"),
                tag("e"),
                tag("f"),
                tag("g"),
                tag("h"),
                tag("i"),
                none_of("x")
            ),
            "abcdefghijk",
            0
        ),
        Ok((10, ("a".to_string(), (), (), (), (), (), (), (), (), "j".to_string())))
    );
}

#[test]
fn a_sequence_fails_where_its_first_failing_parser_fails() {
    assert_eq!(run(tuple2(tag("x"), tag("b")), "abcdefghijk", 0), Err(0));
    assert_eq!(run(tuple2(tag("a"), tag("x")), "abcdefghijk", 0), Err(1));
    assert_eq!(run(tuple3(tag("a"), tag("b"), tag("x")), "abcdefghijk", 0), Err(2));
    assert_eq!(run(tuple4(tag("a"), tag("b"), tag("c"), tag("x")), "abcdefghijk", 0), Err(3));
    assert_eq!(
        run(tuple5(tag("a"), tag("b"), tag("c"), tag("d"), tag("x")), "abcdefghijk", 0),
        Err(4)
    );
    assert_eq!(
        run(tuple6(tag("a"), tag("b"), tag("c"), tag("d"), tag("e"), tag("x")), "abcdefghijk", 0),
        Err(5)
    );
    assert_eq!(
        run(
            tuple7(tag("a"), tag("b"), tag("c"), tag("d"), tag("e"), tag("f"), tag("x")),
            "abcdefghijk",
            0
        ),
        Err(6)
    );
    assert_eq!(
        run(
            tuple8(tag("a"), tag("b"), tag("c"), tag("d"), tag("e"), tag("f"), tag("g"), tag("x")),
            "abcdefghijk",
            0
        ),
        Err(7)
    );
    assert_eq!(
        run(
            tuple9(
                tag("a"),
                tag("b"),
                tag("c"),
                tag("d"),
                tag("e"),
                tag("f"),
                tag("g"),
                tag("h"),
                tag("x")
            ),
            "abcdefghijk",
            0
        ),
        Err(8)
    );
    assert_eq!(
        run(
            tuple10(
                tag("a"),
                tag("b"),
                tag("c"),
                tag("d"),
                tag("e"),
                tag("f"),
                tag("g"),
                tag("h"),
                tag("i"),
                tag("x")
            ),
            "abcdefghijk",
            0
        ),
        Err(9)
    );
    assert_eq!(
        run(
            tuple10(
                tag("a"),
                tag("b"),
                tag("c"),
                tag("x"),
                tag("e"),
                tag("f"),
                tag("g"),
                tag("h"),
                tag("i"),
                tag("j")
            ),
            "abcdefghijk",
            0
        ),
        Err(3)
    );
}

#[test]
fn repetition() {
    assert_eq!(run(many0(tag("ab")), "ababax", 0), Ok((4, vec![(), ()])));
    assert_eq!(run(many0(tag("ab")), "xab", 0), Ok((0, vec![])));
    assert_eq!(run(many0(tag("ab")), "", 0), Ok((0, vec![])));
    assert_eq!(run(many1(tag("ab")), "ababax", 0), Ok((4, vec![(), ()])));
    assert_eq!(run(many1(tag("ab")), "abx", 0), Ok((2, vec![()])));
    assert_eq!(run(many1(tag("ab")), "xab", 0), Err(0));
    // many1 fails where it began, wherever its first step gave up
    assert_eq!(run(many1(tuple2(tag("a"), tag("b"))), "ax", 0), Err(0));
    assert_eq!(run(many1(tuple2(tag("a"), tag("b"))), "xax", 1), Err(1));
    assert_eq!(
        run(many0(none_of("<")), "ab<c", 0),
        Ok((2, vec!["a".to_string(), "b".to_string()]))
    );
}

#[test]
fn repetition_ends_where_a_step_does_not_move_on() {
    // a step that succeeds without consuming ends the repetition
    assert_eq!(run(many0(tag("")), "abc", 1), Ok((1, vec![])));
    assert_eq!(run(many0(opt(tag("a"))), "aab", 0), Ok((2, vec![Some(()), Some(())])));
    assert_eq!(run(many0(many0(tag("a"))), "aab", 0), Ok((2, vec![vec![(), ()]])));
    // the first step of many1 is kept even if it consumed nothing
    assert_eq!(run(many1(tag("")), "abc", 1), Ok((1, vec![()])));
}

#[test]
fn moving_on_compares_states() {
    let before = at("abc", 1);
    assert!(moved_on(&before, &"abc".to_string(), 2, &ParserConfig::new()));
    assert!(!moved_on(&before, &"abc".to_string(), 1, &ParserConfig::new()));
    assert!(!moved_on(&before, &"abc".to_string(), 0, &ParserConfig::new()));
    // a longer text at the same position is a step back
    assert!(!moved_on(&before, &"abcd".to_string(), 1, &ParserConfig::new()));
    assert!(moved_on(&before, &"ab".to_string(), 1, &ParserConfig::new()));
    // an expansion counts before the text does
    let declared = || with_entities(&[("ee", "12345")], &[]);
    let (_, _, counted, _) =
        genentityexpander().parse(("&ee;".to_string(), 0, declared())).expect("no expansion");
    assert_eq!(counted.depth_left(), 3);
    assert_eq!(counted.entity_index(), 0);
    let before = ("abc".to_string(), 1, declared());
    assert!(moved_on(&before, &"abcdefgh".to_string(), 1, &counted));
    let (_, _, moved, _) =
        genentityexpander().parse(("a&ee;".to_string(), 1, declared())).expect("no expansion");
    assert_eq!(moved.depth_left(), 4);
    assert_eq!(moved.entity_index(), 6);
    assert!(moved_on(&before, &"abcdefgh".to_string(), 1, &moved));
    let after = ("abc".to_string(), 1, moved);
    assert!(!moved_on(&after, &"ab".to_string(), 2, &declared()));
}

#[test]
fn a_position_beyond_the_text() {
    // nothing is there to be taken
    assert_eq!(run(tag("a"), "abc", 5), Err(5));
    assert_eq!(run(tag(""), "abc", 4), Err(4));
    assert_eq!(run(take_until("c"), "abc", 4), Err(4));
    assert_eq!(run(take_until(""), "abc", 4), Err(4));
    assert_eq!(run(take_while(NameChar), "abc", 4), Err(4));
    assert_eq!(run(take_while_m_n(1, 2, NameChar), "abc", 4), Err(4));
    assert_eq!(run(none_of("x"), "abc", 4), Err(4));
    assert_eq!(run(many1(tag("a")), "abc", 7), Err(7));
    assert_eq!(run(whitespace1(), "abc", 4), Err(4));
    assert_eq!(run(genentityexpander(), "&a;", 4), Err(4));
    // what may find nothing, finds nothing
    assert_eq!(run(take_while_m_n(0, 2, NameChar), "abc", 4), Ok((4, "".to_string())));
    assert_eq!(run(opt(tag("a")), "abc", 5), Ok((5, None)));
    assert_eq!(run(many0(tag("a")), "abc", 5), Ok((5, vec![])));
    assert_eq!(run(whitespace0(), "abc", 4), Ok((4, ())));
    assert!(!moved_on(&at("abc", 4), &"abc".to_string(), 5, &ParserConfig::new()));
    assert!(!moved_on(&at("abc", 3), &"abc".to_string(), 5, &ParserConfig::new()));
    assert!(moved_on(&at("abc", 2), &"abc".to_string(), 5, &ParserConfig::new()));
}

#[test]
fn optional() {
    assert_eq!(run(opt(tag("a")), "abc", 0), Ok((1, Some(()))));
    assert_eq!(run(opt(tag("x")), "abc", 0), Ok((0, None)));
    assert_eq!(run(opt(tuple2(tag("a"), tag("x"))), "abc", 0), Ok((0, None)));
    assert_eq!(run(opt(tag("a")), "abc", 3), Ok((3, None)));
}

#[test]
fn delimited_keeps_the_middle() {
    let p = delimited(tag("'"), take_until("'"), tag("'"));
    assert_eq!(run(p, "'abc' ", 0), Ok((5, "abc".to_string())));
    assert_eq!(run(delimited(tag("'"), take_until("'"), tag("'")), "''", 0), Ok((2, "".to_string())));
    assert_eq!(run(delimited(tag("'"), take_until("'"), tag("'")), "x'abc'", 0), Err(0));
    assert_eq!(run(delimited(tag("'"), take_until("'"), tag("'")), "'abc", 0), Err(1));
    assert_eq!(run(delimited(tag("("), tag("a"), tag(")")), "(a]", 0), Err(2));
}

#[test]
fn mapping() {
    assert_eq!(run(combinators::map::map(take_until(";"), Discard), "ab;", 0), Ok((2, ())));
    assert_eq!(run(combinators::map::map(take_until(";"), Blank), "ab;", 0), Ok((2, "".to_string())));
    assert_eq!(run(combinators::map::map(many0(none_of(";")), Concat), "ab;", 0), Ok((2, "ab".to_string())));
    assert_eq!(run(combinators::map::map(many0(none_of(";")), Concat), ";", 0), Ok((0, "".to_string())));
    assert_eq!(
        run(combinators::map::map(tuple2(take_until("b"), take_until("c")), First), "abc", 0),
        Ok((2, "a".to_string()))
    );
    assert_eq!(
        run(combinators::map::map(tuple2(take_until("b"), take_until("c")), Second), "abc", 0),
        Ok((2, "b".to_string()))
    );
    assert_eq!(
        run(
            combinators::map::map(tuple5(tag("a"), tag("b"), tag("c"), tag("d"), take_until("f")), Fifth),
            "abcdef",
            0
        ),
        Ok((5, "e".to_string()))
    );
    assert_eq!(run(combinators::map::map(tag("x"), Blank), "ab;", 0), Err(0));
}

#[test]
fn validation_fails_where_the_parser_started() {
    assert_eq!(run(validate(parse_hex(), ScalarValue), "d7ff;", 0), Ok((4, 0xD7FF)));
    assert_eq!(run(validate(parse_hex(), ScalarValue), "xd800;", 1), Err(1));
    assert_eq!(run(validate(parse_hex(), ScalarValue), "e000;", 0), Ok((4, 0xE000)));
    assert_eq!(run(validate(parse_hex(), ScalarValue), "10ffff;", 0), Ok((6, 0x10FFFF)));
    assert_eq!(run(validate(parse_hex(), ScalarValue), "110000;", 0), Err(0));
    assert_eq!(run(validate(parse_hex(), ScalarValue), "xx", 0), Err(0));
    assert!(LegalChardata.holds(&vec!["a".to_string(), "]".to_string(), "]".to_string()]));
    assert!(!LegalChardata.holds(&vec![
        "a".to_string(),
        "]".to_string(),
        "]".to_string(),
        ">".to_string()
    ]));
    assert!(!LegalChardata.holds(&vec!["a".to_string(), "".to_string()]));
    assert!(!LegalChardata.holds(&vec!["\u{8}".to_string()]));
    assert!(LegalChardata.holds(&vec![]));
}

#[test]
fn value_gives_a_value_of_any_kind() {
    assert_eq!(run(value(tag("a"), 7u32), "ab", 0), Ok((1, 7)));
    assert_eq!(run(value(tag("a"), 'c'), "ab", 0), Ok((1, 'c')));
    assert_eq!(run(value(tag("a"), true), "ab", 0), Ok((1, true)));
    assert_eq!(run(value(tag("a"), ()), "ab", 0), Ok((1, ())));
    assert_eq!(run(value(tag("a"), "owned".to_string()), "ab", 0), Ok((1, "owned".to_string())));
    let q = QualifiedName::new(None, Some("p".to_string()), "n".to_string());
    assert_eq!(run(value(tag("a"), q.clone()), "ab", 0), Ok((1, q)));
    assert_eq!(
        run(value(tag("a"), Value::Integer(3)), "ab", 0),
        Ok((1, Value::Integer(3)))
    );
    assert_eq!(
        run(value(tag("a"), Item::Value(Value::Boolean(false))), "ab", 0),
        Ok((1, Item::Value(Value::Boolean(false))))
    );
    // it is given again for every success
    assert_eq!(run(many0(value(tag("a"), 1u32)), "aaab", 0), Ok((3, vec![1, 1, 1])));
    assert_eq!(run(value(tag("a"), 7u32), "xb", 0), Err(0));
}

#[test]
fn value_replaces_the_result() {
    assert_eq!(run(value(tag("&lt;"), "<"), "&lt;x", 0), Ok((4, "<".to_string())));
    assert_eq!(run(value(tag("&lt;"), "<"), "&gt;x", 0), Err(0));
    assert_eq!(run(value(take_until("x"), "EMPTY"), "abx", 0), Ok((2, "EMPTY".to_string())));
}

#[test]
fn take_until_stops_before_the_literal() {
    assert_eq!(run(take_until("-->"), "a-b-->c", 0), Ok((3, "a-b".to_string())));
    assert_eq!(run(take_until("-->"), "a-b-->c", 2), Ok((3, "b".to_string())));
    assert_eq!(run(take_until("-->"), "-->", 0), Ok((0, "".to_string())));
    assert_eq!(run(take_until("-->"), "a-b--", 0), Err(0));
    assert_eq!(run(take_until("-->"), "a-b-->c", 4), Err(4));
    assert_eq!(run(take_until(";"), "éé;", 0), Ok((2, "éé".to_string())));
    assert_eq!(run(take_until(""), "abc", 1), Ok((1, "".to_string())));
    assert_eq!(run(take_until(""), "abc", 3), Ok((3, "".to_string())));
}

#[test]
fn take_while_takes_the_longest_run() {
    assert_eq!(run(take_while(NameChar), "ab c", 0), Ok((2, "ab".to_string())));
    assert_eq!(run(take_while(NameChar), " ab", 0), Err(0));
    // a run may reach the end of the text
    assert_eq!(run(take_while(NameChar), "abc", 0), Ok((3, "abc".to_string())));
    assert_eq!(run(take_while(NameChar), "abc", 2), Ok((3, "c".to_string())));
    assert_eq!(run(take_while(NameChar), "abc", 3), Err(3));
    assert_eq!(run(take_while(NameChar), "", 0), Err(0));
    assert_eq!(run(take_while(NotIn("&'<")), "abc'd", 1), Ok((3, "bc".to_string())));
    assert_eq!(run(take_while(NotIn("&'<")), "'", 0), Err(0));
}

#[test]
fn take_while_m_n_bounds_the_run() {
    assert_eq!(run(take_while_m_n(1, 6, HexDigit), "1aF;", 0), Ok((3, "1aF".to_string())));
    assert_eq!(run(take_while_m_n(1, 6, HexDigit), "1234567;", 0), Ok((6, "123456".to_string())));
    assert_eq!(run(take_while_m_n(1, 6, HexDigit), ";", 0), Err(0));
    assert_eq!(run(take_while_m_n(0, 6, HexDigit), ";", 0), Ok((0, "".to_string())));
    assert_eq!(run(take_while_m_n(2, 3, DecimalDigit), "1;", 0), Err(0));
    assert_eq!(run(take_while_m_n(2, 3, DecimalDigit), "12;", 0), Ok((2, "12".to_string())));
    assert_eq!(run(take_while_m_n(2, 3, DecimalDigit), "12a4;", 0), Ok((2, "12".to_string())));
    assert_eq!(run(take_while_m_n(2, 3, DecimalDigit), "1234;", 0), Ok((3, "123".to_string())));
    // a run may reach the end of the text
    assert_eq!(run(take_while_m_n(1, 6, HexDigit), "12", 0), Ok((2, "12".to_string())));
    assert_eq!(run(take_while_m_n(1, 1, HexDigit), "12", 0), Ok((1, "1".to_string())));
    assert_eq!(run(take_while_m_n(3, 6, HexDigit), "12", 0), Err(0));
    assert_eq!(run(take_while_m_n(1, 6, HexDigit), "12", 2), Err(2));
    assert_eq!(run(take_while_m_n(0, 6, HexDigit), "12", 2), Ok((2, "".to_string())));
    // where the least is more than the most, the most is taken
    assert_eq!(run(take_while_m_n(3, 2, DecimalDigit), "1234;", 0), Ok((2, "12".to_string())));
    assert_eq!(run(take_while_m_n(3, 2, DecimalDigit), "12;", 0), Err(0));
}

#[test]
fn none_of_takes_one_character() {
    assert_eq!(run(none_of("<&"), "a<", 0), Ok((1, "a".to_string())));
    assert_eq!(run(none_of("<&"), "a<", 1), Err(1));
    assert_eq!(run(none_of("<&"), "&", 0), Err(0));
    assert_eq!(run(none_of("<&"), "a", 1), Err(1));
    assert_eq!(run(none_of(""), "é", 0), Ok((1, "é".to_string())));
}

#[test]
fn white_space() {
    assert_eq!(run(whitespace0(), " \t\r\nx", 0), Ok((4, ())));
    assert_eq!(run(whitespace0(), "x", 0), Ok((0, ())));
    assert_eq!(run(whitespace0(), "", 0), Ok((0, ())));
    assert_eq!(run(whitespace1(), " \t\r\nx", 0), Ok((4, ())));
    assert_eq!(run(whitespace1(), " x", 0), Ok((1, ())));
    assert_eq!(run(whitespace1(), "x", 0), Err(0));
    assert_eq!(run(whitespace1(), "\u{A0}x", 0), Err(0));
}

#[test]
fn names() {
    assert_eq!(run(ncname(), "abc d", 0), Ok((3, "abc".to_string())));
    assert_eq!(run(ncname(), "a d", 0), Ok((1, "a".to_string())));
    assert_eq!(run(ncname(), "a:b ", 0), Ok((1, "a".to_string())));
    assert_eq!(run(ncname(), "_a-b.c9 ", 0), Ok((7, "_a-b.c9".to_string())));
    assert_eq!(run(ncname(), "9a ", 0), Err(0));
    assert_eq!(run(ncname(), "-a ", 0), Err(0));
    // a name may reach the end of the text
    assert_eq!(run(ncname(), "abc", 0), Ok((3, "abc".to_string())));
    assert_eq!(run(ncname(), "a", 0), Ok((1, "a".to_string())));
    assert_eq!(run(ncname(), "a:bc", 0), Ok((1, "a".to_string())));
    assert_eq!(run(ncname(), "a:bc", 2), Ok((4, "bc".to_string())));
    assert_eq!(run(ncname(), "", 0), Err(0));
    assert_eq!(run(name(), "a:b ", 0), Ok((3, "a:b".to_string())));
    assert_eq!(run(name(), ":a ", 0), Ok((2, ":a".to_string())));
    assert_eq!(run(name(), "a ", 0), Ok((1, "a".to_string())));
    assert_eq!(run(name(), "ab", 0), Ok((2, "ab".to_string())));
    assert_eq!(run(name(), "a.-9:", 0), Ok((5, "a.-9:".to_string())));
    assert_eq!(run(name(), ":", 0), Ok((1, ":".to_string())));
    assert_eq!(run(name(), " ab", 0), Err(0));
    assert_eq!(run(name(), ".a", 0), Err(0));
}

#[test]
fn numbers() {
    assert_eq!(run(parse_hex(), "41;", 0), Ok((2, 0x41)));
    assert_eq!(run(parse_hex(), "fFfFfF;", 0), Ok((6, 0xFFFFFF)));
    assert_eq!(run(parse_hex(), "0;", 0), Ok((1, 0)));
    assert_eq!(run(parse_hex(), "00000a;", 0), Ok((6, 10)));
    assert_eq!(run(parse_hex(), "g;", 0), Err(0));
    assert_eq!(run(parse_decimal(), "65;", 0), Ok((2, 65)));
    assert_eq!(run(parse_decimal(), "999999;", 0), Ok((6, 999999)));
    assert_eq!(run(parse_decimal(), "1114111;", 0), Ok((7, 1114111)));
    assert_eq!(run(parse_decimal(), "9999999;", 0), Ok((7, 9999999)));
    assert_eq!(run(parse_decimal(), "12345678;", 0), Ok((7, 1234567)));
    assert_eq!(run(parse_hex(), "1234567;", 0), Ok((6, 0x123456)));
    assert_eq!(run(parse_decimal(), "6a;", 0), Ok((1, 6)));
    assert_eq!(run(parse_decimal(), "a;", 0), Err(0));
}

#[test]
fn character_references() {
    assert_eq!(run(chardata_unicode_codepoint(), "&#65;", 0), Ok((5, "A".to_string())));
    assert_eq!(run(chardata_unicode_codepoint(), "&#x41;", 0), Ok((6, "A".to_string())));
    assert_eq!(run(chardata_unicode_codepoint(), "&#x20AC;", 0), Ok((8, "€".to_string())));
    assert_eq!(run(chardata_unicode_codepoint(), "&#0;", 0), Ok((4, "\u{0}".to_string())));
    assert_eq!(run(chardata_unicode_codepoint(), "&#xD7FF;", 0), Ok((8, "\u{D7FF}".to_string())));
    assert_eq!(run(chardata_unicode_codepoint(), "&#xE000;", 0), Ok((8, "\u{E000}".to_string())));
    assert_eq!(run(chardata_unicode_codepoint(), "&#xD800;", 0), Err(0));
    assert_eq!(run(chardata_unicode_codepoint(), "x&#xDFFF;", 1), Err(1));
    assert_eq!(run(chardata_unicode_codepoint(), "&#x110000;", 0), Err(0));
    assert_eq!(run(chardata_unicode_codepoint(), "&amp;", 0), Err(0));
    assert_eq!(run(chardata_unicode_codepoint(), "&#a;", 0), Err(2));
    assert_eq!(run(chardata_unicode_codepoint(), "&#xg;", 0), Err(2));
    assert_eq!(run(chardata_escapes(), "&amp;", 0), Ok((5, "&".to_string())));
    assert_eq!(run(chardata_escapes(), "&lt;", 0), Ok((4, "<".to_string())));
    assert_eq!(run(chardata_escapes(), "&gt;", 0), Ok((4, ">".to_string())));
    assert_eq!(run(chardata_escapes(), "&quot;", 0), Ok((6, "\"".to_string())));
    assert_eq!(run(chardata_escapes(), "&apos;", 0), Ok((6, "'".to_string())));
    assert_eq!(run(chardata_escapes(), "&#x3c;", 0), Ok((6, "<".to_string())));
    assert_eq!(run(chardata_escapes(), "&other;", 0), Err(0));
}

#[test]
fn character_data() {
    assert_eq!(run(chardata_cdata(), "<![CDATA[a<b]]>c", 0), Ok((15, "a<b".to_string())));
    assert_eq!(run(chardata_cdata(), "<![CDATA[]]>", 0), Ok((12, "".to_string())));
    assert_eq!(run(chardata_cdata(), "<![CDATA[a]]", 0), Err(9));
    assert_eq!(run(chardata_literal(), "abc<", 0), Ok((3, "abc".to_string())));
    assert_eq!(run(chardata_literal(), "abc", 0), Ok((3, "abc".to_string())));
    assert_eq!(run(chardata_literal(), "<", 0), Err(0));
    assert_eq!(run(chardata_literal(), "a]]>b<", 0), Err(0));
    assert_eq!(run(chardata_literal(), "a\u{FFFF}<", 0), Err(0));
    assert_eq!(
        run(chardata(), "a&amp;<![CDATA[<&>]]>b&#33;<x/>", 0),
        Ok((27, "a&<&>b!".to_string()))
    );
    assert_eq!(run(chardata(), "<x/>", 0), Err(0));
    assert_eq!(run(chardata(), "&ent;", 0), Err(0));
}

#[test]
fn quoted_strings() {
    assert_eq!(run(string_single(), "'a\"b' ", 0), Ok((5, "a\"b".to_string())));
    assert_eq!(run(string_single(), "'a&#65;&lt;' ", 0), Ok((12, "aA<".to_string())));
    assert_eq!(run(string_single(), "\"a\"", 0), Err(0));
    assert_eq!(run(string_single(), "'a<'", 0), Err(2));
    assert_eq!(run(string_single(), "'a", 0), Err(2));
    assert_eq!(run(string_double(), "\"a'b\" ", 0), Ok((5, "a'b".to_string())));
    assert_eq!(run(string_double(), "\"&quot;&#x41;\"", 0), Ok((14, "\"A".to_string())));
    assert_eq!(run(string_double(), "\"a&b;\"", 0), Err(2));
    assert_eq!(run(delimited_string(), "'x'", 0), Ok((3, "x".to_string())));
    assert_eq!(run(delimited_string(), "\"x\"", 0), Ok((3, "x".to_string())));
    assert_eq!(run(delimited_string(), "x", 0), Err(0));
}

#[test]
fn general_entity_is_spliced_into_the_text() {
    let c = with_entities(&[("foo", "bar!")], &[("pp", "q")]);
    match genentityexpander().parse(("ab&foo;cd".to_string(), 2, c)) {
        Ok((text, pos, config, found)) => {
            assert_eq!(text, "abbar!cd");
            assert_eq!(pos, 2);
            assert_eq!(found, "");
            // a new site: the depth is 0 and the site lies behind the inserted text
            assert_eq!(config.depth_left(), 4);
            assert_eq!(config.entity_index(), 6);
        }
        Err(e) => panic!("failed at {}", e),
    }
}

#[test]
fn parameter_entity_is_spliced_into_the_text() {
    let c = with_entities(&[("foo", "bar!")], &[("pp", "")]);
    match paramentityexpander().parse(("ab%pp;cd".to_string(), 2, c)) {
        Ok((text, pos, config, found)) => {
            assert_eq!(text, "abcd");
            assert_eq!(pos, 2);
            assert_eq!(found, "");
            assert_eq!(config.depth_left(), 4);
            assert_eq!(config.entity_index(), 2);
        }
        Err(e) => panic!("failed at {}", e),
    }
}

#[test]
fn expansion_at_the_old_site_counts() {
    let c = with_entities(&[("aa", "&bb;"), ("bb", "x")], &[]);
    let r = genentityexpander().parse(("&aa;".to_string(), 0, c));
    // position 0 is not beyond the site 0: the expansion counts
    let (text, pos, config, _) = r.expect("no expansion");
    assert_eq!((text.as_str(), pos), ("&bb;", 0));
    assert_eq!(config.depth_left(), 3);
    assert_eq!(config.entity_index(), 0);
    let (text, pos, config, _) =
        genentityexpander().parse((text, pos, config)).expect("no expansion");
    assert_eq!((text.as_str(), pos), ("x", 0));
    assert_eq!(config.depth_left(), 2);
    assert_eq!(config.entity_index(), 0);
}

#[test]
fn expansion_is_refused_at_the_depth_limit() {
    let c = with_entities(&[("ee", "&ee;")], &[]);
    let mut state = (" &ee;".to_string(), 1, c);
    // the first expansion starts a site; four more are counted
    for left in [4, 3, 2, 1, 0] {
        state = match genentityexpander().parse(clone_input(&state)) {
            Ok((text, pos, config, _)) => {
                assert_eq!(text, " &ee;");
                assert_eq!(pos, 1);
                assert_eq!(config.depth_left(), left);
                assert_eq!(config.entity_index(), 5);
                (text, pos, config)
            }
            Err(e) => panic!("failed at {}", e),
        };
    }
    assert_eq!(genentityexpander().parse(clone_input(&state)).err(), Some(1));
    // the other expander is held by the same count
    let c = with_entities(&[("ee", "&ee;")], &[("pp", "%pp;")]);
    let mut state = ("%pp;".to_string(), 0, c);
    for _ in 0..4 {
        let (text, pos, config, _) =
            paramentityexpander().parse(clone_input(&state)).expect("no expansion");
        state = (text, pos, config);
    }
    assert_eq!(state.2.depth_left(), 0);
    assert_eq!(paramentityexpander().parse(clone_input(&state)).err(), Some(0));
    state.0 = "&ee;".to_string();
    assert_eq!(genentityexpander().parse(state).err(), Some(0));
}

#[test]
fn references_that_do_not_resolve() {
    let c = with_entities(&[("foo", "bar")], &[("pp", "q")]);
    for (text, pos, expected) in [
        ("&fo;", 0, 0),
        ("&pp;", 0, 0),
        ("x&foo", 1, 2),
        ("xfoo;", 1, 1),
        ("x&;", 1, 1),
        ("%pp;", 0, 0),
        ("", 0, 0),
    ] {
        let c = (text.to_string(), pos, with_entities(&[("foo", "bar")], &[("pp", "q")]));
        assert_eq!(genentityexpander().parse(c).err(), Some(expected));
    }
    assert_eq!(paramentityexpander().parse(("%foo;".to_string(), 0, c)).err(), Some(0));
}

#[test]
fn attribute_value_expands_entities() {
    let c = with_entities(&[("ee", "g")], &[("pp", "p")]);
    match attvalue().parse(("'a&ee;b' ".to_string(), 0, c)) {
        Ok((text, pos, _, found)) => {
            assert_eq!(text, "'agb' ");
            assert_eq!(pos, 5);
            assert_eq!(found, "agb");
        }
        Err(e) => panic!("failed at {}", e),
    }
    // a percent sign is an ordinary character of a value: a parameter
    // entity is not recognised in it
    let c = with_entities(&[("ee", "g")], &[("pp", "p")]);
    match attvalue().parse(("\"%pp;&ee;\"".to_string(), 0, c)) {
        Ok((text, pos, _, found)) => {
            assert_eq!(text, "\"%pp;g\"");
            assert_eq!(pos, 7);
            assert_eq!(found, "%pp;g");
        }
        Err(e) => panic!("failed at {}", e),
    }
    assert_eq!(run(attvalue(), "\"a'b\"", 0), Ok((5, "a'b".to_string())));
    // escapes and character references
    assert_eq!(run(attvalue(), "'&lt;'", 0), Ok((6, "<".to_string())));
    assert_eq!(
        run(attvalue(), "\"a&amp;&gt;&quot;&apos;&#65;&#x42;c\"", 0),
        Ok((36, "a&>\"'ABc".to_string()))
    );
    assert_eq!(run(attvalue(), "''", 0), Ok((2, "".to_string())));
    // the failure is that of the last alternative, the value in double quotes
    assert_eq!(run(attvalue(), "'a&ee;'", 0), Err(0));
    assert_eq!(run(attvalue(), "'a<'", 0), Err(0));
    assert_eq!(run(attvalue(), "\"a&ee;\"", 0), Err(2));
}
