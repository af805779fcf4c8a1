use xrust::item::{Item, Value};
use xrust::parser::combinators::take::CharClass;
use xrust::parser::common::{
    is_char, is_legal_char, is_legal_text, is_namechar, is_namestartchar, is_ncnamechar,
    is_ncnamestartchar, NameChar, NameStartChar, NcNameChar, NcNameStartChar, NotIn,
};
use xrust::parser::table::DeclTable;
use xrust::parser::xml::{DTDDecl, XMLNode, XMLdecl, DTD};
use xrust::parser::ParserConfig;
use xrust::qname::QualifiedName;
use xrust::text::{contains_char, find_from, same_text, starts_at, to_decimal};
use xrust::xdmerror::{Error, ErrorKind};

fn ch(code: u32) -> char {
    char::from_u32(code).expect("no scalar value")
}

/// The ranges of the characters that may begin a name without colons.
const NC_NAME_START: [(u32, u32); 15] = [
    (0x41, 0x5A),
    (0x5F, 0x5F),
    (0x61, 0x7A),
    (0xC0, 0xD6),
    (0xD8, 0xF6),
    (0xF8, 0x2FF),
    (0x370, 0x37D),
    (0x37F, 0x1FFF),
    (0x200C, 0x200D),
    (0x2070, 0x218F),
    (0x2C00, 0x2FEF),
    (0x3001, 0xD7FF),
    (0xF900, 0xFDCF),
    (0xFDF0, 0xFFFD),
    (0x10000, 0xEFFFF),
];

/// The ranges of the characters that may stand in a name besides.
const NAME_EXTRA: [(u32, u32); 6] =
    [(0x2D, 0x2E), (0x30, 0x39), (0xB7, 0xB7), (0x300, 0x36F), (0x203F, 0x2040), (0x2D, 0x2D)];

fn within(ranges: &[(u32, u32)], c: u32) -> bool {
    ranges.iter().any(|(lo, hi)| *lo <= c && c <= *hi)
}

fn scalar(c: u32) -> bool {
    char::from_u32(c).is_some()
}

#[test]
fn name_start_characters() {
    for (lo, hi) in NC_NAME_START {
        for c in [lo, hi, (lo + hi) / 2] {
            assert!(is_ncnamestartchar(ch(c)), "{:x}", c);
            assert!(is_namestartchar(ch(c)), "{:x}", c);
            assert!(is_ncnamechar(ch(c)), "{:x}", c);
            assert!(is_namechar(ch(c)), "{:x}", c);
        }
        // the neighbours of a range lie in it only if another range holds them
        for c in [lo - 1, hi + 1] {
            if scalar(c) {
                assert_eq!(is_ncnamestartchar(ch(c)), within(&NC_NAME_START, c), "{:x}", c);
            }
        }
    }
    for c in ['@', '[', '`', '{', '\u{D7}', '\u{F7}', '\u{37E}', '\u{2000}', '\u{3000}', '0', '-'] {
        assert!(!is_ncnamestartchar(c), "{:?}", c);
        assert!(!is_namestartchar(c), "{:?}", c);
    }
    for c in ['\u{F0000}', '\u{10FFFF}', '\u{FFFE}', '\u{E000}', '\u{0}', ' '] {
        assert!(!is_namechar(c), "{:?}", c);
    }
}

#[test]
fn the_colon_begins_a_name_but_no_name_without_colons() {
    assert!(is_namestartchar(':'));
    assert!(is_namechar(':'));
    assert!(!is_ncnamestartchar(':'));
    assert!(!is_ncnamechar(':'));
    assert!(NameStartChar.accepts(':'));
    assert!(NameChar.accepts(':'));
    assert!(!NcNameStartChar.accepts(':'));
    assert!(!NcNameChar.accepts(':'));
}

#[test]
fn name_characters() {
    for (lo, hi) in NAME_EXTRA {
        for c in [lo, hi] {
            assert!(is_namechar(ch(c)), "{:x}", c);
            assert!(is_ncnamechar(ch(c)), "{:x}", c);
            assert!(!is_namestartchar(ch(c)), "{:x}", c);
            assert!(NameChar.accepts(ch(c)));
            assert!(NcNameChar.accepts(ch(c)));
            assert!(!NameStartChar.accepts(ch(c)));
        }
        for c in [lo - 1, hi + 1] {
            let expected = within(&NAME_EXTRA, c) || within(&NC_NAME_START, c);
            assert_eq!(is_ncnamechar(ch(c)), expected, "{:x}", c);
            assert_eq!(is_namechar(ch(c)), expected || c == 0x3A, "{:x}", c);
        }
    }
}

#[test]
fn legal_characters() {
    for c in [0x9, 0xA, 0xD, 0x20, 0xD7FF, 0xE000, 0xFFFD, 0x10000, 0x10FFFF, 0x41] {
        assert!(is_legal_char(ch(c)), "{:x}", c);
        assert!(is_char(&ch(c).to_string()), "{:x}", c);
    }
    for c in [0x0, 0x8, 0xB, 0xC, 0xE, 0x1F, 0xFFFE, 0xFFFF] {
        assert!(!is_legal_char(ch(c)), "{:x}", c);
        assert!(!is_char(&ch(c).to_string()), "{:x}", c);
    }
    // only the first character counts
    assert!(is_char(&"a\u{0}".to_string()));
    assert!(!is_char(&"\u{0}a".to_string()));
    assert!(is_legal_text(&"".to_string()));
    assert!(is_legal_text(&"a\tb\n".to_string()));
    assert!(!is_legal_text(&"ab\u{1}".to_string()));
    assert!(!is_legal_text(&"\u{FFFF}ab".to_string()));
}

#[test]
fn characters_outside_a_set() {
    assert!(NotIn("&'<").accepts('a'));
    assert!(NotIn("&'<").accepts('"'));
    assert!(!NotIn("&'<").accepts('&'));
    assert!(!NotIn("&'<").accepts('\''));
    assert!(!NotIn("&'<").accepts('<'));
    assert!(NotIn("").accepts('<'));
}

#[test]
fn decimal_digits_of_a_number() {
    assert_eq!(to_decimal(0), "0");
    assert_eq!(to_decimal(7), "7");
    assert_eq!(to_decimal(10), "10");
    assert_eq!(to_decimal(109), "109");
    assert_eq!(to_decimal(1234567890), "1234567890");
    assert_eq!(to_decimal(usize::MAX), usize::MAX.to_string());
}

#[test]
fn texts() {
    assert_eq!(xrust::text::concat(&vec![]), "");
    assert_eq!(xrust::text::concat(&vec!["ab".to_string(), "".to_string(), "c".to_string()]), "abc");
    assert!(starts_at("abcabc", 3, "abc"));
    assert!(starts_at("abcabc", 6, ""));
    assert!(!starts_at("abcabc", 7, ""));
    assert!(!starts_at("abcabc", 4, "abc"));
    assert!(!starts_at("abcabc", 1, "abc"));
    assert_eq!(find_from("abcabc", 0, "bc"), Some(1));
    assert_eq!(find_from("abcabc", 2, "bc"), Some(4));
    assert_eq!(find_from("abcabc", 5, "bc"), None);
    assert_eq!(find_from("abcabc", 6, ""), Some(6));
    assert_eq!(find_from("abcabc", 7, ""), None);
    assert_eq!(find_from("ééa", 0, "a"), Some(2));
    assert!(contains_char("<&", '&'));
    assert!(!contains_char("<&", 'a'));
    assert!(!contains_char("", 'a'));
    assert!(same_text(&"ab".to_string(), &"ab".to_string()));
    assert!(!same_text(&"ab".to_string(), &"abc".to_string()));
}

#[test]
fn qualified_name_parts() {
    let q = QualifiedName::new(
        Some("http://example.org".to_string()),
        Some("p".to_string()),
        "local".to_string(),
    );
    assert_eq!(q.get_nsuri(), Some("http://example.org".to_string()));
    assert_eq!(q.get_prefix(), Some("p".to_string()));
    assert_eq!(q.get_localname(), "local");
    assert_eq!(q.to_string(), "p:local");
    assert_eq!(q.clone(), q);
    assert_eq!(q.duplicate(), q);
    let u = QualifiedName::new(None, None, "local".to_string());
    assert_eq!(u.to_string(), "local");
    assert_ne!(u, q);
}

#[test]
fn copies_are_equal() {
    let v = Value::String("s".to_string());
    assert_eq!(v.clone(), v);
    assert_eq!(Value::Integer(-4).clone(), Value::Integer(-4));
    assert_eq!(Value::Decimal(5).duplicate(), Value::Decimal(5));
    assert_eq!(Value::Boolean(true).clone(), Value::Boolean(true));
    let i = Item::Value(Value::String("s".to_string()));
    assert_eq!(i.clone(), i);
    let e = Error { kind: ErrorKind::TypeError, message: "m".to_string() };
    assert_eq!(e.clone(), e);
    let q = QualifiedName::new(None, Some("p".to_string()), "n".to_string());
    let node = XMLNode::Element(
        q.clone(),
        vec![XMLNode::Attribute(q.clone(), Value::String("v".to_string()))],
        vec![
            XMLNode::Text(Value::String("t".to_string())),
            XMLNode::PI("pi".to_string(), Value::String("b".to_string())),
            XMLNode::Comment(Value::String("c".to_string())),
            XMLNode::Reference(q.clone()),
            XMLNode::DTD(DTDDecl::Notation(q.clone(), "n".to_string())),
            XMLNode::Element(q.clone(), vec![], vec![]),
        ],
    );
    assert_eq!(node.clone(), node);
    for d in [
        DTDDecl::Element(q.clone(), "a".to_string()),
        DTDDecl::Attlist(q.clone(), "b".to_string()),
        DTDDecl::Notation(q.clone(), "c".to_string()),
        DTDDecl::GeneralEntity(q.clone(), "d".to_string()),
        DTDDecl::ParamEntity(q.clone(), "e".to_string()),
    ] {
        assert_eq!(d.clone(), d);
    }
}

#[test]
fn values_as_truth_values() {
    assert!(Value::Boolean(true).to_bool());
    assert!(!Value::Boolean(false).to_bool());
    assert!(Value::Integer(-1).to_bool());
    assert!(!Value::Integer(0).to_bool());
    assert!(Value::Decimal(1).to_bool());
    assert!(!Value::Decimal(0).to_bool());
    assert!(Value::String(" ".to_string()).to_bool());
    assert!(!Value::String("".to_string()).to_bool());
}

#[test]
fn declarations_are_kept_by_name() {
    let q = |n: &str| QualifiedName::new(None, None, n.to_string());
    let t = DeclTable::new();
    assert!(t.get(&"a".to_string()).is_none());
    let t = t.insert("a".to_string(), DTDDecl::GeneralEntity(q("a"), "1".to_string()));
    let t = t.insert("b".to_string(), DTDDecl::GeneralEntity(q("b"), "2".to_string()));
    assert_eq!(t.get(&"a".to_string()), Some(&DTDDecl::GeneralEntity(q("a"), "1".to_string())));
    assert_eq!(t.get(&"b".to_string()), Some(&DTDDecl::GeneralEntity(q("b"), "2".to_string())));
    assert!(t.get(&"c".to_string()).is_none());
    // a later declaration takes the place of an earlier one of the same name
    let t = t.insert("a".to_string(), DTDDecl::GeneralEntity(q("a"), "3".to_string()));
    assert_eq!(t.get(&"a".to_string()), Some(&DTDDecl::GeneralEntity(q("a"), "3".to_string())));
    assert_eq!(t.get(&"b".to_string()), Some(&DTDDecl::GeneralEntity(q("b"), "2".to_string())));
    assert_eq!(t.clone(), t);
    assert_ne!(t, DeclTable::new());
}

#[test]
fn declarations_of_each_kind() {
    let q = |n: &str| QualifiedName::new(None, None, n.to_string());
    let d = DTD::new();
    assert_eq!(d.general_entity(&"n".to_string()), None);
    assert_eq!(d.param_entity(&"n".to_string()), None);
    let d = d.declare("n".to_string(), DTDDecl::GeneralEntity(q("n"), "g".to_string()));
    assert_eq!(d.general_entity(&"n".to_string()), Some("g".to_string()));
    assert_eq!(d.param_entity(&"n".to_string()), None);
    let d = d.declare("n".to_string(), DTDDecl::ParamEntity(q("n"), "p".to_string()));
    assert_eq!(d.general_entity(&"n".to_string()), Some("g".to_string()));
    assert_eq!(d.param_entity(&"n".to_string()), Some("p".to_string()));
    // the other kinds have tables of their own
    let d = d.declare("n".to_string(), DTDDecl::Element(q("n"), "e".to_string()));
    let d = d.declare("n".to_string(), DTDDecl::Attlist(q("n"), "a".to_string()));
    let d = d.declare("n".to_string(), DTDDecl::Notation(q("n"), "o".to_string()));
    assert_eq!(d.general_entity(&"n".to_string()), Some("g".to_string()));
    assert_eq!(d.param_entity(&"n".to_string()), Some("p".to_string()));
    assert_eq!(d.clone(), d);
    assert_ne!(d, DTD::new());
    assert_eq!(DTD::new(), DTD::new());
}

#[test]
fn a_new_configuration() {
    let c = ParserConfig::new();
    assert_eq!(c.depth_left(), 4);
    assert_eq!(c.entity_index(), 0);
    assert_eq!(c.general_entity(&"n".to_string()), None);
    assert_eq!(c.param_entity(&"n".to_string()), None);
    assert_eq!(c.clone(), c);
    let q = QualifiedName::new(None, None, "n".to_string());
    let d = c.declare("n".to_string(), DTDDecl::GeneralEntity(q, "g".to_string()));
    assert_eq!(d.general_entity(&"n".to_string()), Some("g".to_string()));
    assert_ne!(d, ParserConfig::new());
    assert_eq!(d.duplicate(), d);
}

#[test]
fn the_declaration_of_a_document() {
    let d = XMLdecl::new("1.0".to_string(), None, Some("yes".to_string()));
    assert_eq!(d.version(), "1.0");
    assert_eq!(d.encoding(), None);
    assert_eq!(d.standalone(), Some("yes".to_string()));
}

#[test]
fn tables_are_compared_as_maps() {
    let q = |n: &str| QualifiedName::new(None, None, n.to_string());
    let g = |n: &str, v: &str| DTDDecl::GeneralEntity(q(n), v.to_string());
    let one = DeclTable::new()
        .insert("a".to_string(), g("a", "1"))
        .insert("b".to_string(), g("b", "2"))
        .insert("c".to_string(), g("c", "3"));
    let other = DeclTable::new()
        .insert("c".to_string(), g("c", "3"))
        .insert("a".to_string(), g("a", "0"))
        .insert("b".to_string(), g("b", "2"))
        .insert("a".to_string(), g("a", "1"));
    // the order in which the declarations were recorded does not count
    assert_eq!(one, other);
    assert_eq!(other, one);
    assert!(!(one != other));
    // another text, another kind, another name, one more, one less
    assert_ne!(one, DeclTable::new().insert("a".to_string(), g("a", "1")));
    assert_ne!(DeclTable::new().insert("a".to_string(), g("a", "1")), one);
    assert_ne!(one, other.clone().insert("b".to_string(), g("b", "x")));
    assert_ne!(one, other.clone().insert("d".to_string(), g("d", "4")));
    assert_ne!(
        one,
        other.clone().insert("b".to_string(), DTDDecl::ParamEntity(q("b"), "2".to_string()))
    );
    assert_ne!(one, other.clone().insert("b".to_string(), g("bb", "2")));
    assert_eq!(DeclTable::new(), DeclTable::new());
}

#[test]
fn configurations_are_equal_whatever_the_order_of_declarations() {
    let q = |n: &str| QualifiedName::new(None, None, n.to_string());
    let g = |n: &str| DTDDecl::GeneralEntity(q(n), n.to_string());
    let p = |n: &str| DTDDecl::ParamEntity(q(n), n.to_string());
    let one = ParserConfig::new()
        .declare("x".to_string(), g("x"))
        .declare("y".to_string(), g("y"))
        .declare("x".to_string(), p("x"));
    let other = ParserConfig::new()
        .declare("x".to_string(), p("x"))
        .declare("y".to_string(), g("y"))
        .declare("x".to_string(), g("x"));
    assert_eq!(one, other);
    assert_ne!(one, ParserConfig::new().declare("x".to_string(), g("x")));
    let d = DTD::new().declare("x".to_string(), g("x")).declare("y".to_string(), g("y"));
    let e = DTD::new().declare("y".to_string(), g("y")).declare("x".to_string(), g("x"));
    assert_eq!(d, e);
    assert_ne!(d, DTD::new().declare("y".to_string(), g("y")));
}

#[test]
fn names_and_declarations_are_compared() {
    let q = |p: Option<&str>, n: &str| QualifiedName::new(None, p.map(|x| x.to_string()), n.to_string());
    assert!(q(None, "a").same_as(&q(None, "a")));
    assert!(q(Some("p"), "a").same_as(&q(Some("p"), "a")));
    assert!(!q(Some("p"), "a").same_as(&q(None, "a")));
    assert!(!q(Some("p"), "a").same_as(&q(Some("q"), "a")));
    assert!(!q(None, "a").same_as(&q(None, "b")));
    let u = QualifiedName::new(Some("u".to_string()), None, "a".to_string());
    assert!(u.same_as(&u.clone()));
    assert!(!u.same_as(&q(None, "a")));
    let e = DTDDecl::Element(q(None, "a"), "x".to_string());
    assert!(e.same_as(&DTDDecl::Element(q(None, "a"), "x".to_string())));
    assert!(!e.same_as(&DTDDecl::Element(q(None, "a"), "y".to_string())));
    assert!(!e.same_as(&DTDDecl::Element(q(None, "b"), "x".to_string())));
    assert!(!e.same_as(&DTDDecl::Attlist(q(None, "a"), "x".to_string())));
    for d in [
        DTDDecl::Attlist(q(None, "a"), "x".to_string()),
        DTDDecl::Notation(q(None, "a"), "x".to_string()),
        DTDDecl::GeneralEntity(q(None, "a"), "x".to_string()),
        DTDDecl::ParamEntity(q(None, "a"), "x".to_string()),
    ] {
        assert!(d.same_as(&d.clone()));
        assert!(!d.same_as(&e));
    }
}
