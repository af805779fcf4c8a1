use xrust::item::Value;
use xrust::parser::xml::{document, parse, XMLDocument, XMLNode};
use xrust::qname::QualifiedName;
use xrust::xdmerror::ErrorKind;

fn doc(text: &str) -> XMLDocument {
    match parse(text.to_string()) {
        Ok(d) => d,
        Err(e) => panic!("{} does not parse: {}", text, e.message),
    }
}

fn failure(text: &str) -> String {
    match parse(text.to_string()) {
        Ok(_) => panic!("{} parses", text),
        Err(e) => {
            assert_eq!(e.kind, ErrorKind::Unknown);
            e.message
        }
    }
}

fn name(local: &str) -> QualifiedName {
    QualifiedName::new(None, None, local.to_string())
}

fn text_node(s: &str) -> XMLNode {
    XMLNode::Text(Value::String(s.to_string()))
}

fn root(d: &XMLDocument) -> &XMLNode {
    assert_eq!(d.content.len(), 1);
    &d.content[0]
}

fn children(d: &XMLDocument) -> &Vec<XMLNode> {
    match root(d) {
        XMLNode::Element(_, _, c) => c,
        _ => panic!("the root is no element"),
    }
}

fn attribute(local: &str, value: &str) -> XMLNode {
    XMLNode::Attribute(name(local), Value::String(value.to_string()))
}

fn element(local: &str, attributes: Vec<XMLNode>, content: Vec<XMLNode>) -> XMLNode {
    XMLNode::Element(name(local), attributes, content)
}

// Elements and their tags

#[test]
fn element_with_matching_tags() {
    let d = doc("<a></a>");
    assert_eq!(d.content, vec![element("a", vec![], vec![])]);
    assert_eq!(d.prologue, vec![]);
    assert_eq!(d.epilogue, vec![]);
    assert!(d.xmldecl.is_none());
}

#[test]
fn element_with_other_end_tag_fails() {
    assert_eq!(failure("<a></b>"), "unrecoverable parser error at 0");
    assert_eq!(failure("<ab></ac>"), "unrecoverable parser error at 0");
    assert_eq!(failure("<a><b></c></a>"), "unrecoverable parser error at 3");
}

#[test]
fn end_tag_is_compared_with_its_prefix() {
    assert_eq!(failure("<n:a></a>"), "unrecoverable parser error at 0");
    assert_eq!(failure("<n:a></m:a>"), "unrecoverable parser error at 0");
    let d = doc("<n:a></n:a>");
    assert_eq!(
        d.content,
        vec![XMLNode::Element(
            QualifiedName::new(None, Some("n".to_string()), "a".to_string()),
            vec![],
            vec![]
        )]
    );
}

#[test]
fn empty_element() {
    assert_eq!(doc("<a/>").content, vec![element("a", vec![], vec![])]);
    assert_eq!(doc("<a />").content, vec![element("a", vec![], vec![])]);
    assert_eq!(doc("<a\n\t/>").content, vec![element("a", vec![], vec![])]);
}

#[test]
fn nested_elements_and_text() {
    let d = doc("<a>text<b/>more<c>in</c></a>");
    assert_eq!(
        d.content,
        vec![element(
            "a",
            vec![],
            vec![
                text_node("text"),
                element("b", vec![], vec![]),
                text_node("more"),
                element("c", vec![], vec![text_node("in")]),
            ]
        )]
    );
}

#[test]
fn whitespace_in_tags() {
    let d = doc("<a  x = '1' ></a >");
    assert_eq!(d.content, vec![element("a", vec![attribute("x", "1")], vec![])]);
    assert_eq!(failure("< a/>"), "unrecoverable parser error at 1");
    assert_eq!(failure("<a></ a>"), "unrecoverable parser error at 5");
}

// The whole input is consumed

#[test]
fn trailing_text_fails() {
    assert_eq!(failure("<a/> trailing-garbage"), "unrecoverable parser error at 5");
    assert_eq!(failure("<a/><b/>"), "unrecoverable parser error at 4");
    assert_eq!(failure("<a></a>x"), "unrecoverable parser error at 7");
    assert!(parse("<a/>".to_string()).is_ok());
    assert!(parse("<a/> \n".to_string()).is_ok());
}

#[test]
fn document_reports_where_it_ended() {
    match document("<a/>\n".to_string()) {
        Ok((text, pos, _, d)) => {
            assert_eq!(text, "<a/>\n");
            assert_eq!(pos, 5);
            assert_eq!(d.content.len(), 1);
        }
        Err(e) => panic!("failed at {}", e),
    }
    assert_eq!(document("<a/>x".to_string()).err(), Some(4));
    assert_eq!(document("".to_string()).err(), Some(0));
}

#[test]
fn failure_is_repeatable() {
    for t in ["", "<a>", "<a></b>", "<a/> trailing-garbage", "<a x='1' x='2'/>", "<a>&x;</a>"] {
        let first = parse(t.to_string()).unwrap_err();
        let second = parse(t.to_string()).unwrap_err();
        assert_eq!(first, second);
    }
}

#[test]
fn failure_positions() {
    assert_eq!(failure(""), "unrecoverable parser error at 0");
    assert_eq!(failure("<a>"), "unrecoverable parser error at 3");
    assert_eq!(failure("text"), "unrecoverable parser error at 0");
    assert_eq!(failure("<a>&undeclared;</a>"), "unrecoverable parser error at 3");
    // a position of more than one digit
    assert_eq!(failure("<a>0123456789</a>x"), "unrecoverable parser error at 17");
    let long = format!("<{}/>x", "a".repeat(100));
    assert_eq!(failure(&long), "unrecoverable parser error at 103");
    let longer = format!("<{}/>x", "a".repeat(12342));
    assert_eq!(failure(&longer), "unrecoverable parser error at 12345");
}

// Attributes

#[test]
fn duplicate_attributes_fail() {
    assert_eq!(failure("<a x='1' x='2'/>"), "unrecoverable parser error at 2");
    assert_eq!(failure("<a x='1' y='2' x='3'></a>"), "unrecoverable parser error at 2");
    assert_eq!(failure("<a n:x='1' n:x='2'/>"), "unrecoverable parser error at 2");
}

#[test]
fn distinct_attributes() {
    let d = doc("<a x='1' y='2'/>");
    assert_eq!(
        d.content,
        vec![element("a", vec![attribute("x", "1"), attribute("y", "2")], vec![])]
    );
    // the same local part under another prefix is another name
    let d = doc("<a x='1' n:x=\"2\"/>");
    match root(&d) {
        XMLNode::Element(_, a, _) => {
            assert_eq!(a.len(), 2);
            assert_eq!(
                a[1],
                XMLNode::Attribute(
                    QualifiedName::new(None, Some("n".to_string()), "x".to_string()),
                    Value::String("2".to_string())
                )
            );
        }
        _ => panic!("no element"),
    }
}

#[test]
fn attribute_values() {
    let d = doc("<a x='a&lt;b' y=\"&amp;&quot;&apos;&gt;\" z='&#65;&#x42;' w=''/>");
    assert_eq!(
        d.content,
        vec![element(
            "a",
            vec![
                attribute("x", "a<b"),
                attribute("y", "&\"'>"),
                attribute("z", "AB"),
                attribute("w", ""),
            ],
            vec![]
        )]
    );
    assert_eq!(failure("<a x='<'/>"), "unrecoverable parser error at 3");
    assert_eq!(failure("<a x=1/>"), "unrecoverable parser error at 3");
    assert_eq!(failure("<a x='1'y='2'/>"), "unrecoverable parser error at 8");
}

// Entities

#[test]
fn entities_are_expanded_in_attribute_values() {
    let d = doc("<!DOCTYPE doc [<!ENTITY foo 'bar'>]><a x='&foo;'/>");
    assert_eq!(d.content, vec![element("a", vec![attribute("x", "bar")], vec![])]);
    let d = doc("<!DOCTYPE doc [<!ENTITY foo 'bar'>]><a x=\"a&foo;b&lt;&#65;&foo;\" y='&foo;'></a>");
    assert_eq!(
        d.content,
        vec![element("a", vec![attribute("x", "abarb<Abar"), attribute("y", "bar")], vec![])]
    );
    // an entity that names another
    let d = doc("<!DOCTYPE doc [<!ENTITY aa 'x&bb;'><!ENTITY bb 'y'>]><r v='&aa;'/>");
    assert_eq!(d.content, vec![element("r", vec![attribute("v", "xy")], vec![])]);
    // a percent sign is an ordinary character of a value
    let d = doc("<!DOCTYPE doc [<!ENTITY % pp 'q'>]><a w='100%' v='%pp;'/>");
    assert_eq!(
        d.content,
        vec![element("a", vec![attribute("w", "100%"), attribute("v", "%pp;")], vec![])]
    );
}

#[test]
fn undeclared_entity_in_an_attribute_value_fails() {
    assert_eq!(failure("<a x='&foo;'/>"), "unrecoverable parser error at 3");
    assert_eq!(
        failure("<!DOCTYPE doc [<!ENTITY foo 'bar'>]><a x='&fo;'/>"),
        "unrecoverable parser error at 39"
    );
    assert!(parse("<!DOCTYPE doc [<!ENTITY foo '&foo;'>]><a x='&foo;'/>".to_string()).is_err());
}

#[test]
fn declared_entity_is_expanded() {
    let d = doc("<!DOCTYPE doc [<!ENTITY foo 'bar'>]><a>&foo;</a>");
    assert_eq!(children(&d), &vec![text_node(""), text_node("bar")]);
    let d = doc("<!DOCTYPE doc [<!ENTITY foo \"bar\">]><a>x&foo;y</a>");
    assert_eq!(children(&d), &vec![text_node("x"), text_node(""), text_node("bary")]);
}

#[test]
fn entity_with_markup_is_parsed_again() {
    let d = doc("<!DOCTYPE doc [<!ENTITY foo '<b>t</b>'>]><a>&foo;</a>");
    assert_eq!(
        children(&d),
        &vec![text_node(""), element("b", vec![], vec![text_node("t")])]
    );
}

#[test]
fn entity_that_names_another() {
    let d = doc("<!DOCTYPE doc [<!ENTITY a 'x&b;'><!ENTITY b 'y'>]><r>&a;</r>");
    assert_eq!(
        children(&d),
        &vec![text_node(""), text_node("x"), text_node(""), text_node("y")]
    );
}

#[test]
fn later_declaration_replaces_earlier() {
    let d = doc("<!DOCTYPE doc [<!ENTITY e 'one'><!ENTITY e 'two'>]><a>&e;</a>");
    assert_eq!(children(&d), &vec![text_node(""), text_node("two")]);
}

#[test]
fn undeclared_entity_fails() {
    assert_eq!(failure("<a>&undeclared;</a>"), "unrecoverable parser error at 3");
    assert_eq!(
        failure("<!DOCTYPE doc [<!ENTITY foo 'bar'>]><a>&fo;</a>"),
        "unrecoverable parser error at 39"
    );
    // a parameter entity is no general entity
    assert_eq!(
        failure("<!DOCTYPE doc [<!ENTITY % foo 'bar'>]><a>&foo;</a>"),
        "unrecoverable parser error at 41"
    );
}

#[test]
fn entity_that_names_itself_fails() {
    assert_eq!(
        failure("<!DOCTYPE doc [<!ENTITY foo '&foo;'>]><a>&foo;</a>"),
        "unrecoverable parser error at 41"
    );
    // each expansion moves one character on, and the fifth behind the first is refused
    assert_eq!(
        failure("<!DOCTYPE doc [<!ENTITY foo 'x&foo;'>]><a>&foo;</a>"),
        "unrecoverable parser error at 47"
    );
    // through a chain
    assert!(parse(
        "<!DOCTYPE doc [<!ENTITY aa '&bb;'><!ENTITY bb '&aa;'>]><a>&aa;</a>".to_string()
    )
    .is_err());
}

#[test]
fn expansion_depth_is_limited() {
    // four expansions at one place are admitted after the first, not five
    let nested = |n: usize| {
        let mut dtd = String::new();
        for i in 0..n {
            dtd.push_str(&format!("<!ENTITY e{} '&e{};'>", i, i + 1));
        }
        dtd.push_str(&format!("<!ENTITY e{} 'end'>", n));
        format!("<!DOCTYPE doc [{}]><a>&e0;</a>", dtd)
    };
    assert!(parse(nested(0)).is_ok());
    assert!(parse(nested(3)).is_ok());
    assert!(parse(nested(4)).is_ok());
    assert!(parse(nested(5)).is_err());
    assert!(parse(nested(8)).is_err());
}

// Character data

#[test]
fn cdata_is_not_expanded() {
    let d = doc("<a><![CDATA[&foo;]]></a>");
    assert_eq!(children(&d), &vec![text_node("&foo;")]);
    let d = doc("<a>x<![CDATA[<b>&amp;]]>y</a>");
    assert_eq!(children(&d), &vec![text_node("x<b>&amp;y")]);
    assert_eq!(failure("<a><![CDATA[x</a>"), "unrecoverable parser error at 3");
}

#[test]
fn numeric_character_references() {
    assert_eq!(children(&doc("<a>&#65;</a>")), &vec![text_node("A")]);
    assert_eq!(children(&doc("<a>&#x41;</a>")), &vec![text_node("A")]);
    assert_eq!(
        children(&doc("<a>&#x10FFFF;&#999999;</a>")),
        &vec![text_node("\u{10FFFF}\u{F423F}")]
    );
    assert_eq!(children(&doc("<a>&#xe9;&#xE9;&#233;</a>")), &vec![text_node("ééé")]);
    assert_eq!(children(&doc("<a>&#0000065;</a>")), &vec![text_node("A")]);
    assert_eq!(children(&doc("<a>&#1114111;</a>")), &vec![text_node("\u{10FFFF}")]);
    assert_eq!(children(&doc("<a>&#1000000;</a>")), &vec![text_node("\u{F4240}")]);
}

#[test]
fn character_references_that_are_refused() {
    // surrogates and numbers beyond the last scalar value
    assert_eq!(failure("<a>&#xD800;</a>"), "unrecoverable parser error at 3");
    assert_eq!(failure("<a>&#xDFFF;</a>"), "unrecoverable parser error at 3");
    assert_eq!(failure("<a>&#x110000;</a>"), "unrecoverable parser error at 3");
    assert_eq!(failure("<a>&#1114112;</a>"), "unrecoverable parser error at 3");
    // too many digits, no digits, no semicolon
    assert_eq!(failure("<a>&#00000065;</a>"), "unrecoverable parser error at 3");
    assert_eq!(failure("<a>&#x0000041;</a>"), "unrecoverable parser error at 3");
    assert_eq!(failure("<a>&#;</a>"), "unrecoverable parser error at 3");
    assert_eq!(failure("<a>&#x;</a>"), "unrecoverable parser error at 3");
    assert_eq!(failure("<a>&#65</a>"), "unrecoverable parser error at 3");
    assert_eq!(failure("<a>&#xG;</a>"), "unrecoverable parser error at 3");
}

#[test]
fn predefined_escapes() {
    assert_eq!(
        children(&doc("<a>&lt;&gt;&amp;&quot;&apos;</a>")),
        &vec![text_node("<>&\"'")]
    );
}

#[test]
fn character_data_rules() {
    assert_eq!(failure("<a>]]></a>"), "unrecoverable parser error at 3");
    assert_eq!(failure("<a>x]]>y</a>"), "unrecoverable parser error at 3");
    assert_eq!(children(&doc("<a>]]</a>")), &vec![text_node("]]")]);
    assert_eq!(children(&doc("<a>]>]</a>")), &vec![text_node("]>]")]);
    assert_eq!(failure("<a>\u{1}</a>"), "unrecoverable parser error at 3");
    assert_eq!(failure("<a>x\u{FFFE}</a>"), "unrecoverable parser error at 3");
    assert_eq!(children(&doc("<a>\t\n\r é\u{10000}</a>")), &vec![text_node("\t\n\r é\u{10000}")]);
}

#[test]
fn positions_count_characters() {
    // the failure lies behind three characters of more than one byte each
    assert_eq!(failure("<a>ééé</a>x"), "unrecoverable parser error at 10");
    let d = doc("<é>ü</é>");
    assert_eq!(d.content, vec![element("é", vec![], vec![text_node("ü")])]);
}

// Comments and processing instructions

#[test]
fn comments() {
    assert_eq!(
        children(&doc("<a><!-- x --></a>")),
        &vec![XMLNode::Comment(Value::String(" x ".to_string()))]
    );
    assert_eq!(children(&doc("<a><!----></a>")), &vec![XMLNode::Comment(Value::String("".to_string()))]);
    assert_eq!(failure("<a><!-- x -- y --></a>"), "unrecoverable parser error at 3");
    assert_eq!(failure("<a><!-- x ---></a>"), "unrecoverable parser error at 3");
    assert_eq!(failure("<a><!-- \u{0} --></a>"), "unrecoverable parser error at 3");
    assert_eq!(failure("<a><!-- x</a>"), "unrecoverable parser error at 3");
}

#[test]
fn processing_instructions() {
    assert_eq!(
        children(&doc("<a><?pi x?></a>")),
        &vec![XMLNode::PI("pi".to_string(), Value::String("x".to_string()))]
    );
    assert_eq!(
        children(&doc("<a><?pi   some text ?></a>")),
        &vec![XMLNode::PI("pi".to_string(), Value::String("some text ".to_string()))]
    );
    assert_eq!(
        children(&doc("<a><?xmlx y?></a>")),
        &vec![XMLNode::PI("xmlx".to_string(), Value::String("y".to_string()))]
    );
    for t in ["xml", "XML", "XmL", "xMl", "xmL"] {
        assert_eq!(
            failure(&format!("<a><?{} x?></a>", t)),
            "unrecoverable parser error at 3"
        );
    }
    assert_eq!(failure("<a><?pi \u{B}?></a>"), "unrecoverable parser error at 3");
    assert_eq!(failure("<a><?pi x</a>"), "unrecoverable parser error at 3");
}

#[test]
fn prologue_and_epilogue() {
    let d = doc("<!-- c --><?pi x?>\n<a/><!-- d -->\n");
    assert_eq!(
        d.prologue,
        vec![
            XMLNode::Comment(Value::String(" c ".to_string())),
            XMLNode::PI("pi".to_string(), Value::String("x".to_string())),
        ]
    );
    assert_eq!(d.content, vec![element("a", vec![], vec![])]);
    assert_eq!(d.epilogue, vec![XMLNode::Comment(Value::String(" d ".to_string()))]);
}

#[test]
fn misc_around_the_doctype() {
    let d = doc("<!-- c --><!DOCTYPE doc ><!-- d --><a/>");
    assert_eq!(
        d.prologue,
        vec![
            XMLNode::Comment(Value::String(" c ".to_string())),
            XMLNode::Comment(Value::String(" d ".to_string())),
        ]
    );
}

// The declaration

#[test]
fn xml_declaration() {
    let d = doc("<?xml version='1.0' encoding='utf-8' standalone='yes'?><a/>");
    let x = d.xmldecl.expect("no declaration");
    assert_eq!(x.version(), "1.0");
    assert_eq!(x.encoding(), Some("utf-8".to_string()));
    assert_eq!(x.standalone(), Some("yes".to_string()));
    let d = doc("<?xml version = \"1.1\"\tencoding=\"latin1\" ?>\n<a/>");
    let x = d.xmldecl.expect("no declaration");
    assert_eq!(x.version(), "1.1");
    assert_eq!(x.encoding(), Some("latin1".to_string()));
    assert_eq!(x.standalone(), None);
}

#[test]
fn xml_declaration_without_encoding_or_standalone() {
    for t in ["<?xml version='1.0'?><a/>", "<?xml version=\"1.0\" ?><a/>", "<?xml\tversion='1.0'\n?>  <a/>"] {
        let d = doc(t);
        let x = d.xmldecl.expect("no declaration");
        assert_eq!(x.version(), "1.0");
        assert_eq!(x.encoding(), None);
        assert_eq!(x.standalone(), None);
        assert_eq!(d.content, vec![element("a", vec![], vec![])]);
    }
    let d = doc("<?xml version='1.0'  standalone='no'?><a/>");
    let x = d.xmldecl.expect("no declaration");
    assert_eq!(x.encoding(), None);
    assert_eq!(x.standalone(), Some("no".to_string()));
    let d = doc("<?xml version='1.0' encoding='UTF-8'?><a/>");
    let x = d.xmldecl.expect("no declaration");
    assert_eq!(x.encoding(), Some("UTF-8".to_string()));
    assert_eq!(x.standalone(), None);
    // the declaration ends behind its `?>`
    match document("<?xml version='1.0'?>".to_string()) {
        Err(e) => assert_eq!(e, 21),
        Ok(_) => panic!("a declaration alone is no document"),
    }
}

#[test]
fn xml_declaration_needs_white_space_before_each_part() {
    assert_eq!(failure("<?xmlversion='1.0'?><a/>"), "unrecoverable parser error at 1");
    assert_eq!(failure("<?xml version='1.0'encoding='x'?><a/>"), "unrecoverable parser error at 1");
    assert_eq!(failure("<?xml version='1.0' encoding='x'standalone='no'?><a/>"), "unrecoverable parser error at 1");
    // the parts have their order, and the version is wanted
    assert_eq!(failure("<?xml version='1.0' standalone='no' encoding='x'?><a/>"), "unrecoverable parser error at 1");
    assert_eq!(failure("<?xml encoding='x'?><a/>"), "unrecoverable parser error at 1");
    assert_eq!(failure("<?xml?><a/>"), "unrecoverable parser error at 1");
}

// Qualified names

#[test]
fn qualified_names() {
    let d = doc("<ns:a/>");
    match root(&d) {
        XMLNode::Element(q, _, _) => {
            assert_eq!(q.get_prefix(), Some("ns".to_string()));
            assert_eq!(q.get_localname(), "a");
            assert_eq!(q.get_nsuri(), None);
            assert_eq!(q.to_string(), "ns:a");
        }
        _ => panic!("no element"),
    }
    let d = doc("<a/>");
    match root(&d) {
        XMLNode::Element(q, _, _) => {
            assert_eq!(q.get_prefix(), None);
            assert_eq!(q.get_localname(), "a");
            assert_eq!(q.to_string(), "a");
        }
        _ => panic!("no element"),
    }
    assert_eq!(failure("<a:b:c/>"), "unrecoverable parser error at 4");
    assert_eq!(failure("<:a/>"), "unrecoverable parser error at 1");
    assert_eq!(failure("<1a/>"), "unrecoverable parser error at 1");
    assert_eq!(doc("<a-b.c_d1/>").content, vec![element("a-b.c_d1", vec![], vec![])]);
}

// The document type declaration

#[test]
fn doctype_declarations() {
    for t in [
        "<!DOCTYPE doc><a/>",
        "<!DOCTYPE doc[]><a/>",
        "<!DOCTYPE doc [] ><a/>",
        "<!DOCTYPE doc SYSTEM 'a.dtd'[ ]><a/>",
        "<!DOCTYPE doc ><a/>",
        "<!DOCTYPE d ><a/>",
        "<!DOCTYPE doc [<!ATTLIST a xx IDREF #IMPLIED yy IDREFS #IMPLIED zz ID #IMPLIED>]><a/>",
        "<!DOCTYPE doc [<!ATTLIST a xx ENTITY #IMPLIED yy ENTITIES #IMPLIED>]><a/>",
        "<!DOCTYPE doc [<!ATTLIST a xx NMTOKEN #IMPLIED yy NMTOKENS #IMPLIED>]><a/>",
        "<!DOCTYPE doc [<!ATTLIST a xx CDATA 'a&lt;b&#65;'>]><a/>",
        "<!DOCTYPE doc\n>\n<a/>",
        "<!DOCTYPE doc [<!ELEMENT a (b|c)*>]><a/>",
        "<!DOCTYPE doc [<!ELEMENT a (b,c,(d|e)?)+>]><a/>",
        "<!DOCTYPE doc SYSTEM 'a.dtd'><a/>",
        "<!DOCTYPE doc SYSTEM \"a.dtd\" ><a/>",
        "<!DOCTYPE doc PUBLIC 'p' 'a.dtd' [ ]><a/>",
        "<!DOCTYPE doc []><a/>",
        "<!DOCTYPE doc [<!ELEMENT a EMPTY>]><a/>",
        "<!DOCTYPE doc [<!ELEMENT a ANY >]><a/>",
        "<!DOCTYPE doc [<!ELEMENT a (#PCDATA)>]><a/>",
        "<!DOCTYPE doc [<!ELEMENT a ( #PCDATA | bb | cc )*>]><a/>",
        "<!DOCTYPE doc [<!ELEMENT a (bb,(cc|dd)*,ee?)>]><a/>",
        "<!DOCTYPE doc [<!ELEMENT a (bb | cc)+>]><a/>",
        "<!DOCTYPE doc [<!ELEMENT a EMPTY> <!ENTITY % pp 'q'>\n<!ENTITY gg \"h\">]><a/>",
        "<!DOCTYPE doc [<!NOTATION nn SYSTEM 'x'>]><a/>",
        "<!DOCTYPE doc [<!ATTLIST a>]><a/>",
        "<!DOCTYPE doc [<!ATTLIST a xx CDATA #IMPLIED yy ID #REQUIRED>]><a/>",
        "<!DOCTYPE doc [<!ATTLIST a xx (on|off) 'on' >]><a/>",
        "<!DOCTYPE doc [<!ATTLIST a xx NOTATION (aa | bb) #FIXED \"aa\">]><a/>",
        "<!DOCTYPE doc [<!ENTITY ee 'v'><!ATTLIST a xx CDATA 'x&ee;y'>]><a/>",
    ] {
        let d = doc(t);
        assert_eq!(d.content, vec![element("a", vec![], vec![])]);
        assert_eq!(d.prologue, vec![]);
    }
}

#[test]
fn doctype_declarations_that_fail() {
    for t in [
        // white space is wanted before the name and before an external identifier
        "<!DOCTYPEdoc><a/>",
        "<!DOCTYPE docSYSTEM 'a.dtd'><a/>",
        "<!DOCTYPE doc [<!ELEMENT a>]><a/>",
        "<!DOCTYPE doc [<!ELEMENT a (bb>]><a/>",
        "<!DOCTYPE doc [<!ELEMENT a ()>]><a/>",
        "<!DOCTYPE doc [<!ENTITY ee>]><a/>",
        "<!DOCTYPE doc [<!ENTITY ee 'v\">]><a/>",
        "<!DOCTYPE doc [<!ATTLIST a xx CDATA>]><a/>",
        "<!DOCTYPE doc [<!ATTLIST a xx CDATA '&undeclared;'>]><a/>",
        "<!DOCTYPE doc [<!ATTLIST a xx IDREFX #IMPLIED>]><a/>",
        "<!DOCTYPE doc SYSTEM><a/>",
        "<!DOCTYPE doc PUBLIC 'p'><a/>",
        "<!DOCTYPE doc [<a/>",
    ] {
        assert_eq!(failure(t), "unrecoverable parser error at 1");
    }
}
