//! Unit tests for patterns, rule builders, name normalization, the
//! documented end-to-end scenarios, and idempotence on concrete inputs.

use sanitize_html::rules::Element;
use sanitize_html::rules::Rules;
use sanitize_html::rules::pattern::Pattern;
use sanitize_html::rules::predefined::basic;
use sanitize_html::errors::SanitizeError;
use sanitize_html::rules::predefined;
use sanitize_html::rules::predefined::href;
use sanitize_html::rules::predefined::restricted;
use sanitize_html::rules::predefined::untrusted;
use sanitize_html::sanitize::qual_name_to_string;
use sanitize_html::sanitize::sanitize_dom;
use sanitize_html::tree::DomNode;
use sanitize_html::sanitize_str;
use sanitize_html::tree::QName;

#[test]
fn pattern_any_accepts_everything() {
    let pattern = Pattern::any();
    assert!(pattern.matches(""));
    assert!(pattern.matches("pants"));
}

#[test]
fn pattern_regex_substring_match() {
    let pattern = Pattern::regex("ant").unwrap();
    assert!(!pattern.matches(""));
    assert!(pattern.matches("pants"));
}

#[test]
fn pattern_regex_rejects_malformed_source() {
    assert!(Pattern::regex("(").is_err());
}

#[test]
fn pattern_negation() {
    let pattern = Pattern::any().negate();
    assert!(!pattern.matches(""));
    assert!(!pattern.matches("pants"));
}

#[test]
fn pattern_conjunction() {
    let pan = Pattern::regex("pan").unwrap();
    let ant = Pattern::regex("ant").unwrap();
    let pattern = pan.and(ant);
    assert!(!pattern.matches("pan"));
    assert!(!pattern.matches("ant"));
    assert!(pattern.matches("pants"));
}

#[test]
fn pattern_disjunction() {
    let pan = Pattern::regex("pan").unwrap();
    let pot = Pattern::regex("pot").unwrap();
    let pattern = pan.or(pot);
    assert!(pattern.matches("pants"));
    assert!(pattern.matches("pot"));
    assert!(!pattern.matches("jar"));
}

#[test]
fn href_pattern_scheme_policy() {
    let pattern = href();
    assert!(pattern.matches("filename.xls"));
    assert!(pattern.matches("http://foo.com/"));
    assert!(pattern.matches(" filename with spaces .zip "));
    assert!(!pattern.matches("javascript:pants"));
    assert!(!pattern.matches(" javascript  : window.location = '//example.com/'"));
}

#[test]
fn element_attribute_default_deny() {
    let element = Element::new("a").attribute("href", Pattern::any());
    assert!(element.is_valid("href", "anything"));
    assert!(!element.is_valid("title", "anything"));
}

#[test]
fn element_attribute_pattern_consulted() {
    let element = Element::new("a").attribute("href", Pattern::regex("^x").unwrap());
    assert!(element.is_valid("href", "xyz"));
    assert!(!element.is_valid("href", "yz"));
}

#[test]
fn mandatory_attributes_kept_name_sorted() {
    let element = Element::new("a")
        .mandatory_attribute("a", "1")
        .mandatory_attribute("c", "2")
        .mandatory_attribute("b", "3");
    let names: Vec<&str> = element
        .mandatory_attributes
        .iter()
        .map(|p| p.0.as_str())
        .collect();
    assert_eq!(names, vec!["a", "b", "c"]);
}

#[test]
fn mandatory_attribute_replaces_equal_name() {
    let element = Element::new("a")
        .mandatory_attribute("k", "old")
        .mandatory_attribute("k", "new");
    assert_eq!(element.mandatory_attributes.len(), 1);
    assert_eq!(element.mandatory_attributes[0].1.as_str(), "new");
}

#[test]
fn builders_deduplicate_names() {
    let rules = Rules::new().space("div").space("div").delete("script").delete("script");
    assert_eq!(rules.space_elements.len(), 1);
    assert_eq!(rules.delete_elements.len(), 1);
}

#[test]
fn qual_name_normalization_lowercases() {
    let plain = QName {
        prefix: None,
        ns: String::new(),
        local: "DIV".to_owned(),
    };
    assert_eq!(qual_name_to_string(&plain), "div");
    let spaced = QName {
        prefix: None,
        ns: "URN:Example".to_owned(),
        local: "Tag".to_owned(),
    };
    assert_eq!(qual_name_to_string(&spaced), "urn:example:tag");
    let html = QName {
        prefix: None,
        ns: "http://www.w3.org/1999/xhtml".to_owned(),
        local: "Span".to_owned(),
    };
    assert_eq!(qual_name_to_string(&html), "span");
}

#[test]
fn scenario_default_strips_tags() {
    assert_eq!(
        &sanitize_str(&predefined::default(), "<b>Lo<!-- comment -->rem</b> <a href=\"pants\" title=\"foo\">ipsum</a>")
            .unwrap(),
        "Lorem ipsum"
    );
}

#[test]
fn scenario_restricted_keeps_simple_markup() {
    assert_eq!(
        &sanitize_str(&restricted(), "<b>Lo<!-- comment -->rem</b> <a href=\"pants\" title=\"foo\">ipsum</a>")
            .unwrap(),
        "<b>Lorem</b> ipsum"
    );
}

#[test]
fn scenario_basic_rejects_unsafe_scheme() {
    assert_eq!(
        &sanitize_str(&basic(), "<a href=\"javascript:pants\">foo</a>").unwrap(),
        "<a>foo</a>"
    );
}

#[test]
fn scenario_untrusted_appends_sorted_mandatory_attributes() {
    assert_eq!(
        &sanitize_str(&untrusted(), "<a href=\"http://foo.com/\">x</a>").unwrap(),
        "<a href=\"http://foo.com/\" rel=\"noreferrer noopener\" target=\"_blank\">x</a>"
    );
}

#[test]
fn deleted_subtree_never_reaches_output() {
    assert_eq!(
        &sanitize_str(&predefined::default(), "<script><b>kept elsewhere</b>payload</script>").unwrap(),
        ""
    );
}

#[test]
fn space_element_with_no_children_leaves_one_space() {
    assert_eq!(&sanitize_str(&predefined::default(), "<div></div>").unwrap(), " ");
}

#[test]
fn unknown_element_children_survive() {
    assert_eq!(&sanitize_str(&restricted(), "<q>abc</q>").unwrap(), "abc");
}

#[test]
fn sanitizing_twice_changes_nothing_default() {
    let input = "<b>Lo<!-- comment -->rem</b> <a href=\"pants\" title=\"foo\">ipsum</a> sit<br/>amet <script>alert(\"x\");</script>";
    let once = sanitize_str(&predefined::default(), input).unwrap();
    let twice = sanitize_str(&predefined::default(), &once).unwrap();
    assert_eq!(once, twice);
}

#[test]
fn sanitizing_twice_changes_nothing_untrusted() {
    let input = "<a href=\"http://foo.com/\">x</a><div>y</div><em>z</em>";
    let once = sanitize_str(&untrusted(), input).unwrap();
    let twice = sanitize_str(&untrusted(), &once).unwrap();
    assert_eq!(once, twice);
}

#[test]
fn error_descriptions_name_the_failing_stage() {
    assert_eq!(SanitizeError::Decode.message(), "input could not be decoded");
    assert_eq!(
        SanitizeError::Serialize.message(),
        "output could not be serialized"
    );
}

#[test]
fn sanitize_dom_keeps_text_and_drops_doctype() {
    let root = DomNode::Document {
        children: vec![
            DomNode::Text { text: "hi".to_owned() },
            DomNode::Doctype,
            DomNode::ProcessingInstruction,
        ],
    };
    let out = sanitize_dom(&root, &predefined::default());
    match out {
        DomNode::Document { children } => {
            assert_eq!(children.len(), 1);
            match &children[0] {
                DomNode::Text { text } => assert_eq!(text, "hi"),
                _ => panic!("expected a text node"),
            }
        },
        _ => panic!("expected a document node"),
    }
}
