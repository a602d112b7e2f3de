//! The boundary to the external markup parser and serializer.
//!
//! Parsing raw bytes into a tree and turning a tree back into bytes are
//! an external library's work. The functions here call it and copy its
//! document representation into and out of the library's own [`DomNode`];
//! their contracts name the parser's and serializer's results, which are
//! functions of their inputs alone.

use vstd::prelude::*;
use html5ever::tendril::TendrilSink;
use markup5ever_rcdom::NodeData;
use std::cell::RefCell;
use crate::errors::SanitizeError;
use crate::tree::Attr;
use crate::tree::DomNode;
use crate::tree::DomNodeV;
use crate::tree::QName;
use crate::tree::doc_only_at_root;

verus! {

/// Verus sees the external document node as an opaque type.
#[verifier::external_type_specification]
#[verifier::external_body]
pub struct ExRcNode(markup5ever_rcdom::Node);

/// Verus sees the external qualified name as an opaque type.
#[verifier::external_type_specification]
#[verifier::external_body]
pub struct ExQualName(html5ever::QualName);

/// Verus sees the external attribute as an opaque type.
#[verifier::external_type_specification]
#[verifier::external_body]
pub struct ExAttribute(html5ever::Attribute);

/// Verus sees the external node payload as an opaque type.
#[verifier::external_type_specification]
#[verifier::external_body]
pub struct ExNodeData(markup5ever_rcdom::NodeData);

/// What the external parser produces for a byte input. Parsing recovers
/// from any malformed input, and the tree is a function of the bytes
/// alone.
pub uninterp spec fn parse_of(input: Seq<u8>) -> DomNodeV;

/// What the external serializer emits for a tree; the bytes are a
/// function of the tree alone.
pub uninterp spec fn serialized(root: DomNodeV) -> Seq<u8>;

/// Copies an external qualified name into the library's own.
#[verifier::external_body]
fn qual_name_from(q: &html5ever::QualName) -> QName {
    QName {
        prefix: q.prefix.as_ref().map(|p| p.to_string()),
        ns: q.ns.to_string(),
        local: q.local.to_string(),
    }
}

/// Copies the children list of an external node, depth first.
#[verifier::external_body]
fn children_from_rcdom(h: &markup5ever_rcdom::Handle) -> Vec<DomNode> {
    let mut children: Vec<DomNode> = Vec::new();
    for c in h.children.borrow().iter() {
        children.push(node_from_rcdom(c));
    }
    children
}

/// Copies the attribute list of an external element node.
#[verifier::external_body]
fn attrs_from_rcdom(h: &markup5ever_rcdom::Handle) -> Vec<Attr> {
    let mut out: Vec<Attr> = Vec::new();
    if let NodeData::Element { attrs, .. } = &h.data {
        for a in attrs.borrow().iter() {
            out.push(Attr { name: qual_name_from(&a.name), value: a.value.to_string() });
        }
    }
    out
}

/// Copies one external node into the library's tree, one arm per
/// external variant.
#[verifier::external_body]
fn node_from_rcdom(h: &markup5ever_rcdom::Handle) -> DomNode {
    match &h.data {
        NodeData::Document => DomNode::Document { children: children_from_rcdom(h) },
        NodeData::Doctype { .. } => DomNode::Doctype,
        NodeData::ProcessingInstruction { .. } => DomNode::ProcessingInstruction,
        NodeData::Comment { contents } => DomNode::Comment { text: contents.to_string() },
        NodeData::Text { contents } => DomNode::Text { text: contents.borrow().to_string() },
        NodeData::Element { name, .. } => DomNode::Element {
            name: qual_name_from(name),
            attrs: attrs_from_rcdom(h),
            children: children_from_rcdom(h),
        },
    }
}

/// Relies on the external parser, run over the whole input with doctype
/// declarations dropped: it decodes lossily, recovers from malformed
/// input rather than failing, and reads from an in-memory buffer, so it
/// always succeeds; its result is a function of the bytes alone, which
/// [`parse_of`] names. The error arm is kept only as a guard.
#[verifier::external_body]
pub(crate) fn parse_html(input: &[u8]) -> (r: Result<DomNode, SanitizeError>)
    ensures
        r is Ok,
        r matches Ok(n) ==> n@ == parse_of(input@),
{
    let mut opts = html5ever::ParseOpts::default();
    opts.tree_builder.drop_doctype = true;
    let mut cursor = std::io::Cursor::new(input);
    let parser = html5ever::parse_document(markup5ever_rcdom::RcDom::default(), opts);
    match parser.from_utf8().read_from(&mut cursor) {
        Ok(dom) => Result::Ok(node_from_rcdom(&dom.document)),
        Err(_) => Result::Err(SanitizeError::Decode),
    }
}

/// Rebuilds one library name as an external qualified name.
#[verifier::external_body]
fn qual_name_to(q: &QName) -> html5ever::QualName {
    html5ever::QualName::new(
        q.prefix.as_ref().map(|p| html5ever::Prefix::from(p.as_str())),
        html5ever::Namespace::from(q.ns.as_str()),
        html5ever::LocalName::from(q.local.as_str()),
    )
}

/// Rebuilds a library attribute list as external attributes.
#[verifier::external_body]
fn attrs_to_rcdom(attrs: &Vec<Attr>) -> Vec<html5ever::Attribute> {
    let mut out: Vec<html5ever::Attribute> = Vec::new();
    for a in attrs.iter() {
        out.push(html5ever::Attribute {
            name: qual_name_to(&a.name),
            value: a.value.as_str().into(),
        });
    }
    out
}

/// Rebuilds one library node's payload as an external payload, one arm
/// per variant.
#[verifier::external_body]
fn node_data_to(n: &DomNode) -> markup5ever_rcdom::NodeData {
    match n {
        DomNode::Document { .. } => NodeData::Document,
        DomNode::Doctype => NodeData::Doctype { name: "".into(), public_id: "".into(), system_id: "".into() },
        DomNode::ProcessingInstruction => NodeData::ProcessingInstruction { target: "".into(), contents: "".into() },
        DomNode::Comment { text } => NodeData::Comment { contents: text.as_str().into() },
        DomNode::Text { text } => NodeData::Text { contents: RefCell::new(text.as_str().into()) },
        DomNode::Element { name, attrs, .. } => NodeData::Element {
            name: qual_name_to(name),
            attrs: RefCell::new(attrs_to_rcdom(attrs)),
            template_contents: Default::default(),
            mathml_annotation_xml_integration_point: Default::default(),
        },
    }
}

/// Rebuilds one library node as an external node, depth first.
#[verifier::external_body]
fn node_to_rcdom(n: &DomNode) -> markup5ever_rcdom::Handle {
    let handle = markup5ever_rcdom::Node::new(node_data_to(n));
    let kids: &Vec<DomNode> = match n {
        DomNode::Document { children } => children,
        DomNode::Element { children, .. } => children,
        _ => return handle,
    };
    let mut converted: Vec<markup5ever_rcdom::Handle> = Vec::new();
    for c in kids.iter() {
        converted.push(node_to_rcdom(c));
    }
    handle.children.borrow_mut().extend(converted);
    handle
}

/// Relies on the external serializer, emitting the children of the tree
/// root under a phantom parent: its output is a function of the tree
/// alone, which [`serialized`] names, and is built solely from string
/// slices, so it is valid UTF-8. Writing into a byte vector cannot
/// fail, so serialization always succeeds; the error arm is kept only
/// as a guard. The external tree walker refuses a document node below
/// the traversal root, which the precondition excludes.
#[verifier::external_body]
pub(crate) fn serialize_html(root: &DomNode) -> (r: Result<Vec<u8>, SanitizeError>)
    requires
        doc_only_at_root(root@),
    ensures
        r is Ok,
        r matches Ok(b) ==> b@ == serialized(root@) && vstd::utf8::valid_utf8(b@),
{
    let ns: html5ever::Namespace = "http://www.w3.org/1999/xhtml".into();
    let parent = html5ever::QualName::new(Some("html".into()), ns, "div".into());
    let scope = html5ever::serialize::TraversalScope::ChildrenOnly(Some(parent));
    let opts = html5ever::serialize::SerializeOpts {
        scripting_enabled: false,
        traversal_scope: scope,
        create_missing_parent: false,
    };
    let doc: markup5ever_rcdom::SerializableHandle = node_to_rcdom(root).into();
    let mut buf: Vec<u8> = Vec::new();
    match html5ever::serialize(&mut buf, &doc, opts) {
        Ok(()) => Result::Ok(buf),
        Err(_) => Result::Err(SanitizeError::Serialize),
    }
}

/// Relies on `String::from_utf8`: it succeeds exactly on valid UTF-8,
/// decoding the bytes into their characters.
#[verifier::external_body]
pub(crate) fn string_from_utf8(bytes: Vec<u8>) -> (r: Result<String, SanitizeError>)
    ensures
        r matches Ok(s) ==> vstd::utf8::valid_utf8(bytes@) && s@ == vstd::utf8::decode_utf8(
            bytes@,
        ),
        r matches Err(e) ==> !vstd::utf8::valid_utf8(bytes@) && e == SanitizeError::Decode,
{
    match String::from_utf8(bytes) {
        Ok(s) => Result::Ok(s),
        Err(_) => Result::Err(SanitizeError::Decode),
    }
}

} // verus!

