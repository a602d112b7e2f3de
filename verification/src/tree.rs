//! The document tree that the sanitizer consumes and produces.
//!
//! A parsed document arrives as a [`DomNode`]; the sanitizer builds a fresh
//! output tree and never mutates its input. The ghost mirrors ([`DomNodeV`],
//! [`AttrV`], [`QNameV`]) carry the same structure over `Seq`, so that
//! contracts can speak about whole trees mathematically.

use vstd::prelude::*;

verus! {

/// A qualified markup name: an optional prefix, a namespace, and a local name.
pub struct QName {
    /// The namespace prefix as written in the source, if any.
    pub prefix: Option<String>,
    /// The resolved namespace.
    pub ns: String,
    /// The local part of the name.
    pub local: String,
}

/// Ghost mirror of [`QName`].
pub struct QNameV {
    /// The namespace prefix, if any.
    pub prefix: Option<Seq<char>>,
    /// The resolved namespace.
    pub ns: Seq<char>,
    /// The local part of the name.
    pub local: Seq<char>,
}

impl View for QName {
    type V = QNameV;

    open spec fn view(&self) -> QNameV {
        QNameV {
            prefix: match self.prefix {
                Option::Some(p) => Option::Some(p@),
                Option::None => Option::None,
            },
            ns: self.ns@,
            local: self.local@,
        }
    }
}

impl QName {
    /// Builds a name with no prefix and an empty namespace.
    pub fn simple(local: String) -> (r: QName)
        ensures
            r@ == (QNameV { prefix: Option::None, ns: Seq::<char>::empty(), local: local@ }),
    {
        QName { prefix: Option::None, ns: String::new(), local }
    }

    /// Returns an independent copy of this name.
    pub fn duplicate(&self) -> (r: QName)
        ensures
            r@ == self@,
    {
        QName {
            prefix: match &self.prefix {
                Option::Some(p) => Option::Some(p.clone()),
                Option::None => Option::None,
            },
            ns: self.ns.clone(),
            local: self.local.clone(),
        }
    }
}

/// One attribute of an element: a qualified name and a string value.
pub struct Attr {
    /// The attribute's qualified name.
    pub name: QName,
    /// The attribute's value.
    pub value: String,
}

/// Ghost mirror of [`Attr`].
pub struct AttrV {
    /// The attribute's qualified name.
    pub name: QNameV,
    /// The attribute's value.
    pub value: Seq<char>,
}

impl View for Attr {
    type V = AttrV;

    open spec fn view(&self) -> AttrV {
        AttrV { name: self.name@, value: self.value@ }
    }
}

impl Attr {
    /// Returns an independent copy of this attribute.
    pub fn duplicate(&self) -> (r: Attr)
        ensures
            r@ == self@,
    {
        Attr { name: self.name.duplicate(), value: self.value.clone() }
    }
}

/// One node of a document tree.
pub enum DomNode {
    /// The document root; only its children matter to the sanitizer.
    Document {
        /// The nodes directly under the root.
        children: Vec<DomNode>,
    },
    /// A document type declaration; carries no sanitizable content.
    Doctype,
    /// A processing instruction; carries no sanitizable content.
    ProcessingInstruction,
    /// A comment.
    Comment {
        /// The comment's text.
        text: String,
    },
    /// A text node.
    Text {
        /// The text itself.
        text: String,
    },
    /// An element with a name, attributes, and children.
    Element {
        /// The element's qualified name.
        name: QName,
        /// The element's attributes, in source order.
        attrs: Vec<Attr>,
        /// The element's children, in source order.
        children: Vec<DomNode>,
    },
}

/// Ghost mirror of [`DomNode`].
pub enum DomNodeV {
    /// The document root.
    Document {
        /// The nodes directly under the root.
        children: Seq<DomNodeV>,
    },
    /// A document type declaration.
    Doctype,
    /// A processing instruction.
    ProcessingInstruction,
    /// A comment.
    Comment {
        /// The comment's text.
        text: Seq<char>,
    },
    /// A text node.
    Text {
        /// The text itself.
        text: Seq<char>,
    },
    /// An element.
    Element {
        /// The element's qualified name.
        name: QNameV,
        /// The element's attributes, in source order.
        attrs: Seq<AttrV>,
        /// The element's children, in source order.
        children: Seq<DomNodeV>,
    },
}

/// The ghost mirrors of a sequence of attributes, in order.
pub open spec fn attrs_vw(s: Seq<Attr>) -> Seq<AttrV> {
    s.map_values(|a: Attr| a@)
}

/// The ghost mirror of one node.
pub open spec fn node_view(n: DomNode) -> DomNodeV
    decreases n,
{
    match n {
        DomNode::Document { children } => DomNodeV::Document { children: nodes_view(children@) },
        DomNode::Doctype => DomNodeV::Doctype,
        DomNode::ProcessingInstruction => DomNodeV::ProcessingInstruction,
        DomNode::Comment { text } => DomNodeV::Comment { text: text@ },
        DomNode::Text { text } => DomNodeV::Text { text: text@ },
        DomNode::Element { name, attrs, children } => DomNodeV::Element {
            name: name@,
            attrs: attrs_vw(attrs@),
            children: nodes_view(children@),
        },
    }
}

/// The ghost mirrors of a sequence of nodes, in order.
pub open spec fn nodes_view(s: Seq<DomNode>) -> Seq<DomNodeV>
    decreases s,
{
    Seq::new(
        s.len(),
        |i: int| if 0 <= i < s.len() {
            node_view(s[i])
        } else {
            DomNodeV::Doctype
        },
    )
}

impl View for DomNode {
    type V = DomNodeV;

    open spec fn view(&self) -> DomNodeV {
        node_view(*self)
    }
}

/// Whether no document node stands anywhere in this subtree. The
/// external serializer refuses a document node below the traversal
/// root, so trees handed to it must satisfy this below the root.
pub open spec fn doc_free(n: DomNodeV) -> bool
    decreases n,
{
    match n {
        DomNodeV::Document { .. } => false,
        DomNodeV::Element { children, .. } => all_doc_free(children),
        _ => true,
    }
}

/// Whether every subtree in the sequence is free of document nodes.
pub open spec fn all_doc_free(s: Seq<DomNodeV>) -> bool
    decreases s,
{
    forall|i: int| 0 <= i < s.len() ==> doc_free(#[trigger] s[i])
}

/// Whether a tree may be handed to the serializer: a document node may
/// stand at the root and nowhere below it.
pub open spec fn doc_only_at_root(n: DomNodeV) -> bool {
    match n {
        DomNodeV::Document { children } => all_doc_free(children),
        _ => doc_free(n),
    }
}

/// The view of a concatenation is the concatenation of the views.
pub proof fn lemma_nodes_view_concat(a: Seq<DomNode>, b: Seq<DomNode>)
    ensures
        nodes_view(a + b) == nodes_view(a) + nodes_view(b),
{
    assert(nodes_view(a + b) =~= nodes_view(a) + nodes_view(b));
}

} // verus!
