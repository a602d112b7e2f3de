//! The mathematical model of the sanitizer: name normalization, element
//! classification, and the tree transformation, all as spec functions.
//!
//! The executable sanitizer is proved to return exactly what
//! [`clean_nodes_v`] describes, so every property of the transformation
//! can be stated and proved against this model.

use vstd::prelude::*;
use crate::rules::ElementV;
use crate::rules::RulesV;
use crate::rules::elems_lookup;
use crate::rules::pair_lookup;
use crate::strutil::lower_of;
use crate::tree::AttrV;
use crate::tree::all_doc_free;
use crate::tree::doc_free;
use crate::tree::doc_only_at_root;
use crate::tree::DomNodeV;
use crate::tree::QNameV;

verus! {

/// The namespace that bare HTML names live in.
pub open spec fn html_ns() -> Seq<char> {
    "http://www.w3.org/1999/xhtml"@
}

/// The normalized string form of a qualified name: the lowercased local
/// name alone when the namespace is empty or the HTML namespace, else
/// the lowercased namespace, a colon, and the lowercased local name.
pub open spec fn norm_name(q: QNameV) -> Seq<char> {
    if q.ns == html_ns() || q.ns.len() == 0 {
        lower_of(q.local)
    } else {
        lower_of(q.ns) + ":"@ + lower_of(q.local)
    }
}

/// The treatment of one element under a rule set.
pub enum ActionV {
    /// Keep the element, with the given attribute policy.
    Keep(ElementV),
    /// Drop the element and its whole subtree.
    Delete,
    /// Replace the element by spaces around its sanitized children.
    Space,
    /// Drop the element but keep its sanitized children.
    Elide,
    /// Keep the element's children under a new name, with no attributes.
    Rename(Seq<char>),
}

/// Classifies an element by its normalized name. The decision order is
/// fixed: the wrapper names `html` and `body` are always elided; then an
/// allowed-element rule wins over delete, delete over space, and space
/// over rename; any name matching nothing is elided.
pub open spec fn classify(rules: RulesV, name: Seq<char>) -> ActionV {
    if name == "html"@ || name == "body"@ {
        ActionV::Elide
    } else {
        match elems_lookup(rules.allowed_elements, name) {
            Option::Some(e) => ActionV::Keep(e),
            Option::None => if rules.delete_elements.contains(name) {
                ActionV::Delete
            } else if rules.space_elements.contains(name) {
                ActionV::Space
            } else {
                match pair_lookup(rules.rename_elements, name) {
                    Option::Some(to) => ActionV::Rename(to),
                    Option::None => ActionV::Elide,
                }
            },
        }
    }
}

/// Whether a kept element's policy keeps a given attribute: the
/// attribute's normalized name must carry a pattern that its value matches.
pub open spec fn keeps_attr(rule: ElementV, a: AttrV) -> bool {
    rule.spec_is_valid(norm_name(a.name), a.value)
}

/// The attribute filter of one rule, as a predicate value.
pub open spec fn keep_pred(rule: ElementV) -> spec_fn(AttrV) -> bool {
    |a: AttrV| keeps_attr(rule, a)
}

/// A rule's mandatory attributes as attribute nodes: prefix-free names
/// in the empty namespace, in the rule's name-sorted order.
pub open spec fn mandatory_attrs(rule: ElementV) -> Seq<AttrV> {
    rule.mandatory_attributes.map_values(
        |p: (Seq<char>, Seq<char>)| AttrV {
            name: QNameV { prefix: Option::None, ns: Seq::<char>::empty(), local: p.0 },
            value: p.1,
        },
    )
}

/// The attribute list of a kept element: the source attributes that pass
/// the rule's patterns, in source order, followed by the rule's mandatory
/// attributes.
pub open spec fn clean_attrs(rule: ElementV, attrs: Seq<AttrV>) -> Seq<AttrV> {
    attrs.filter(keep_pred(rule)) + mandatory_attrs(rule)
}

/// A single space text node.
pub open spec fn space_text() -> DomNodeV {
    DomNodeV::Text { text: " "@ }
}

/// The replacement nodes for one node: nothing for document, doctype and
/// processing-instruction nodes; text unchanged; comments as the rule set
/// allows; elements according to their classification.
pub open spec fn clean_node_v(n: DomNodeV, rules: RulesV) -> Seq<DomNodeV>
    decreases n,
{
    match n {
        DomNodeV::Document { .. } => Seq::<DomNodeV>::empty(),
        DomNodeV::Doctype => Seq::<DomNodeV>::empty(),
        DomNodeV::ProcessingInstruction => Seq::<DomNodeV>::empty(),
        DomNodeV::Text { .. } => seq![n],
        DomNodeV::Comment { .. } => if rules.allow_comments {
            seq![n]
        } else {
            Seq::<DomNodeV>::empty()
        },
        DomNodeV::Element { name, attrs, children } => match classify(rules, norm_name(name)) {
            ActionV::Keep(rule) => seq![
                DomNodeV::Element {
                    name,
                    attrs: clean_attrs(rule, attrs),
                    children: clean_nodes_v(children, rules),
                },
            ],
            ActionV::Delete => Seq::<DomNodeV>::empty(),
            ActionV::Space => {
                let inner = clean_nodes_v(children, rules);
                if inner.len() == 0 {
                    seq![space_text()]
                } else {
                    seq![space_text()] + inner + seq![space_text()]
                }
            },
            ActionV::Elide => clean_nodes_v(children, rules),
            ActionV::Rename(to) => seq![
                DomNodeV::Element {
                    name: QNameV {
                        prefix: Option::None,
                        ns: Seq::<char>::empty(),
                        local: to,
                    },
                    attrs: Seq::<AttrV>::empty(),
                    children: clean_nodes_v(children, rules),
                },
            ],
        },
    }
}

/// The replacement nodes for a sequence of siblings, flattened in order.
pub open spec fn clean_nodes_v(s: Seq<DomNodeV>, rules: RulesV) -> Seq<DomNodeV>
    decreases s,
{
    if s.len() == 0 {
        Seq::<DomNodeV>::empty()
    } else {
        clean_node_v(s[0], rules) + clean_nodes_v(s.drop_first(), rules)
    }
}

/// The nodes directly under the root handed to the sanitizer.
pub open spec fn root_children(n: DomNodeV) -> Seq<DomNodeV> {
    match n {
        DomNodeV::Document { children } => children,
        DomNodeV::Element { children, .. } => children,
        _ => Seq::<DomNodeV>::empty(),
    }
}

/// The sanitized document for a given root: a fresh document node whose
/// children are the sanitized children of the root.
pub open spec fn sanitize_v(root: DomNodeV, rules: RulesV) -> DomNodeV {
    DomNodeV::Document { children: clean_nodes_v(root_children(root), rules) }
}

/// Splitting a sibling cleanup at its last node.
pub proof fn lemma_clean_nodes_v_snoc(s: Seq<DomNodeV>, rules: RulesV)
    requires
        s.len() > 0,
    ensures
        clean_nodes_v(s, rules) == clean_nodes_v(s.drop_last(), rules) + clean_node_v(
            s.last(),
            rules,
        ),
    decreases s.len(),
{
    if s.len() == 1 {
        assert(s.drop_first() =~= Seq::<DomNodeV>::empty());
        assert(s.drop_last() =~= Seq::<DomNodeV>::empty());
        assert(s[0] == s.last());
        assert(clean_node_v(s[0], rules) + Seq::<DomNodeV>::empty() =~= clean_node_v(s[0], rules));
        assert(Seq::<DomNodeV>::empty() + clean_node_v(s.last(), rules) =~= clean_node_v(
            s.last(),
            rules,
        ));
    } else {
        let t = s.drop_first();
        lemma_clean_nodes_v_snoc(t, rules);
        assert(t.drop_last() =~= s.drop_last().drop_first());
        assert(t.last() == s.last());
        assert(s.drop_last().len() > 0);
        assert(s.drop_last()[0] == s[0]);
        assert((clean_node_v(s[0], rules) + clean_nodes_v(s.drop_last().drop_first(), rules))
            + clean_node_v(s.last(), rules) =~= clean_node_v(s[0], rules) + (clean_nodes_v(
            s.drop_last().drop_first(),
            rules,
        ) + clean_node_v(s.last(), rules)));
    }
}

/// What one node becomes never contains a document node, at any depth.
pub proof fn lemma_clean_node_doc_free(n: DomNodeV, rules: RulesV)
    ensures
        all_doc_free(clean_node_v(n, rules)),
    decreases n,
{
    match n {
        DomNodeV::Document { .. } => {},
        DomNodeV::Doctype => {},
        DomNodeV::ProcessingInstruction => {},
        DomNodeV::Text { .. } => {},
        DomNodeV::Comment { .. } => {},
        DomNodeV::Element { name, attrs, children } => {
            lemma_clean_nodes_doc_free(children, rules);
            let inner = clean_nodes_v(children, rules);
            match classify(rules, norm_name(name)) {
                ActionV::Keep(rule) => {},
                ActionV::Delete => {},
                ActionV::Space => {
                    if inner.len() > 0 {
                        let out = seq![space_text()] + inner + seq![space_text()];
                        assert forall|i: int| 0 <= i < out.len() implies doc_free(
                            #[trigger] out[i],
                        ) by {
                            if 1 <= i < out.len() - 1 {
                                assert(out[i] == inner[i - 1]);
                            }
                        }
                    }
                },
                ActionV::Elide => {},
                ActionV::Rename(_) => {},
            }
        },
    }
}

/// What a sibling list becomes never contains a document node.
pub proof fn lemma_clean_nodes_doc_free(s: Seq<DomNodeV>, rules: RulesV)
    ensures
        all_doc_free(clean_nodes_v(s, rules)),
    decreases s,
{
    if s.len() > 0 {
        lemma_clean_node_doc_free(s[0], rules);
        lemma_clean_nodes_doc_free(s.drop_first(), rules);
        let a = clean_node_v(s[0], rules);
        let b = clean_nodes_v(s.drop_first(), rules);
        assert forall|i: int| 0 <= i < (a + b).len() implies doc_free(#[trigger] (a + b)[i]) by {
            if i < a.len() {
                assert((a + b)[i] == a[i]);
            } else {
                assert((a + b)[i] == b[i - a.len()]);
            }
        }
    }
}

/// A sanitized document may always be handed to the serializer: the
/// fresh document node stands at the root and nowhere below it.
pub proof fn lemma_sanitize_serializable(root: DomNodeV, rules: RulesV)
    ensures
        doc_only_at_root(sanitize_v(root, rules)),
{
    lemma_clean_nodes_doc_free(root_children(root), rules);
}

} // verus!
