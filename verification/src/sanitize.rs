//! The executable tree sanitizer, proved equal to the model in
//! [`crate::model`].

use vstd::prelude::*;
use vstd::string::StringExecFns;
use crate::model::ActionV;
use crate::model::classify;
use crate::model::clean_attrs;
use crate::model::clean_node_v;
use crate::model::clean_nodes_v;
use crate::model::keep_pred;
use crate::model::lemma_clean_nodes_v_snoc;
use crate::model::mandatory_attrs;
use crate::model::norm_name;
use crate::model::root_children;
use crate::model::sanitize_v;
use crate::model::space_text;
use crate::rules::Element;
use crate::rules::ElementV;
use crate::rules::Rules;
use crate::rules::elems_vw;
use crate::rules::find_element_name;
use crate::rules::find_key;
use crate::rules::find_name;
use crate::rules::lemma_elems_lookup_split;
use crate::rules::lemma_pair_lookup_split;
use crate::rules::names_vw;
use crate::rules::str_pairs_vw;
use crate::strutil::to_lowercase;
use crate::tree::Attr;
use crate::tree::AttrV;
use crate::tree::DomNode;
use crate::tree::DomNodeV;
use crate::tree::QName;
use crate::tree::attrs_vw;
use crate::tree::lemma_nodes_view_concat;
use crate::tree::node_view;
use crate::tree::nodes_view;

verus! {

/// The normalized string form of a qualified name, as the classification
/// policy compares names.
pub fn qual_name_to_string(name: &QName) -> (r: String)
    ensures
        r@ == norm_name(name@),
{
    let html_namespace = "http://www.w3.org/1999/xhtml".to_owned();
    if name.ns == html_namespace || name.ns.as_str().is_empty() {
        to_lowercase(name.local.as_str())
    } else {
        let mut r = to_lowercase(name.ns.as_str());
        r.append(":");
        let low_local = to_lowercase(name.local.as_str());
        r.append(low_local.as_str());
        r
    }
}

/// The treatment of one element, borrowing the matched rule or new name.
pub(crate) enum ElementAction<'t> {
    /// Keep the element under the borrowed attribute policy.
    Keep(&'t Element),
    /// Drop the element and its whole subtree.
    Delete,
    /// Replace the element by spaces around its sanitized children.
    Space,
    /// Drop the element but keep its sanitized children.
    Elide,
    /// Keep the element's children under the borrowed new name.
    Rename(&'t String),
}

/// Decides the treatment of an element under the rule set; agrees with
/// [`classify`] on the element's normalized name.
pub(crate) fn element_action<'t>(element_name: &QName, rules: &'t Rules) -> (r: ElementAction<
    't,
>)
    ensures
        ({
            let act = classify(rules@, norm_name(element_name@));
            match r {
                ElementAction::Keep(e) => act == ActionV::Keep(e@),
                ElementAction::Delete => act == ActionV::Delete,
                ElementAction::Space => act == ActionV::Space,
                ElementAction::Elide => act == ActionV::Elide,
                ElementAction::Rename(to) => act == ActionV::Rename(to@),
            }
        }),
{
    let name = qual_name_to_string(element_name);
    let html_name = "html".to_owned();
    let body_name = "body".to_owned();
    if name == html_name || name == body_name {
        return ElementAction::Elide;
    }
    let ghost av = elems_vw(rules.allowed_elements@);
    let ai = find_element_name(&rules.allowed_elements, &name);
    proof {
        assert forall|j: int| 0 <= j < ai implies (#[trigger] av[j]).name != name@ by {
            assert(av[j] == rules.allowed_elements@[j]@);
        }
        lemma_elems_lookup_split(av, name@, ai as int);
    }
    if ai < rules.allowed_elements.len() {
        proof {
            assert(av.skip(ai as int)[0] == av[ai as int]);
            assert(av[ai as int].name == name@);
        }
        return ElementAction::Keep(&rules.allowed_elements[ai]);
    }
    proof {
        assert(av.skip(ai as int) =~= Seq::<ElementV>::empty());
    }
    let di = find_name(&rules.delete_elements, &name);
    if di < rules.delete_elements.len() {
        proof {
            assert(names_vw(rules.delete_elements@)[di as int] == name@);
        }
        return ElementAction::Delete;
    }
    proof {
        assert(!rules@.delete_elements.contains(name@)) by {
            assert forall|j: int| 0 <= j < rules@.delete_elements.len() implies #[trigger] rules@.delete_elements[j]
                != name@ by {
                assert(rules@.delete_elements[j] == rules.delete_elements@[j]@);
            }
        }
    }
    let si = find_name(&rules.space_elements, &name);
    if si < rules.space_elements.len() {
        proof {
            assert(names_vw(rules.space_elements@)[si as int] == name@);
        }
        return ElementAction::Space;
    }
    proof {
        assert(!rules@.space_elements.contains(name@)) by {
            assert forall|j: int| 0 <= j < rules@.space_elements.len() implies #[trigger] rules@.space_elements[j]
                != name@ by {
                assert(rules@.space_elements[j] == rules.space_elements@[j]@);
            }
        }
    }
    let ghost rv = str_pairs_vw(rules.rename_elements@);
    let ri = find_key(&rules.rename_elements, &name);
    proof {
        assert forall|j: int| 0 <= j < ri implies (#[trigger] rv[j]).0 != name@ by {
            assert(rv[j] == (rules.rename_elements@[j].0@, rules.rename_elements@[j].1@));
        }
        lemma_pair_lookup_split(rv, name@, ri as int);
    }
    if ri < rules.rename_elements.len() {
        proof {
            assert(rv.skip(ri as int)[0] == rv[ri as int]);
            assert(rv[ri as int].0 == name@);
        }
        return ElementAction::Rename(&rules.rename_elements[ri].1);
    }
    proof {
        assert(rv.skip(ri as int) =~= Seq::<(Seq<char>, Seq<char>)>::empty());
    }
    ElementAction::Elide
}

/// Builds a single space text node.
pub fn create_space_text() -> (r: DomNode)
    ensures
        r@ == space_text(),
{
    DomNode::Text { text: " ".to_owned() }
}

/// The replacement nodes for a sequence of siblings, flattened in order.
pub fn clean_nodes(nodes: &Vec<DomNode>, rules: &Rules) -> (r: Vec<DomNode>)
    ensures
        nodes_view(r@) == clean_nodes_v(nodes_view(nodes@), rules@),
    decreases nodes,
{
    let ghost s = nodes_view(nodes@);
    let mut result: Vec<DomNode> = Vec::new();
    proof {
        assert(nodes_view(result@) =~= Seq::<DomNodeV>::empty());
        assert(s.take(0) =~= Seq::<DomNodeV>::empty());
    }
    let n = nodes.len();
    let mut i: usize = 0;
    while i < n
        invariant
            n == nodes@.len(),
            i <= n,
            s == nodes_view(nodes@),
            nodes_view(result@) == clean_nodes_v(s.take(i as int), rules@),
        decreases n - i,
    {
        let mut part = clean_node(&nodes[i], rules);
        let ghost rv = result@;
        let ghost pv = part@;
        result.append(&mut part);
        proof {
            lemma_nodes_view_concat(rv, pv);
            assert(s.take(i + 1).drop_last() =~= s.take(i as int));
            assert(s.take(i + 1).last() == s[i as int]);
            assert(s[i as int] == node_view(nodes@[i as int]));
            lemma_clean_nodes_v_snoc(s.take(i + 1), rules@);
        }
        i += 1;
    }
    proof {
        assert(s.take(n as int) =~= s);
    }
    result
}

/// The replacement nodes for one node.
pub fn clean_node(node: &DomNode, rules: &Rules) -> (r: Vec<DomNode>)
    ensures
        nodes_view(r@) == clean_node_v(node@, rules@),
    decreases node,
{
    match node {
        DomNode::Document { .. } => {
            let r: Vec<DomNode> = Vec::new();
            proof {
                assert(nodes_view(r@) =~= Seq::<DomNodeV>::empty());
            }
            r
        },
        DomNode::Doctype => {
            let r: Vec<DomNode> = Vec::new();
            proof {
                assert(nodes_view(r@) =~= Seq::<DomNodeV>::empty());
            }
            r
        },
        DomNode::ProcessingInstruction => {
            let r: Vec<DomNode> = Vec::new();
            proof {
                assert(nodes_view(r@) =~= Seq::<DomNodeV>::empty());
            }
            r
        },
        DomNode::Text { text } => {
            let mut r: Vec<DomNode> = Vec::new();
            r.push(DomNode::Text { text: text.clone() });
            proof {
                assert(nodes_view(r@) =~= seq![node_view(*node)]);
            }
            r
        },
        DomNode::Comment { text } => {
            let mut r: Vec<DomNode> = Vec::new();
            if rules.allow_comments {
                r.push(DomNode::Comment { text: text.clone() });
                proof {
                    assert(nodes_view(r@) =~= seq![node_view(*node)]);
                }
            } else {
                proof {
                    assert(nodes_view(r@) =~= Seq::<DomNodeV>::empty());
                }
            }
            r
        },
        DomNode::Element { name, attrs, children } => {
            match element_action(name, rules) {
                ElementAction::Keep(element_rule) => {
                    let ghost rule_v = element_rule@;
                    let ghost sa = attrs_vw(attrs@);
                    let mut new_attrs: Vec<Attr> = Vec::new();
                    proof {
                        reveal(Seq::filter);
                        assert(sa.take(0) =~= Seq::<AttrV>::empty());
                        assert(Seq::<AttrV>::empty().filter(keep_pred(rule_v)) =~= Seq::<
                            AttrV,
                        >::empty());
                        assert(attrs_vw(new_attrs@) =~= Seq::<AttrV>::empty());
                    }
                    let na = attrs.len();
                    let mut i: usize = 0;
                    while i < na
                        invariant
                            na == attrs@.len(),
                            i <= na,
                            sa == attrs_vw(attrs@),
                            rule_v == element_rule@,
                            attrs_vw(new_attrs@) == sa.take(i as int).filter(keep_pred(rule_v)),
                        decreases na - i,
                    {
                        let norm = qual_name_to_string(&attrs[i].name);
                        let keep = element_rule.is_valid(norm.as_str(), attrs[i].value.as_str());
                        if keep {
                            let ghost before = new_attrs@;
                            new_attrs.push(attrs[i].duplicate());
                            proof {
                                assert(attrs_vw(new_attrs@) =~= attrs_vw(before).push(
                                    attrs@[i as int]@,
                                ));
                            }
                        }
                        proof {
                            reveal(Seq::filter);
                            assert(sa.take(i + 1).drop_last() =~= sa.take(i as int));
                            assert(sa.take(i + 1).last() == sa[i as int]);
                            assert(sa[i as int] == attrs@[i as int]@);
                            assert(keep == keep_pred(rule_v)(sa[i as int]));
                        }
                        i += 1;
                    }
                    proof {
                        assert(sa.take(na as int) =~= sa);
                    }
                    let ghost filtered = attrs_vw(new_attrs@);
                    let ghost mnd = mandatory_attrs(rule_v);
                    proof {
                        assert(filtered + mnd.take(0) =~= filtered);
                    }
                    let nm = element_rule.mandatory_attributes.len();
                    let mut j: usize = 0;
                    while j < nm
                        invariant
                            nm == element_rule.mandatory_attributes@.len(),
                            j <= nm,
                            rule_v == element_rule@,
                            mnd == mandatory_attrs(rule_v),
                            attrs_vw(new_attrs@) == filtered + mnd.take(j as int),
                        decreases nm - j,
                    {
                        let mand_name = element_rule.mandatory_attributes[j].0.clone();
                        let mand_value = element_rule.mandatory_attributes[j].1.clone();
                        let attr = Attr { name: QName::simple(mand_name), value: mand_value };
                        let ghost av = attr@;
                        let ghost before = new_attrs@;
                        new_attrs.push(attr);
                        proof {
                            assert(mnd[j as int] == av);
                            assert(attrs_vw(new_attrs@) =~= attrs_vw(before).push(av));
                            assert(mnd.take(j + 1).drop_last() =~= mnd.take(j as int));
                            assert((filtered + mnd.take(j as int)).push(av) =~= filtered + mnd.take(
                                j + 1,
                            ));
                        }
                        j += 1;
                    }
                    proof {
                        assert(mnd.take(nm as int) =~= mnd);
                        assert(attrs_vw(new_attrs@) == clean_attrs(rule_v, sa));
                    }
                    let new_children = clean_nodes(children, rules);
                    let element = DomNode::Element {
                        name: name.duplicate(),
                        attrs: new_attrs,
                        children: new_children,
                    };
                    let ghost ev = node_view(element);
                    let mut r: Vec<DomNode> = Vec::new();
                    r.push(element);
                    proof {
                        assert(nodes_view(r@) =~= seq![ev]);
                    }
                    r
                },
                ElementAction::Delete => {
                    let r: Vec<DomNode> = Vec::new();
                    proof {
                        assert(nodes_view(r@) =~= Seq::<DomNodeV>::empty());
                    }
                    r
                },
                ElementAction::Elide => clean_nodes(children, rules),
                ElementAction::Space => {
                    let mut out = clean_nodes(children, rules);
                    let ghost inner = nodes_view(out@);
                    if out.len() == 0 {
                        out.push(create_space_text());
                        proof {
                            assert(nodes_view(out@) =~= seq![space_text()]);
                        }
                    } else {
                        out.insert(0, create_space_text());
                        out.push(create_space_text());
                        proof {
                            assert(nodes_view(out@) =~= seq![space_text()] + inner + seq![
                                space_text(),
                            ]);
                        }
                    }
                    out
                },
                ElementAction::Rename(rename_to) => {
                    let new_children = clean_nodes(children, rules);
                    let element = DomNode::Element {
                        name: QName::simple(rename_to.clone()),
                        attrs: Vec::new(),
                        children: new_children,
                    };
                    let ghost ev = node_view(element);
                    let mut r: Vec<DomNode> = Vec::new();
                    r.push(element);
                    proof {
                        assert(ev->Element_attrs =~= Seq::<AttrV>::empty());
                        assert(nodes_view(r@) =~= seq![ev]);
                    }
                    r
                },
            }
        },
    }
}

/// Sanitizes a whole document: the root's children are cleaned and
/// wrapped in a fresh document node; the root itself is never emitted.
pub fn sanitize_dom(root: &DomNode, rules: &Rules) -> (r: DomNode)
    ensures
        r@ == sanitize_v(root@, rules@),
{
    let new_children = match root {
        DomNode::Document { children } => clean_nodes(children, rules),
        DomNode::Element { children, .. } => clean_nodes(children, rules),
        _ => {
            let r: Vec<DomNode> = Vec::new();
            proof {
                assert(nodes_view(r@) =~= Seq::<DomNodeV>::empty());
                assert(clean_nodes_v(Seq::<DomNodeV>::empty(), rules@) == Seq::<DomNodeV>::empty());
            }
            r
        },
    };
    proof {
        assert(nodes_view(new_children@) == clean_nodes_v(root_children(root@), rules@));
    }
    DomNode::Document { children: new_children }
}

} // verus!
