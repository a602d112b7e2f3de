//! Laws of the sanitizer, proved against the model in [`crate::model`].
//!
//! Each public proof function states one guarantee of the tree
//! transformation for every input the guarantee covers.

use vstd::prelude::*;
use crate::model::ActionV;
use crate::model::classify;
use crate::model::clean_attrs;
use crate::model::clean_node_v;
use crate::model::clean_nodes_v;
use crate::model::keep_pred;
use crate::model::keeps_attr;
use crate::model::mandatory_attrs;
use crate::model::norm_name;
use crate::model::sanitize_v;
use crate::model::space_text;
use crate::rules::ElementV;
use crate::rules::RulesV;
use crate::rules::elems_lookup;
use crate::rules::mand_insert;
use crate::rules::pair_lookup;
use crate::rules::sorted_by_key;
use crate::strutil::lemma_lex_lt_connected;
use crate::strutil::lemma_lex_lt_trans;
use crate::strutil::lex_lt;
use crate::strutil::lower_of;
use crate::tree::AttrV;
use crate::tree::DomNodeV;
use crate::tree::QNameV;

verus! {

/// Default-deny law: an element whose normalized name is found in none
/// of the rule set's collections disappears from the output, while its
/// sanitized children are kept in its place.
pub proof fn lemma_default_deny(
    name: QNameV,
    attrs: Seq<AttrV>,
    children: Seq<DomNodeV>,
    rules: RulesV,
)
    requires
        elems_lookup(rules.allowed_elements, norm_name(name)) is None,
        !rules.delete_elements.contains(norm_name(name)),
        !rules.space_elements.contains(norm_name(name)),
        pair_lookup(rules.rename_elements, norm_name(name)) is None,
    ensures
        clean_node_v(DomNodeV::Element { name, attrs, children }, rules) == clean_nodes_v(
            children,
            rules,
        ),
{
    assert(classify(rules, norm_name(name)) == ActionV::Elide);
}

/// Attribute default-deny law: every attribute on a kept element's
/// output either passed the rule's pattern for its normalized name —
/// impossible for an attribute name the rule does not list — or is one
/// of the rule's mandatory attributes.
pub proof fn lemma_attribute_default_deny(rule: ElementV, attrs: Seq<AttrV>, j: int)
    requires
        0 <= j < clean_attrs(rule, attrs).len(),
    ensures
        keeps_attr(rule, clean_attrs(rule, attrs)[j]) || rule.mandatory_attributes.contains(
            (clean_attrs(rule, attrs)[j].name.local, clean_attrs(rule, attrs)[j].value),
        ),
{
    let f = attrs.filter(keep_pred(rule));
    let out = clean_attrs(rule, attrs);
    if j < f.len() {
        attrs.lemma_filter_pred(keep_pred(rule), j);
        assert(out[j] == f[j]);
        assert(keep_pred(rule)(f[j]));
    } else {
        let k = j - f.len();
        assert(out[j] == mandatory_attrs(rule)[k]);
        assert(rule.mandatory_attributes[k] == (out[j].name.local, out[j].value));
    }
}

/// A key that occurs in a sorted insertion result is the inserted key or
/// one already present.
proof fn lemma_mand_insert_keys(
    s: Seq<(Seq<char>, Seq<char>)>,
    key: Seq<char>,
    value: Seq<char>,
    j: int,
)
    requires
        0 <= j < mand_insert(s, key, value).len(),
    ensures
        mand_insert(s, key, value)[j].0 == key || exists|i: int|
            0 <= i < s.len() && (#[trigger] s[i]).0 == mand_insert(s, key, value)[j].0,
    decreases s.len(),
{
    let out = mand_insert(s, key, value);
    if s.len() == 0 {
    } else if lex_lt(key, s[0].0) {
        if j > 0 {
            assert(out[j] == s[j - 1]);
        }
    } else if s[0].0 == key {
        if j > 0 {
            assert(out[j] == s.drop_first()[j - 1]);
            assert(s.drop_first()[j - 1] == s[j]);
        }
    } else {
        if j > 0 {
            lemma_mand_insert_keys(s.drop_first(), key, value, j - 1);
            assert(out[j] == mand_insert(s.drop_first(), key, value)[j - 1]);
            if exists|i: int|
                0 <= i < s.drop_first().len() && (#[trigger] s.drop_first()[i]).0 == out[j].0 {
                let i = choose|i: int|
                    0 <= i < s.drop_first().len() && (#[trigger] s.drop_first()[i]).0 == out[j].0;
                assert(s[i + 1].0 == out[j].0);
            }
        }
    }
}

/// Sorted insertion keeps the mandatory-attribute list strictly sorted.
pub proof fn lemma_mand_insert_sorted(
    s: Seq<(Seq<char>, Seq<char>)>,
    key: Seq<char>,
    value: Seq<char>,
)
    requires
        sorted_by_key(s),
    ensures
        sorted_by_key(mand_insert(s, key, value)),
    decreases s.len(),
{
    let out = mand_insert(s, key, value);
    if s.len() == 0 {
    } else if lex_lt(key, s[0].0) {
        assert forall|i: int, j: int| 0 <= i < j < out.len() implies lex_lt(
            #[trigger] out[i].0,
            #[trigger] out[j].0,
        ) by {
            if i == 0 {
                assert(out[j] == s[j - 1]);
                if j > 1 {
                    lemma_lex_lt_trans(key, s[0].0, s[j - 1].0);
                }
            } else {
                assert(out[i] == s[i - 1]);
                assert(out[j] == s[j - 1]);
            }
        }
    } else if s[0].0 == key {
        assert forall|i: int, j: int| 0 <= i < j < out.len() implies lex_lt(
            #[trigger] out[i].0,
            #[trigger] out[j].0,
        ) by {
            if i == 0 {
                assert(out[j] == s.drop_first()[j - 1]);
                assert(out[j] == s[j]);
            } else {
                assert(out[i] == s[i]);
                assert(out[j] == s[j]);
            }
        }
    } else {
        if lex_lt(s[0].0, key) {
        } else {
            lemma_lex_lt_connected(key, s[0].0);
        }
        assert(lex_lt(s[0].0, key));
        assert(sorted_by_key(s.drop_first())) by {
            assert forall|i: int, j: int| 0 <= i < j < s.drop_first().len() implies lex_lt(
                (#[trigger] s.drop_first()[i]).0,
                (#[trigger] s.drop_first()[j]).0,
            ) by {
                assert(s.drop_first()[i] == s[i + 1]);
                assert(s.drop_first()[j] == s[j + 1]);
            }
        }
        lemma_mand_insert_sorted(s.drop_first(), key, value);
        let tail = mand_insert(s.drop_first(), key, value);
        assert forall|i: int, j: int| 0 <= i < j < out.len() implies lex_lt(
            #[trigger] out[i].0,
            #[trigger] out[j].0,
        ) by {
            if i == 0 {
                assert(out[j] == tail[j - 1]);
                lemma_mand_insert_keys(s.drop_first(), key, value, j - 1);
                if tail[j - 1].0 == key {
                    assert(lex_lt(out[0].0, out[j].0));
                } else {
                    let tj = tail[j - 1];
                    let w = choose|w: int|
                        0 <= w < s.drop_first().len() && (#[trigger] s.drop_first()[w]).0 == tj.0;
                    assert(s.drop_first()[w] == s[w + 1]);
                    assert(lex_lt(s[0].0, s[w + 1].0));
                }
            } else {
                assert(out[i] == tail[i - 1]);
                assert(out[j] == tail[j - 1]);
            }
        }
    }
}

/// Mandatory-attribute determinism law: under a rule whose mandatory
/// list is sorted — as the builders keep it — the output attribute list
/// of a kept element ends with exactly the mandatory attributes, in
/// strictly increasing name order, whatever the source attributes were.
pub proof fn lemma_mandatory_determinism(rule: ElementV, attrs1: Seq<AttrV>, attrs2: Seq<AttrV>)
    requires
        sorted_by_key(rule.mandatory_attributes),
    ensures
        ({
            let out1 = clean_attrs(rule, attrs1);
            let out2 = clean_attrs(rule, attrs2);
            let m = mandatory_attrs(rule);
            out1.skip(out1.len() - m.len()) == m && out2.skip(out2.len() - m.len()) == m
                && forall|i: int, j: int| 0 <= i < j < m.len() ==> lex_lt(
                (#[trigger] m[i]).name.local,
                (#[trigger] m[j]).name.local,
            )
        }),
{
    let m = mandatory_attrs(rule);
    let out1 = clean_attrs(rule, attrs1);
    let out2 = clean_attrs(rule, attrs2);
    assert(out1.skip(out1.len() - m.len()) =~= m);
    assert(out2.skip(out2.len() - m.len()) =~= m);
    assert forall|i: int, j: int| 0 <= i < j < m.len() implies lex_lt(
        (#[trigger] m[i]).name.local,
        (#[trigger] m[j]).name.local,
    ) by {
        assert(m[i].name.local == rule.mandatory_attributes[i].0);
        assert(m[j].name.local == rule.mandatory_attributes[j].0);
    }
}

/// Delete law: an element classified for deletion contributes nothing to
/// the output, whatever its subtree held.
pub proof fn lemma_delete_discards_subtree(
    name: QNameV,
    attrs: Seq<AttrV>,
    children: Seq<DomNodeV>,
    rules: RulesV,
)
    requires
        classify(rules, norm_name(name)) == ActionV::Delete,
    ensures
        clean_node_v(DomNodeV::Element { name, attrs, children }, rules) == Seq::<
            DomNodeV,
        >::empty(),
{
}

/// Space-symmetry law: a space-disposition element with no surviving
/// children contributes exactly one space text node; with surviving
/// children it contributes exactly one space text node on each side of
/// them.
pub proof fn lemma_space_symmetry(
    name: QNameV,
    attrs: Seq<AttrV>,
    children: Seq<DomNodeV>,
    rules: RulesV,
)
    requires
        classify(rules, norm_name(name)) == ActionV::Space,
    ensures
        ({
            let out = clean_node_v(DomNodeV::Element { name, attrs, children }, rules);
            let inner = clean_nodes_v(children, rules);
            &&& inner.len() == 0 ==> out == seq![space_text()]
            &&& inner.len() > 0 ==> {
                &&& out.len() == inner.len() + 2
                &&& out[0] == space_text()
                &&& out[out.len() - 1] == space_text()
                &&& out.subrange(1, out.len() - 1) == inner
            }
        }),
{
    let out = clean_node_v(DomNodeV::Element { name, attrs, children }, rules);
    let inner = clean_nodes_v(children, rules);
    if inner.len() > 0 {
        assert(out == seq![space_text()] + inner + seq![space_text()]);
        assert(out.subrange(1, out.len() - 1) =~= inner);
    }
}

/// Cleaning distributes over sibling-list concatenation.
pub proof fn lemma_clean_nodes_v_concat(a: Seq<DomNodeV>, b: Seq<DomNodeV>, rules: RulesV)
    ensures
        clean_nodes_v(a + b, rules) == clean_nodes_v(a, rules) + clean_nodes_v(b, rules),
    decreases a.len(),
{
    if a.len() == 0 {
        assert(a + b =~= b);
        assert(Seq::<DomNodeV>::empty() + clean_nodes_v(b, rules) =~= clean_nodes_v(b, rules));
    } else {
        lemma_clean_nodes_v_concat(a.drop_first(), b, rules);
        assert((a + b).drop_first() =~= a.drop_first() + b);
        assert((a + b)[0] == a[0]);
        assert((clean_node_v(a[0], rules) + clean_nodes_v(a.drop_first(), rules)) + clean_nodes_v(
            b,
            rules,
        ) =~= clean_node_v(a[0], rules) + (clean_nodes_v(a.drop_first(), rules) + clean_nodes_v(
            b,
            rules,
        )));
    }
}

/// A filter keeps a sequence whose members all satisfy the predicate.
proof fn lemma_filter_all<A>(s: Seq<A>, p: spec_fn(A) -> bool)
    requires
        forall|j: int| 0 <= j < s.len() ==> p(#[trigger] s[j]),
    ensures
        s.filter(p) == s,
    decreases s.len(),
{
    reveal(Seq::filter);
    if s.len() > 0 {
        lemma_filter_all(s.drop_last(), p);
        assert(s.drop_last().push(s.last()) =~= s);
    }
}

/// A filter drops a sequence whose members all fail the predicate.
proof fn lemma_filter_none<A>(s: Seq<A>, p: spec_fn(A) -> bool)
    requires
        forall|j: int| 0 <= j < s.len() ==> !p(#[trigger] s[j]),
    ensures
        s.filter(p) == Seq::<A>::empty(),
    decreases s.len(),
{
    reveal(Seq::filter);
    if s.len() > 0 {
        lemma_filter_none(s.drop_last(), p);
    }
}

/// Filtering distributes over concatenation.
proof fn lemma_filter_concat<A>(a: Seq<A>, b: Seq<A>, p: spec_fn(A) -> bool)
    ensures
        (a + b).filter(p) == a.filter(p) + b.filter(p),
    decreases b.len(),
{
    reveal(Seq::filter);
    if b.len() == 0 {
        assert(a + b =~= a);
        assert(b.filter(p) =~= Seq::<A>::empty());
        assert(a.filter(p) + Seq::<A>::empty().filter(p) =~= a.filter(p));
        assert(a.filter(p) + b.filter(p) =~= a.filter(p));
    } else {
        lemma_filter_concat(a, b.drop_last(), p);
        assert((a + b).drop_last() =~= a + b.drop_last());
        assert((a + b).last() == b.last());
        if p(b.last()) {
            assert((a.filter(p) + b.drop_last().filter(p)).push(b.last()) =~= a.filter(p) + b.drop_last().filter(p).push(b.last()));
            assert(b.drop_last().filter(p).push(b.last()) == b.filter(p));
        }
    }
}

/// A looked-up element descriptor is a member of the list.
proof fn lemma_elems_lookup_member(s: Seq<ElementV>, name: Seq<char>)
    requires
        elems_lookup(s, name) is Some,
    ensures
        exists|i: int| 0 <= i < s.len() && #[trigger] s[i] == elems_lookup(s, name)->Some_0,
    decreases s.len(),
{
    if s.len() > 0 && s[0].name != name {
        lemma_elems_lookup_member(s.drop_first(), name);
        let i = choose|i: int|
            0 <= i < s.drop_first().len() && #[trigger] s.drop_first()[i] == elems_lookup(
                s.drop_first(),
                name,
            )->Some_0;
        assert(s[i + 1] == s.drop_first()[i]);
    }
}

/// Whether a rule set can reclassify nothing on a second pass: it
/// renames nothing, and no allowed element's mandatory attribute would
/// survive that element's own attribute patterns.
pub open spec fn stable_rules(rules: RulesV) -> bool {
    &&& rules.rename_elements.len() == 0
    &&& forall|i: int, j: int|
        0 <= i < rules.allowed_elements.len() && 0 <= j
            < (#[trigger] rules.allowed_elements[i]).mandatory_attributes.len()
            ==> !rules.allowed_elements[i].spec_is_valid(
            lower_of((#[trigger] rules.allowed_elements[i].mandatory_attributes[j]).0),
            rules.allowed_elements[i].mandatory_attributes[j].1,
        )
}

/// One node's replacement list, cleaned as a sibling list of its own.
proof fn lemma_clean_nodes_singleton(n: DomNodeV, rules: RulesV)
    ensures
        clean_nodes_v(seq![n], rules) == clean_node_v(n, rules),
{
    assert(clean_nodes_v(Seq::<DomNodeV>::empty(), rules) == Seq::<DomNodeV>::empty());
    assert(seq![n].drop_first() =~= Seq::<DomNodeV>::empty());
    assert(seq![n][0] == n);
    assert(clean_nodes_v(seq![n], rules) == clean_node_v(n, rules) + clean_nodes_v(
        Seq::<DomNodeV>::empty(),
        rules,
    ));
    assert(clean_node_v(n, rules) + Seq::<DomNodeV>::empty() =~= clean_node_v(n, rules));
}

/// Idempotence law, node form: re-sanitizing what one node became
/// changes nothing, under a rule set that renames nothing and whose
/// mandatory attributes never pass their own element's patterns.
#[verifier::rlimit(60)]
pub proof fn lemma_clean_node_idempotent(n: DomNodeV, rules: RulesV)
    requires
        stable_rules(rules),
    ensures
        clean_nodes_v(clean_node_v(n, rules), rules) == clean_node_v(n, rules),
    decreases n,
{
    match n {
        DomNodeV::Document { .. } => {},
        DomNodeV::Doctype => {},
        DomNodeV::ProcessingInstruction => {},
        DomNodeV::Text { .. } => {
            lemma_clean_nodes_singleton(n, rules);
        },
        DomNodeV::Comment { .. } => {
            if rules.allow_comments {
                lemma_clean_nodes_singleton(n, rules);
            }
        },
        DomNodeV::Element { name, attrs, children } => {
            let act = classify(rules, norm_name(name));
            lemma_clean_nodes_idempotent(children, rules);
            let inner = clean_nodes_v(children, rules);
            match act {
                ActionV::Keep(rule) => {
                    let attrs2 = clean_attrs(rule, attrs);
                    let elem2 = DomNodeV::Element { name, attrs: attrs2, children: inner };
                    assert(clean_node_v(n, rules) == seq![elem2]);
                    lemma_clean_attrs_stable(rule, attrs, rules, name);
                    assert(clean_node_v(elem2, rules) == seq![elem2]);
                    lemma_clean_nodes_singleton(elem2, rules);
                },
                ActionV::Delete => {},
                ActionV::Space => {
                    let sp = seq![space_text()];
                    assert(clean_node_v(space_text(), rules) == seq![space_text()]);
                    lemma_clean_nodes_singleton(space_text(), rules);
                    if inner.len() == 0 {
                        assert(clean_node_v(n, rules) == sp);
                    } else {
                        assert(clean_node_v(n, rules) == sp + inner + sp);
                        lemma_clean_nodes_v_concat(sp + inner, sp, rules);
                        lemma_clean_nodes_v_concat(sp, inner, rules);
                        assert(clean_nodes_v(sp + inner + sp, rules) == (sp + inner) + sp);
                    }
                },
                ActionV::Elide => {},
                ActionV::Rename(_) => {
                    assert(pair_lookup(rules.rename_elements, norm_name(name)) is None);
                },
            }
        },
    }
}

/// Idempotence law, sibling form.
pub proof fn lemma_clean_nodes_idempotent(s: Seq<DomNodeV>, rules: RulesV)
    requires
        stable_rules(rules),
    ensures
        clean_nodes_v(clean_nodes_v(s, rules), rules) == clean_nodes_v(s, rules),
    decreases s,
{
    if s.len() == 0 {
    } else {
        lemma_clean_node_idempotent(s[0], rules);
        lemma_clean_nodes_idempotent(s.drop_first(), rules);
        lemma_clean_nodes_v_concat(
            clean_node_v(s[0], rules),
            clean_nodes_v(s.drop_first(), rules),
            rules,
        );
    }
}

/// A kept element's output attributes survive a second pass unchanged:
/// the filtered source attributes still pass, and the mandatory
/// attributes are filtered out again before being re-appended.
proof fn lemma_clean_attrs_stable(rule: ElementV, attrs: Seq<AttrV>, rules: RulesV, name: QNameV)
    requires
        stable_rules(rules),
        classify(rules, norm_name(name)) == ActionV::Keep(rule),
    ensures
        clean_attrs(rule, clean_attrs(rule, attrs)) == clean_attrs(rule, attrs),
{
    let p = keep_pred(rule);
    let f = attrs.filter(p);
    let m = mandatory_attrs(rule);
    lemma_filter_concat(f, m, p);
    assert(f.filter(p) == f) by {
        assert forall|j: int| 0 <= j < f.len() implies p(#[trigger] f[j]) by {
            attrs.lemma_filter_pred(p, j);
        }
        lemma_filter_all(f, p);
    }
    assert(m.filter(p) == Seq::<AttrV>::empty()) by {
        assert(norm_name(name) != "html"@ && norm_name(name) != "body"@);
        assert(elems_lookup(rules.allowed_elements, norm_name(name)) == Option::Some(rule));
        lemma_elems_lookup_member(rules.allowed_elements, norm_name(name));
        let w = choose|w: int|
            0 <= w < rules.allowed_elements.len() && #[trigger] rules.allowed_elements[w]
                == rule;
        assert forall|j: int| 0 <= j < m.len() implies !p(#[trigger] m[j]) by {
            assert(m[j].name == (QNameV {
                prefix: Option::None,
                ns: Seq::<char>::empty(),
                local: rule.mandatory_attributes[j].0,
            }));
            assert(norm_name(m[j].name) == lower_of(rule.mandatory_attributes[j].0));
            assert(!rule.spec_is_valid(
                lower_of(rule.mandatory_attributes[j].0),
                rule.mandatory_attributes[j].1,
            ));
        }
        lemma_filter_none(m, p);
    }
    assert(f + Seq::<AttrV>::empty() + m =~= f + m);
}

/// Idempotence law, whole documents: sanitizing a sanitized document
/// changes nothing, under a rule set that renames nothing and whose
/// mandatory attributes never pass their own element's patterns.
pub proof fn lemma_sanitize_idempotent(root: DomNodeV, rules: RulesV)
    requires
        stable_rules(rules),
    ensures
        sanitize_v(sanitize_v(root, rules), rules) == sanitize_v(root, rules),
{
    lemma_clean_nodes_idempotent(crate::model::root_children(root), rules);
}

/// The default rule set satisfies the idempotence hypothesis: it allows
/// no elements and renames nothing.
pub proof fn lemma_default_rules_stable()
    ensures
        stable_rules(crate::rules::predefined::spec_default()),
{
}

/// Whether no descriptor in the list carries a mandatory attribute.
pub open spec fn no_mandatory(s: Seq<ElementV>) -> bool {
    forall|i: int| 0 <= i < s.len() ==> (#[trigger] s[i]).mandatory_attributes.len() == 0
}

/// Inserting a descriptor without mandatory attributes keeps the list
/// free of them.
proof fn lemma_elems_insert_no_mandatory(s: Seq<ElementV>, e: ElementV)
    requires
        no_mandatory(s),
        e.mandatory_attributes.len() == 0,
    ensures
        no_mandatory(crate::rules::elems_insert(s, e)),
    decreases s.len(),
{
    let out = crate::rules::elems_insert(s, e);
    if s.len() == 0 {
    } else if s[0].name == e.name {
        assert forall|i: int| 0 <= i < out.len() implies (#[trigger] out[i]).mandatory_attributes.len()
            == 0 by {
            if i > 0 {
                assert(out[i] == s.drop_first()[i - 1]);
                assert(out[i] == s[i]);
            }
        }
    } else {
        assert(no_mandatory(s.drop_first())) by {
            assert forall|i: int| 0 <= i < s.drop_first().len() implies (#[trigger] s.drop_first()[i]).mandatory_attributes.len()
                == 0 by {
                assert(s.drop_first()[i] == s[i + 1]);
            }
        }
        lemma_elems_insert_no_mandatory(s.drop_first(), e);
        let tail = crate::rules::elems_insert(s.drop_first(), e);
        assert forall|i: int| 0 <= i < out.len() implies (#[trigger] out[i]).mandatory_attributes.len()
            == 0 by {
            if i > 0 {
                assert(out[i] == tail[i - 1]);
            }
        }
    }
}

/// The restricted rule set satisfies the idempotence hypothesis: its
/// allowed elements carry no mandatory attributes, and it renames
/// nothing.
pub proof fn lemma_restricted_rules_stable()
    ensures
        stable_rules(crate::rules::predefined::spec_restricted()),
{
    let e0 = Seq::<ElementV>::empty();
    let b = crate::rules::predefined::ev_plain("b"@);
    let em = crate::rules::predefined::ev_plain("em"@);
    let it = crate::rules::predefined::ev_plain("i"@);
    let st = crate::rules::predefined::ev_plain("strong"@);
    let u = crate::rules::predefined::ev_plain("u"@);
    lemma_elems_insert_no_mandatory(e0, b);
    let e1 = crate::rules::elems_insert(e0, b);
    lemma_elems_insert_no_mandatory(e1, em);
    let e2 = crate::rules::elems_insert(e1, em);
    lemma_elems_insert_no_mandatory(e2, it);
    let e3 = crate::rules::elems_insert(e2, it);
    lemma_elems_insert_no_mandatory(e3, st);
    let e4 = crate::rules::elems_insert(e3, st);
    lemma_elems_insert_no_mandatory(e4, u);
    let e5 = crate::rules::elems_insert(e4, u);
    assert(crate::rules::predefined::spec_restricted().allowed_elements == e5);
    assert(no_mandatory(e5));
}

} // verus!
