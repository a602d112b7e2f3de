//! Structures that define sanitization rules.
//!
//! An [`Element`] describes one allowed element: which attributes it may
//! keep, under which value patterns, and which attributes are forcibly
//! added. A [`Rules`] value maps element names to their treatment and is
//! built once, then read by any number of sanitization calls.

pub mod pattern;
pub mod predefined;

use vstd::prelude::*;
use crate::rules::pattern::Pattern;
use crate::strutil::lex_lt;
use crate::strutil::lemma_lex_lt_connected;
use crate::strutil::lemma_lex_lt_irrefl;
use crate::strutil::lemma_lex_lt_trans;
use crate::strutil::str_lt;

verus! {

/// The view of a list of `(String, V)` pairs: each key viewed as characters.
pub open spec fn pairs_vw<V>(s: Seq<(String, V)>) -> Seq<(Seq<char>, V)> {
    s.map_values(|p: (String, V)| (p.0@, p.1))
}

/// The view of a list of `(String, String)` pairs.
pub open spec fn str_pairs_vw(s: Seq<(String, String)>) -> Seq<(Seq<char>, Seq<char>)> {
    s.map_values(|p: (String, String)| (p.0@, p.1@))
}

/// The view of a list of names.
pub open spec fn names_vw(s: Seq<String>) -> Seq<Seq<char>> {
    s.map_values(|x: String| x@)
}

/// The value under the first occurrence of `key`, if any.
pub open spec fn pair_lookup<V>(s: Seq<(Seq<char>, V)>, key: Seq<char>) -> Option<V>
    decreases s.len(),
{
    if s.len() == 0 {
        Option::None
    } else if s[0].0 == key {
        Option::Some(s[0].1)
    } else {
        pair_lookup(s.drop_first(), key)
    }
}

/// Replaces the first pair whose key is `key`, or appends a new pair.
pub open spec fn pair_insert<V>(s: Seq<(Seq<char>, V)>, key: Seq<char>, value: V) -> Seq<
    (Seq<char>, V),
>
    decreases s.len(),
{
    if s.len() == 0 {
        seq![(key, value)]
    } else if s[0].0 == key {
        seq![(key, value)] + s.drop_first()
    } else {
        seq![s[0]] + pair_insert(s.drop_first(), key, value)
    }
}

/// Appends `name` unless it is already present.
pub open spec fn names_insert(s: Seq<Seq<char>>, name: Seq<char>) -> Seq<Seq<char>>
    decreases s.len(),
{
    if s.len() == 0 {
        seq![name]
    } else if s[0] == name {
        s
    } else {
        seq![s[0]] + names_insert(s.drop_first(), name)
    }
}

/// Inserts a `(key, value)` pair into a list kept strictly sorted by key:
/// the pair lands before the first larger key, replacing an equal one.
pub open spec fn mand_insert(
    s: Seq<(Seq<char>, Seq<char>)>,
    key: Seq<char>,
    value: Seq<char>,
) -> Seq<(Seq<char>, Seq<char>)>
    decreases s.len(),
{
    if s.len() == 0 {
        seq![(key, value)]
    } else if lex_lt(key, s[0].0) {
        seq![(key, value)] + s
    } else if s[0].0 == key {
        seq![(key, value)] + s.drop_first()
    } else {
        seq![s[0]] + mand_insert(s.drop_first(), key, value)
    }
}

/// Whether the keys of `s` are strictly increasing in lexicographic order.
pub open spec fn sorted_by_key(s: Seq<(Seq<char>, Seq<char>)>) -> bool {
    forall|i: int, j: int| 0 <= i < j < s.len() ==> lex_lt(#[trigger] s[i].0, #[trigger] s[j].0)
}

/// Splits a first-match lookup at a prefix known to contain no match.
pub proof fn lemma_pair_lookup_split<V>(s: Seq<(Seq<char>, V)>, key: Seq<char>, i: int)
    requires
        0 <= i <= s.len(),
        forall|j: int| 0 <= j < i ==> (#[trigger] s[j]).0 != key,
    ensures
        pair_lookup(s, key) == pair_lookup(s.skip(i), key),
    decreases i,
{
    if i == 0 {
        assert(s.skip(0) =~= s);
    } else {
        lemma_pair_lookup_split(s, key, i - 1);
        let t = s.skip(i - 1);
        assert(t[0] == s[i - 1]);
        assert(t.drop_first() =~= s.skip(i));
    }
}

/// Splits a replace-or-append insertion at a prefix known to contain no match.
pub proof fn lemma_pair_insert_split<V>(s: Seq<(Seq<char>, V)>, key: Seq<char>, value: V, i: int)
    requires
        0 <= i <= s.len(),
        forall|j: int| 0 <= j < i ==> (#[trigger] s[j]).0 != key,
    ensures
        pair_insert(s, key, value) == s.subrange(0, i) + pair_insert(s.skip(i), key, value),
    decreases i,
{
    if i == 0 {
        assert(s.skip(0) =~= s);
        assert(s.subrange(0, 0) + pair_insert(s, key, value) =~= pair_insert(s, key, value));
    } else {
        lemma_pair_insert_split(s, key, value, i - 1);
        let t = s.skip(i - 1);
        assert(t[0] == s[i - 1]);
        assert(t.drop_first() =~= s.skip(i));
        assert(s.subrange(0, i - 1) + (seq![t[0]] + pair_insert(s.skip(i), key, value))
            =~= s.subrange(0, i) + pair_insert(s.skip(i), key, value));
    }
}

/// Splits a dedup-append insertion at a prefix known to contain no match.
pub proof fn lemma_names_insert_split(s: Seq<Seq<char>>, name: Seq<char>, i: int)
    requires
        0 <= i <= s.len(),
        forall|j: int| 0 <= j < i ==> #[trigger] s[j] != name,
    ensures
        names_insert(s, name) == s.subrange(0, i) + names_insert(s.skip(i), name),
    decreases i,
{
    if i == 0 {
        assert(s.skip(0) =~= s);
        assert(s.subrange(0, 0) + names_insert(s, name) =~= names_insert(s, name));
    } else {
        lemma_names_insert_split(s, name, i - 1);
        let t = s.skip(i - 1);
        assert(t[0] == s[i - 1]);
        assert(t.drop_first() =~= s.skip(i));
        assert(s.subrange(0, i - 1) + (seq![t[0]] + names_insert(s.skip(i), name))
            =~= s.subrange(0, i) + names_insert(s.skip(i), name));
    }
}

/// Splits a sorted insertion at a prefix of strictly smaller keys.
pub proof fn lemma_mand_insert_split(
    s: Seq<(Seq<char>, Seq<char>)>,
    key: Seq<char>,
    value: Seq<char>,
    i: int,
)
    requires
        0 <= i <= s.len(),
        forall|j: int| 0 <= j < i ==> !lex_lt(key, (#[trigger] s[j]).0) && s[j].0 != key,
    ensures
        mand_insert(s, key, value) == s.subrange(0, i) + mand_insert(s.skip(i), key, value),
    decreases i,
{
    if i == 0 {
        assert(s.skip(0) =~= s);
        assert(s.subrange(0, 0) + mand_insert(s, key, value) =~= mand_insert(s, key, value));
    } else {
        lemma_mand_insert_split(s, key, value, i - 1);
        let t = s.skip(i - 1);
        assert(t[0] == s[i - 1]);
        assert(t.drop_first() =~= s.skip(i));
        assert(s.subrange(0, i - 1) + (seq![t[0]] + mand_insert(s.skip(i), key, value))
            =~= s.subrange(0, i) + mand_insert(s.skip(i), key, value));
    }
}

/// The index of the first pair whose key equals `key`, or the length.
pub(crate) fn find_key<V>(v: &Vec<(String, V)>, key: &String) -> (r: usize)
    ensures
        r <= v@.len(),
        forall|j: int| 0 <= j < r ==> (#[trigger] v@[j]).0@ != key@,
        r < v@.len() ==> v@[r as int].0@ == key@,
{
    let n = v.len();
    let mut i: usize = 0;
    while i < n
        invariant
            n == v@.len(),
            i <= n,
            forall|j: int| 0 <= j < i ==> (#[trigger] v@[j]).0@ != key@,
        decreases n - i,
    {
        if v[i].0 == *key {
            return i;
        }
        i += 1;
    }
    i
}

/// The index of the first name equal to `name`, or the length.
pub(crate) fn find_name(v: &Vec<String>, name: &String) -> (r: usize)
    ensures
        r <= v@.len(),
        forall|j: int| 0 <= j < r ==> (#[trigger] v@[j])@ != name@,
        r < v@.len() ==> v@[r as int]@ == name@,
{
    let n = v.len();
    let mut i: usize = 0;
    while i < n
        invariant
            n == v@.len(),
            i <= n,
            forall|j: int| 0 <= j < i ==> (#[trigger] v@[j])@ != name@,
        decreases n - i,
    {
        if v[i] == *name {
            return i;
        }
        i += 1;
    }
    i
}

/// The index before which `key` belongs in a name-sorted list: the first
/// position whose key is not smaller than `key`, or the length.
fn find_sorted_pos(v: &Vec<(String, String)>, key: &String) -> (r: usize)
    ensures
        r <= v@.len(),
        forall|j: int| 0 <= j < r ==> lex_lt((#[trigger] v@[j]).0@, key@),
        r < v@.len() ==> !lex_lt(v@[r as int].0@, key@),
{
    let n = v.len();
    let mut i: usize = 0;
    while i < n
        invariant
            n == v@.len(),
            i <= n,
            forall|j: int| 0 <= j < i ==> lex_lt((#[trigger] v@[j]).0@, key@),
        decreases n - i,
    {
        if !str_lt(v[i].0.as_str(), key.as_str()) {
            return i;
        }
        i += 1;
    }
    i
}

/// Describes one allowed element.
pub struct Element {
    /// The element's name.
    pub name: String,
    /// The allowed attributes, each with the pattern its value must match.
    pub attributes: Vec<(String, Pattern)>,
    /// Attributes forcibly added to every kept instance of the element,
    /// kept strictly sorted by attribute name.
    pub mandatory_attributes: Vec<(String, String)>,
}

/// Ghost mirror of [`Element`].
pub struct ElementV {
    /// The element's name.
    pub name: Seq<char>,
    /// The allowed attributes with their value patterns.
    pub attributes: Seq<(Seq<char>, Pattern)>,
    /// The forcibly added attributes, sorted by name.
    pub mandatory_attributes: Seq<(Seq<char>, Seq<char>)>,
}

impl View for Element {
    type V = ElementV;

    open spec fn view(&self) -> ElementV {
        ElementV {
            name: self.name@,
            attributes: pairs_vw(self.attributes@),
            mandatory_attributes: str_pairs_vw(self.mandatory_attributes@),
        }
    }
}

/// The view of a list of element descriptors.
pub open spec fn elems_vw(s: Seq<Element>) -> Seq<ElementV> {
    s.map_values(|e: Element| e@)
}

impl ElementV {
    /// Whether an attribute with the given (already normalized) name and
    /// value is acceptable: its name must carry a pattern and the value
    /// must match that pattern.
    pub open spec fn spec_is_valid(self, attribute: Seq<char>, value: Seq<char>) -> bool {
        match pair_lookup(self.attributes, attribute) {
            Option::Some(p) => p.spec_matches(value),
            Option::None => false,
        }
    }
}

impl Element {
    /// Creates a descriptor for an element with no allowed attributes.
    pub fn new(name: &str) -> (r: Element)
        ensures
            r@ == (ElementV {
                name: name@,
                attributes: Seq::<(Seq<char>, Pattern)>::empty(),
                mandatory_attributes: Seq::<(Seq<char>, Seq<char>)>::empty(),
            }),
    {
        let r = Element {
            name: name.to_owned(),
            attributes: Vec::new(),
            mandatory_attributes: Vec::new(),
        };
        proof {
            assert(r@.attributes =~= Seq::<(Seq<char>, Pattern)>::empty());
            assert(r@.mandatory_attributes =~= Seq::<(Seq<char>, Seq<char>)>::empty());
        }
        r
    }

    /// Allows an attribute, with the pattern its value must match.
    pub fn attribute(self, attribute: &str, pattern: Pattern) -> (r: Element)
        ensures
            r@ == (ElementV {
                attributes: pair_insert(self@.attributes, attribute@, pattern),
                ..self@
            }),
    {
        let Element { name, mut attributes, mandatory_attributes } = self;
        let key = attribute.to_owned();
        let ghost s = pairs_vw(attributes@);
        let ghost kv = key@;
        let i = find_key(&attributes, &key);
        proof {
            assert forall|j: int| 0 <= j < i implies (#[trigger] s[j]).0 != kv by {
                assert(s[j] == (attributes@[j].0@, attributes@[j].1));
            }
            lemma_pair_insert_split(s, kv, pattern, i as int);
        }
        if i < attributes.len() {
            attributes.remove(i);
            attributes.insert(i, (key, pattern));
            proof {
                assert(s.skip(i as int)[0] == s[i as int]);
                assert(s[i as int].0 == kv);
                assert(s.skip(i as int).drop_first() =~= s.subrange(i as int + 1, s.len() as int));
                assert(pairs_vw(attributes@) =~= s.subrange(0, i as int) + pair_insert(
                    s.skip(i as int),
                    kv,
                    pattern,
                ));
            }
        } else {
            attributes.push((key, pattern));
            proof {
                assert(s.skip(i as int) =~= Seq::<(Seq<char>, Pattern)>::empty());
                assert(pairs_vw(attributes@) =~= s.subrange(0, i as int) + pair_insert(
                    s.skip(i as int),
                    kv,
                    pattern,
                ));
            }
        }
        Element { name, attributes, mandatory_attributes }
    }

    /// Adds a mandatory attribute; it is forcibly added, in name-sorted
    /// position, to every kept instance of the element.
    pub fn mandatory_attribute(self, attribute: &str, value: &str) -> (r: Element)
        ensures
            r@ == (ElementV {
                mandatory_attributes: mand_insert(self@.mandatory_attributes, attribute@, value@),
                ..self@
            }),
    {
        let Element { name, attributes, mut mandatory_attributes } = self;
        let key = attribute.to_owned();
        let val = value.to_owned();
        let ghost s = str_pairs_vw(mandatory_attributes@);
        let ghost kv = key@;
        let ghost vv = val@;
        let i = find_sorted_pos(&mandatory_attributes, &key);
        proof {
            assert forall|j: int| 0 <= j < i implies !lex_lt(kv, (#[trigger] s[j]).0) && s[j].0
                != kv by {
                assert(s[j] == (mandatory_attributes@[j].0@, mandatory_attributes@[j].1@));
                assert(lex_lt(s[j].0, kv));
                if lex_lt(kv, s[j].0) {
                    lemma_lex_lt_trans(kv, s[j].0, kv);
                    lemma_lex_lt_irrefl(kv);
                }
                if s[j].0 == kv {
                    lemma_lex_lt_irrefl(kv);
                }
            }
            lemma_mand_insert_split(s, kv, vv, i as int);
        }
        let n = mandatory_attributes.len();
        if i < n && mandatory_attributes[i].0 == key {
            mandatory_attributes.remove(i);
            mandatory_attributes.insert(i, (key, val));
            proof {
                assert(s.skip(i as int)[0] == s[i as int]);
                assert(s[i as int].0 == kv);
                lemma_lex_lt_irrefl(kv);
                assert(s.skip(i as int).drop_first() =~= s.subrange(i as int + 1, s.len() as int));
                assert(str_pairs_vw(mandatory_attributes@) =~= s.subrange(0, i as int)
                    + mand_insert(s.skip(i as int), kv, vv));
            }
        } else {
            mandatory_attributes.insert(i, (key, val));
            proof {
                if i < n {
                    assert(s.skip(i as int)[0] == s[i as int]);
                    assert(s[i as int].0 != kv);
                    assert(!lex_lt(s[i as int].0, kv));
                    if !lex_lt(kv, s[i as int].0) {
                        lemma_lex_lt_connected(kv, s[i as int].0);
                    }
                    assert(lex_lt(kv, s[i as int].0));
                    assert(mand_insert(s.skip(i as int), kv, vv) == seq![(kv, vv)] + s.skip(
                        i as int,
                    ));
                } else {
                    assert(s.skip(i as int) =~= Seq::<(Seq<char>, Seq<char>)>::empty());
                }
                assert(str_pairs_vw(mandatory_attributes@) =~= s.subrange(0, i as int)
                    + mand_insert(s.skip(i as int), kv, vv));
            }
        }
        Element { name, attributes, mandatory_attributes }
    }

    /// Checks whether an attribute with the given name may keep `value`.
    pub fn is_valid(&self, attribute: &str, value: &str) -> (r: bool)
        ensures
            r == self@.spec_is_valid(attribute@, value@),
    {
        let key = attribute.to_owned();
        let ghost s = pairs_vw(self.attributes@);
        let i = find_key(&self.attributes, &key);
        proof {
            assert forall|j: int| 0 <= j < i implies (#[trigger] s[j]).0 != key@ by {
                assert(s[j] == (self.attributes@[j].0@, self.attributes@[j].1));
            }
            lemma_pair_lookup_split(s, key@, i as int);
        }
        if i < self.attributes.len() {
            proof {
                assert(s.skip(i as int)[0] == s[i as int]);
                assert(s[i as int].0 == key@);
            }
            self.attributes[i].1.matches(value)
        } else {
            proof {
                assert(s.skip(i as int) =~= Seq::<(Seq<char>, Pattern)>::empty());
            }
            false
        }
    }
}

/// Describes a full set of sanitization rules.
pub struct Rules {
    /// Whether comments are kept or stripped.
    pub allow_comments: bool,
    /// The allowed elements, each with its attribute policy.
    pub allowed_elements: Vec<Element>,
    /// Elements removed together with their children.
    pub delete_elements: Vec<String>,
    /// Elements replaced by spaces; their children are still processed.
    pub space_elements: Vec<String>,
    /// Elements renamed; their children are still processed.
    pub rename_elements: Vec<(String, String)>,
}

/// Ghost mirror of [`Rules`].
pub struct RulesV {
    /// Whether comments are kept or stripped.
    pub allow_comments: bool,
    /// The allowed elements.
    pub allowed_elements: Seq<ElementV>,
    /// Elements removed together with their children.
    pub delete_elements: Seq<Seq<char>>,
    /// Elements replaced by spaces.
    pub space_elements: Seq<Seq<char>>,
    /// Elements renamed.
    pub rename_elements: Seq<(Seq<char>, Seq<char>)>,
}

impl View for Rules {
    type V = RulesV;

    open spec fn view(&self) -> RulesV {
        RulesV {
            allow_comments: self.allow_comments,
            allowed_elements: elems_vw(self.allowed_elements@),
            delete_elements: names_vw(self.delete_elements@),
            space_elements: names_vw(self.space_elements@),
            rename_elements: str_pairs_vw(self.rename_elements@),
        }
    }
}

/// The empty rule set: allow nothing, delete nothing, space nothing,
/// rename nothing, comments disallowed.
pub open spec fn rules_empty() -> RulesV {
    RulesV {
        allow_comments: false,
        allowed_elements: Seq::<ElementV>::empty(),
        delete_elements: Seq::<Seq<char>>::empty(),
        space_elements: Seq::<Seq<char>>::empty(),
        rename_elements: Seq::<(Seq<char>, Seq<char>)>::empty(),
    }
}

/// The descriptor of the first allowed element carrying `name`, if any.
pub open spec fn elems_lookup(s: Seq<ElementV>, name: Seq<char>) -> Option<ElementV>
    decreases s.len(),
{
    if s.len() == 0 {
        Option::None
    } else if s[0].name == name {
        Option::Some(s[0])
    } else {
        elems_lookup(s.drop_first(), name)
    }
}

/// Replaces the first descriptor with the same name, or appends.
pub open spec fn elems_insert(s: Seq<ElementV>, e: ElementV) -> Seq<ElementV>
    decreases s.len(),
{
    if s.len() == 0 {
        seq![e]
    } else if s[0].name == e.name {
        seq![e] + s.drop_first()
    } else {
        seq![s[0]] + elems_insert(s.drop_first(), e)
    }
}

/// Splits an element lookup at a prefix known to contain no match.
pub proof fn lemma_elems_lookup_split(s: Seq<ElementV>, name: Seq<char>, i: int)
    requires
        0 <= i <= s.len(),
        forall|j: int| 0 <= j < i ==> (#[trigger] s[j]).name != name,
    ensures
        elems_lookup(s, name) == elems_lookup(s.skip(i), name),
    decreases i,
{
    if i == 0 {
        assert(s.skip(0) =~= s);
    } else {
        lemma_elems_lookup_split(s, name, i - 1);
        let t = s.skip(i - 1);
        assert(t[0] == s[i - 1]);
        assert(t.drop_first() =~= s.skip(i));
    }
}

/// Splits an element insertion at a prefix known to contain no match.
pub proof fn lemma_elems_insert_split(s: Seq<ElementV>, e: ElementV, i: int)
    requires
        0 <= i <= s.len(),
        forall|j: int| 0 <= j < i ==> (#[trigger] s[j]).name != e.name,
    ensures
        elems_insert(s, e) == s.subrange(0, i) + elems_insert(s.skip(i), e),
    decreases i,
{
    if i == 0 {
        assert(s.skip(0) =~= s);
        assert(s.subrange(0, 0) + elems_insert(s, e) =~= elems_insert(s, e));
    } else {
        lemma_elems_insert_split(s, e, i - 1);
        let t = s.skip(i - 1);
        assert(t[0] == s[i - 1]);
        assert(t.drop_first() =~= s.skip(i));
        assert(s.subrange(0, i - 1) + (seq![t[0]] + elems_insert(s.skip(i), e))
            =~= s.subrange(0, i) + elems_insert(s.skip(i), e));
    }
}

/// The index of the first element descriptor carrying `name`, or the length.
pub(crate) fn find_element_name(v: &Vec<Element>, name: &String) -> (r: usize)
    ensures
        r <= v@.len(),
        forall|j: int| 0 <= j < r ==> (#[trigger] v@[j]).name@ != name@,
        r < v@.len() ==> v@[r as int].name@ == name@,
{
    let n = v.len();
    let mut i: usize = 0;
    while i < n
        invariant
            n == v@.len(),
            i <= n,
            forall|j: int| 0 <= j < i ==> (#[trigger] v@[j]).name@ != name@,
        decreases n - i,
    {
        if v[i].name == *name {
            return i;
        }
        i += 1;
    }
    i
}

impl Rules {
    /// Creates the empty rule set.
    pub fn new() -> (r: Rules)
        ensures
            r@ == rules_empty(),
    {
        let r = Rules {
            allow_comments: false,
            allowed_elements: Vec::new(),
            delete_elements: Vec::new(),
            space_elements: Vec::new(),
            rename_elements: Vec::new(),
        };
        proof {
            assert(r@.allowed_elements =~= rules_empty().allowed_elements);
            assert(r@.delete_elements =~= rules_empty().delete_elements);
            assert(r@.space_elements =~= rules_empty().space_elements);
            assert(r@.rename_elements =~= rules_empty().rename_elements);
        }
        r
    }

    /// Sets whether comments are kept.
    pub fn allow_comments(self, allow_comments: bool) -> (r: Rules)
        ensures
            r@ == (RulesV { allow_comments, ..self@ }),
    {
        Rules { allow_comments, ..self }
    }

    /// Adds a rule for an allowed element, replacing any earlier rule of
    /// the same name.
    pub fn element(self, element: Element) -> (r: Rules)
        ensures
            r@ == (RulesV {
                allowed_elements: elems_insert(self@.allowed_elements, element@),
                ..self@
            }),
    {
        let Rules {
            allow_comments,
            mut allowed_elements,
            delete_elements,
            space_elements,
            rename_elements,
        } = self;
        let ghost s = elems_vw(allowed_elements@);
        let ghost ev = element@;
        let i = find_element_name(&allowed_elements, &element.name);
        proof {
            assert forall|j: int| 0 <= j < i implies (#[trigger] s[j]).name != ev.name by {
                assert(s[j] == allowed_elements@[j]@);
            }
            lemma_elems_insert_split(s, ev, i as int);
        }
        if i < allowed_elements.len() {
            allowed_elements.remove(i);
            allowed_elements.insert(i, element);
            proof {
                assert(s.skip(i as int)[0] == s[i as int]);
                assert(s[i as int].name == ev.name);
                assert(s.skip(i as int).drop_first() =~= s.subrange(i as int + 1, s.len() as int));
                assert(elems_vw(allowed_elements@) =~= s.subrange(0, i as int) + elems_insert(
                    s.skip(i as int),
                    ev,
                ));
            }
        } else {
            allowed_elements.push(element);
            proof {
                assert(s.skip(i as int) =~= Seq::<ElementV>::empty());
                assert(elems_vw(allowed_elements@) =~= s.subrange(0, i as int) + elems_insert(
                    s.skip(i as int),
                    ev,
                ));
            }
        }
        Rules { allow_comments, allowed_elements, delete_elements, space_elements, rename_elements }
    }

    /// Adds a rule to delete an element together with its children.
    pub fn delete(self, element_name: &str) -> (r: Rules)
        ensures
            r@ == (RulesV {
                delete_elements: names_insert(self@.delete_elements, element_name@),
                ..self@
            }),
    {
        let Rules {
            allow_comments,
            allowed_elements,
            mut delete_elements,
            space_elements,
            rename_elements,
        } = self;
        push_name_dedup(&mut delete_elements, element_name);
        Rules { allow_comments, allowed_elements, delete_elements, space_elements, rename_elements }
    }

    /// Adds a rule to replace an element with spaces.
    pub fn space(self, element_name: &str) -> (r: Rules)
        ensures
            r@ == (RulesV {
                space_elements: names_insert(self@.space_elements, element_name@),
                ..self@
            }),
    {
        let Rules {
            allow_comments,
            allowed_elements,
            delete_elements,
            mut space_elements,
            rename_elements,
        } = self;
        push_name_dedup(&mut space_elements, element_name);
        Rules { allow_comments, allowed_elements, delete_elements, space_elements, rename_elements }
    }

    /// Adds a rule to rename an element, replacing any earlier renaming
    /// of the same name.
    pub fn rename(self, element_name: &str, to: &str) -> (r: Rules)
        ensures
            r@ == (RulesV {
                rename_elements: pair_insert(self@.rename_elements, element_name@, to@),
                ..self@
            }),
    {
        let Rules {
            allow_comments,
            allowed_elements,
            delete_elements,
            space_elements,
            mut rename_elements,
        } = self;
        let key = element_name.to_owned();
        let val = to.to_owned();
        let ghost s = str_pairs_vw(rename_elements@);
        let ghost kv = key@;
        let ghost vv = val@;
        let i = find_key(&rename_elements, &key);
        proof {
            assert forall|j: int| 0 <= j < i implies (#[trigger] s[j]).0 != kv by {
                assert(s[j] == (rename_elements@[j].0@, rename_elements@[j].1@));
            }
            lemma_pair_insert_split(s, kv, vv, i as int);
        }
        if i < rename_elements.len() {
            rename_elements.remove(i);
            rename_elements.insert(i, (key, val));
            proof {
                assert(s.skip(i as int)[0] == s[i as int]);
                assert(s[i as int].0 == kv);
                assert(s.skip(i as int).drop_first() =~= s.subrange(i as int + 1, s.len() as int));
                assert(str_pairs_vw(rename_elements@) =~= s.subrange(0, i as int) + pair_insert(
                    s.skip(i as int),
                    kv,
                    vv,
                ));
            }
        } else {
            rename_elements.push((key, val));
            proof {
                assert(s.skip(i as int) =~= Seq::<(Seq<char>, Seq<char>)>::empty());
                assert(str_pairs_vw(rename_elements@) =~= s.subrange(0, i as int) + pair_insert(
                    s.skip(i as int),
                    kv,
                    vv,
                ));
            }
        }
        Rules { allow_comments, allowed_elements, delete_elements, space_elements, rename_elements }
    }
}

impl Default for Rules {
    /// The empty rule set, as [`Rules::new`] builds it.
    fn default() -> (r: Rules)
        ensures
            r@ == rules_empty(),
    {
        Rules::new()
    }
}

/// Appends `name` to the list unless it is already present.
fn push_name_dedup(v: &mut Vec<String>, name: &str)
    ensures
        names_vw(final(v)@) == names_insert(names_vw(old(v)@), name@),
{
    let key = name.to_owned();
    let ghost s = names_vw(v@);
    let i = find_name(v, &key);
    proof {
        assert forall|j: int| 0 <= j < i implies #[trigger] s[j] != key@ by {
            assert(s[j] == v@[j]@);
        }
        lemma_names_insert_split(s, key@, i as int);
    }
    if i < v.len() {
        proof {
            assert(s.skip(i as int)[0] == s[i as int]);
            assert(s[i as int] == key@);
            assert(s.subrange(0, i as int) + s.skip(i as int) =~= s);
        }
    } else {
        v.push(key);
        proof {
            assert(s.skip(i as int) =~= Seq::<Seq<char>>::empty());
            assert(names_vw(v@) =~= s.subrange(0, i as int) + names_insert(
                s.skip(i as int),
                name@,
            ));
        }
    }
}

} // verus!
