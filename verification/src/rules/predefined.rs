//! The predefined rule sets, with exact construction mirrors.
//!
//! Each builder's contract says that its result is exactly the rule set
//! obtained by a fixed chain of builder steps, written out as a spec
//! function; the regular-expression patterns for link targets are
//! characterized semantically by [`is_href_pattern`] and
//! [`is_src_pattern`].

use vstd::prelude::*;
use crate::rules::Element;
use crate::rules::ElementV;
use crate::rules::Rules;
use crate::rules::RulesV;
use crate::rules::elems_insert;
use crate::rules::mand_insert;
use crate::rules::lemma_names_insert_split;
use crate::rules::names_insert;
use crate::rules::pair_insert;
use crate::rules::rules_empty;
use crate::rules::pattern::Pattern;
use crate::rules::pattern::regex_match;
use crate::rules::pattern::regex_ok;

verus! {

/// Mirror of [`Element::new`]: a descriptor with no attributes.
pub open spec fn ev_plain(name: Seq<char>) -> ElementV {
    ElementV {
        name,
        attributes: Seq::<(Seq<char>, Pattern)>::empty(),
        mandatory_attributes: Seq::<(Seq<char>, Seq<char>)>::empty(),
    }
}

/// Mirror of [`Element::attribute`].
pub open spec fn ev_attr(e: ElementV, attribute: Seq<char>, pattern: Pattern) -> ElementV {
    ElementV { attributes: pair_insert(e.attributes, attribute, pattern), ..e }
}

/// Mirror of [`Element::mandatory_attribute`].
pub open spec fn ev_mand(e: ElementV, attribute: Seq<char>, value: Seq<char>) -> ElementV {
    ElementV { mandatory_attributes: mand_insert(e.mandatory_attributes, attribute, value), ..e }
}

/// Mirror of [`Rules::element`].
pub open spec fn rv_el(r: RulesV, e: ElementV) -> RulesV {
    RulesV { allowed_elements: elems_insert(r.allowed_elements, e), ..r }
}

/// Mirror of [`Rules::space`].
pub open spec fn rv_space(r: RulesV, name: Seq<char>) -> RulesV {
    RulesV { space_elements: names_insert(r.space_elements, name), ..r }
}

/// Mirror of [`Rules::delete`].
pub open spec fn rv_delete(r: RulesV, name: Seq<char>) -> RulesV {
    RulesV { delete_elements: names_insert(r.delete_elements, name), ..r }
}

/// The source of the regular expression accepting safe `href` schemes.
pub open spec fn href_scheme_src() -> Seq<char> {
    "^(ftp:|http:|https:|mailto:)"@
}

/// The source of the regular expression accepting safe `src` schemes.
pub open spec fn src_scheme_src() -> Seq<char> {
    "^(http:|https:)"@
}

/// The source of the regular expression recognizing a scheme-like prefix.
pub open spec fn scheme_like_src() -> Seq<char> {
    "^[^/]+[[:space:]]*:"@
}

/// What [`href`] returns: if the two fixed regular expressions compile
/// (they do), the pattern accepts exactly the values with a safe scheme
/// or no scheme-like prefix; otherwise it rejects every value.
pub open spec fn is_href_pattern(p: Pattern) -> bool {
    if regex_ok(href_scheme_src()) && regex_ok(scheme_like_src()) {
        forall|v: Seq<char>| #[trigger] p.spec_matches(v) == (regex_match(href_scheme_src(), v)
            || !regex_match(scheme_like_src(), v))
    } else {
        forall|v: Seq<char>| !(#[trigger] p.spec_matches(v))
    }
}

/// What [`src`] returns, in the same way as [`is_href_pattern`].
pub open spec fn is_src_pattern(p: Pattern) -> bool {
    if regex_ok(src_scheme_src()) && regex_ok(scheme_like_src()) {
        forall|v: Seq<char>| #[trigger] p.spec_matches(v) == (regex_match(src_scheme_src(), v)
            || !regex_match(scheme_like_src(), v))
    } else {
        forall|v: Seq<char>| !(#[trigger] p.spec_matches(v))
    }
}

/// The value pattern for link targets: an explicit safe scheme, or no
/// scheme-like prefix at all. Were either fixed regular expression ever
/// rejected by the engine (neither is), the pattern would reject every
/// value instead.
pub fn href() -> (r: Pattern)
    ensures
        is_href_pattern(r),
{
    let scheme = Pattern::regex("^(ftp:|http:|https:|mailto:)");
    let scheme_like = Pattern::regex("^[^/]+[[:space:]]*:");
    match (scheme, scheme_like) {
        (Result::Ok(s), Result::Ok(l)) => s.or(l.negate()),
        _ => Pattern::any().negate(),
    }
}

/// The value pattern for embedded-content sources, built like [`href`].
pub fn src() -> (r: Pattern)
    ensures
        is_src_pattern(r),
{
    let scheme = Pattern::regex("^(http:|https:)");
    let scheme_like = Pattern::regex("^[^/]+[[:space:]]*:");
    match (scheme, scheme_like) {
        (Result::Ok(s), Result::Ok(l)) => s.or(l.negate()),
        _ => Pattern::any().negate(),
    }
}


/// Mirror of [`default`]'s construction.
pub open spec fn spec_default() -> RulesV {
    let r = rules_empty();
    let r = rv_space(r, "address"@);
    let r = rv_space(r, "article"@);
    let r = rv_space(r, "aside"@);
    let r = rv_space(r, "blockquote"@);
    let r = rv_space(r, "br"@);
    let r = rv_space(r, "dd"@);
    let r = rv_space(r, "div"@);
    let r = rv_space(r, "dl"@);
    let r = rv_space(r, "dt"@);
    let r = rv_space(r, "footer"@);
    let r = rv_space(r, "h1"@);
    let r = rv_space(r, "h2"@);
    let r = rv_space(r, "h3"@);
    let r = rv_space(r, "h4"@);
    let r = rv_space(r, "h5"@);
    let r = rv_space(r, "h6"@);
    let r = rv_space(r, "header"@);
    let r = rv_space(r, "hgroup"@);
    let r = rv_space(r, "hr"@);
    let r = rv_space(r, "li"@);
    let r = rv_space(r, "nav"@);
    let r = rv_space(r, "ol"@);
    let r = rv_space(r, "p"@);
    let r = rv_space(r, "pre"@);
    let r = rv_space(r, "section"@);
    let r = rv_space(r, "ul"@);
    let r = rv_delete(r, "iframe"@);
    let r = rv_delete(r, "noembed"@);
    let r = rv_delete(r, "noframes"@);
    let r = rv_delete(r, "noscript"@);
    let r = rv_delete(r, "script"@);
    let r = rv_delete(r, "style"@);
    r
}

/// Default rules: strips every tag, turning block-level elements into
/// spaces and deleting script-like elements with their subtrees.
pub fn default() -> (r: Rules)
    ensures
        r@ == spec_default(),
{
    Rules::new()
        .space("address")
        .space("article")
        .space("aside")
        .space("blockquote")
        .space("br")
        .space("dd")
        .space("div")
        .space("dl")
        .space("dt")
        .space("footer")
        .space("h1")
        .space("h2")
        .space("h3")
        .space("h4")
        .space("h5")
        .space("h6")
        .space("header")
        .space("hgroup")
        .space("hr")
        .space("li")
        .space("nav")
        .space("ol")
        .space("p")
        .space("pre")
        .space("section")
        .space("ul")
        .delete("iframe")
        .delete("noembed")
        .delete("noframes")
        .delete("noscript")
        .delete("script")
        .delete("style")
}

/// Mirror of [`basic`]'s construction, given the patterns it creates.
pub open spec fn spec_basic(hp: Pattern, c1: Pattern, c2: Pattern) -> RulesV {
    let r = rules_empty();
    let r = rv_el(r, ev_attr(ev_plain("a"@), "href"@, hp));
    let r = rv_el(r, ev_attr(ev_plain("abbr"@), "title"@, Pattern::Any));
    let r = rv_el(r, ev_plain("b"@));
    let r = rv_el(r, ev_attr(ev_plain("blockquote"@), "cite"@, c1));
    let r = rv_el(r, ev_plain("br"@));
    let r = rv_el(r, ev_plain("br"@));
    let r = rv_el(r, ev_plain("cite"@));
    let r = rv_el(r, ev_plain("code"@));
    let r = rv_el(r, ev_plain("dd"@));
    let r = rv_el(r, ev_attr(ev_plain("dfn"@), "title"@, Pattern::Any));
    let r = rv_el(r, ev_plain("dl"@));
    let r = rv_el(r, ev_plain("dt"@));
    let r = rv_el(r, ev_plain("em"@));
    let r = rv_el(r, ev_plain("i"@));
    let r = rv_el(r, ev_plain("kbd"@));
    let r = rv_el(r, ev_plain("li"@));
    let r = rv_el(r, ev_plain("mark"@));
    let r = rv_el(r, ev_plain("ol"@));
    let r = rv_el(r, ev_plain("p"@));
    let r = rv_el(r, ev_plain("pre"@));
    let r = rv_el(r, ev_attr(ev_plain("q"@), "cite"@, c2));
    let r = rv_el(r, ev_plain("s"@));
    let r = rv_el(r, ev_plain("samp"@));
    let r = rv_el(r, ev_plain("small"@));
    let r = rv_el(r, ev_plain("strike"@));
    let r = rv_el(r, ev_plain("strong"@));
    let r = rv_el(r, ev_plain("sub"@));
    let r = rv_el(r, ev_plain("sup"@));
    let r = rv_el(r, ev_attr(ev_attr(ev_plain("time"@), "datetime"@, Pattern::Any), "pubdate"@, Pattern::Any));
    let r = rv_el(r, ev_plain("u"@));
    let r = rv_el(r, ev_plain("ul"@));
    let r = rv_el(r, ev_plain("var"@));
    let r = rv_el(r, ev_attr(ev_plain("style"@), "media"@, Pattern::Any));
    let r = rv_space(r, "address"@);
    let r = rv_space(r, "article"@);
    let r = rv_space(r, "aside"@);
    let r = rv_space(r, "div"@);
    let r = rv_space(r, "footer"@);
    let r = rv_space(r, "h1"@);
    let r = rv_space(r, "h2"@);
    let r = rv_space(r, "h3"@);
    let r = rv_space(r, "h4"@);
    let r = rv_space(r, "h5"@);
    let r = rv_space(r, "h6"@);
    let r = rv_space(r, "header"@);
    let r = rv_space(r, "hgroup"@);
    let r = rv_space(r, "hr"@);
    let r = rv_space(r, "nav"@);
    let r = rv_space(r, "section"@);
    r
}

/// Basic rules: a fixed allowlist of inline and basic elements, with
/// scheme-checked links, and block-level elements turned into spaces.
pub fn basic() -> (r: Rules)
    ensures
        exists|hp: Pattern, c1: Pattern, c2: Pattern|
            is_href_pattern(hp) && is_src_pattern(c1) && is_src_pattern(c2) && r@
                == #[trigger] spec_basic(hp, c1, c2),
{
    let hp = href();
    let c1 = src();
    let c2 = src();
    let ghost hpv = hp;
    let ghost c1v = c1;
    let ghost c2v = c2;
    let r = Rules::new()
        .element(Element::new("a").attribute("href", hp))
        .element(Element::new("abbr").attribute("title", Pattern::any()))
        .element(Element::new("b"))
        .element(Element::new("blockquote").attribute("cite", c1))
        .element(Element::new("br"))
        .element(Element::new("br"))
        .element(Element::new("cite"))
        .element(Element::new("code"))
        .element(Element::new("dd"))
        .element(Element::new("dfn").attribute("title", Pattern::any()))
        .element(Element::new("dl"))
        .element(Element::new("dt"))
        .element(Element::new("em"))
        .element(Element::new("i"))
        .element(Element::new("kbd"))
        .element(Element::new("li"))
        .element(Element::new("mark"))
        .element(Element::new("ol"))
        .element(Element::new("p"))
        .element(Element::new("pre"))
        .element(Element::new("q").attribute("cite", c2))
        .element(Element::new("s"))
        .element(Element::new("samp"))
        .element(Element::new("small"))
        .element(Element::new("strike"))
        .element(Element::new("strong"))
        .element(Element::new("sub"))
        .element(Element::new("sup"))
        .element(Element::new("time").attribute("datetime", Pattern::any()).attribute("pubdate", Pattern::any()))
        .element(Element::new("u"))
        .element(Element::new("ul"))
        .element(Element::new("var"))
        .element(Element::new("style").attribute("media", Pattern::any()))
        .space("address")
        .space("article")
        .space("aside")
        .space("div")
        .space("footer")
        .space("h1")
        .space("h2")
        .space("h3")
        .space("h4")
        .space("h5")
        .space("h6")
        .space("header")
        .space("hgroup")
        .space("hr")
        .space("nav")
        .space("section");
    proof {
        assert(r@ == spec_basic(hpv, c1v, c2v));
    }
    r
}

/// Mirror of [`relaxed_element`]: the global attributes every relaxed
/// element accepts.
pub open spec fn ev_relaxed(name: Seq<char>) -> ElementV {
    ev_attr(ev_attr(ev_attr(ev_attr(ev_plain(name), "dir"@, Pattern::Any), "lang"@,
        Pattern::Any), "title"@, Pattern::Any), "class"@, Pattern::Any)
}

/// An element descriptor accepting the global attributes `dir`, `lang`,
/// `title` and `class` on top of its own.
fn relaxed_element(name: &str) -> (r: Element)
    ensures
        r@ == ev_relaxed(name@),
{
    Element::new(name)
        .attribute("dir", Pattern::any())
        .attribute("lang", Pattern::any())
        .attribute("title", Pattern::any())
        .attribute("class", Pattern::any())
}

/// Mirror of [`relaxed`]'s construction, given the patterns it creates.
pub open spec fn spec_relaxed(
    hp: Pattern,
    c1: Pattern,
    c2: Pattern,
    c3: Pattern,
    c4: Pattern,
    c5: Pattern,
) -> RulesV {
    let r = rules_empty();
    let r = rv_el(r, ev_attr(ev_relaxed("a"@), "href"@, hp));
    let r = rv_el(r, ev_relaxed("abbr"@));
    let r = rv_el(r, ev_relaxed("b"@));
    let r = rv_el(r, ev_relaxed("bdo"@));
    let r = rv_el(r, ev_attr(ev_relaxed("blockquote"@), "cite"@, c1));
    let r = rv_el(r, ev_relaxed("br"@));
    let r = rv_el(r, ev_relaxed("caption"@));
    let r = rv_el(r, ev_relaxed("cite"@));
    let r = rv_el(r, ev_relaxed("code"@));
    let r = rv_el(r, ev_attr(ev_attr(ev_relaxed("col"@), "span"@, Pattern::Any), "width"@, Pattern::Any));
    let r = rv_el(r, ev_attr(ev_attr(ev_relaxed("colgroup"@), "span"@, Pattern::Any), "width"@, Pattern::Any));
    let r = rv_el(r, ev_relaxed("dd"@));
    let r = rv_el(r, ev_attr(ev_attr(ev_relaxed("del"@), "cite"@, c2), "datetime"@, Pattern::Any));
    let r = rv_el(r, ev_relaxed("dfn"@));
    let r = rv_el(r, ev_relaxed("dl"@));
    let r = rv_el(r, ev_relaxed("dt"@));
    let r = rv_el(r, ev_relaxed("em"@));
    let r = rv_el(r, ev_relaxed("figcaption"@));
    let r = rv_el(r, ev_relaxed("figure"@));
    let r = rv_el(r, ev_relaxed("h1"@));
    let r = rv_el(r, ev_relaxed("h2"@));
    let r = rv_el(r, ev_relaxed("h3"@));
    let r = rv_el(r, ev_relaxed("h4"@));
    let r = rv_el(r, ev_relaxed("h5"@));
    let r = rv_el(r, ev_relaxed("h6"@));
    let r = rv_el(r, ev_relaxed("hgroup"@));
    let r = rv_el(r, ev_relaxed("i"@));
    let r = rv_el(r, ev_attr(ev_attr(ev_attr(ev_attr(ev_attr(ev_relaxed("img"@), "src"@, c3), "align"@, Pattern::Any), "alt"@, Pattern::Any), "width"@, Pattern::Any), "height"@, Pattern::Any));
    let r = rv_el(r, ev_attr(ev_attr(ev_relaxed("ins"@), "cite"@, c4), "datetime"@, Pattern::Any));
    let r = rv_el(r, ev_relaxed("kbd"@));
    let r = rv_el(r, ev_relaxed("li"@));
    let r = rv_el(r, ev_relaxed("mark"@));
    let r = rv_el(r, ev_attr(ev_attr(ev_attr(ev_relaxed("ol"@), "start"@, Pattern::Any), "reversed"@, Pattern::Any), "type"@, Pattern::Any));
    let r = rv_el(r, ev_relaxed("p"@));
    let r = rv_el(r, ev_relaxed("pre"@));
    let r = rv_el(r, ev_attr(ev_relaxed("q"@), "cite"@, c5));
    let r = rv_el(r, ev_relaxed("rp"@));
    let r = rv_el(r, ev_relaxed("rt"@));
    let r = rv_el(r, ev_relaxed("ruby"@));
    let r = rv_el(r, ev_relaxed("s"@));
    let r = rv_el(r, ev_relaxed("samp"@));
    let r = rv_el(r, ev_relaxed("small"@));
    let r = rv_el(r, ev_relaxed("strike"@));
    let r = rv_el(r, ev_relaxed("strong"@));
    let r = rv_el(r, ev_relaxed("sub"@));
    let r = rv_el(r, ev_relaxed("sup"@));
    let r = rv_el(r, ev_attr(ev_attr(ev_relaxed("table"@), "summary"@, Pattern::Any), "width"@, Pattern::Any));
    let r = rv_el(r, ev_relaxed("tbody"@));
    let r = rv_el(r, ev_attr(ev_attr(ev_attr(ev_attr(ev_attr(ev_relaxed("td"@), "abbr"@, Pattern::Any), "axis"@, Pattern::Any), "colspan"@, Pattern::Any), "rowspan"@, Pattern::Any), "width"@, Pattern::Any));
    let r = rv_el(r, ev_relaxed("tfoot"@));
    let r = rv_el(r, ev_attr(ev_attr(ev_attr(ev_attr(ev_attr(ev_attr(ev_relaxed("th"@), "abbr"@, Pattern::Any), "axis"@, Pattern::Any), "colspan"@, Pattern::Any), "rowspan"@, Pattern::Any), "scope"@, Pattern::Any), "width"@, Pattern::Any));
    let r = rv_el(r, ev_relaxed("thead"@));
    let r = rv_el(r, ev_attr(ev_attr(ev_relaxed("time"@), "datetime"@, Pattern::Any), "pubdate"@, Pattern::Any));
    let r = rv_el(r, ev_relaxed("tr"@));
    let r = rv_el(r, ev_relaxed("u"@));
    let r = rv_el(r, ev_attr(ev_relaxed("ul"@), "type"@, Pattern::Any));
    let r = rv_el(r, ev_relaxed("var"@));
    let r = rv_el(r, ev_relaxed("wbr"@));
    let r = rv_el(r, ev_attr(ev_plain("style"@), "media"@, Pattern::Any));
    let r = rv_space(r, "address"@);
    let r = rv_space(r, "article"@);
    let r = rv_space(r, "aside"@);
    let r = rv_space(r, "footer"@);
    let r = rv_space(r, "header"@);
    let r = rv_space(r, "hr"@);
    let r = rv_space(r, "nav"@);
    let r = rv_space(r, "section"@);
    r
}

/// Relaxed rules: a superset of [`basic`] with tables, media and more
/// global attributes on every kept element.
pub fn relaxed() -> (r: Rules)
    ensures
        exists|hp: Pattern, c1: Pattern, c2: Pattern, c3: Pattern, c4: Pattern, c5: Pattern|
            is_href_pattern(hp) && is_src_pattern(c1) && is_src_pattern(c2)
                && is_src_pattern(c3) && is_src_pattern(c4) && is_src_pattern(c5) && r@
                == #[trigger] spec_relaxed(hp, c1, c2, c3, c4, c5),
{
    let hp = href();
    let c1 = src();
    let c2 = src();
    let c3 = src();
    let c4 = src();
    let c5 = src();
    let ghost hpv = hp;
    let ghost c1v = c1;
    let ghost c2v = c2;
    let ghost c3v = c3;
    let ghost c4v = c4;
    let ghost c5v = c5;
    let r = Rules::new()
        .element(relaxed_element("a").attribute("href", hp))
        .element(relaxed_element("abbr"))
        .element(relaxed_element("b"))
        .element(relaxed_element("bdo"))
        .element(relaxed_element("blockquote").attribute("cite", c1))
        .element(relaxed_element("br"))
        .element(relaxed_element("caption"))
        .element(relaxed_element("cite"))
        .element(relaxed_element("code"))
        .element(relaxed_element("col").attribute("span", Pattern::any()).attribute("width", Pattern::any()))
        .element(relaxed_element("colgroup").attribute("span", Pattern::any()).attribute("width", Pattern::any()))
        .element(relaxed_element("dd"))
        .element(relaxed_element("del").attribute("cite", c2).attribute("datetime", Pattern::any()))
        .element(relaxed_element("dfn"))
        .element(relaxed_element("dl"))
        .element(relaxed_element("dt"))
        .element(relaxed_element("em"))
        .element(relaxed_element("figcaption"))
        .element(relaxed_element("figure"))
        .element(relaxed_element("h1"))
        .element(relaxed_element("h2"))
        .element(relaxed_element("h3"))
        .element(relaxed_element("h4"))
        .element(relaxed_element("h5"))
        .element(relaxed_element("h6"))
        .element(relaxed_element("hgroup"))
        .element(relaxed_element("i"))
        .element(relaxed_element("img").attribute("src", c3).attribute("align", Pattern::any()).attribute("alt", Pattern::any()).attribute("width", Pattern::any()).attribute("height", Pattern::any()))
        .element(relaxed_element("ins").attribute("cite", c4).attribute("datetime", Pattern::any()))
        .element(relaxed_element("kbd"))
        .element(relaxed_element("li"))
        .element(relaxed_element("mark"))
        .element(relaxed_element("ol").attribute("start", Pattern::any()).attribute("reversed", Pattern::any()).attribute("type", Pattern::any()))
        .element(relaxed_element("p"))
        .element(relaxed_element("pre"))
        .element(relaxed_element("q").attribute("cite", c5))
        .element(relaxed_element("rp"))
        .element(relaxed_element("rt"))
        .element(relaxed_element("ruby"))
        .element(relaxed_element("s"))
        .element(relaxed_element("samp"))
        .element(relaxed_element("small"))
        .element(relaxed_element("strike"))
        .element(relaxed_element("strong"))
        .element(relaxed_element("sub"))
        .element(relaxed_element("sup"))
        .element(relaxed_element("table").attribute("summary", Pattern::any()).attribute("width", Pattern::any()))
        .element(relaxed_element("tbody"))
        .element(relaxed_element("td").attribute("abbr", Pattern::any()).attribute("axis", Pattern::any()).attribute("colspan", Pattern::any()).attribute("rowspan", Pattern::any()).attribute("width", Pattern::any()))
        .element(relaxed_element("tfoot"))
        .element(relaxed_element("th").attribute("abbr", Pattern::any()).attribute("axis", Pattern::any()).attribute("colspan", Pattern::any()).attribute("rowspan", Pattern::any()).attribute("scope", Pattern::any()).attribute("width", Pattern::any()))
        .element(relaxed_element("thead"))
        .element(relaxed_element("time").attribute("datetime", Pattern::any()).attribute("pubdate", Pattern::any()))
        .element(relaxed_element("tr"))
        .element(relaxed_element("u"))
        .element(relaxed_element("ul").attribute("type", Pattern::any()))
        .element(relaxed_element("var"))
        .element(relaxed_element("wbr"))
        .element(Element::new("style").attribute("media", Pattern::any()))
        .space("address")
        .space("article")
        .space("aside")
        .space("footer")
        .space("header")
        .space("hr")
        .space("nav")
        .space("section");
    proof {
        assert(r@ == spec_relaxed(hpv, c1v, c2v, c3v, c4v, c5v));
    }
    r
}

/// Mirror of [`restricted`]'s construction.
pub open spec fn spec_restricted() -> RulesV {
    let r = rules_empty();
    let r = rv_el(r, ev_plain("b"@));
    let r = rv_el(r, ev_plain("em"@));
    let r = rv_el(r, ev_plain("i"@));
    let r = rv_el(r, ev_plain("strong"@));
    let r = rv_el(r, ev_plain("u"@));
    let r = rv_space(r, "address"@);
    let r = rv_space(r, "article"@);
    let r = rv_space(r, "aside"@);
    let r = rv_space(r, "blockquote"@);
    let r = rv_space(r, "br"@);
    let r = rv_space(r, "dd"@);
    let r = rv_space(r, "div"@);
    let r = rv_space(r, "dl"@);
    let r = rv_space(r, "dt"@);
    let r = rv_space(r, "footer"@);
    let r = rv_space(r, "h1"@);
    let r = rv_space(r, "h2"@);
    let r = rv_space(r, "h3"@);
    let r = rv_space(r, "h4"@);
    let r = rv_space(r, "h5"@);
    let r = rv_space(r, "h6"@);
    let r = rv_space(r, "header"@);
    let r = rv_space(r, "hgroup"@);
    let r = rv_space(r, "hr"@);
    let r = rv_space(r, "li"@);
    let r = rv_space(r, "nav"@);
    let r = rv_space(r, "ol"@);
    let r = rv_space(r, "p"@);
    let r = rv_space(r, "pre"@);
    let r = rv_space(r, "section"@);
    let r = rv_space(r, "ul"@);
    let r = rv_delete(r, "noscript"@);
    let r = rv_delete(r, "script"@);
    let r = rv_delete(r, "style"@);
    r
}

/// Restricted rules: only very simple inline markup is kept.
pub fn restricted() -> (r: Rules)
    ensures
        r@ == spec_restricted(),
{
    Rules::new()
        .element(Element::new("b"))
        .element(Element::new("em"))
        .element(Element::new("i"))
        .element(Element::new("strong"))
        .element(Element::new("u"))
        .space("address")
        .space("article")
        .space("aside")
        .space("blockquote")
        .space("br")
        .space("dd")
        .space("div")
        .space("dl")
        .space("dt")
        .space("footer")
        .space("h1")
        .space("h2")
        .space("h3")
        .space("h4")
        .space("h5")
        .space("h6")
        .space("header")
        .space("hgroup")
        .space("hr")
        .space("li")
        .space("nav")
        .space("ol")
        .space("p")
        .space("pre")
        .space("section")
        .space("ul")
        .delete("noscript")
        .delete("script")
        .delete("style")
}

/// Mirror of [`untrusted`]'s construction, given the link pattern.
pub open spec fn spec_untrusted(hp: Pattern) -> RulesV {
    let r = rules_empty();
    let r = rv_el(r, ev_mand(ev_mand(ev_attr(ev_plain("a"@), "href"@, hp), "target"@, "_blank"@), "rel"@, "noreferrer noopener"@));
    let r = rv_el(r, ev_plain("b"@));
    let r = rv_el(r, ev_plain("em"@));
    let r = rv_el(r, ev_plain("i"@));
    let r = rv_el(r, ev_plain("strong"@));
    let r = rv_el(r, ev_plain("u"@));
    let r = rv_space(r, "address"@);
    let r = rv_space(r, "article"@);
    let r = rv_space(r, "aside"@);
    let r = rv_space(r, "blockquote"@);
    let r = rv_space(r, "br"@);
    let r = rv_space(r, "dd"@);
    let r = rv_space(r, "div"@);
    let r = rv_space(r, "dl"@);
    let r = rv_space(r, "dt"@);
    let r = rv_space(r, "footer"@);
    let r = rv_space(r, "h1"@);
    let r = rv_space(r, "h2"@);
    let r = rv_space(r, "h3"@);
    let r = rv_space(r, "h4"@);
    let r = rv_space(r, "h5"@);
    let r = rv_space(r, "h6"@);
    let r = rv_space(r, "header"@);
    let r = rv_space(r, "hgroup"@);
    let r = rv_space(r, "hr"@);
    let r = rv_space(r, "li"@);
    let r = rv_space(r, "nav"@);
    let r = rv_space(r, "ol"@);
    let r = rv_space(r, "p"@);
    let r = rv_space(r, "pre"@);
    let r = rv_space(r, "section"@);
    let r = rv_space(r, "ul"@);
    let r = rv_delete(r, "noscript"@);
    let r = rv_delete(r, "script"@);
    let r = rv_delete(r, "style"@);
    r
}

/// Rules for documents from untrusted sources: text emphasis and links
/// only, every kept link forced to open in a new context without a
/// referrer.
pub fn untrusted() -> (r: Rules)
    ensures
        exists|hp: Pattern| is_href_pattern(hp) && r@ == #[trigger] spec_untrusted(hp),
{
    let hp = href();
    let ghost hpv = hp;
    let r = Rules::new()
        .element(
            Element::new("a")
                .attribute("href", hp)
                .mandatory_attribute("target", "_blank")
                .mandatory_attribute("rel", "noreferrer noopener"),
        )
        .element(Element::new("b"))
        .element(Element::new("em"))
        .element(Element::new("i"))
        .element(Element::new("strong"))
        .element(Element::new("u"))
        .space("address")
        .space("article")
        .space("aside")
        .space("blockquote")
        .space("br")
        .space("dd")
        .space("div")
        .space("dl")
        .space("dt")
        .space("footer")
        .space("h1")
        .space("h2")
        .space("h3")
        .space("h4")
        .space("h5")
        .space("h6")
        .space("header")
        .space("hgroup")
        .space("hr")
        .space("li")
        .space("nav")
        .space("ol")
        .space("p")
        .space("pre")
        .space("section")
        .space("ul")
        .delete("noscript")
        .delete("script")
        .delete("style");
    proof {
        assert(r@ == spec_untrusted(hpv));
    }
    r
}

/// A dedup-append lands at the end when the name is absent.
proof fn lemma_names_insert_absent(s: Seq<Seq<char>>, name: Seq<char>)
    requires
        forall|j: int| 0 <= j < s.len() ==> #[trigger] s[j] != name,
    ensures
        names_insert(s, name) == s + seq![name],
{
    lemma_names_insert_split(s, name, s.len() as int);
    assert(s.skip(s.len() as int) =~= Seq::<Seq<char>>::empty());
    assert(names_insert(Seq::<Seq<char>>::empty(), name) =~= seq![name]);
    assert(s.subrange(0, s.len() as int) =~= s);
    assert(s.subrange(0, s.len() as int) + names_insert(s.skip(s.len() as int), name) =~= s + seq![
        name,
    ]);
}

/// The default rule set, written out: comments off, nothing allowed or
/// renamed, the block-level names spaced in order, the script-like
/// names deleted in order.
#[verifier::rlimit(100)]
#[verifier::spinoff_prover]
pub proof fn lemma_default_rules_shape()
    ensures
        spec_default().allow_comments == false,
        spec_default().allowed_elements == Seq::<ElementV>::empty(),
        spec_default().rename_elements == Seq::<(Seq<char>, Seq<char>)>::empty(),
        spec_default().space_elements == seq!["address"@, "article"@, "aside"@, "blockquote"@, "br"@, "dd"@, "div"@, "dl"@, "dt"@, "footer"@, "h1"@, "h2"@, "h3"@, "h4"@, "h5"@, "h6"@, "header"@, "hgroup"@, "hr"@, "li"@, "nav"@, "ol"@, "p"@, "pre"@, "section"@, "ul"@],
        spec_default().delete_elements == seq!["iframe"@, "noembed"@, "noframes"@, "noscript"@, "script"@, "style"@],
{
    reveal_strlit("address");
    reveal_strlit("article");
    reveal_strlit("aside");
    reveal_strlit("blockquote");
    reveal_strlit("br");
    reveal_strlit("dd");
    reveal_strlit("div");
    reveal_strlit("dl");
    reveal_strlit("dt");
    reveal_strlit("footer");
    reveal_strlit("h1");
    reveal_strlit("h2");
    reveal_strlit("h3");
    reveal_strlit("h4");
    reveal_strlit("h5");
    reveal_strlit("h6");
    reveal_strlit("header");
    reveal_strlit("hgroup");
    reveal_strlit("hr");
    reveal_strlit("iframe");
    reveal_strlit("li");
    reveal_strlit("nav");
    reveal_strlit("noembed");
    reveal_strlit("noframes");
    reveal_strlit("noscript");
    reveal_strlit("ol");
    reveal_strlit("p");
    reveal_strlit("pre");
    reveal_strlit("script");
    reveal_strlit("section");
    reveal_strlit("style");
    reveal_strlit("ul");
    assert("address"@.len() == 7);
    assert("article"@.len() == 7);
    assert("aside"@.len() == 5);
    assert("blockquote"@.len() == 10);
    assert("br"@.len() == 2);
    assert("dd"@.len() == 2);
    assert("div"@.len() == 3);
    assert("dl"@.len() == 2);
    assert("dt"@.len() == 2);
    assert("footer"@.len() == 6);
    assert("h1"@.len() == 2);
    assert("h2"@.len() == 2);
    assert("h3"@.len() == 2);
    assert("h4"@.len() == 2);
    assert("h5"@.len() == 2);
    assert("h6"@.len() == 2);
    assert("header"@.len() == 6);
    assert("hgroup"@.len() == 6);
    assert("hr"@.len() == 2);
    assert("iframe"@.len() == 6);
    assert("li"@.len() == 2);
    assert("nav"@.len() == 3);
    assert("noembed"@.len() == 7);
    assert("noframes"@.len() == 8);
    assert("noscript"@.len() == 8);
    assert("ol"@.len() == 2);
    assert("p"@.len() == 1);
    assert("pre"@.len() == 3);
    assert("script"@.len() == 6);
    assert("section"@.len() == 7);
    assert("style"@.len() == 5);
    assert("ul"@.len() == 2);
    assert("address"@ != "article"@) by {
        assert("address"@[1] == 'd');
        assert("article"@[1] == 'r');
    }
    assert("br"@ != "dd"@) by {
        assert("br"@[0] == 'b');
        assert("dd"@[0] == 'd');
    }
    assert("br"@ != "dl"@) by {
        assert("br"@[0] == 'b');
        assert("dl"@[0] == 'd');
    }
    assert("dd"@ != "dl"@) by {
        assert("dd"@[1] == 'd');
        assert("dl"@[1] == 'l');
    }
    assert("br"@ != "dt"@) by {
        assert("br"@[0] == 'b');
        assert("dt"@[0] == 'd');
    }
    assert("dd"@ != "dt"@) by {
        assert("dd"@[1] == 'd');
        assert("dt"@[1] == 't');
    }
    assert("dl"@ != "dt"@) by {
        assert("dl"@[1] == 'l');
        assert("dt"@[1] == 't');
    }
    assert("br"@ != "h1"@) by {
        assert("br"@[0] == 'b');
        assert("h1"@[0] == 'h');
    }
    assert("dd"@ != "h1"@) by {
        assert("dd"@[0] == 'd');
        assert("h1"@[0] == 'h');
    }
    assert("dl"@ != "h1"@) by {
        assert("dl"@[0] == 'd');
        assert("h1"@[0] == 'h');
    }
    assert("dt"@ != "h1"@) by {
        assert("dt"@[0] == 'd');
        assert("h1"@[0] == 'h');
    }
    assert("br"@ != "h2"@) by {
        assert("br"@[0] == 'b');
        assert("h2"@[0] == 'h');
    }
    assert("dd"@ != "h2"@) by {
        assert("dd"@[0] == 'd');
        assert("h2"@[0] == 'h');
    }
    assert("dl"@ != "h2"@) by {
        assert("dl"@[0] == 'd');
        assert("h2"@[0] == 'h');
    }
    assert("dt"@ != "h2"@) by {
        assert("dt"@[0] == 'd');
        assert("h2"@[0] == 'h');
    }
    assert("h1"@ != "h2"@) by {
        assert("h1"@[1] == '1');
        assert("h2"@[1] == '2');
    }
    assert("br"@ != "h3"@) by {
        assert("br"@[0] == 'b');
        assert("h3"@[0] == 'h');
    }
    assert("dd"@ != "h3"@) by {
        assert("dd"@[0] == 'd');
        assert("h3"@[0] == 'h');
    }
    assert("dl"@ != "h3"@) by {
        assert("dl"@[0] == 'd');
        assert("h3"@[0] == 'h');
    }
    assert("dt"@ != "h3"@) by {
        assert("dt"@[0] == 'd');
        assert("h3"@[0] == 'h');
    }
    assert("h1"@ != "h3"@) by {
        assert("h1"@[1] == '1');
        assert("h3"@[1] == '3');
    }
    assert("h2"@ != "h3"@) by {
        assert("h2"@[1] == '2');
        assert("h3"@[1] == '3');
    }
    assert("br"@ != "h4"@) by {
        assert("br"@[0] == 'b');
        assert("h4"@[0] == 'h');
    }
    assert("dd"@ != "h4"@) by {
        assert("dd"@[0] == 'd');
        assert("h4"@[0] == 'h');
    }
    assert("dl"@ != "h4"@) by {
        assert("dl"@[0] == 'd');
        assert("h4"@[0] == 'h');
    }
    assert("dt"@ != "h4"@) by {
        assert("dt"@[0] == 'd');
        assert("h4"@[0] == 'h');
    }
    assert("h1"@ != "h4"@) by {
        assert("h1"@[1] == '1');
        assert("h4"@[1] == '4');
    }
    assert("h2"@ != "h4"@) by {
        assert("h2"@[1] == '2');
        assert("h4"@[1] == '4');
    }
    assert("h3"@ != "h4"@) by {
        assert("h3"@[1] == '3');
        assert("h4"@[1] == '4');
    }
    assert("br"@ != "h5"@) by {
        assert("br"@[0] == 'b');
        assert("h5"@[0] == 'h');
    }
    assert("dd"@ != "h5"@) by {
        assert("dd"@[0] == 'd');
        assert("h5"@[0] == 'h');
    }
    assert("dl"@ != "h5"@) by {
        assert("dl"@[0] == 'd');
        assert("h5"@[0] == 'h');
    }
    assert("dt"@ != "h5"@) by {
        assert("dt"@[0] == 'd');
        assert("h5"@[0] == 'h');
    }
    assert("h1"@ != "h5"@) by {
        assert("h1"@[1] == '1');
        assert("h5"@[1] == '5');
    }
    assert("h2"@ != "h5"@) by {
        assert("h2"@[1] == '2');
        assert("h5"@[1] == '5');
    }
    assert("h3"@ != "h5"@) by {
        assert("h3"@[1] == '3');
        assert("h5"@[1] == '5');
    }
    assert("h4"@ != "h5"@) by {
        assert("h4"@[1] == '4');
        assert("h5"@[1] == '5');
    }
    assert("br"@ != "h6"@) by {
        assert("br"@[0] == 'b');
        assert("h6"@[0] == 'h');
    }
    assert("dd"@ != "h6"@) by {
        assert("dd"@[0] == 'd');
        assert("h6"@[0] == 'h');
    }
    assert("dl"@ != "h6"@) by {
        assert("dl"@[0] == 'd');
        assert("h6"@[0] == 'h');
    }
    assert("dt"@ != "h6"@) by {
        assert("dt"@[0] == 'd');
        assert("h6"@[0] == 'h');
    }
    assert("h1"@ != "h6"@) by {
        assert("h1"@[1] == '1');
        assert("h6"@[1] == '6');
    }
    assert("h2"@ != "h6"@) by {
        assert("h2"@[1] == '2');
        assert("h6"@[1] == '6');
    }
    assert("h3"@ != "h6"@) by {
        assert("h3"@[1] == '3');
        assert("h6"@[1] == '6');
    }
    assert("h4"@ != "h6"@) by {
        assert("h4"@[1] == '4');
        assert("h6"@[1] == '6');
    }
    assert("h5"@ != "h6"@) by {
        assert("h5"@[1] == '5');
        assert("h6"@[1] == '6');
    }
    assert("footer"@ != "header"@) by {
        assert("footer"@[0] == 'f');
        assert("header"@[0] == 'h');
    }
    assert("footer"@ != "hgroup"@) by {
        assert("footer"@[0] == 'f');
        assert("hgroup"@[0] == 'h');
    }
    assert("header"@ != "hgroup"@) by {
        assert("header"@[1] == 'e');
        assert("hgroup"@[1] == 'g');
    }
    assert("br"@ != "hr"@) by {
        assert("br"@[0] == 'b');
        assert("hr"@[0] == 'h');
    }
    assert("dd"@ != "hr"@) by {
        assert("dd"@[0] == 'd');
        assert("hr"@[0] == 'h');
    }
    assert("dl"@ != "hr"@) by {
        assert("dl"@[0] == 'd');
        assert("hr"@[0] == 'h');
    }
    assert("dt"@ != "hr"@) by {
        assert("dt"@[0] == 'd');
        assert("hr"@[0] == 'h');
    }
    assert("h1"@ != "hr"@) by {
        assert("h1"@[1] == '1');
        assert("hr"@[1] == 'r');
    }
    assert("h2"@ != "hr"@) by {
        assert("h2"@[1] == '2');
        assert("hr"@[1] == 'r');
    }
    assert("h3"@ != "hr"@) by {
        assert("h3"@[1] == '3');
        assert("hr"@[1] == 'r');
    }
    assert("h4"@ != "hr"@) by {
        assert("h4"@[1] == '4');
        assert("hr"@[1] == 'r');
    }
    assert("h5"@ != "hr"@) by {
        assert("h5"@[1] == '5');
        assert("hr"@[1] == 'r');
    }
    assert("h6"@ != "hr"@) by {
        assert("h6"@[1] == '6');
        assert("hr"@[1] == 'r');
    }
    assert("br"@ != "li"@) by {
        assert("br"@[0] == 'b');
        assert("li"@[0] == 'l');
    }
    assert("dd"@ != "li"@) by {
        assert("dd"@[0] == 'd');
        assert("li"@[0] == 'l');
    }
    assert("dl"@ != "li"@) by {
        assert("dl"@[0] == 'd');
        assert("li"@[0] == 'l');
    }
    assert("dt"@ != "li"@) by {
        assert("dt"@[0] == 'd');
        assert("li"@[0] == 'l');
    }
    assert("h1"@ != "li"@) by {
        assert("h1"@[0] == 'h');
        assert("li"@[0] == 'l');
    }
    assert("h2"@ != "li"@) by {
        assert("h2"@[0] == 'h');
        assert("li"@[0] == 'l');
    }
    assert("h3"@ != "li"@) by {
        assert("h3"@[0] == 'h');
        assert("li"@[0] == 'l');
    }
    assert("h4"@ != "li"@) by {
        assert("h4"@[0] == 'h');
        assert("li"@[0] == 'l');
    }
    assert("h5"@ != "li"@) by {
        assert("h5"@[0] == 'h');
        assert("li"@[0] == 'l');
    }
    assert("h6"@ != "li"@) by {
        assert("h6"@[0] == 'h');
        assert("li"@[0] == 'l');
    }
    assert("hr"@ != "li"@) by {
        assert("hr"@[0] == 'h');
        assert("li"@[0] == 'l');
    }
    assert("div"@ != "nav"@) by {
        assert("div"@[0] == 'd');
        assert("nav"@[0] == 'n');
    }
    assert("br"@ != "ol"@) by {
        assert("br"@[0] == 'b');
        assert("ol"@[0] == 'o');
    }
    assert("dd"@ != "ol"@) by {
        assert("dd"@[0] == 'd');
        assert("ol"@[0] == 'o');
    }
    assert("dl"@ != "ol"@) by {
        assert("dl"@[0] == 'd');
        assert("ol"@[0] == 'o');
    }
    assert("dt"@ != "ol"@) by {
        assert("dt"@[0] == 'd');
        assert("ol"@[0] == 'o');
    }
    assert("h1"@ != "ol"@) by {
        assert("h1"@[0] == 'h');
        assert("ol"@[0] == 'o');
    }
    assert("h2"@ != "ol"@) by {
        assert("h2"@[0] == 'h');
        assert("ol"@[0] == 'o');
    }
    assert("h3"@ != "ol"@) by {
        assert("h3"@[0] == 'h');
        assert("ol"@[0] == 'o');
    }
    assert("h4"@ != "ol"@) by {
        assert("h4"@[0] == 'h');
        assert("ol"@[0] == 'o');
    }
    assert("h5"@ != "ol"@) by {
        assert("h5"@[0] == 'h');
        assert("ol"@[0] == 'o');
    }
    assert("h6"@ != "ol"@) by {
        assert("h6"@[0] == 'h');
        assert("ol"@[0] == 'o');
    }
    assert("hr"@ != "ol"@) by {
        assert("hr"@[0] == 'h');
        assert("ol"@[0] == 'o');
    }
    assert("li"@ != "ol"@) by {
        assert("li"@[0] == 'l');
        assert("ol"@[0] == 'o');
    }
    assert("div"@ != "pre"@) by {
        assert("div"@[0] == 'd');
        assert("pre"@[0] == 'p');
    }
    assert("nav"@ != "pre"@) by {
        assert("nav"@[0] == 'n');
        assert("pre"@[0] == 'p');
    }
    assert("address"@ != "section"@) by {
        assert("address"@[0] == 'a');
        assert("section"@[0] == 's');
    }
    assert("article"@ != "section"@) by {
        assert("article"@[0] == 'a');
        assert("section"@[0] == 's');
    }
    assert("br"@ != "ul"@) by {
        assert("br"@[0] == 'b');
        assert("ul"@[0] == 'u');
    }
    assert("dd"@ != "ul"@) by {
        assert("dd"@[0] == 'd');
        assert("ul"@[0] == 'u');
    }
    assert("dl"@ != "ul"@) by {
        assert("dl"@[0] == 'd');
        assert("ul"@[0] == 'u');
    }
    assert("dt"@ != "ul"@) by {
        assert("dt"@[0] == 'd');
        assert("ul"@[0] == 'u');
    }
    assert("h1"@ != "ul"@) by {
        assert("h1"@[0] == 'h');
        assert("ul"@[0] == 'u');
    }
    assert("h2"@ != "ul"@) by {
        assert("h2"@[0] == 'h');
        assert("ul"@[0] == 'u');
    }
    assert("h3"@ != "ul"@) by {
        assert("h3"@[0] == 'h');
        assert("ul"@[0] == 'u');
    }
    assert("h4"@ != "ul"@) by {
        assert("h4"@[0] == 'h');
        assert("ul"@[0] == 'u');
    }
    assert("h5"@ != "ul"@) by {
        assert("h5"@[0] == 'h');
        assert("ul"@[0] == 'u');
    }
    assert("h6"@ != "ul"@) by {
        assert("h6"@[0] == 'h');
        assert("ul"@[0] == 'u');
    }
    assert("hr"@ != "ul"@) by {
        assert("hr"@[0] == 'h');
        assert("ul"@[0] == 'u');
    }
    assert("li"@ != "ul"@) by {
        assert("li"@[0] == 'l');
        assert("ul"@[0] == 'u');
    }
    assert("ol"@ != "ul"@) by {
        assert("ol"@[0] == 'o');
        assert("ul"@[0] == 'u');
    }
    assert("noframes"@ != "noscript"@) by {
        assert("noframes"@[2] == 'f');
        assert("noscript"@[2] == 's');
    }
    assert("iframe"@ != "script"@) by {
        assert("iframe"@[0] == 'i');
        assert("script"@[0] == 's');
    }
    let s0 = Seq::<Seq<char>>::empty();
    assert forall|j: int| 0 <= j < s0.len() implies #[trigger] s0[j] != "address"@ by {}
    lemma_names_insert_absent(s0, "address"@);
    let s1 = names_insert(s0, "address"@);
    assert(s1 =~= seq!["address"@]);
    assert forall|j: int| 0 <= j < s1.len() implies #[trigger] s1[j] != "article"@ by {}
    lemma_names_insert_absent(s1, "article"@);
    let s2 = names_insert(s1, "article"@);
    assert(s2 =~= seq!["address"@, "article"@]);
    assert forall|j: int| 0 <= j < s2.len() implies #[trigger] s2[j] != "aside"@ by {}
    lemma_names_insert_absent(s2, "aside"@);
    let s3 = names_insert(s2, "aside"@);
    assert(s3 =~= seq!["address"@, "article"@, "aside"@]);
    assert forall|j: int| 0 <= j < s3.len() implies #[trigger] s3[j] != "blockquote"@ by {}
    lemma_names_insert_absent(s3, "blockquote"@);
    let s4 = names_insert(s3, "blockquote"@);
    assert(s4 =~= seq!["address"@, "article"@, "aside"@, "blockquote"@]);
    assert forall|j: int| 0 <= j < s4.len() implies #[trigger] s4[j] != "br"@ by {}
    lemma_names_insert_absent(s4, "br"@);
    let s5 = names_insert(s4, "br"@);
    assert(s5 =~= seq!["address"@, "article"@, "aside"@, "blockquote"@, "br"@]);
    assert forall|j: int| 0 <= j < s5.len() implies #[trigger] s5[j] != "dd"@ by {}
    lemma_names_insert_absent(s5, "dd"@);
    let s6 = names_insert(s5, "dd"@);
    assert(s6 =~= seq!["address"@, "article"@, "aside"@, "blockquote"@, "br"@, "dd"@]);
    assert forall|j: int| 0 <= j < s6.len() implies #[trigger] s6[j] != "div"@ by {}
    lemma_names_insert_absent(s6, "div"@);
    let s7 = names_insert(s6, "div"@);
    assert(s7 =~= seq!["address"@, "article"@, "aside"@, "blockquote"@, "br"@, "dd"@, "div"@]);
    assert forall|j: int| 0 <= j < s7.len() implies #[trigger] s7[j] != "dl"@ by {}
    lemma_names_insert_absent(s7, "dl"@);
    let s8 = names_insert(s7, "dl"@);
    assert(s8 =~= seq!["address"@, "article"@, "aside"@, "blockquote"@, "br"@, "dd"@, "div"@, "dl"@]);
    assert forall|j: int| 0 <= j < s8.len() implies #[trigger] s8[j] != "dt"@ by {}
    lemma_names_insert_absent(s8, "dt"@);
    let s9 = names_insert(s8, "dt"@);
    assert(s9 =~= seq!["address"@, "article"@, "aside"@, "blockquote"@, "br"@, "dd"@, "div"@, "dl"@, "dt"@]);
    assert forall|j: int| 0 <= j < s9.len() implies #[trigger] s9[j] != "footer"@ by {}
    lemma_names_insert_absent(s9, "footer"@);
    let s10 = names_insert(s9, "footer"@);
    assert(s10 =~= seq!["address"@, "article"@, "aside"@, "blockquote"@, "br"@, "dd"@, "div"@, "dl"@, "dt"@, "footer"@]);
    assert forall|j: int| 0 <= j < s10.len() implies #[trigger] s10[j] != "h1"@ by {}
    lemma_names_insert_absent(s10, "h1"@);
    let s11 = names_insert(s10, "h1"@);
    assert(s11 =~= seq!["address"@, "article"@, "aside"@, "blockquote"@, "br"@, "dd"@, "div"@, "dl"@, "dt"@, "footer"@, "h1"@]);
    assert forall|j: int| 0 <= j < s11.len() implies #[trigger] s11[j] != "h2"@ by {}
    lemma_names_insert_absent(s11, "h2"@);
    let s12 = names_insert(s11, "h2"@);
    assert(s12 =~= seq!["address"@, "article"@, "aside"@, "blockquote"@, "br"@, "dd"@, "div"@, "dl"@, "dt"@, "footer"@, "h1"@, "h2"@]);
    assert forall|j: int| 0 <= j < s12.len() implies #[trigger] s12[j] != "h3"@ by {}
    lemma_names_insert_absent(s12, "h3"@);
    let s13 = names_insert(s12, "h3"@);
    assert(s13 =~= seq!["address"@, "article"@, "aside"@, "blockquote"@, "br"@, "dd"@, "div"@, "dl"@, "dt"@, "footer"@, "h1"@, "h2"@, "h3"@]);
    assert forall|j: int| 0 <= j < s13.len() implies #[trigger] s13[j] != "h4"@ by {}
    lemma_names_insert_absent(s13, "h4"@);
    let s14 = names_insert(s13, "h4"@);
    assert(s14 =~= seq!["address"@, "article"@, "aside"@, "blockquote"@, "br"@, "dd"@, "div"@, "dl"@, "dt"@, "footer"@, "h1"@, "h2"@, "h3"@, "h4"@]);
    assert forall|j: int| 0 <= j < s14.len() implies #[trigger] s14[j] != "h5"@ by {}
    lemma_names_insert_absent(s14, "h5"@);
    let s15 = names_insert(s14, "h5"@);
    assert(s15 =~= seq!["address"@, "article"@, "aside"@, "blockquote"@, "br"@, "dd"@, "div"@, "dl"@, "dt"@, "footer"@, "h1"@, "h2"@, "h3"@, "h4"@, "h5"@]);
    assert forall|j: int| 0 <= j < s15.len() implies #[trigger] s15[j] != "h6"@ by {}
    lemma_names_insert_absent(s15, "h6"@);
    let s16 = names_insert(s15, "h6"@);
    assert(s16 =~= seq!["address"@, "article"@, "aside"@, "blockquote"@, "br"@, "dd"@, "div"@, "dl"@, "dt"@, "footer"@, "h1"@, "h2"@, "h3"@, "h4"@, "h5"@, "h6"@]);
    assert forall|j: int| 0 <= j < s16.len() implies #[trigger] s16[j] != "header"@ by {}
    lemma_names_insert_absent(s16, "header"@);
    let s17 = names_insert(s16, "header"@);
    assert(s17 =~= seq!["address"@, "article"@, "aside"@, "blockquote"@, "br"@, "dd"@, "div"@, "dl"@, "dt"@, "footer"@, "h1"@, "h2"@, "h3"@, "h4"@, "h5"@, "h6"@, "header"@]);
    assert forall|j: int| 0 <= j < s17.len() implies #[trigger] s17[j] != "hgroup"@ by {}
    lemma_names_insert_absent(s17, "hgroup"@);
    let s18 = names_insert(s17, "hgroup"@);
    assert(s18 =~= seq!["address"@, "article"@, "aside"@, "blockquote"@, "br"@, "dd"@, "div"@, "dl"@, "dt"@, "footer"@, "h1"@, "h2"@, "h3"@, "h4"@, "h5"@, "h6"@, "header"@, "hgroup"@]);
    assert forall|j: int| 0 <= j < s18.len() implies #[trigger] s18[j] != "hr"@ by {}
    lemma_names_insert_absent(s18, "hr"@);
    let s19 = names_insert(s18, "hr"@);
    assert(s19 =~= seq!["address"@, "article"@, "aside"@, "blockquote"@, "br"@, "dd"@, "div"@, "dl"@, "dt"@, "footer"@, "h1"@, "h2"@, "h3"@, "h4"@, "h5"@, "h6"@, "header"@, "hgroup"@, "hr"@]);
    assert forall|j: int| 0 <= j < s19.len() implies #[trigger] s19[j] != "li"@ by {}
    lemma_names_insert_absent(s19, "li"@);
    let s20 = names_insert(s19, "li"@);
    assert(s20 =~= seq!["address"@, "article"@, "aside"@, "blockquote"@, "br"@, "dd"@, "div"@, "dl"@, "dt"@, "footer"@, "h1"@, "h2"@, "h3"@, "h4"@, "h5"@, "h6"@, "header"@, "hgroup"@, "hr"@, "li"@]);
    assert forall|j: int| 0 <= j < s20.len() implies #[trigger] s20[j] != "nav"@ by {}
    lemma_names_insert_absent(s20, "nav"@);
    let s21 = names_insert(s20, "nav"@);
    assert(s21 =~= seq!["address"@, "article"@, "aside"@, "blockquote"@, "br"@, "dd"@, "div"@, "dl"@, "dt"@, "footer"@, "h1"@, "h2"@, "h3"@, "h4"@, "h5"@, "h6"@, "header"@, "hgroup"@, "hr"@, "li"@, "nav"@]);
    assert forall|j: int| 0 <= j < s21.len() implies #[trigger] s21[j] != "ol"@ by {}
    lemma_names_insert_absent(s21, "ol"@);
    let s22 = names_insert(s21, "ol"@);
    assert(s22 =~= seq!["address"@, "article"@, "aside"@, "blockquote"@, "br"@, "dd"@, "div"@, "dl"@, "dt"@, "footer"@, "h1"@, "h2"@, "h3"@, "h4"@, "h5"@, "h6"@, "header"@, "hgroup"@, "hr"@, "li"@, "nav"@, "ol"@]);
    assert forall|j: int| 0 <= j < s22.len() implies #[trigger] s22[j] != "p"@ by {}
    lemma_names_insert_absent(s22, "p"@);
    let s23 = names_insert(s22, "p"@);
    assert(s23 =~= seq!["address"@, "article"@, "aside"@, "blockquote"@, "br"@, "dd"@, "div"@, "dl"@, "dt"@, "footer"@, "h1"@, "h2"@, "h3"@, "h4"@, "h5"@, "h6"@, "header"@, "hgroup"@, "hr"@, "li"@, "nav"@, "ol"@, "p"@]);
    assert forall|j: int| 0 <= j < s23.len() implies #[trigger] s23[j] != "pre"@ by {}
    lemma_names_insert_absent(s23, "pre"@);
    let s24 = names_insert(s23, "pre"@);
    assert(s24 =~= seq!["address"@, "article"@, "aside"@, "blockquote"@, "br"@, "dd"@, "div"@, "dl"@, "dt"@, "footer"@, "h1"@, "h2"@, "h3"@, "h4"@, "h5"@, "h6"@, "header"@, "hgroup"@, "hr"@, "li"@, "nav"@, "ol"@, "p"@, "pre"@]);
    assert forall|j: int| 0 <= j < s24.len() implies #[trigger] s24[j] != "section"@ by {}
    lemma_names_insert_absent(s24, "section"@);
    let s25 = names_insert(s24, "section"@);
    assert(s25 =~= seq!["address"@, "article"@, "aside"@, "blockquote"@, "br"@, "dd"@, "div"@, "dl"@, "dt"@, "footer"@, "h1"@, "h2"@, "h3"@, "h4"@, "h5"@, "h6"@, "header"@, "hgroup"@, "hr"@, "li"@, "nav"@, "ol"@, "p"@, "pre"@, "section"@]);
    assert forall|j: int| 0 <= j < s25.len() implies #[trigger] s25[j] != "ul"@ by {}
    lemma_names_insert_absent(s25, "ul"@);
    let s26 = names_insert(s25, "ul"@);
    assert(s26 =~= seq!["address"@, "article"@, "aside"@, "blockquote"@, "br"@, "dd"@, "div"@, "dl"@, "dt"@, "footer"@, "h1"@, "h2"@, "h3"@, "h4"@, "h5"@, "h6"@, "header"@, "hgroup"@, "hr"@, "li"@, "nav"@, "ol"@, "p"@, "pre"@, "section"@, "ul"@]);
    let d0 = Seq::<Seq<char>>::empty();
    assert forall|j: int| 0 <= j < d0.len() implies #[trigger] d0[j] != "iframe"@ by {}
    lemma_names_insert_absent(d0, "iframe"@);
    let d1 = names_insert(d0, "iframe"@);
    assert(d1 =~= seq!["iframe"@]);
    assert forall|j: int| 0 <= j < d1.len() implies #[trigger] d1[j] != "noembed"@ by {}
    lemma_names_insert_absent(d1, "noembed"@);
    let d2 = names_insert(d1, "noembed"@);
    assert(d2 =~= seq!["iframe"@, "noembed"@]);
    assert forall|j: int| 0 <= j < d2.len() implies #[trigger] d2[j] != "noframes"@ by {}
    lemma_names_insert_absent(d2, "noframes"@);
    let d3 = names_insert(d2, "noframes"@);
    assert(d3 =~= seq!["iframe"@, "noembed"@, "noframes"@]);
    assert forall|j: int| 0 <= j < d3.len() implies #[trigger] d3[j] != "noscript"@ by {}
    lemma_names_insert_absent(d3, "noscript"@);
    let d4 = names_insert(d3, "noscript"@);
    assert(d4 =~= seq!["iframe"@, "noembed"@, "noframes"@, "noscript"@]);
    assert forall|j: int| 0 <= j < d4.len() implies #[trigger] d4[j] != "script"@ by {}
    lemma_names_insert_absent(d4, "script"@);
    let d5 = names_insert(d4, "script"@);
    assert(d5 =~= seq!["iframe"@, "noembed"@, "noframes"@, "noscript"@, "script"@]);
    assert forall|j: int| 0 <= j < d5.len() implies #[trigger] d5[j] != "style"@ by {}
    lemma_names_insert_absent(d5, "style"@);
    let d6 = names_insert(d5, "style"@);
    assert(d6 =~= seq!["iframe"@, "noembed"@, "noframes"@, "noscript"@, "script"@, "style"@]);
    assert(spec_default().space_elements == s26);
    assert(spec_default().delete_elements == d6);
}

/// The restricted rule set, written out: the same block-level names
/// spaced as in the default set, and the three script-like names
/// deleted in order.
pub proof fn lemma_restricted_rules_shape()
    ensures
        spec_restricted().allow_comments == false,
        spec_restricted().rename_elements == Seq::<(Seq<char>, Seq<char>)>::empty(),
        spec_restricted().space_elements == spec_default().space_elements,
        spec_restricted().delete_elements == seq!["noscript"@, "script"@, "style"@],
{
    reveal_strlit("noscript");
    reveal_strlit("script");
    reveal_strlit("style");
    assert("noscript"@.len() == 8);
    assert("script"@.len() == 6);
    assert("style"@.len() == 5);
    let d0 = Seq::<Seq<char>>::empty();
    assert forall|j: int| 0 <= j < d0.len() implies #[trigger] d0[j] != "noscript"@ by {}
    lemma_names_insert_absent(d0, "noscript"@);
    let d1 = names_insert(d0, "noscript"@);
    assert(d1 =~= seq!["noscript"@]);
    assert forall|j: int| 0 <= j < d1.len() implies #[trigger] d1[j] != "script"@ by {}
    lemma_names_insert_absent(d1, "script"@);
    let d2 = names_insert(d1, "script"@);
    assert(d2 =~= seq!["noscript"@, "script"@]);
    assert forall|j: int| 0 <= j < d2.len() implies #[trigger] d2[j] != "style"@ by {}
    lemma_names_insert_absent(d2, "style"@);
    let d3 = names_insert(d2, "style"@);
    assert(d3 =~= seq!["noscript"@, "script"@, "style"@]);
    assert(spec_restricted().delete_elements == d3);
}

/// The untrusted rule set shares the restricted set's spaced and
/// deleted names, whatever link pattern it was built with.
pub proof fn lemma_untrusted_rules_shape(hp: Pattern)
    ensures
        spec_untrusted(hp).allow_comments == false,
        spec_untrusted(hp).rename_elements == Seq::<(Seq<char>, Seq<char>)>::empty(),
        spec_untrusted(hp).space_elements == spec_default().space_elements,
        spec_untrusted(hp).delete_elements == spec_restricted().delete_elements,
{
}

} // verus!
