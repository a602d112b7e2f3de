//! A policy-driven markup sanitizer.
//!
//! Given a document and a declarative rule set, the sanitizer produces
//! output containing only content the rule set explicitly permits,
//! neutralizing injection vectors while preserving readable text
//! structure. The tree transformation at its core is specified by the
//! model in [`model`] and proved to follow it; parsing and serialization
//! are an external library's work.

pub mod errors;
pub mod html_io;
pub mod laws;
pub mod model;
pub mod rules;
pub mod sanitize;
pub mod strutil;
pub mod tree;

use vstd::prelude::*;
use vstd::string::StringSliceAdditionalSpecFns;
use crate::errors::SanitizeError;
use crate::html_io::parse_html;
use crate::html_io::parse_of;
use crate::html_io::serialize_html;
use crate::html_io::serialized;
use crate::html_io::string_from_utf8;
use crate::model::lemma_sanitize_serializable;
use crate::model::sanitize_v;
use crate::rules::Rules;
use crate::sanitize::sanitize_dom;

verus! {

/// Sanitizes markup given as bytes: the input is parsed, the tree is
/// transformed as [`sanitize_v`] describes, and the result serialized.
/// Every call succeeds: parsing recovers from malformed input, the
/// transformation is total, and serialization into memory cannot fail.
pub fn sanitize_bytes(rules: &Rules, input: &[u8]) -> (r: Result<Vec<u8>, SanitizeError>)
    ensures
        r is Ok,
        r matches Ok(b) ==> b@ == serialized(sanitize_v(parse_of(input@), rules@))
            && vstd::utf8::valid_utf8(b@),
{
    let tree = match parse_html(input) {
        Result::Ok(t) => t,
        Result::Err(e) => return Result::Err(e),
    };
    let cleaned = sanitize_dom(&tree, rules);
    proof {
        lemma_sanitize_serializable(tree@, rules@);
    }
    serialize_html(&cleaned)
}

/// Sanitizes markup given as a string; the result is the sanitized
/// serialization, decoded back to text. Every call succeeds: the
/// serialized bytes are always valid UTF-8.
pub fn sanitize_str(rules: &Rules, input: &str) -> (r: Result<String, SanitizeError>)
    ensures
        r is Ok,
        r matches Ok(s) ==> s@ == vstd::utf8::decode_utf8(
            serialized(sanitize_v(parse_of(input.spec_bytes()), rules@)),
        ),
{
    let bytes = input.as_bytes();
    let out = match sanitize_bytes(rules, bytes) {
        Result::Ok(b) => b,
        Result::Err(e) => return Result::Err(e),
    };
    string_from_utf8(out)
}

} // verus!
