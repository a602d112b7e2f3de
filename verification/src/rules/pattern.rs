//! Composable boolean predicates over attribute values.
//!
//! A [`Pattern`] decides whether an attribute value is acceptable. The
//! primitive forms accept everything or consult a compiled regular
//! expression; patterns compose by negation, conjunction and disjunction.

use vstd::prelude::*;

verus! {

/// Verus sees `regex::Regex` as an opaque type.
#[verifier::external_type_specification]
#[verifier::external_body]
pub struct ExRegex(regex::Regex);

/// Whether `regex::Regex::new` accepts a pattern source.
pub uninterp spec fn regex_ok(source: Seq<char>) -> bool;

/// Whether the regular expression compiled from `source` finds a match
/// somewhere in `value` (substring semantics, not full-string).
pub uninterp spec fn regex_match(source: Seq<char>, value: Seq<char>) -> bool;

/// A compiled regular expression, kept together with the source text it
/// was compiled from; the source alone determines how it matches.
pub struct CompiledRegex {
    source: String,
    compiled: regex::Regex,
}

impl CompiledRegex {
    /// The source text this regular expression was compiled from.
    pub closed spec fn src(self) -> Seq<char> {
        self.source@
    }

    /// Relies on `regex::Regex::new`: it accepts exactly the well-formed
    /// pattern sources, a set [`regex_ok`] names, and the returned value
    /// matches as a function of the source alone.
    #[verifier::external_body]
    pub fn compile(source: &str) -> (r: Option<CompiledRegex>)
        ensures
            r is Some <==> regex_ok(source@),
            r matches Some(c) ==> c.src() == source@,
    {
        match regex::Regex::new(source) {
            Ok(compiled) => Option::Some(CompiledRegex { source: source.to_owned(), compiled }),
            Err(_) => Option::None,
        }
    }

    /// Relies on `regex::Regex::is_match` (substring search): the result
    /// is a function of the pattern source and the value alone, which
    /// [`regex_match`] names.
    #[verifier::external_body]
    pub fn is_match(&self, value: &str) -> (r: bool)
        ensures
            r == regex_match(self.src(), value@),
    {
        self.compiled.is_match(value)
    }
}

/// The error reported when a regular-expression source is malformed.
/// It can arise only while rules are being built, never during sanitization.
#[derive(Debug)]
pub struct PatternError;

/// A composable predicate over attribute values.
pub enum Pattern {
    /// Accepts every value.
    Any,
    /// Accepts the values in which a regular expression finds a match.
    Matches(CompiledRegex),
    /// Accepts exactly the values its operand rejects.
    Not(Box<Pattern>),
    /// Accepts the values both operands accept.
    And(Box<Pattern>, Box<Pattern>),
    /// Accepts the values at least one operand accepts.
    Or(Box<Pattern>, Box<Pattern>),
}

impl Pattern {
    /// Whether this pattern accepts `value`.
    pub open spec fn spec_matches(self, value: Seq<char>) -> bool
        decreases self,
    {
        match self {
            Pattern::Any => true,
            Pattern::Matches(r) => regex_match(r.src(), value),
            Pattern::Not(p) => !(*p).spec_matches(value),
            Pattern::And(p, q) => (*p).spec_matches(value) && (*q).spec_matches(value),
            Pattern::Or(p, q) => (*p).spec_matches(value) || (*q).spec_matches(value),
        }
    }

    /// Creates a pattern which accepts any value.
    pub fn any() -> (r: Pattern)
        ensures
            r == Pattern::Any,
            forall|v: Seq<char>| #[trigger] r.spec_matches(v),
    {
        Pattern::Any
    }

    /// Creates a pattern which uses a regular expression to check a value.
    /// Fails exactly when the source is not a well-formed regular expression.
    pub fn regex(source: &str) -> (r: Result<Pattern, PatternError>)
        ensures
            r is Ok <==> regex_ok(source@),
            r matches Ok(p) ==> forall|v: Seq<char>|
                #[trigger] p.spec_matches(v) == regex_match(source@, v),
    {
        match CompiledRegex::compile(source) {
            Option::Some(c) => Result::Ok(Pattern::Matches(c)),
            Option::None => Result::Err(PatternError),
        }
    }

    /// Negates this pattern.
    pub fn negate(self) -> (r: Pattern)
        ensures
            forall|v: Seq<char>| #[trigger] r.spec_matches(v) == !self.spec_matches(v),
    {
        Pattern::Not(Box::new(self))
    }

    /// Combines two patterns into one which accepts a value iff both do.
    pub fn and(self, other: Pattern) -> (r: Pattern)
        ensures
            forall|v: Seq<char>|
                #[trigger] r.spec_matches(v) == (self.spec_matches(v) && other.spec_matches(v)),
    {
        Pattern::And(Box::new(self), Box::new(other))
    }

    /// Combines two patterns into one which accepts a value iff either does.
    pub fn or(self, other: Pattern) -> (r: Pattern)
        ensures
            forall|v: Seq<char>|
                #[trigger] r.spec_matches(v) == (self.spec_matches(v) || other.spec_matches(v)),
    {
        Pattern::Or(Box::new(self), Box::new(other))
    }

    /// Checks whether a value matches this pattern.
    pub fn matches(&self, value: &str) -> (r: bool)
        ensures
            r == self.spec_matches(value@),
        decreases *self,
    {
        match self {
            Pattern::Any => true,
            Pattern::Matches(cr) => cr.is_match(value),
            Pattern::Not(p) => !p.matches(value),
            Pattern::And(p, q) => p.matches(value) && q.matches(value),
            Pattern::Or(p, q) => p.matches(value) || q.matches(value),
        }
    }
}

} // verus!
