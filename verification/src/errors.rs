//! Errors which can be emitted by the sanitization procedure.

use vstd::prelude::*;

verus! {

/// The error reported when whole-document sanitization fails. The tree
/// transformation itself is total; only decoding the input and emitting
/// the output can fail. The variant names the failing stage; the
/// underlying cause stays with the external library and is not carried
/// here. With the external parser and serializer in use, neither stage
/// can in fact fail, and the entry points promise success.
#[derive(Debug)]
pub enum SanitizeError {
    /// The input bytes are not valid text in the expected encoding.
    Decode,
    /// The external serializer failed to emit the output tree.
    Serialize,
}

impl SanitizeError {
    /// A short description of the failure.
    pub fn message(&self) -> (r: String)
        ensures
            self is Decode ==> r@ == "input could not be decoded"@,
            self is Serialize ==> r@ == "output could not be serialized"@,
    {
        match self {
            SanitizeError::Decode => "input could not be decoded".to_owned(),
            SanitizeError::Serialize => "output could not be serialized".to_owned(),
        }
    }
}

} // verus!
