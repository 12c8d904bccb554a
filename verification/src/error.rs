//! The failures this library reports.

use vstd::prelude::*;

verus! {

/// Why an identifier, a payload or a request was turned down.
#[derive(Clone, Copy, Debug, PartialEq, Eq, Structural)]
pub enum ErrorKind {
    /// The text is not a base-10 integer that fits in 64 bits.
    InvalidIdentifier,
    /// The body is not a JSON object that matches the vote schema.
    MalformedPayload,
    /// The credential is missing, is not UTF-8 text, or differs from the secret.
    Unauthorized,
}

} // verus!
