//! Keeps the identifier trait closed to the types this crate chose.

use vstd::prelude::*;

verus! {

/// Marks the types that may be read as an identifier.
pub trait Sealed {

}

} // verus!
