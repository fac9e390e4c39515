//! The codec's one recoverable error.

use vstd::prelude::*;

verus! {

/// Returned when bytes of the correct width do not decode to a valid rich
/// cryptographic value. Always recoverable: the caller treats the slot as
/// not holding a usable value. Width mismatches are not represented here;
/// the fixed-width containers make them unrepresentable at the call site.
#[derive(Clone, Copy, Debug, PartialEq, Eq, Structural)]
pub struct DecodeError;

} // verus!
