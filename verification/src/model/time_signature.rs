//! Time signatures and the places in a pattern where they change.

use vstd::prelude::*;

verus! {

#[derive(Clone, Copy, Debug, PartialEq, Eq, Structural)]
pub struct TimeSignature {
    pub numerator: u64,
    pub denominator: u64,
}

#[derive(Clone, Copy, Debug, PartialEq, Eq, Structural)]
pub struct TimeSignatureChange {
    pub offset: u64,
    pub time_signature: TimeSignature,
}

} // verus!
