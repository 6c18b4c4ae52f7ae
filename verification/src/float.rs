use vstd::prelude::*;

verus! {

/// A 32-bit IEEE-754 number held by its bit pattern.
///
/// The router only carries such numbers from one message to another (log
/// probabilities, sampling parameters); it never computes with them, so the
/// library stores the bits and leaves the arithmetic to the caller.
#[derive(Clone, Copy, Debug, PartialEq, Eq, Structural)]
pub struct Float32 {
    pub bits: u32,
}

impl Float32 {
    /// The number whose bit pattern is `bits`.
    pub fn from_bits(bits: u32) -> (f: Float32)
        ensures
            f.bits == bits,
    {
        Float32 { bits }
    }
}

} // verus!
