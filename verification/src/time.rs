//! Engine time: a bundle timestamp in the engine's fixed-point 64-bit
//! representation — upper 32 bits whole seconds, lower 32 bits the fraction
//! of a second. The fraction keeps its full 32 bits; truncating it would
//! silently degrade sub-sample timing.

use vstd::prelude::*;

verus! {

/// A point in engine time: whole seconds plus a binary fraction of a second
/// (`fraction` / 2^32 seconds).
#[derive(Debug, Clone, Copy, PartialEq, Eq, Structural)]
pub struct Time {
    /// Whole seconds.
    pub seconds: u32,
    /// Fraction of a second in units of 2^-32 s.
    pub fraction: u32,
}

impl Time {
    /// The fixed-point 64-bit form of this time.
    pub open spec fn spec_timetag(self) -> u64 {
        ((self.seconds as u64) << 32u64) | (self.fraction as u64)
    }

    /// The time a fixed-point 64-bit value denotes.
    pub open spec fn spec_from_timetag(tag: u64) -> Time {
        Time { seconds: (tag >> 32u64) as u32, fraction: (tag & 0xFFFF_FFFFu64) as u32 }
    }

    /// Pack this time into the engine's fixed-point 64-bit representation.
    pub fn to_timetag(&self) -> (r: u64)
        ensures
            r == self.spec_timetag(),
    {
        ((self.seconds as u64) << 32u64) | (self.fraction as u64)
    }

    /// Unpack a fixed-point 64-bit value into seconds and fraction.
    pub fn from_timetag(tag: u64) -> (r: Time)
        ensures
            r == Time::spec_from_timetag(tag),
    {
        Time { seconds: (tag >> 32u64) as u32, fraction: (tag & 0xFFFF_FFFFu64) as u32 }
    }
}

/// Round trip through the fixed-point representation loses nothing: both the
/// seconds and all 32 fraction bits come back unchanged.
pub proof fn lemma_timetag_round_trip(t: Time)
    ensures
        Time::spec_from_timetag(t.spec_timetag()) == t,
{
    let sec = t.seconds;
    let frac = t.fraction;
    assert((((sec as u64) << 32u64) | (frac as u64)) >> 32u64 == sec as u64) by (bit_vector);
    assert(((((sec as u64) << 32u64) | (frac as u64)) & 0xFFFF_FFFFu64) == frac as u64)
        by (bit_vector);
}

/// A fixed-point value re-packed from its unpacked form is itself: the
/// representation carries no slack.
pub proof fn lemma_timetag_pack_unpack(tag: u64)
    ensures
        Time::spec_from_timetag(tag).spec_timetag() == tag,
{
    assert((((tag >> 32u64) as u32 as u64) << 32u64) | ((tag & 0xFFFF_FFFFu64) as u32 as u64)
        == tag) by (bit_vector);
}

} // verus!
