//! Slot assignment: a thread identity is mixed and reduced to a table index.
use vstd::prelude::*;

verus! {

/// Number of slots in a table of visible readers.
pub const NR_ENTRIES: usize = 4096;

/// First multiplier of the 64-bit finaliser.
pub const MIX_C1: u64 = 0xff51afd7ed558ccd;

/// Second multiplier of the 64-bit finaliser.
pub const MIX_C2: u64 = 0xc4ceb9fe1a85ec53;

/// One xor-shift-multiply round of the finaliser.
pub open spec fn mix_round(z: u64, c: u64) -> u64 {
    (z ^ (z >> 33u64)).wrapping_mul(c)
}

/// The upper 32 bits of two finaliser rounds applied to `z`.
pub open spec fn spec_mix32(z: u64) -> u32 {
    (mix_round(mix_round(z, MIX_C1), MIX_C2) >> 32u64) as u32
}

/// The table slot assigned to the thread with identity `thread`.
pub open spec fn spec_slot(thread: u64) -> u32 {
    (spec_mix32(thread) % (NR_ENTRIES as u32)) as u32
}

/// Mixes a 64-bit value into a well-distributed 32-bit value.
pub fn mix32(z: u64) -> (r: u32)
    ensures
        r == spec_mix32(z),
{
    let a: u64 = (z ^ (z >> 33u64)).wrapping_mul(MIX_C1);
    let b: u64 = (a ^ (a >> 33u64)).wrapping_mul(MIX_C2);
    (b >> 32u64) as u32
}

/// The slot of a table of visible readers assigned to thread `thread`; the
/// same identity always yields the same slot.
pub fn bravo_hash(thread: u64) -> (r: u32)
    ensures
        r == spec_slot(thread),
        (r as usize) < NR_ENTRIES,
{
    mix32(thread) % (NR_ENTRIES as u32)
}

} // verus!
