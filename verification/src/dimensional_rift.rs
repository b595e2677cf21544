//! The degrading entropy source.
//!
//! `DimensionalRift` owns a scalar stability value that fracture events
//! decrease by a fixed amount, with a floor of zero.  While stability is at or
//! above a threshold, seed requests are served from a cryptographically strong
//! random source; once it drops below the threshold, every request receives
//! the same fixed fallback seed.

use rand::Rng;
use vstd::prelude::*;

verus! {

/// Stability of a freshly created (or re-stabilised) rift.
pub const INITIAL_STABILITY: u32 = 100;

/// How much one fracture event lowers stability.
pub const FRACTURE_DECREMENT: u32 = 15;

/// Below this stability the rift serves the fixed fallback seed.
pub const FALLBACK_THRESHOLD: u32 = 20;

/// Every byte of the fallback seed has this value.
pub const FALLBACK_SEED_BYTE: u8 = 0x42;

/// The number of bytes in a seed.
pub const SEED_LEN: usize = 32;

/// The distinguished constant seed served once stability is below the
/// threshold: thirty-two bytes, each `0x42`.
pub open spec fn fallback_seed() -> Seq<u8> {
    Seq::new(SEED_LEN as nat, |i: int| FALLBACK_SEED_BYTE)
}

/// One fracture event: stability drops by the decrement, floored at zero.
pub open spec fn decayed(s: nat) -> nat {
    if s >= FRACTURE_DECREMENT {
        (s - FRACTURE_DECREMENT) as nat
    } else {
        0
    }
}

/// Stability after `k` fracture events starting from the initial value.
pub open spec fn stability_after_fractures(k: nat) -> nat
    decreases k,
{
    if k == 0 {
        INITIAL_STABILITY as nat
    } else {
        decayed(stability_after_fractures((k - 1) as nat))
    }
}

/// Starting from the initial stability, each fracture removes the full
/// decrement until the sixth leaves 10, and the floor holds at zero from the
/// seventh on.  In particular stability is below the fallback threshold
/// exactly from the sixth fracture onwards.
pub proof fn lemma_fallback_threshold(k: nat)
    ensures
        stability_after_fractures(k) == if k <= 6 {
            (INITIAL_STABILITY - k * FRACTURE_DECREMENT)
        } else {
            0
        },
        stability_after_fractures(k) < FALLBACK_THRESHOLD <==> k >= 6,
    decreases k,
{
    if k > 0 {
        lemma_fallback_threshold((k - 1) as nat);
    }
}

/// The entropy subsystem: a stability scalar plus a count of the fracture
/// events it has absorbed.
pub struct DimensionalRift {
    pub stability: u32,
    pub fracture_count: u32,
}

/// Draws 32 bytes from the operating system's cryptographically strong
/// random source.  Nothing is promised of the bytes: they depend on the
/// random state of the process.
///
/// Relies on `rand::thread_rng` and `rand::Rng::fill` to fill the buffer
/// with random bytes.
#[verifier::external_body]
pub(crate) fn random_seed() -> (seed: [u8; 32]) {
    let mut seed = [0u8; 32];
    rand::thread_rng().fill(&mut seed);
    seed
}

impl DimensionalRift {
    /// A rift at full stability with no fractures recorded.
    pub fn new() -> (rift: Self)
        ensures
            rift.stability == INITIAL_STABILITY,
            rift.fracture_count == 0,
    {
        Self { stability: INITIAL_STABILITY, fracture_count: 0 }
    }

    /// Serves a 32-byte seed for key generation.  Below the fallback
    /// threshold the result is exactly the fallback seed; otherwise it is
    /// drawn from the strong random source and nothing is promised of its
    /// content.  The rift itself is unchanged.
    pub fn get_entropy_seed(&mut self) -> (seed: [u8; 32])
        ensures
            *final(self) == *old(self),
            old(self).stability < FALLBACK_THRESHOLD ==> seed@ == fallback_seed(),
    {
        if self.stability < FALLBACK_THRESHOLD {
            let seed: [u8; 32] = [FALLBACK_SEED_BYTE; 32];
            proof {
                assert(seed@ =~= fallback_seed());
            }
            seed
        } else {
            random_seed()
        }
    }

    /// One fracture event: stability falls by the fixed decrement, floored at
    /// zero, and the fracture count goes up by one.
    pub fn trigger_instability(&mut self)
        requires
            old(self).fracture_count < u32::MAX,
        ensures
            final(self).stability == decayed(old(self).stability as nat),
            final(self).fracture_count == old(self).fracture_count + 1,
    {
        if self.stability >= FRACTURE_DECREMENT {
            self.stability = self.stability - FRACTURE_DECREMENT;
        } else {
            self.stability = 0;
        }
        self.fracture_count = self.fracture_count + 1;
    }

    /// Resets stability to the initial value.  The fracture count keeps its
    /// history.
    pub fn stabilize(&mut self)
        ensures
            final(self).stability == INITIAL_STABILITY,
            final(self).fracture_count == old(self).fracture_count,
    {
        self.stability = INITIAL_STABILITY;
    }
}

} // verus!
