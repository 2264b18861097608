//! The light of the badge. The worker that blinks it must never wait for
//! the network: between two phases it looks into the slot in which the
//! network worker leaves the newest interval, and goes on.

use vstd::prelude::*;
use crate::relay::after_take;
use crate::relay::taken;
use crate::relay::LatestSlot;

verus! {

/// The shortest interval of the light, in milliseconds.
pub const MIN_INTERVAL_MS: u64 = 50;

/// The longest interval of the light, in milliseconds.
pub const MAX_INTERVAL_MS: u64 = 2000;

/// The interval of the light until the server names one, in milliseconds.
pub const DEFAULT_INTERVAL_MS: u64 = 500;

/// The interval nearest to `ms` that the light can keep.
pub open spec fn clamp_interval(ms: u64) -> u64 {
    if ms < MIN_INTERVAL_MS {
        MIN_INTERVAL_MS
    } else if ms > MAX_INTERVAL_MS {
        MAX_INTERVAL_MS
    } else {
        ms
    }
}

/// One phase of the light: on or off, and for how long.
#[derive(Debug, Clone, Copy, PartialEq, Eq, Structural)]
pub struct Phase {
    /// Whether the light is on.
    pub lit: bool,
    /// How long the phase lasts, in milliseconds.
    pub wait_ms: u64,
}

/// The phase that follows `phase` when `polled` was found in the slot: the
/// light changes over, and an interval that was found takes effect, cut to
/// what the light can keep.
pub open spec fn next_phase(phase: Phase, polled: Option<u64>) -> Phase {
    Phase {
        lit: !phase.lit,
        wait_ms: match polled {
            Some(ms) => clamp_interval(ms),
            None => phase.wait_ms,
        },
    }
}

/// The interval nearest to `ms` that the light can keep.
pub fn clamp(ms: u64) -> (kept: u64)
    ensures
        kept == clamp_interval(ms),
        MIN_INTERVAL_MS <= kept <= MAX_INTERVAL_MS,
{
    if ms < MIN_INTERVAL_MS {
        MIN_INTERVAL_MS
    } else if ms > MAX_INTERVAL_MS {
        MAX_INTERVAL_MS
    } else {
        ms
    }
}

/// The worker's account of the light.
pub struct Blinker {
    phase: Phase,
}

impl View for Blinker {
    type V = Phase;

    closed spec fn view(&self) -> Phase {
        self.phase
    }
}

impl Blinker {
    /// The interval is always one that the light can keep.
    #[verifier::type_invariant]
    spec fn in_range(self) -> bool {
        MIN_INTERVAL_MS <= self.phase.wait_ms <= MAX_INTERVAL_MS
    }

    /// The light at the start: on, for the default interval.
    pub fn start() -> (begun: (Self, Phase))
        ensures
            begun.0@ == begun.1,
            begun.1 == (Phase { lit: true, wait_ms: DEFAULT_INTERVAL_MS }),
    {
        let phase = Phase { lit: true, wait_ms: DEFAULT_INTERVAL_MS };
        (Blinker { phase }, phase)
    }

    /// Ends the phase that has run its time and begins the next: takes
    /// what waits in the slot, without waiting for anything, and changes
    /// the light over.
    pub fn next(&mut self, slot: &mut LatestSlot<u64>) -> (phase: Phase)
        ensures
            phase == next_phase(old(self)@, taken(old(slot)@)),
            final(self)@ == phase,
            final(slot)@ == after_take(old(slot)@),
            MIN_INTERVAL_MS <= phase.wait_ms <= MAX_INTERVAL_MS,
    {
        proof {
            use_type_invariant(&*self);
        }
        let wait_ms = match slot.take() {
            Some(ms) => clamp(ms),
            None => self.phase.wait_ms,
        };
        let phase = Phase { lit: !self.phase.lit, wait_ms };
        self.phase = phase;
        phase
    }
}

/// Whatever the server names, the light keeps an interval between the
/// shortest and the longest; an interval within these bounds is kept as it
/// is.
pub proof fn lemma_interval_in_range(phase: Phase, polled: Option<u64>)
    requires
        MIN_INTERVAL_MS <= phase.wait_ms <= MAX_INTERVAL_MS,
    ensures
        MIN_INTERVAL_MS <= next_phase(phase, polled).wait_ms <= MAX_INTERVAL_MS,
        polled matches Some(ms) ==> (MIN_INTERVAL_MS <= ms <= MAX_INTERVAL_MS ==> next_phase(
            phase,
            polled,
        ).wait_ms == ms),
        next_phase(phase, polled).lit != phase.lit,
{
}

} // verus!
