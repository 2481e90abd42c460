//! The effect's three parameters, held in tenths of their display unit (the
//! step that the host moves them by), and the sample counts derived from
//! them at a given sample rate.
use crate::timing::{duration_samples, lemma_duration_monotonic, samples_for_duration};
use vstd::prelude::*;

verus! {

/// Largest correction amount, in tenths of a percent (100 %).
pub const CORRECTION_AMOUNT_MAX: u32 = 1000;

/// Largest reaction time, in tenths of a millisecond (25 ms).
pub const REACTION_TIME_MAX: u32 = 250;

/// Largest lookahead, in tenths of a millisecond (10 ms).
pub const LOOKAHEAD_MAX: u32 = 100;

/// Default correction amount: full correction.
pub const CORRECTION_AMOUNT_DEFAULT: u32 = 1000;

/// Default reaction time: 5 ms.
pub const REACTION_TIME_DEFAULT: u32 = 50;

/// Default lookahead: 5 ms.
pub const LOOKAHEAD_DEFAULT: u32 = 50;

/// `x`, or `max` where `x` is above it.
pub open spec fn clamp_to(x: nat, max: nat) -> nat {
    if x > max {
        max
    } else {
        x
    }
}

/// The parameter values in force for a block. Its view is
/// `(correction amount, reaction time, lookahead)`, each in tenths of a
/// percent or of a millisecond, and each within its range.
#[derive(Clone, Copy, Debug, PartialEq, Eq, Structural)]
pub struct Settings {
    correction_amount: u32,
    reaction_time: u32,
    lookahead: u32,
}

impl Settings {
    #[verifier::type_invariant]
    spec fn inv(&self) -> bool {
        &&& self.correction_amount <= CORRECTION_AMOUNT_MAX
        &&& self.reaction_time <= REACTION_TIME_MAX
        &&& self.lookahead <= LOOKAHEAD_MAX
    }
}

impl View for Settings {
    type V = (nat, nat, nat);

    closed spec fn view(&self) -> (nat, nat, nat) {
        (self.correction_amount as nat, self.reaction_time as nat, self.lookahead as nat)
    }
}

fn clamp_u32(x: u32, max: u32) -> (r: u32)
    ensures
        r == clamp_to(x as nat, max as nat),
{
    if x > max {
        max
    } else {
        x
    }
}

impl Settings {
    /// Settings from the three values, each brought into its range: a value
    /// above its largest is taken as the largest.
    pub fn new(correction_amount: u32, reaction_time: u32, lookahead: u32) -> (r: Self)
        ensures
            r@ == (
                clamp_to(correction_amount as nat, CORRECTION_AMOUNT_MAX as nat),
                clamp_to(reaction_time as nat, REACTION_TIME_MAX as nat),
                clamp_to(lookahead as nat, LOOKAHEAD_MAX as nat),
            ),
    {
        Settings {
            correction_amount: clamp_u32(correction_amount, CORRECTION_AMOUNT_MAX),
            reaction_time: clamp_u32(reaction_time, REACTION_TIME_MAX),
            lookahead: clamp_u32(lookahead, LOOKAHEAD_MAX),
        }
    }

    /// The correction amount, in tenths of a percent.
    pub fn correction_amount(&self) -> (r: u32)
        ensures
            r == self@.0,
            r <= CORRECTION_AMOUNT_MAX,
    {
        proof {
            use_type_invariant(self);
        }
        self.correction_amount
    }

    /// The reaction time, in tenths of a millisecond.
    pub fn reaction_time(&self) -> (r: u32)
        ensures
            r == self@.1,
            r <= REACTION_TIME_MAX,
    {
        proof {
            use_type_invariant(self);
        }
        self.reaction_time
    }

    /// The lookahead, in tenths of a millisecond.
    pub fn lookahead(&self) -> (r: u32)
        ensures
            r == self@.2,
            r <= LOOKAHEAD_MAX,
    {
        proof {
            use_type_invariant(self);
        }
        self.lookahead
    }

    /// Whether the delay line is in the signal path. With no lookahead it
    /// is bypassed and the estimate is taken from the live block.
    pub fn lookahead_enabled(&self) -> (r: bool)
        ensures
            r == (self@.2 > 0),
    {
        self.lookahead > 0
    }

    /// The lookahead in samples: the delay line's length and the latency
    /// reported to the host.
    pub fn lookahead_samples(&self, sample_rate: u32) -> (r: u32)
        ensures
            r == duration_samples(sample_rate as nat, self@.2),
            r <= duration_samples(sample_rate as nat, LOOKAHEAD_MAX as nat),
    {
        proof {
            use_type_invariant(self);
            lemma_duration_monotonic(sample_rate as nat, self@.2, LOOKAHEAD_MAX as nat);
        }
        samples_for_duration(sample_rate, self.lookahead)
    }

    /// The number of samples the correction ramp takes to reach a new
    /// target.
    pub fn reaction_steps(&self, sample_rate: u32) -> (r: u32)
        ensures
            r == duration_samples(sample_rate as nat, self@.1),
    {
        proof {
            use_type_invariant(self);
        }
        samples_for_duration(sample_rate, self.reaction_time)
    }
}

/// The longest lookahead in samples at `sample_rate`: room enough for the
/// delay line at any setting.
pub fn max_lookahead_samples(sample_rate: u32) -> (r: u32)
    ensures
        r == duration_samples(sample_rate as nat, LOOKAHEAD_MAX as nat),
{
    samples_for_duration(sample_rate, LOOKAHEAD_MAX)
}

impl Default for Settings {
    /// Full correction, 5 ms reaction time, 5 ms lookahead.
    fn default() -> (r: Self)
        ensures
            r@ == (
                CORRECTION_AMOUNT_DEFAULT as nat,
                REACTION_TIME_DEFAULT as nat,
                LOOKAHEAD_DEFAULT as nat,
            ),
    {
        Settings {
            correction_amount: CORRECTION_AMOUNT_DEFAULT,
            reaction_time: REACTION_TIME_DEFAULT,
            lookahead: LOOKAHEAD_DEFAULT,
        }
    }
}

} // verus!
