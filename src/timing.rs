//! Conversion of durations, expressed in tenths of a millisecond, into
//! whole sample counts at a given sample rate.
use vstd::prelude::*;

verus! {

/// Tenths of a millisecond in one second.
pub const TENTHS_PER_SECOND: u64 = 10000;

/// The longest duration, in tenths of a millisecond, that the conversion
/// accepts (one second).
pub const MAX_DURATION_TENTHS: u32 = 10000;

/// `sample_rate * tenths / 10000`, rounded to the nearest integer with
/// halves rounded up: the sample count of a duration.
pub open spec fn duration_samples(sample_rate: nat, tenths: nat) -> nat {
    ((sample_rate * tenths + 5000) / 10000) as nat
}

/// Number of samples that `tenths` tenths of a millisecond last at
/// `sample_rate` samples per second, rounded to the nearest sample.
pub fn samples_for_duration(sample_rate: u32, tenths: u32) -> (r: u32)
    requires
        tenths <= MAX_DURATION_TENTHS,
    ensures
        r == duration_samples(sample_rate as nat, tenths as nat),
{
    proof {
        assert((sample_rate as nat) * (tenths as nat) <= 0xffff_ffffnat * 10000) by (nonlinear_arith)
            requires
                tenths <= 10000,
                sample_rate <= 0xffff_ffffnat,
        ;
    }
    let product: u64 = (sample_rate as u64) * (tenths as u64);
    let r: u64 = (product + TENTHS_PER_SECOND / 2) / TENTHS_PER_SECOND;
    proof {
        assert(r <= 0xffff_ffffu64) by (nonlinear_arith)
            requires
                r == (product + 5000) / 10000,
                product <= 0xffff_ffffu64 * 10000,
        ;
    }
    r as u32
}

/// A longer duration never lasts fewer samples.
pub proof fn lemma_duration_monotonic(sample_rate: nat, a: nat, b: nat)
    requires
        a <= b,
    ensures
        duration_samples(sample_rate, a) <= duration_samples(sample_rate, b),
{
    assert(sample_rate * a <= sample_rate * b) by (nonlinear_arith)
        requires
            a <= b,
    ;
    vstd::arithmetic::div_mod::lemma_div_is_ordered(
        (sample_rate * a + 5000) as int,
        (sample_rate * b + 5000) as int,
        10000,
    );
}

} // verus!
