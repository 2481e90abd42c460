//! Control-path steps of the engine that run between blocks, never inside
//! the per-sample loop.
use crate::delay::{repeated, DelayLine};
use crate::settings::Settings;
use crate::timing::duration_samples;
use vstd::prelude::*;

verus! {

/// The latency, in samples, that `settings` ask for at `sample_rate`.
pub open spec fn wanted_latency(settings: Settings, sample_rate: u32) -> nat {
    duration_samples(sample_rate as nat, settings@.2)
}

/// Brings the delay line to the length that `settings` ask for at
/// `sample_rate`. Where the length changes, the line is refilled with
/// `silence` and the new latency is returned, to be reported to the host
/// before the next block; otherwise nothing changes and `None` comes back.
/// Either way the line's length is the latency the host knows.
pub fn apply_lookahead<T: Copy>(
    line: &mut DelayLine<T>,
    settings: &Settings,
    sample_rate: u32,
    silence: T,
) -> (report: Option<u32>)
    ensures
        final(line)@.len() == wanted_latency(*settings, sample_rate),
        report == (if old(line)@.len() == wanted_latency(*settings, sample_rate) {
            None
        } else {
            Some(wanted_latency(*settings, sample_rate) as u32)
        }),
        report is None ==> final(line)@ == old(line)@,
        report is Some ==> final(line)@ == repeated(
            wanted_latency(*settings, sample_rate),
            silence,
        ),
{
    let samples = settings.lookahead_samples(sample_rate);
    if line.set_latency(samples as usize, silence) {
        Some(samples)
    } else {
        None
    }
}

} // verus!
