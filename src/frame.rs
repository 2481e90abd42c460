//! How one stereo frame enters the angle estimate. A frame's angle is
//! `atan(|right| / |left|)` in degrees; this module settles every frame on
//! which that quotient is not an ordinary number, and the ones whose angle
//! is a whole number of degrees, from the samples' binary32 encodings alone.
//! Only the frames it calls `Skewed` need the arctangent.
use vstd::prelude::*;

verus! {

/// The angle, in degrees, that a silent frame contributes: the midpoint of
/// the panning law, so that silence pulls towards no correction.
pub const BASELINE_DEGREES: i32 = -45;

/// Mask of the magnitude bits of a binary32 encoding (all but the sign).
pub const MAGNITUDE_MASK: u32 = 0x7fff_ffff;

/// Encoding of positive infinity; magnitudes above it are NaNs.
pub const INFINITY_BITS: u32 = 0x7f80_0000;

/// The encoding of the absolute value of the sample encoded by `b`.
pub open spec fn magnitude(b: u32) -> u32 {
    b & MAGNITUDE_MASK
}

/// Whether `b` encodes positive or negative zero.
pub open spec fn is_zero(b: u32) -> bool {
    magnitude(b) == 0
}

/// Whether `b` encodes a NaN: all exponent bits set and a non-zero fraction.
pub open spec fn is_nan(b: u32) -> bool {
    magnitude(b) > INFINITY_BITS
}

/// The kind of a frame's contribution to the angle estimate.
#[derive(Clone, Copy, Debug, PartialEq, Eq, Structural)]
pub enum FrameAngle {
    /// Both channels are zero: the frame contributes the baseline angle.
    Silent,
    /// Only the right channel is zero: 0 degrees.
    LeftOnly,
    /// Only the left channel is zero: 90 degrees.
    RightOnly,
    /// Both channels have the same non-zero magnitude: 45 degrees.
    Balanced,
    /// Any other frame without a NaN: `atan(|right| / |left|)` in degrees.
    Skewed,
    /// A channel is NaN: the frame takes no part in the estimate.
    Undefined,
}

/// The kind of the frame whose samples are encoded by `left` and `right`.
pub open spec fn frame_angle(left: u32, right: u32) -> FrameAngle {
    if is_nan(left) || is_nan(right) {
        FrameAngle::Undefined
    } else if is_zero(left) && is_zero(right) {
        FrameAngle::Silent
    } else if is_zero(right) {
        FrameAngle::LeftOnly
    } else if is_zero(left) {
        FrameAngle::RightOnly
    } else if magnitude(left) == magnitude(right) {
        FrameAngle::Balanced
    } else {
        FrameAngle::Skewed
    }
}

/// The angle of a frame of kind `k` in whole degrees, where it is one.
pub open spec fn degrees_of(k: FrameAngle) -> Option<i32> {
    match k {
        FrameAngle::Silent => Some(BASELINE_DEGREES),
        FrameAngle::LeftOnly => Some(0i32),
        FrameAngle::RightOnly => Some(90i32),
        FrameAngle::Balanced => Some(45i32),
        _ => None,
    }
}

impl FrameAngle {
    /// The angle in whole degrees, for the kinds whose angle is one.
    pub fn exact_degrees(&self) -> (r: Option<i32>)
        ensures
            r == degrees_of(*self),
    {
        match self {
            FrameAngle::Silent => Some(BASELINE_DEGREES),
            FrameAngle::LeftOnly => Some(0),
            FrameAngle::RightOnly => Some(90),
            FrameAngle::Balanced => Some(45),
            _ => None,
        }
    }

    /// Whether the frame takes part in the running average.
    pub fn is_counted(&self) -> (r: bool)
        ensures
            r == (*self != FrameAngle::Undefined),
    {
        !matches!(self, FrameAngle::Undefined)
    }
}

/// Classifies the frame whose samples are encoded by `left` and `right`.
pub fn classify_frame(left: u32, right: u32) -> (r: FrameAngle)
    ensures
        r == frame_angle(left, right),
{
    let l = left & MAGNITUDE_MASK;
    let r = right & MAGNITUDE_MASK;
    if l > INFINITY_BITS || r > INFINITY_BITS {
        FrameAngle::Undefined
    } else if l == 0 && r == 0 {
        FrameAngle::Silent
    } else if r == 0 {
        FrameAngle::LeftOnly
    } else if l == 0 {
        FrameAngle::RightOnly
    } else if l == r {
        FrameAngle::Balanced
    } else {
        FrameAngle::Skewed
    }
}

/// The angles that need no arctangent: a frame with a silent right channel
/// and a left one that is neither zero nor NaN has angle 0; with the
/// channels the other way round, 90; two equal non-zero magnitudes give 45;
/// two silent channels give the baseline, never NaN. A frame is left out of
/// the estimate exactly when one of its samples is NaN.
pub proof fn lemma_exact_frame_angles(left: u32, right: u32)
    ensures
        is_zero(right) && !is_zero(left) && !is_nan(left) ==> degrees_of(frame_angle(left, right))
            == Some(0i32),
        is_zero(left) && !is_zero(right) && !is_nan(right) ==> degrees_of(frame_angle(left, right))
            == Some(90i32),
        !is_zero(left) && !is_nan(left) && magnitude(left) == magnitude(right) ==> degrees_of(
            frame_angle(left, right),
        ) == Some(45i32),
        is_zero(left) && is_zero(right) ==> degrees_of(frame_angle(left, right)) == Some(
            BASELINE_DEGREES,
        ),
        (frame_angle(left, right) == FrameAngle::Undefined) == (is_nan(left) || is_nan(right)),
{
}

} // verus!
