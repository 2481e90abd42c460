use centered::frame::{classify_frame, FrameAngle, BASELINE_DEGREES};
use centered::ramp::{Ramp, RampPoint};
use centered::settings::Settings;

fn angle(l: f32, r: f32) -> FrameAngle {
    classify_frame(l.to_bits(), r.to_bits())
}

#[test]
fn right_silent_is_zero_degrees() {
    assert_eq!(angle(0.5, 0.0).exact_degrees(), Some(0));
    assert_eq!(angle(-1.0, -0.0).exact_degrees(), Some(0));
    assert_eq!(angle(f32::INFINITY, 0.0), FrameAngle::LeftOnly);
}

#[test]
fn left_silent_is_ninety_degrees() {
    assert_eq!(angle(0.0, -0.3).exact_degrees(), Some(90));
    assert_eq!(angle(-0.0, 1e-30).exact_degrees(), Some(90));
}

#[test]
fn equal_channels_are_forty_five_degrees() {
    assert_eq!(angle(0.7, 0.7).exact_degrees(), Some(45));
    assert_eq!(angle(-0.25, 0.25).exact_degrees(), Some(45));
}

#[test]
fn silence_is_baseline_not_nan() {
    assert_eq!(angle(0.0, 0.0), FrameAngle::Silent);
    assert_eq!(angle(-0.0, 0.0).exact_degrees(), Some(BASELINE_DEGREES));
    assert_eq!(BASELINE_DEGREES, -45);
    assert!(angle(0.0, 0.0).is_counted());
}

#[test]
fn skewed_and_nan_frames() {
    let k = angle(0.5, 0.25);
    assert_eq!(k, FrameAngle::Skewed);
    assert_eq!(k.exact_degrees(), None);
    assert!(k.is_counted());
    let n = angle(f32::NAN, 0.5);
    assert_eq!(n, FrameAngle::Undefined);
    assert!(!n.is_counted());
    assert_eq!(angle(0.0, f32::NAN), FrameAngle::Undefined);
    assert_eq!(angle(f32::INFINITY, f32::NEG_INFINITY), FrameAngle::Balanced);
}

fn value(start: f32, target: f32, p: RampPoint) -> f32 {
    match p {
        RampPoint::Between { done, total } => start + (target - start) * (done as f32 / total as f32),
        RampPoint::AtTarget => target,
    }
}

#[test]
fn ramp_reaches_target_after_reaction_steps() {
    let steps = Settings::default().reaction_steps(48000);
    assert_eq!(steps, 240);
    let mut ramp = Ramp::settled();
    assert!(ramp.is_settled());
    ramp.retarget(steps);
    assert!(!ramp.is_settled());
    let (start, target) = (-45.0f32, 30.0f32);
    let mut last = start;
    for i in 1..=steps {
        let p = ramp.tick();
        let v = value(start, target, p);
        assert!(v >= last);
        assert!(v <= target);
        last = v;
        if i < steps {
            assert_eq!(p, RampPoint::Between { done: i, total: steps });
        } else {
            assert_eq!(p, RampPoint::AtTarget);
            assert!((v - target).abs() <= 1e-5);
        }
    }
    assert!(ramp.is_settled());
    assert_eq!(ramp.tick(), RampPoint::AtTarget);
}

#[test]
fn ramp_downwards_is_monotonic() {
    let mut ramp = Ramp::settled();
    ramp.retarget(7);
    let (start, target) = (80.0f32, -45.0f32);
    let mut last = start;
    for _ in 0..10 {
        let v = value(start, target, ramp.tick());
        assert!(v <= last);
        assert!(v >= target);
        last = v;
    }
    assert_eq!(last, target);
}

#[test]
fn ramp_of_zero_steps_jumps() {
    let mut ramp = Ramp::settled();
    ramp.retarget(0);
    assert!(ramp.is_settled());
    assert_eq!(ramp.tick(), RampPoint::AtTarget);
}
