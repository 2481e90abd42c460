use centered::delay::DelayLine;
use centered::engine::apply_lookahead;
use centered::settings::Settings;

#[test]
fn impulse_arrives_after_latency() {
    let mut line: DelayLine<(f32, f32)> = DelayLine::new();
    // 0.1 ms at 48 kHz: 4.8 samples, five after rounding
    let s = Settings::new(1000, 50, 1);
    let reported = apply_lookahead(&mut line, &s, 48000, (0.0, 0.0));
    assert_eq!(reported, Some(5));
    let n = line.latency();
    assert_eq!(n, 5);
    let mut out = Vec::new();
    out.push(line.push((1.0, 0.0)));
    for _ in 0..20 {
        out.push(line.push((0.0, 0.0)));
    }
    for (k, frame) in out.iter().enumerate() {
        if k == n {
            assert_eq!(*frame, (1.0, 0.0));
        } else {
            assert_eq!(*frame, (0.0, 0.0));
        }
    }
}

#[test]
fn process_block_in_place() {
    let mut line: DelayLine<u32> = DelayLine::filled(3, 0);
    let mut block = vec![1, 2, 3, 4, 5];
    line.process(&mut block);
    assert_eq!(block, vec![0, 0, 0, 1, 2]);
    assert_eq!(line.get(0), 3);
    assert_eq!(line.get(1), 4);
    assert_eq!(line.get(2), 5);
    let mut next = vec![6, 7];
    line.process(&mut next);
    assert_eq!(next, vec![3, 4]);
    assert_eq!(line.get(0), 5);
    assert_eq!(line.get(2), 7);
}

#[test]
fn block_shorter_than_latency() {
    let mut line: DelayLine<u32> = DelayLine::filled(4, 9);
    let mut block = vec![1, 2];
    line.process(&mut block);
    assert_eq!(block, vec![9, 9]);
    assert_eq!(line.latency(), 4);
    assert_eq!(line.get(2), 1);
    assert_eq!(line.get(3), 2);
}

#[test]
fn zero_latency_is_bypass() {
    let mut line: DelayLine<i64> = DelayLine::new();
    assert_eq!(line.push(42), 42);
    let mut block = vec![-1, 0, 1];
    line.process(&mut block);
    assert_eq!(block, vec![-1, 0, 1]);
    assert_eq!(line.latency(), 0);
}

#[test]
fn set_latency_refills_only_on_change() {
    let mut line: DelayLine<u32> = DelayLine::filled(2, 0);
    line.push(5);
    assert!(!line.set_latency(2, 7));
    assert_eq!(line.get(1), 5);
    assert!(line.set_latency(3, 7));
    assert_eq!(line.latency(), 3);
    assert_eq!(line.get(0), 7);
    assert_eq!(line.get(2), 7);
    assert_eq!(line.push(1), 7);
}

#[test]
fn wraps_many_times() {
    let mut line: DelayLine<u32> = DelayLine::filled(7, 0);
    for i in 0..1000u32 {
        let out = line.push(i);
        if i >= 7 {
            assert_eq!(out, i - 7);
        } else {
            assert_eq!(out, 0);
        }
    }
}
