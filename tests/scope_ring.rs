use centered::scope::{ScopeRing, ScopeWriter, SCOPE_CAPACITY};

fn frame(i: usize) -> (u32, u32) {
    ((i as f32).to_bits(), (-(i as f32)).to_bits())
}

#[test]
fn fresh_ring_is_blank_and_detached() {
    let ring = ScopeRing::new();
    assert_eq!(ring.capacity(), SCOPE_CAPACITY);
    assert_eq!(SCOPE_CAPACITY, 1000);
    assert!(!ring.is_attached());
    for s in 0..SCOPE_CAPACITY {
        assert_eq!(ring.load(s), (0, 0));
    }
}

#[test]
fn attach_and_detach() {
    let ring = ScopeRing::new();
    ring.attach();
    assert!(ring.is_attached());
    ring.detach();
    assert!(!ring.is_attached());
}

#[test]
fn wraparound_overwrites_oldest_frames() {
    let ring = ScopeRing::new();
    let mut writer = ScopeWriter::new();
    let k = 37;
    for i in 0..SCOPE_CAPACITY + k {
        let slot = writer.write(&ring, frame(i));
        assert_eq!(slot, i % SCOPE_CAPACITY);
    }
    for s in 0..SCOPE_CAPACITY {
        if s < k {
            assert_eq!(ring.load(s), frame(SCOPE_CAPACITY + s));
        } else {
            assert_eq!(ring.load(s), frame(s));
        }
    }
    assert_eq!(writer.position(), k);
}

#[test]
fn last_slot_is_used() {
    let ring = ScopeRing::new();
    let mut writer = ScopeWriter::new();
    for i in 0..SCOPE_CAPACITY {
        writer.write(&ring, frame(i + 1));
    }
    assert_eq!(ring.load(SCOPE_CAPACITY - 1), frame(SCOPE_CAPACITY));
    assert_eq!(writer.position(), 0);
}

#[test]
fn write_all_publishes_in_order() {
    let ring = ScopeRing::new();
    let mut writer = ScopeWriter::new();
    let frames: Vec<(u32, u32)> = (0..2500).map(frame).collect();
    writer.write_all(&ring, &frames);
    assert_eq!(writer.position(), 500);
    assert_eq!(ring.load(0), frame(2000));
    assert_eq!(ring.load(499), frame(2499));
    assert_eq!(ring.load(500), frame(1500));
    assert_eq!(ring.load(999), frame(1999));
}
