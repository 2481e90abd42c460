//! The scope ring: a fixed-capacity circular buffer of recent stereo frames
//! that the audio thread fills and a display thread reads. Each sample is
//! held as its binary32 encoding in an atomic cell, so neither side ever
//! waits; a reader may see a frame one block old, which a display accepts.
//!
//! The cells say nothing to the verifier about what they hold. The writer
//! therefore carries a ghost record of every frame it wrote, and its view
//! is what each slot holds according to that record.
use std::sync::atomic::{AtomicBool, AtomicU32, Ordering};
use vstd::prelude::*;

verus! {

/// Number of frames the scope ring holds.
pub const SCOPE_CAPACITY: usize = 1000;

/// One stereo frame, each sample as its binary32 encoding.
pub type FrameBits = (u32, u32);

/// The frame every slot holds before anything is written: two positive zeros.
pub open spec fn blank_frame() -> FrameBits {
    (0u32, 0u32)
}

/// The slot that the `n`-th frame written (counting from zero) goes into.
pub open spec fn slot_of(n: nat) -> int {
    (n % (SCOPE_CAPACITY as nat)) as int
}

/// What the ring holds, slot by slot, after `written` was written into a
/// fresh ring in that order: each frame overwrites the slot of its index.
pub open spec fn scope_contents(written: Seq<FrameBits>) -> Seq<FrameBits>
    decreases written.len(),
{
    if written.len() == 0 {
        Seq::new(SCOPE_CAPACITY as nat, |i: int| blank_frame())
    } else {
        scope_contents(written.drop_last()).update(
            slot_of((written.len() - 1) as nat),
            written.last(),
        )
    }
}

proof fn lemma_contents_len(written: Seq<FrameBits>)
    ensures
        scope_contents(written).len() == SCOPE_CAPACITY,
    decreases written.len(),
{
    if written.len() > 0 {
        lemma_contents_len(written.drop_last());
    }
}

/// Within the first two laps, slot `s` holds the frame of the second lap
/// where one was written there, else the frame of the first lap, else a
/// blank frame.
proof fn lemma_contents_two_laps(written: Seq<FrameBits>)
    requires
        written.len() <= 2 * SCOPE_CAPACITY,
    ensures
        forall|s: int|
            0 <= s < SCOPE_CAPACITY ==> #[trigger] scope_contents(written)[s] == if s + SCOPE_CAPACITY
                < written.len() {
                written[s + SCOPE_CAPACITY]
            } else if s < written.len() {
                written[s]
            } else {
                blank_frame()
            },
    decreases written.len(),
{
    lemma_contents_len(written);
    if written.len() > 0 {
        let prefix = written.drop_last();
        let n = (written.len() - 1) as nat;
        lemma_contents_two_laps(prefix);
        lemma_contents_len(prefix);
        if n < SCOPE_CAPACITY {
            assert(slot_of(n) == n);
        } else {
            assert(slot_of(n) == n - SCOPE_CAPACITY);
        }
    }
}

/// After `SCOPE_CAPACITY + k` frames (with `k` at most the capacity) were
/// written into a fresh ring, the first `k` slots hold the last `k` frames:
/// the `k` oldest frames were overwritten. Every other slot still holds the
/// frame written there in the first lap.
pub proof fn lemma_wraparound_overwrites_oldest(written: Seq<FrameBits>)
    requires
        SCOPE_CAPACITY <= written.len() <= 2 * SCOPE_CAPACITY,
    ensures
        scope_contents(written).len() == SCOPE_CAPACITY,
        forall|s: int|
            0 <= s < written.len() - SCOPE_CAPACITY ==> #[trigger] scope_contents(written)[s]
                == written[SCOPE_CAPACITY + s],
        forall|s: int|
            written.len() - SCOPE_CAPACITY <= s < SCOPE_CAPACITY ==> #[trigger] scope_contents(
                written,
            )[s] == written[s],
{
    lemma_contents_len(written);
    lemma_contents_two_laps(written);
}

/// One slot of the ring.
pub struct ScopeSlot {
    left: AtomicU32,
    right: AtomicU32,
}

/// The shared storage of the scope ring, and the flag that says whether a
/// display is attached to it. Both sides hold it through a shared
/// reference; only the writer decides where frames go.
pub struct ScopeRing {
    slots: Vec<ScopeSlot>,
    attached: AtomicBool,
}

impl ScopeRing {
    #[verifier::type_invariant]
    spec fn inv(&self) -> bool {
        self.slots.len() == SCOPE_CAPACITY
    }

    /// A ring of blank frames with no display attached.
    pub fn new() -> (r: Self) {
        let mut slots: Vec<ScopeSlot> = Vec::with_capacity(SCOPE_CAPACITY);
        while slots.len() < SCOPE_CAPACITY
            invariant
                slots.len() <= SCOPE_CAPACITY,
            decreases SCOPE_CAPACITY - slots.len(),
        {
            slots.push(ScopeSlot { left: AtomicU32::new(0), right: AtomicU32::new(0) });
        }
        ScopeRing { slots, attached: AtomicBool::new(false) }
    }

    /// The number of slots.
    pub fn capacity(&self) -> (r: usize)
        ensures
            r == SCOPE_CAPACITY,
    {
        proof {
            use_type_invariant(self);
        }
        self.slots.len()
    }

    /// Marks a display as attached: the engine fills the ring from now on.
    pub fn attach(&self) {
        self.attached.store(true, Ordering::Relaxed);
    }

    /// Marks the display as gone: the engine stops filling the ring.
    pub fn detach(&self) {
        self.attached.store(false, Ordering::Relaxed);
    }

    /// Whether a display is attached.
    pub fn is_attached(&self) -> bool {
        self.attached.load(Ordering::Relaxed)
    }

    /// The frame in `slot`, as last published.
    pub fn load(&self, slot: usize) -> (r: FrameBits)
        requires
            slot < SCOPE_CAPACITY,
    {
        proof {
            use_type_invariant(self);
        }
        let cell = &self.slots[slot];
        (cell.left.load(Ordering::Relaxed), cell.right.load(Ordering::Relaxed))
    }

    fn store(&self, slot: usize, frame: FrameBits)
        requires
            slot < SCOPE_CAPACITY,
    {
        proof {
            use_type_invariant(self);
        }
        let cell = &self.slots[slot];
        cell.left.store(frame.0, Ordering::Relaxed);
        cell.right.store(frame.1, Ordering::Relaxed);
    }
}

/// The audio thread's side of a scope ring: the slot the next frame goes
/// into. Its view is what each slot holds after the frames it wrote.
pub struct ScopeWriter {
    pos: usize,
    written: Ghost<Seq<FrameBits>>,
}

impl ScopeWriter {
    #[verifier::type_invariant]
    spec fn inv(&self) -> bool {
        self.pos == slot_of(self.written@.len())
    }

    /// Every frame this writer wrote, oldest first.
    pub closed spec fn written(&self) -> Seq<FrameBits> {
        self.written@
    }
}

impl View for ScopeWriter {
    type V = Seq<FrameBits>;

    open spec fn view(&self) -> Seq<FrameBits> {
        scope_contents(self.written())
    }
}

impl ScopeWriter {
    /// A writer that has written nothing, for a fresh ring.
    pub fn new() -> (r: Self)
        ensures
            r.written() == Seq::<FrameBits>::empty(),
            r@ == Seq::new(SCOPE_CAPACITY as nat, |i: int| blank_frame()),
    {
        ScopeWriter { pos: 0, written: Ghost(Seq::empty()) }
    }

    /// The slot the next frame goes into.
    pub fn position(&self) -> (r: usize)
        ensures
            r == slot_of(self.written().len()),
    {
        proof {
            use_type_invariant(self);
        }
        self.pos
    }

    /// Publishes `frame` into the next slot of `ring` and returns that slot;
    /// the position wraps round to the first slot after the last.
    pub fn write(&mut self, ring: &ScopeRing, frame: FrameBits) -> (slot: usize)
        ensures
            slot == slot_of(old(self).written().len()),
            final(self).written() == old(self).written().push(frame),
            final(self)@ == old(self)@.update(slot as int, frame),
    {
        proof {
            use_type_invariant(&*self);
        }
        let slot = self.pos;
        ring.store(slot, frame);
        let next: usize = if slot + 1 == SCOPE_CAPACITY {
            0
        } else {
            slot + 1
        };
        let ghost written = self.written@.push(frame);
        proof {
            assert(written.drop_last() =~= self.written@);
        }
        *self = ScopeWriter { pos: next, written: Ghost(written) };
        slot
    }

    /// Publishes each frame of `frames` in order.
    pub fn write_all(&mut self, ring: &ScopeRing, frames: &[FrameBits])
        ensures
            final(self).written() == old(self).written() + frames@,
    {
        let mut i: usize = 0;
        while i < frames.len()
            invariant
                i <= frames@.len(),
                self.written() == old(self).written() + frames@.take(i as int),
            decreases frames.len() - i,
        {
            self.write(ring, frames[i]);
            assert(frames@.take(i + 1) =~= frames@.take(i as int).push(frames@[i as int]));
            i += 1;
        }
        assert(frames@.take(frames.len() as int) =~= frames@);
    }
}

} // verus!
