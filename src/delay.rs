//! The lookahead delay line: a circular buffer of frames whose length is
//! the added latency, in samples, that the host has to compensate.
use vstd::prelude::*;

verus! {

/// `n` copies of `x`.
pub open spec fn repeated<T>(n: nat, x: T) -> Seq<T> {
    Seq::new(n, |i: int| x)
}

/// What a line holding `pending` (oldest first) hands out while `input`
/// is pushed through it: the pending frames, then the input, cut to the
/// input's length.
pub open spec fn delayed<T>(pending: Seq<T>, input: Seq<T>) -> Seq<T> {
    (pending + input).take(input.len() as int)
}

/// What such a line holds afterwards: the last `pending.len()` frames of
/// pending frames and input together.
pub open spec fn held_after<T>(pending: Seq<T>, input: Seq<T>) -> Seq<T> {
    (pending + input).skip(input.len() as int)
}

/// `len` values of which the first is `impulse` and the others `silence`.
pub open spec fn impulse_then_silence<T>(len: nat, impulse: T, silence: T) -> Seq<T> {
    Seq::new(len, |i: int| if i == 0 { impulse } else { silence })
}

/// A line hands out its pending frames first; after them, every input
/// frame comes out exactly as many samples later as the line's latency.
pub proof fn lemma_delay_shifts_by_latency<T>(pending: Seq<T>, input: Seq<T>)
    ensures
        delayed(pending, input).len() == input.len(),
        held_after(pending, input).len() == pending.len(),
        forall|j: int|
            0 <= j < pending.len() && j < input.len() ==> #[trigger] delayed(pending, input)[j]
                == pending[j],
        forall|j: int|
            0 <= j && j + pending.len() < input.len() ==> #[trigger] delayed(pending, input)[j
                + pending.len()] == input[j],
{
}

/// A single impulse pushed into a silent line of latency `n`, and silence
/// after it, comes out exactly `n` samples later and at no other sample.
pub proof fn lemma_impulse_arrives_after_latency<T>(n: nat, len: nat, impulse: T, silence: T)
    requires
        impulse != silence,
    ensures
        forall|k: int|
            0 <= k < len ==> (#[trigger] delayed(
                repeated(n, silence),
                impulse_then_silence(len, impulse, silence),
            )[k] == impulse <==> k == n),
{
    let p = repeated(n, silence);
    let input = impulse_then_silence(len, impulse, silence);
    lemma_delay_shifts_by_latency(p, input);
    assert forall|k: int| 0 <= k < len implies (#[trigger] delayed(p, input)[k] == impulse <==> k
        == n) by {
        if k < n {
            assert(delayed(p, input)[k] == p[k]);
        } else {
            assert(delayed(p, input)[(k - n) + p.len()] == input[k - n]);
        }
    }
}

/// A fixed-latency delay of `T` values. Its view is the sequence of
/// frames that are still to come out, oldest first; its length is the
/// latency. A line of latency zero passes its input straight through.
pub struct DelayLine<T> {
    buf: Vec<T>,
    pos: usize,
}

impl<T> DelayLine<T> {
    #[verifier::type_invariant]
    spec fn inv(&self) -> bool {
        if self.buf.len() == 0 {
            self.pos == 0
        } else {
            self.pos < self.buf.len()
        }
    }
}

impl<T> View for DelayLine<T> {
    type V = Seq<T>;

    closed spec fn view(&self) -> Seq<T> {
        Seq::new(
            self.buf.len() as nat,
            |i: int|
                {
                    let j = self.pos + i;
                    if j < self.buf.len() {
                        self.buf@[j]
                    } else {
                        self.buf@[j - self.buf.len()]
                    }
                },
        )
    }
}

impl<T: Copy> DelayLine<T> {
    /// A line of latency zero.
    pub fn new() -> (r: Self)
        ensures
            r@ == Seq::<T>::empty(),
    {
        let r = DelayLine { buf: Vec::new(), pos: 0 };
        assert(r@ =~= Seq::<T>::empty());
        r
    }

    /// A line of `latency` samples, holding `fill` in each.
    pub fn filled(latency: usize, fill: T) -> (r: Self)
        ensures
            r@ == repeated(latency as nat, fill),
    {
        let mut r = DelayLine::with_room(latency);
        r.set_latency(latency, fill);
        assert(r@ =~= repeated(latency as nat, fill));
        r
    }

    /// The latency in samples, which is also what the host is told.
    pub fn latency(&self) -> (r: usize)
        ensures
            r == self@.len(),
    {
        self.buf.len()
    }

    /// The `i`-th pending frame, oldest first.
    pub fn get(&self, i: usize) -> (r: T)
        requires
            i < self@.len(),
        ensures
            r == self@[i as int],
    {
        proof {
            use_type_invariant(self);
        }
        let n = self.buf.len();
        if i < n - self.pos {
            self.buf[self.pos + i]
        } else {
            self.buf[i - (n - self.pos)]
        }
    }

    /// A line of latency zero whose storage has room for `room` frames, so
    /// that setting a latency up to `room` later allocates nothing.
    pub fn with_room(room: usize) -> (r: Self)
        ensures
            r@ == Seq::<T>::empty(),
    {
        let r = DelayLine { buf: Vec::with_capacity(room), pos: 0 };
        assert(r@ =~= Seq::<T>::empty());
        r
    }

    /// Sets the latency. A line whose latency changes holds `fill` in every
    /// sample afterwards; one whose latency is already `latency` is left as
    /// it is. The storage is reused. Returns whether the latency changed, so
    /// that the caller reports the new one to the host.
    pub fn set_latency(&mut self, latency: usize, fill: T) -> (changed: bool)
        ensures
            changed == (latency != old(self)@.len()),
            changed ==> final(self)@ == repeated(latency as nat, fill),
            !changed ==> final(self)@ == old(self)@,
    {
        if self.buf.len() == latency {
            return false;
        }
        let mut taken = DelayLine { buf: Vec::new(), pos: 0 };
        std::mem::swap(self, &mut taken);
        let DelayLine { mut buf, pos: _ } = taken;
        buf.clear();
        while buf.len() < latency
            invariant
                buf.len() <= latency,
                buf@ == repeated(buf.len() as nat, fill),
            decreases latency - buf.len(),
        {
            buf.push(fill);
            assert(buf@ =~= repeated(buf.len() as nat, fill));
        }
        *self = DelayLine { buf, pos: 0 };
        assert(self@ =~= repeated(latency as nat, fill));
        true
    }

    /// Pushes one frame in and returns the frame that comes out: the oldest
    /// pending one, or `x` itself where the latency is zero.
    pub fn push(&mut self, x: T) -> (r: T)
        ensures
            r == old(self)@.push(x)[0],
            final(self)@ == old(self)@.push(x).drop_first(),
        no_unwind
    {
        proof {
            use_type_invariant(&*self);
        }
        let n = self.buf.len();
        if n == 0 {
            assert(old(self)@.push(x).drop_first() =~= old(self)@);
            return x;
        }
        let pos = self.pos;
        let out = self.buf[pos];
        self.buf[pos] = x;
        self.pos = if pos + 1 == n {
            0
        } else {
            pos + 1
        };
        assert(self@ =~= old(self)@.push(x).drop_first());
        out
    }

    /// Pushes a block through the line in place: each value is replaced by
    /// the one that comes out when it goes in.
    pub fn process(&mut self, block: &mut [T])
        ensures
            final(block)@ == delayed(old(self)@, old(block)@),
            final(self)@ == held_after(old(self)@, old(block)@),
    {
        let len = block.len();
        let mut i: usize = 0;
        while i < len
            invariant
                0 <= i <= len,
                len == block@.len(),
                old(block)@.len() == len,
                block@.subrange(0, i as int) == delayed(old(self)@, old(block)@.take(i as int)),
                block@.skip(i as int) == old(block)@.skip(i as int),
                self@ == held_after(old(self)@, old(block)@.take(i as int)),
            decreases len - i,
        {
            let x = block[i];
            proof {
                assert(block@.skip(i as int)[0] == block@[i as int]);
                assert(old(block)@.skip(i as int)[0] == old(block)@[i as int]);
            }
            let ghost before = self@;
            let ghost prev = block@;
            let y = self.push(x);
            block[i] = y;
            assert(block@ == prev.update(i as int, y));
            proof {
                let p = old(self)@;
                let b = old(block)@;
                let q = p + b.take(i as int);
                assert(b.take(i + 1) =~= b.take(i as int).push(x));
                assert(p + b.take(i + 1) =~= q.push(x));
                assert(before.push(x) =~= q.push(x).skip(i as int));
                assert(y == q.push(x)[i as int]);
                assert forall|j: int| 0 <= j < i + 1 implies #[trigger] block@[j] == (p + b.take(i + 1))[j] by {
                    if j < i {
                        assert(block@[j] == prev.subrange(0, i as int)[j]);
                    }
                }
                assert forall|j: int| 0 <= j < len - (i + 1) implies #[trigger] block@.skip(i + 1)[j] == b.skip(i + 1)[j] by {
                    assert(block@[i + 1 + j] == prev.skip(i as int)[j + 1]);
                }
            }
            assert(block@.subrange(0, i + 1) =~= delayed(old(self)@, old(block)@.take(i + 1)));
            assert(block@.skip(i + 1) =~= old(block)@.skip(i + 1));
            assert(self@ =~= held_after(old(self)@, old(block)@.take(i + 1)));
            i += 1;
        }
        assert(old(block)@.take(len as int) =~= old(block)@);
        assert(block@ =~= block@.subrange(0, len as int));
    }
}

} // verus!
