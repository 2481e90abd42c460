//! The schedule of the correction smoother: a linear ramp towards a target
//! over a whole number of samples. The schedule counts the samples; the
//! value at each one is `start + (target - start) * done / total`, which
//! the caller computes from the point that each step hands back.
use vstd::prelude::*;

verus! {

/// Where a ramp stands after a step.
#[derive(Clone, Copy, Debug, PartialEq, Eq, Structural)]
pub enum RampPoint {
    /// `done` of `total` steps are taken, with `0 < done < total`: the value
    /// is the fraction `done / total` of the way from start to target.
    Between { done: u32, total: u32 },
    /// The value is the target.
    AtTarget,
}

/// The point of a ramp of `total` steps of which `done` are taken.
pub open spec fn point_at(done: nat, total: nat) -> RampPoint {
    if done >= total {
        RampPoint::AtTarget
    } else {
        RampPoint::Between { done: done as u32, total: total as u32 }
    }
}

/// The state after one step from `(done, total)`.
pub open spec fn step_state(s: (nat, nat)) -> (nat, nat) {
    if s.0 < s.1 {
        ((s.0 + 1) as nat, s.1)
    } else {
        s
    }
}

/// The points handed back by `k` steps from state `s`, in order.
pub open spec fn points_from(s: (nat, nat), k: nat) -> Seq<RampPoint>
    decreases k,
{
    if k == 0 {
        Seq::empty()
    } else {
        let t = step_state(s);
        seq![point_at(t.0, t.1)] + points_from(t, (k - 1) as nat)
    }
}

/// A linear ramp schedule. Its view is `(done, total)`.
pub struct Ramp {
    done: u32,
    total: u32,
}

impl Ramp {
    #[verifier::type_invariant]
    spec fn inv(&self) -> bool {
        self.done <= self.total
    }
}

impl View for Ramp {
    type V = (nat, nat);

    closed spec fn view(&self) -> (nat, nat) {
        (self.done as nat, self.total as nat)
    }
}

/// The `i`-th step (from zero) after a retarget to `total` steps lands at
/// `i + 1` steps done, or at the target once `total` steps are taken.
proof fn lemma_points_after_retarget(done: nat, total: nat, k: nat)
    requires
        done <= total,
    ensures
        points_from((done, total), k).len() == k,
        forall|i: int|
            0 <= i < k ==> #[trigger] points_from((done, total), k)[i] == point_at(
                if done + i + 1 <= total {
                    (done + i + 1) as nat
                } else {
                    total
                },
                total,
            ),
    decreases k,
{
    if k > 0 {
        let t = step_state((done, total));
        lemma_points_after_retarget(t.0, t.1, (k - 1) as nat);
        let tail = points_from(t, (k - 1) as nat);
        assert forall|i: int| 0 <= i < k implies #[trigger] points_from((done, total), k)[i]
            == point_at(
            if done + i + 1 <= total {
                (done + i + 1) as nat
            } else {
                total
            },
            total,
        ) by {
            if i > 0 {
                assert(points_from((done, total), k)[i] == tail[i - 1]);
            }
        }
    }
}

/// After a retarget to `total > 0` steps, the first `total - 1` steps hand
/// back strictly increasing fractions `1 / total, 2 / total, ...` of the way
/// to the target, never the target itself; step number `total` hands back
/// the target, and so does every step after it.
pub proof fn lemma_ramp_reaches_target_on_time(total: nat, k: nat)
    requires
        0 < total <= u32::MAX,
    ensures
        points_from((0, total), k).len() == k,
        forall|i: int|
            0 <= i < k && i + 1 < total ==> #[trigger] points_from((0, total), k)[i]
                == (RampPoint::Between { done: (i + 1) as u32, total: total as u32 }),
        forall|i: int|
            0 <= i < k && i + 1 >= total ==> #[trigger] points_from((0, total), k)[i]
                == RampPoint::AtTarget,
{
    lemma_points_after_retarget(0, total, k);
}

impl Ramp {
    /// A ramp that stands at its target.
    pub fn settled() -> (r: Self)
        ensures
            r@ == (0nat, 0nat),
    {
        Ramp { done: 0, total: 0 }
    }

    /// Starts a new ramp of `steps` steps from wherever the value stands.
    /// With zero steps the value jumps to the target.
    pub fn retarget(&mut self, steps: u32)
        ensures
            final(self)@ == (0nat, steps as nat),
    {
        *self = Ramp { done: 0, total: steps };
    }

    /// Whether the value stands at its target.
    pub fn is_settled(&self) -> (r: bool)
        ensures
            r == (self@.0 >= self@.1),
    {
        self.done >= self.total
    }

    /// Takes one step, once per sample, and returns where the ramp stands.
    pub fn tick(&mut self) -> (r: RampPoint)
        ensures
            final(self)@ == step_state(old(self)@),
            r == point_at(final(self)@.0, final(self)@.1),
            final(self)@.1 == old(self)@.1,
            final(self)@.0 <= final(self)@.1,
    {
        proof {
            use_type_invariant(&*self);
        }
        if self.done < self.total {
            *self = Ramp { done: self.done + 1, total: self.total };
        }
        if self.done >= self.total {
            RampPoint::AtTarget
        } else {
            RampPoint::Between { done: self.done, total: self.total }
        }
    }
}

} // verus!
