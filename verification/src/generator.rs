//! Stateful waveform generators: lazy, conceptually infinite sample producers
//! that advance by one step per pull and can fill a caller-provided buffer.

use crate::error::SignalError;
use crate::sample::Sample;
use vstd::prelude::*;

verus! {

/// A producer of an unbounded sample sequence that can overwrite a buffer.
///
/// Each pull returns one sample and advances the internal state by exactly one
/// step; the spec functions `next_sample` and `advanced` pin both down, so the
/// whole emitted sequence of a generator is determined by its starting state
/// (see `sample_at`).
pub trait BufferWriter<T: Sample>: Sized {
    /// The sample that the next pull returns.
    spec fn next_sample(&self) -> T;

    /// The generator state after one pull.
    spec fn advanced(&self) -> Self;

    /// Returns the next sample and advances the state by one step.
    fn pull(&mut self) -> (s: T)
        ensures
            s == old(self).next_sample(),
            *final(self) == old(self).advanced(),
    ;
}

/// The generator state after `k` pulls from state `g`.
pub open spec fn advanced_by<T: Sample, G: BufferWriter<T>>(g: G, k: nat) -> G
    decreases k,
{
    if k == 0 {
        g
    } else {
        advanced_by::<T, G>(g, (k - 1) as nat).advanced()
    }
}

/// The sample that the `k`-th pull (0-based) from state `g` returns.
pub open spec fn sample_at<T: Sample, G: BufferWriter<T>>(g: G, k: nat) -> T {
    advanced_by::<T, G>(g, k).next_sample()
}

/// Overwrites every position of `buffer`, in order, with one pull from `g`
/// each; equivalent to `buffer.len()` sequential pulls. The generator's state
/// advances by `buffer.len()` steps.
pub fn write_buffer<T: Sample, G: BufferWriter<T>>(g: &mut G, buffer: &mut Vec<T>)
    ensures
        final(buffer)@.len() == old(buffer)@.len(),
        forall|k: int|
            0 <= k < final(buffer)@.len() ==> final(buffer)@[k] == sample_at::<T, G>(
                *old(g),
                k as nat,
            ),
        *final(g) == advanced_by::<T, G>(*old(g), final(buffer)@.len() as nat),
{
    let n = buffer.len();
    let mut idx: usize = 0;
    while idx < n
        invariant
            idx <= n,
            n == buffer@.len(),
            buffer@.len() == old(buffer)@.len(),
            *g == advanced_by::<T, G>(*old(g), idx as nat),
            forall|k: int| 0 <= k < idx ==> buffer@[k] == sample_at::<T, G>(*old(g), k as nat),
        decreases n - idx,
    {
        let s = g.pull();
        buffer.set(idx, s);
        idx += 1;
    }
}

/// An impulse generator: emits the unit sample exactly once, on the first
/// pull, and the zero sample forever after.
pub struct Impulse {
    /// Whether the single unit sample has already been emitted.
    pub impulse_sent: bool,
}

impl Impulse {
    /// Creates a fresh impulse generator that has not fired yet.
    pub fn new() -> (g: Impulse)
        ensures
            !g.impulse_sent,
    {
        Impulse { impulse_sent: false }
    }
}

impl Default for Impulse {
    /// Creates a fresh impulse generator that has not fired yet.
    fn default() -> (g: Impulse)
        ensures
            !g.impulse_sent,
    {
        Impulse::new()
    }
}

impl<T: Sample> BufferWriter<T> for Impulse {
    open spec fn next_sample(&self) -> T {
        if self.impulse_sent {
            T::szero()
        } else {
            T::sone()
        }
    }

    open spec fn advanced(&self) -> Impulse {
        Impulse { impulse_sent: true }
    }

    fn pull(&mut self) -> (s: T) {
        if self.impulse_sent {
            T::zero()
        } else {
            self.impulse_sent = true;
            T::one()
        }
    }
}

/// After any positive number of pulls an impulse generator has fired.
proof fn lemma_impulse_advanced<T: Sample>(g: Impulse, k: nat)
    ensures
        advanced_by::<T, Impulse>(g, k).impulse_sent == (g.impulse_sent || k > 0),
    decreases k,
{
    if k > 0 {
        lemma_impulse_advanced::<T>(g, (k - 1) as nat);
    }
}

/// A fresh impulse generator emits the unit sample first and the zero sample
/// on every later pull: its pull sequence is `[one, zero, zero, ...]`.
pub proof fn lemma_impulse_pull_sequence<T: Sample>(g: Impulse, k: nat)
    requires
        !g.impulse_sent,
    ensures
        sample_at::<T, Impulse>(g, k) == (if k == 0 {
            T::sone()
        } else {
            T::szero()
        }),
{
    lemma_impulse_advanced::<T>(g, k);
}

/// A step generator: emits the zero sample for the first `step_pos` pulls and
/// the unit sample forever after.
pub struct Step {
    /// How many zero samples are still to be emitted before the step.
    pub step_pos: usize,
}

impl Step {
    /// Creates a step generator whose onset is `step_pos` pulls away.
    pub fn new(step_pos: usize) -> (g: Step)
        ensures
            g.step_pos == step_pos,
    {
        Step { step_pos }
    }
}

impl<T: Sample> BufferWriter<T> for Step {
    open spec fn next_sample(&self) -> T {
        if self.step_pos > 0 {
            T::szero()
        } else {
            T::sone()
        }
    }

    open spec fn advanced(&self) -> Step {
        if self.step_pos > 0 {
            Step { step_pos: (self.step_pos - 1) as usize }
        } else {
            Step { step_pos: 0 }
        }
    }

    fn pull(&mut self) -> (s: T) {
        if self.step_pos > 0 {
            self.step_pos = self.step_pos - 1;
            T::zero()
        } else {
            T::one()
        }
    }
}

/// Each pull decrements the step countdown until it reaches zero.
proof fn lemma_step_advanced<T: Sample>(g: Step, k: nat)
    ensures
        advanced_by::<T, Step>(g, k).step_pos == (if k >= g.step_pos {
            0
        } else {
            g.step_pos - k
        }),
    decreases k,
{
    if k > 0 {
        lemma_step_advanced::<T>(g, (k - 1) as nat);
    }
}

/// A step generator built with onset `p` emits `p` zero samples followed by
/// unit samples: the `k`-th pull returns zero exactly when `k < p`.
pub proof fn lemma_step_pull_sequence<T: Sample>(g: Step, k: nat)
    ensures
        sample_at::<T, Step>(g, k) == (if k < g.step_pos {
            T::szero()
        } else {
            T::sone()
        }),
{
    lemma_step_advanced::<T>(g, k);
}

/// The position state shared by the periodic generators: a counter that runs
/// from zero up to its modulus and wraps back to zero once it reaches it.
#[derive(Clone, Copy, Debug)]
pub struct PhaseCounter {
    /// The current position, always below the modulus.
    pub position: usize,
    /// The period length; positive.
    pub modulus: usize,
}

impl PhaseCounter {
    /// The counter's invariant: a positive period and an in-range position.
    pub open spec fn wf(&self) -> bool {
        self.modulus > 0 && self.position < self.modulus
    }

    /// Creates a counter at position zero; a zero modulus is rejected as a
    /// domain error (it would mean division by zero downstream).
    pub fn new(modulus: usize) -> (r: Result<PhaseCounter, SignalError>)
        ensures
            modulus > 0 ==> (r matches Ok(c) && c.modulus == modulus && c.position == 0
                && c.wf()),
            modulus == 0 ==> (r matches Err(e) && e == SignalError::DomainError),
    {
        if modulus == 0 {
            Err(SignalError::DomainError)
        } else {
            Ok(PhaseCounter { position: 0, modulus })
        }
    }

    /// Returns the current position and advances by one step, wrapping to
    /// zero when the position reaches the modulus.
    pub fn tick(&mut self) -> (p: usize)
        requires
            old(self).wf(),
        ensures
            p == old(self).position,
            final(self).modulus == old(self).modulus,
            final(self).position == (if old(self).position + 1 == old(self).modulus {
                0int
            } else {
                old(self).position + 1
            }),
            final(self).wf(),
    {
        let p = self.position;
        self.position = self.position + 1;
        if self.position >= self.modulus {
            self.position = 0;
        }
        p
    }
}

} // verus!
