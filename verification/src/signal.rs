//! The `Signal` container: an immutable, finite, ordered sample sequence with
//! pointwise addition, scalar scaling, delay, and direct-form convolution.
//! Every operation returns a freshly built signal and leaves its operands'
//! meaning fixed by the sequence-level spec functions below.

use crate::error::SignalError;
use crate::sample::Sample;
use vstd::prelude::*;

verus! {

/// An immutable wrapper around an ordered sequence of samples; index 0 is
/// time 0. Its mathematical view is the sequence of its samples.
#[derive(Debug)]
pub struct Signal<T> {
    data: Vec<T>,
}

impl<T> View for Signal<T> {
    type V = Seq<T>;

    closed spec fn view(&self) -> Seq<T> {
        self.data@
    }
}

/// The sample of `a` at index `i`, zero-extended outside the bounds.
pub open spec fn pad_sample<T: Sample>(a: Seq<T>, i: int) -> T {
    if 0 <= i < a.len() {
        a[i]
    } else {
        T::szero()
    }
}

/// `a` scaled pointwise by `scalar`.
pub open spec fn scale_seq<T: Sample>(a: Seq<T>, scalar: T) -> Seq<T> {
    Seq::new(a.len(), |i: int| a[i].smul(scalar))
}

/// `a` delayed by `d` steps at unchanged length: `d` zero samples, then the
/// samples of `a` with its final `d` samples truncated.
pub open spec fn delay_seq<T: Sample>(a: Seq<T>, d: int) -> Seq<T> {
    Seq::new(a.len(), |i: int| if i < d { T::szero() } else { a[i - d] })
}

/// The pointwise sum of `a` and `b`, the shorter operand zero-extended to the
/// longer length.
pub open spec fn add_seq<T: Sample>(a: Seq<T>, b: Seq<T>) -> Seq<T> {
    Seq::new(
        if a.len() >= b.len() {
            a.len()
        } else {
            b.len()
        },
        |i: int| pad_sample(a, i).sadd(pad_sample(b, i)),
    )
}

/// The convolution value at output index `k` after accumulating the
/// contributions of the first `n` indices of `a`: the products `a[i] * b[k-i]`
/// for `i < n` with `k - i` inside `b`, added onto the zero sample in
/// increasing order of `i`.
pub open spec fn conv_partial<T: Sample>(a: Seq<T>, b: Seq<T>, k: int, n: int) -> T
    decreases n,
{
    if n <= 0 {
        T::szero()
    } else {
        let prev = conv_partial(a, b, k, n - 1);
        if 0 <= k - (n - 1) < b.len() {
            prev.sadd(a[n - 1].smul(b[k - (n - 1)]))
        } else {
            prev
        }
    }
}

/// The direct double-sum convolution value at output index `k`: the sum of
/// `a[i] * b[j]` over all index pairs with `i + j == k`.
pub open spec fn conv_at<T: Sample>(a: Seq<T>, b: Seq<T>, k: int) -> T {
    conv_partial(a, b, k, a.len() as int)
}

/// The discrete linear convolution of `a` and `b`: empty when either operand
/// is empty, else of length `a.len() + b.len() - 1` with the direct-sum value
/// at every index.
pub open spec fn convolve_seq<T: Sample>(a: Seq<T>, b: Seq<T>) -> Seq<T> {
    if a.len() == 0 || b.len() == 0 {
        Seq::empty()
    } else {
        Seq::new((a.len() + b.len() - 1) as nat, |k: int| conv_at(a, b, k))
    }
}

impl<T> Signal<T> {
    /// Wraps the given finite sample sequence verbatim; any length, including
    /// zero, is accepted.
    pub fn from_buffer(data: Vec<T>) -> (s: Signal<T>)
        ensures
            s@ == data@,
    {
        Signal { data }
    }

    /// The samples of the signal, as a read-only view.
    pub fn as_slice(&self) -> (r: &[T])
        ensures
            r@ == self@,
    {
        self.data.as_slice()
    }

    /// The number of samples in the signal.
    pub fn len(&self) -> (n: usize)
        ensures
            n == self@.len(),
    {
        self.data.len()
    }
}

impl<T: Sample> Signal<T> {
    /// Multiplies every sample by `scalar`, returning a new signal of the
    /// same length; the receiver is unchanged.
    pub fn mull_by_scalar(&self, scalar: T) -> (r: Signal<T>)
        ensures
            r@ == scale_seq(self@, scalar),
    {
        let n = self.data.len();
        let mut buffer: Vec<T> = Vec::new();
        let mut i: usize = 0;
        while i < n
            invariant
                i <= n,
                n == self@.len(),
                buffer@.len() == i,
                forall|k: int| 0 <= k < i ==> buffer@[k] == self@[k].smul(scalar),
            decreases n - i,
        {
            buffer.push(self.data[i].mul_sample(scalar));
            i += 1;
        }
        proof {
            assert(buffer@ =~= scale_seq(self@, scalar));
        }
        Signal { data: buffer }
    }

    /// Shifts the signal `delay` steps later at unchanged length: the first
    /// `delay` output samples are zero, and the final `delay` input samples
    /// are dropped.
    pub fn add_delay(&self, delay: usize) -> (r: Signal<T>)
        requires
            delay <= self@.len(),
        ensures
            r@ == delay_seq(self@, delay as int),
    {
        let n = self.data.len();
        let mut buffer: Vec<T> = Vec::new();
        let mut i: usize = 0;
        while i < n
            invariant
                i <= n,
                n == self@.len(),
                delay <= n,
                buffer@.len() == i,
                forall|k: int|
                    0 <= k < i ==> buffer@[k] == delay_seq(self@, delay as int)[k],
            decreases n - i,
        {
            if i < delay {
                buffer.push(T::zero());
            } else {
                buffer.push(self.data[i - delay]);
            }
            i += 1;
        }
        proof {
            assert(buffer@ =~= delay_seq(self@, delay as int));
        }
        Signal { data: buffer }
    }

    /// Like `add_delay`, with the precondition made an explicit check: a
    /// delay beyond the signal's length is reported as a bounds error.
    pub fn try_add_delay(&self, delay: usize) -> (r: Result<Signal<T>, SignalError>)
        ensures
            delay <= self@.len() ==> (r matches Ok(s) && s@ == delay_seq(self@, delay as int)),
            delay > self@.len() ==> (r matches Err(e) && e == SignalError::BoundsError),
    {
        if delay <= self.data.len() {
            Ok(self.add_delay(delay))
        } else {
            Err(SignalError::BoundsError)
        }
    }

    /// Adds two signals pointwise, zero-extending the shorter one; the result
    /// has the length of the longer operand.
    pub fn add(self, rhs: Signal<T>) -> (r: Signal<T>)
        ensures
            r@ == add_seq(self@, rhs@),
    {
        let n_self = self.data.len();
        let n_rhs = rhs.data.len();
        let len = if n_self >= n_rhs {
            n_self
        } else {
            n_rhs
        };
        let mut buffer: Vec<T> = Vec::new();
        let mut i: usize = 0;
        while i < len
            invariant
                i <= len,
                n_self == self@.len(),
                n_rhs == rhs@.len(),
                len == add_seq(self@, rhs@).len(),
                buffer@.len() == i,
                forall|k: int|
                    0 <= k < i ==> buffer@[k] == pad_sample(self@, k).sadd(pad_sample(rhs@, k)),
            decreases len - i,
        {
            let a = if i < n_self {
                self.data[i]
            } else {
                T::zero()
            };
            let b = if i < n_rhs {
                rhs.data[i]
            } else {
                T::zero()
            };
            buffer.push(a.add_sample(b));
            i += 1;
        }
        proof {
            assert(buffer@ =~= add_seq(self@, rhs@));
        }
        Signal { data: buffer }
    }

    /// Convolves two signals by the direct O(n*m) double sum: every product
    /// `self[i] * rhs[j]` is accumulated into output index `i + j`. The
    /// output length is `self.len() + rhs.len() - 1`; convolution with an
    /// empty operand is defined to be the empty signal.
    pub fn convolve(self, rhs: Signal<T>) -> (r: Signal<T>)
        requires
            self@.len() > 0 && rhs@.len() > 0 ==> self@.len() + rhs@.len() - 1 <= usize::MAX,
        ensures
            r@ == convolve_seq(self@, rhs@),
    {
        let n = self.data.len();
        let m = rhs.data.len();
        if n == 0 || m == 0 {
            let empty: Vec<T> = Vec::new();
            proof {
                assert(empty@ =~= convolve_seq(self@, rhs@));
            }
            return Signal { data: empty };
        }
        let len = n - 1 + m;
        let mut buffer: Vec<T> = Vec::new();
        while buffer.len() < len
            invariant
                buffer@.len() <= len,
                forall|k: int| 0 <= k < buffer@.len() ==> buffer@[k] == T::szero(),
            decreases len - buffer@.len(),
        {
            buffer.push(T::zero());
        }
        let mut i: usize = 0;
        while i < n
            invariant
                i <= n,
                n == self@.len(),
                m == rhs@.len(),
                len == n + m - 1,
                buffer@.len() == len,
                forall|k: int|
                    0 <= k < len ==> buffer@[k] == conv_partial(self@, rhs@, k, i as int),
            decreases n - i,
        {
            let mut j: usize = 0;
            while j < m
                invariant
                    j <= m,
                    i < n,
                    n == self@.len(),
                    m == rhs@.len(),
                    len == n + m - 1,
                    buffer@.len() == len,
                    forall|k: int|
                        0 <= k < len ==> buffer@[k] == (if i <= k < i + j {
                            conv_partial(self@, rhs@, k, i as int + 1)
                        } else {
                            conv_partial(self@, rhs@, k, i as int)
                        }),
                decreases m - j,
            {
                let prod = self.data[i].mul_sample(rhs.data[j]);
                let acc = buffer[i + j].add_sample(prod);
                buffer.set(i + j, acc);
                j += 1;
            }
            proof {
                assert forall|k: int| 0 <= k < len implies buffer@[k] == conv_partial(
                    self@,
                    rhs@,
                    k,
                    i as int + 1,
                ) by {
                    if !(i <= k < i + m) {
                        assert(conv_partial(self@, rhs@, k, i as int + 1) == conv_partial(
                            self@,
                            rhs@,
                            k,
                            i as int,
                        ));
                    }
                }
            }
            i += 1;
        }
        proof {
            assert(buffer@ =~= convolve_seq(self@, rhs@));
        }
        Signal { data: buffer }
    }
}

/// Adding signals is commutative: the zero-extended pointwise sum does not
/// depend on the order of its operands.
pub proof fn lemma_add_comm<T: Sample>(a: Seq<T>, b: Seq<T>)
    ensures
        add_seq(a, b) == add_seq(b, a),
{
    assert forall|i: int| 0 <= i < add_seq(a, b).len() implies add_seq(a, b)[i] == add_seq(
        b,
        a,
    )[i] by {
        T::lemma_add_comm(pad_sample(a, i), pad_sample(b, i));
    }
    assert(add_seq(a, b) =~= add_seq(b, a));
}

/// Scaling twice composes into one scaling by the product of the scalars:
/// `scale(scale(x, a), b) == scale(x, a * b)` for every sample sequence `x`.
pub proof fn lemma_scale_scale<T: Sample>(x: Seq<T>, a: T, b: T)
    ensures
        scale_seq(scale_seq(x, a), b) == scale_seq(x, a.smul(b)),
{
    assert forall|i: int| 0 <= i < x.len() implies scale_seq(scale_seq(x, a), b)[i] == scale_seq(
        x,
        a.smul(b),
    )[i] by {
        T::lemma_mul_assoc(x[i], a, b);
    }
    assert(scale_seq(scale_seq(x, a), b) =~= scale_seq(x, a.smul(b)));
}

/// With the single-sample unit signal, only the pair at `i == k` contributes
/// to output index `k`, and it contributes the sample itself.
proof fn lemma_conv_partial_unit<T: Sample>(x: Seq<T>, k: int, n: int)
    requires
        0 <= k < x.len(),
        0 <= n <= x.len(),
    ensures
        conv_partial(x, seq![T::sone()], k, n) == (if k < n {
            x[k]
        } else {
            T::szero()
        }),
    decreases n,
{
    if n > 0 {
        lemma_conv_partial_unit(x, k, n - 1);
        if k == n - 1 {
            T::lemma_mul_one(x[k]);
            T::lemma_add_zero(x[k].smul(T::sone()));
        }
    }
}

/// The single-sample unit signal is the identity of convolution: convolving
/// any signal with it returns the signal unchanged.
pub proof fn lemma_convolve_unit<T: Sample>(x: Seq<T>)
    ensures
        convolve_seq(x, seq![T::sone()]) == x,
{
    let u = seq![T::sone()];
    if x.len() == 0 {
        assert(convolve_seq(x, u) =~= x);
    } else {
        assert forall|k: int| 0 <= k < x.len() implies conv_at(x, u, k) == x[k] by {
            lemma_conv_partial_unit(x, k, x.len() as int);
        }
        assert(convolve_seq(x, u) =~= x);
    }
}

} // verus!
