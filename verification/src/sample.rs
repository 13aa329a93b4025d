//! The numeric capability required of signal samples: addition,
//! multiplication, an additive identity, a multiplicative identity, and cheap
//! value-copy semantics, together with the algebraic laws the signal
//! operations depend on.

use vstd::arithmetic::div_mod::{
    lemma_fundamental_div_mod, lemma_mod_add_multiples_vanish, lemma_mod_multiples_vanish,
    lemma_small_mod,
};
use vstd::prelude::*;
use vstd::wrapping::i64_specs;

verus! {

/// A numeric sample type.
///
/// Each exec operation is pinned to a spec-level counterpart (`sadd`, `smul`,
/// `szero`, `sone`), and every implementation must prove the algebraic laws
/// below, so that contracts and lemmas about signals hold for any sample type.
pub trait Sample: Sized + Copy {
    /// The mathematical meaning of sample addition.
    spec fn sadd(self, other: Self) -> Self;

    /// The mathematical meaning of sample multiplication.
    spec fn smul(self, other: Self) -> Self;

    /// The additive identity ("silence").
    spec fn szero() -> Self;

    /// The multiplicative identity (the unit sample).
    spec fn sone() -> Self;

    /// Adds two samples.
    fn add_sample(self, other: Self) -> (r: Self)
        ensures
            r == self.sadd(other),
    ;

    /// Multiplies two samples.
    fn mul_sample(self, other: Self) -> (r: Self)
        ensures
            r == self.smul(other),
    ;

    /// Returns the additive identity.
    fn zero() -> (r: Self)
        ensures
            r == Self::szero(),
    ;

    /// Returns the multiplicative identity.
    fn one() -> (r: Self)
        ensures
            r == Self::sone(),
    ;

    /// Sample addition is commutative.
    proof fn lemma_add_comm(a: Self, b: Self)
        ensures
            a.sadd(b) == b.sadd(a),
    ;

    /// The additive identity is neutral on both sides.
    proof fn lemma_add_zero(a: Self)
        ensures
            a.sadd(Self::szero()) == a,
            Self::szero().sadd(a) == a,
    ;

    /// Sample multiplication is associative.
    proof fn lemma_mul_assoc(a: Self, b: Self, c: Self)
        ensures
            a.smul(b).smul(c) == a.smul(b.smul(c)),
    ;

    /// The multiplicative identity is neutral on the right.
    proof fn lemma_mul_one(a: Self)
        ensures
            a.smul(Self::sone()) == a,
    ;
}

/// Cropping an `i64`-ranged value changes nothing.
proof fn lemma_crop_identity(x: int)
    requires
        -0x8000_0000_0000_0000 <= x <= 0x7fff_ffff_ffff_ffff,
    ensures
        i64_specs::signed_crop(x) == x,
{
    let r: int = 0x1_0000_0000_0000_0000;
    if x >= 0 {
        lemma_small_mod(x as nat, r as nat);
    } else {
        lemma_mod_add_multiples_vanish(x, r);
        lemma_small_mod((x + r) as nat, r as nat);
        assert(x % r == x + r);
    }
}

/// Values congruent modulo 2^64 crop to the same `i64`.
proof fn lemma_crop_congruent(x: int, y: int)
    requires
        (x - y) % 0x1_0000_0000_0000_0000 == 0,
    ensures
        i64_specs::signed_crop(x) == i64_specs::signed_crop(y),
{
    let r: int = 0x1_0000_0000_0000_0000;
    lemma_fundamental_div_mod(x - y, r);
    let k = (x - y) / r;
    assert(x == r * k + y);
    lemma_mod_multiples_vanish(k, y, r);
    assert(x % r == y % r);
}

/// A cropped value is congruent to the original modulo 2^64.
proof fn lemma_crop_residue(x: int)
    ensures
        (i64_specs::signed_crop(x) - x) % 0x1_0000_0000_0000_0000 == 0,
{
    let r: int = 0x1_0000_0000_0000_0000;
    lemma_fundamental_div_mod(x, r);
    let q = x / r;
    assert(x % r == x - r * q);
    lemma_small_mod(0nat, r as nat);
    if x % r > 0x7fff_ffff_ffff_ffff {
        assert(i64_specs::signed_crop(x) - x == r * (-q - 1)) by {
            assert(r * (-q - 1) == -(r * q) - r) by (nonlinear_arith);
        }
        lemma_mod_multiples_vanish(-q - 1, 0, r);
    } else {
        assert(i64_specs::signed_crop(x) - x == r * (-q)) by {
            assert(r * (-q) == -(r * q)) by (nonlinear_arith);
        }
        lemma_mod_multiples_vanish(-q, 0, r);
    }
}

/// Congruence modulo 2^64 survives multiplication by a common factor.
proof fn lemma_congruent_mul(x: int, y: int, z: int)
    requires
        (x - y) % 0x1_0000_0000_0000_0000 == 0,
    ensures
        (x * z - y * z) % 0x1_0000_0000_0000_0000 == 0,
        (z * x - z * y) % 0x1_0000_0000_0000_0000 == 0,
{
    let r: int = 0x1_0000_0000_0000_0000;
    lemma_fundamental_div_mod(x - y, r);
    let k = (x - y) / r;
    assert(x - y == r * k);
    assert(x * z - y * z == r * (k * z)) by (nonlinear_arith)
        requires
            x - y == r * k,
    ;
    assert(z * x - z * y == x * z - y * z) by (nonlinear_arith);
    lemma_small_mod(0nat, r as nat);
    lemma_mod_multiples_vanish(k * z, 0, r);
}

impl Sample for i64 {
    /// Addition wraps around on overflow, modulo 2^64.
    open spec fn sadd(self, other: i64) -> i64 {
        i64_specs::wrapping_add(self, other)
    }

    /// Multiplication wraps around on overflow, modulo 2^64.
    open spec fn smul(self, other: i64) -> i64 {
        i64_specs::wrapping_mul(self, other)
    }

    open spec fn szero() -> i64 {
        0
    }

    open spec fn sone() -> i64 {
        1
    }

    fn add_sample(self, other: i64) -> (r: i64) {
        self.wrapping_add(other)
    }

    fn mul_sample(self, other: i64) -> (r: i64) {
        self.wrapping_mul(other)
    }

    fn zero() -> (r: i64) {
        0
    }

    fn one() -> (r: i64) {
        1
    }

    proof fn lemma_add_comm(a: i64, b: i64) {
    }

    proof fn lemma_add_zero(a: i64) {
    }

    proof fn lemma_mul_assoc(a: i64, b: i64, c: i64) {
        let ab = a as int * b as int;
        let bc = b as int * c as int;
        let w1 = i64_specs::signed_crop(ab) as int;
        let w2 = i64_specs::signed_crop(bc) as int;
        lemma_crop_residue(ab);
        lemma_crop_residue(bc);
        lemma_congruent_mul(w1, ab, c as int);
        lemma_congruent_mul(w2, bc, a as int);
        assert(ab * c as int == a as int * bc) by (nonlinear_arith)
            requires
                ab == a as int * b as int,
                bc == b as int * c as int,
        ;
        lemma_crop_congruent(w1 * c as int, ab * c as int);
        lemma_crop_congruent(a as int * w2, a as int * bc);
    }

    proof fn lemma_mul_one(a: i64) {
        lemma_crop_identity(a as int);
    }
}

} // verus!
