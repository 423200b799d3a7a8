//! Exact integer scalars for the engine.
//!
//! [`Integer`] is a signed 64-bit integer whose arithmetic never wraps: an
//! operation whose mathematical result does not fit, or has no integer
//! value, yields the undefined scalar, and every operation on an undefined
//! scalar is undefined again. Gradients computed over defined scalars are
//! therefore the exact integers the chain rule gives.
use crate::engine::MathOps;
use vstd::arithmetic::power::{lemma0_pow, lemma1_pow, pow};
use vstd::prelude::*;

verus! {

/// Whether `x` can be held in 64 signed bits.
pub open spec fn fits(x: int) -> bool {
    i64::MIN <= x <= i64::MAX
}

/// A 64-bit integer, or the undefined scalar where `value` is `None`.
#[derive(Debug, Clone, Copy, PartialEq, Eq)]
pub struct Integer {
    pub value: Option<i64>,
}

/// Largest exponent handed to the library power routine. Larger ones are
/// decided by the base alone.
pub const MAX_DIRECT_EXPONENT: i64 = 0xffff_ffff;

/// `num_traits::Zero::zero` at `i64`: the integer 0.
#[verifier::external_body]
fn integer_zero() -> (r: i64)
    ensures
        r == 0,
{
    num_traits::Zero::zero()
}

/// `num_traits::One::one` at `i64`: the integer 1.
#[verifier::external_body]
fn integer_one() -> (r: i64)
    ensures
        r == 1,
{
    num_traits::One::one()
}

/// `num_traits::checked_pow` at `i64`: `base` to the power `exponent` where
/// that fits in 64 signed bits, `None` where it does not. An exponent of 0
/// gives 1 for every base.
#[verifier::external_body]
fn checked_power(base: i64, exponent: usize) -> (r: Option<i64>)
    ensures
        r == (if fits(pow(base as int, exponent as nat)) {
            Some(pow(base as int, exponent as nat) as i64)
        } else {
            None
        }),
{
    num_traits::checked_pow(base, exponent)
}

/// `rand::Rng::gen_range` on the thread-local generator, over a half-open
/// range of `i64`. The range must not be empty; the result lies in it.
/// Nothing else is known of the result.
#[verifier::external_body]
fn uniform_between(low: i64, high: i64) -> (r: i64)
    requires
        low < high,
    ensures
        low <= r < high,
{
    rand::Rng::gen_range(&mut rand::thread_rng(), low..high)
}

/// Powers of minus one alternate between 1 and -1.
proof fn lemma_pow_minus_one(e: nat)
    ensures
        pow(-1, e) == if e % 2 == 0 {
            1int
        } else {
            -1int
        },
    decreases e,
{
    reveal(pow);
    if e > 0 {
        lemma_pow_minus_one((e - 1) as nat);
    }
}

/// A base of magnitude two or more, raised to `e`, has magnitude at least
/// two to the `e`.
proof fn lemma_pow_magnitude(b: int, e: nat)
    requires
        b <= -2 || b >= 2,
    ensures
        pow(b, e) >= pow(2, e) || pow(b, e) <= -pow(2, e),
        pow(2, e) >= 1,
    decreases e,
{
    reveal(pow);
    if e > 0 {
        lemma_pow_magnitude(b, (e - 1) as nat);
        let p = pow(b, (e - 1) as nat);
        let q = pow(2, (e - 1) as nat);
        assert(b * p >= 2 * q || b * p <= -(2 * q)) by (nonlinear_arith)
            requires
                b <= -2 || b >= 2,
                p >= q || p <= -q,
                q >= 1,
        ;
    }
}

/// Two to the `e` is at least two to the 64 once `e` is at least 64.
proof fn lemma_pow2_large(e: nat)
    requires
        e >= 64,
    ensures
        pow(2, e) >= 0x1_0000_0000_0000_0000,
    decreases e,
{
    reveal(pow);
    if e == 64 {
        vstd::arithmetic::power2::lemma2_to64();
        vstd::arithmetic::power2::lemma_pow2(64);
    } else {
        lemma_pow2_large((e - 1) as nat);
    }
}

impl Integer {
    /// The undefined scalar.
    pub open spec fn undefined() -> Integer {
        Integer { value: None }
    }

    /// The scalar for the mathematical integer `x`: `x` itself where it
    /// fits, undefined where it does not.
    pub open spec fn of(x: int) -> Integer {
        if fits(x) {
            Integer { value: Some(x as i64) }
        } else {
            Integer::undefined()
        }
    }

    /// The scalar holding `value`.
    pub fn new(value: i64) -> (r: Integer)
        ensures
            r == Integer::of(value as int),
    {
        Integer { value: Some(value) }
    }

    /// The scalar for a 128-bit intermediate result.
    fn narrow(x: i128) -> (r: Integer)
        ensures
            r == Integer::of(x as int),
    {
        if x < i64::MIN as i128 || x > i64::MAX as i128 {
            Integer { value: None }
        } else {
            Integer { value: Some(x as i64) }
        }
    }

    /// `base` to the power `e` for an exponent above the direct limit,
    /// where only the bases 0, 1 and -1 have a power that fits.
    fn power_large(base: i64, e: i64) -> (r: Integer)
        requires
            e > MAX_DIRECT_EXPONENT,
        ensures
            r == Integer::of(pow(base as int, e as nat)),
    {
        proof {
            if base == 0 {
                lemma0_pow(e as nat);
            } else if base == 1 {
                lemma1_pow(e as nat);
            } else if base == -1 {
                lemma_pow_minus_one(e as nat);
            } else {
                lemma_pow_magnitude(base as int, e as nat);
                lemma_pow2_large(e as nat);
            }
        }
        if base == 0 || base == 1 {
            Integer { value: Some(base) }
        } else if base == -1 {
            if e % 2 == 0 {
                Integer { value: Some(1) }
            } else {
                Integer { value: Some(-1) }
            }
        } else {
            Integer { value: None }
        }
    }
}

impl MathOps for Integer {
    open spec fn zero_spec() -> Integer {
        Integer::of(0)
    }

    open spec fn one_spec() -> Integer {
        Integer::of(1)
    }

    open spec fn add_spec(self, rhs: Integer) -> Integer {
        match (self.value, rhs.value) {
            (Some(x), Some(y)) => Integer::of(x + y),
            _ => Integer::undefined(),
        }
    }

    open spec fn sub_spec(self, rhs: Integer) -> Integer {
        match (self.value, rhs.value) {
            (Some(x), Some(y)) => Integer::of(x - y),
            _ => Integer::undefined(),
        }
    }

    open spec fn mul_spec(self, rhs: Integer) -> Integer {
        match (self.value, rhs.value) {
            (Some(x), Some(y)) => Integer::of(x * y),
            _ => Integer::undefined(),
        }
    }

    open spec fn neg_spec(self) -> Integer {
        match self.value {
            Some(x) => Integer::of(-x),
            None => Integer::undefined(),
        }
    }

    /// Defined for a defined base and a defined exponent that is not
    /// negative, where the power fits. Zero to the zero is one.
    open spec fn pow_spec(self, exponent: Integer) -> Integer {
        match (self.value, exponent.value) {
            (Some(b), Some(e)) if e >= 0 => Integer::of(pow(b as int, e as nat)),
            _ => Integer::undefined(),
        }
    }

    /// The order of the integers. An undefined scalar is below nothing and
    /// nothing is below it.
    open spec fn lt_spec(self, rhs: Integer) -> bool {
        match (self.value, rhs.value) {
            (Some(x), Some(y)) => x < y,
            _ => false,
        }
    }

    fn zero() -> (r: Integer) {
        Integer { value: Some(integer_zero()) }
    }

    fn one() -> (r: Integer) {
        Integer { value: Some(integer_one()) }
    }

    fn add(self, rhs: Integer) -> (r: Integer) {
        match (self.value, rhs.value) {
            (Some(x), Some(y)) => Integer::narrow(x as i128 + y as i128),
            _ => Integer { value: None },
        }
    }

    fn sub(self, rhs: Integer) -> (r: Integer) {
        match (self.value, rhs.value) {
            (Some(x), Some(y)) => Integer::narrow(x as i128 - y as i128),
            _ => Integer { value: None },
        }
    }

    fn mul(self, rhs: Integer) -> (r: Integer) {
        match (self.value, rhs.value) {
            (Some(x), Some(y)) => {
                assert(-0x4000_0000_0000_0000_0000_0000_0000_0000 <= x * y
                    <= 0x4000_0000_0000_0000_0000_0000_0000_0000) by (nonlinear_arith)
                    requires
                        -0x8000_0000_0000_0000 <= x <= 0x8000_0000_0000_0000,
                        -0x8000_0000_0000_0000 <= y <= 0x8000_0000_0000_0000,
                ;
                Integer::narrow(x as i128 * y as i128)
            },
            _ => Integer { value: None },
        }
    }

    fn neg(self) -> (r: Integer) {
        match self.value {
            Some(x) => Integer::narrow(-(x as i128)),
            None => Integer { value: None },
        }
    }

    fn pow(self, exponent: Integer) -> (r: Integer) {
        match (self.value, exponent.value) {
            (Some(b), Some(e)) => {
                if e < 0 {
                    Integer { value: None }
                } else if e <= MAX_DIRECT_EXPONENT {
                    Integer { value: checked_power(b, e as usize) }
                } else {
                    Integer::power_large(b, e)
                }
            },
            _ => Integer { value: None },
        }
    }

    fn lt(self, rhs: Integer) -> (r: bool) {
        match (self.value, rhs.value) {
            (Some(x), Some(y)) => x < y,
            _ => false,
        }
    }

    /// Uniform over the integers strictly between the bounds.
    fn sample(low: Integer, high: Integer) -> (r: Integer) {
        proof {
            let x = choose|x: Integer| low.lt_spec(x) && x.lt_spec(high);
            assert(low.lt_spec(x) && x.lt_spec(high));
        }
        match (low.value, high.value) {
            (Some(l), Some(h)) => Integer { value: Some(uniform_between(l + 1, h)) },
            _ => low,
        }
    }

    proof fn law_add_zero(x: Integer) {
    }

    proof fn law_mul_one(x: Integer) {
        if let Some(v) = x.value {
            assert(v * 1 == v) by (nonlinear_arith);
        }
    }

    proof fn law_lt_asymmetric(x: Integer, y: Integer) {
    }

    proof fn law_zero_between_units() {
    }
}

} // verus!
