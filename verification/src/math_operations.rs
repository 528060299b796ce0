//! Arithmetic operations: basics, exponentiation and factorial, and a
//! fetch-and-increment step.

use vstd::arithmetic::power::pow;
use vstd::math::abs;
use vstd::prelude::*;

verus! {

/// Sum of two integers.
pub fn add(a: i32, b: i32) -> (r: i32)
    requires
        i32::MIN <= a + b <= i32::MAX,
    ensures
        r == a + b,
{
    a + b
}

/// Difference of two integers.
pub fn subtract(a: i32, b: i32) -> (r: i32)
    requires
        i32::MIN <= a - b <= i32::MAX,
    ensures
        r == a - b,
{
    a - b
}

/// The absolute value of a product is the product of the absolute values.
proof fn lemma_abs_mul(a: int, b: int)
    ensures
        abs(a * b) == abs(a) * abs(b),
{
    if a >= 0 && b >= 0 {
        assert(a * b >= 0) by (nonlinear_arith)
            requires
                a >= 0,
                b >= 0,
        ;
    } else if a >= 0 && b < 0 {
        assert(a * b <= 0 && a * (-b) == -(a * b)) by (nonlinear_arith)
            requires
                a >= 0,
                b < 0,
        ;
    } else if a < 0 && b >= 0 {
        assert(a * b <= 0 && (-a) * b == -(a * b)) by (nonlinear_arith)
            requires
                a < 0,
                b >= 0,
        ;
    } else {
        assert(a * b >= 0 && (-a) * (-b) == a * b) by (nonlinear_arith)
            requires
                a < 0,
                b < 0,
        ;
    }
}

/// The absolute value of a power is the power of the absolute value.
proof fn lemma_abs_pow(b: int, e: nat)
    ensures
        abs(pow(b, e)) == pow(abs(b) as int, e),
    decreases e,
{
    reveal(vstd::arithmetic::power::pow);
    if e > 0 {
        lemma_abs_pow(b, (e - 1) as nat);
        lemma_abs_mul(b, pow(b, (e - 1) as nat));
    }
}

/// Every partial power `b^k` on the way to a `b^e` that fits in `i32`
/// fits in `i32` itself.
proof fn lemma_partial_pow_fits(b: int, k: nat, e: nat)
    requires
        k <= e,
        i32::MIN <= pow(b, e) <= i32::MAX,
    ensures
        i32::MIN <= pow(b, k) <= i32::MAX,
{
    if k < e {
        let a = abs(b);
        lemma_abs_pow(b, k);
        lemma_abs_pow(b, e);
        if a == 0 {
            if k == 0 {
                vstd::arithmetic::power::lemma_pow0(abs(b) as int);
            } else {
                vstd::arithmetic::power::lemma0_pow(k);
            }
        } else if a == 1 {
            vstd::arithmetic::power::lemma1_pow(k);
        } else {
            vstd::arithmetic::power::lemma_pow_positive(a as int, k);
            vstd::arithmetic::power::lemma_pow_strictly_increases(a as nat, k, e);
        }
    }
}

/// `base` raised to the `exp`-th power.
pub fn power(base: i32, exp: u32) -> (r: i32)
    requires
        i32::MIN <= pow(base as int, exp as nat) <= i32::MAX,
    ensures
        r == pow(base as int, exp as nat),
{
    proof {
        vstd::arithmetic::power::lemma_pow0(base as int);
    }
    let mut acc: i32 = 1;
    let mut i: u32 = 0;
    while i < exp
        invariant
            i <= exp,
            i32::MIN <= pow(base as int, exp as nat) <= i32::MAX,
            acc == pow(base as int, i as nat),
        decreases exp - i,
    {
        proof {
            lemma_partial_pow_fits(base as int, (i + 1) as nat, exp as nat);
            vstd::arithmetic::power::lemma_pow_adds(base as int, i as nat, 1);
            vstd::arithmetic::power::lemma_pow1(base as int);
        }
        acc = acc * base;
        i = i + 1;
    }
    acc
}

/// The factorial function, with `0! == 1`.
pub open spec fn spec_factorial(n: nat) -> nat
    decreases n,
{
    if n <= 1 {
        1
    } else {
        n * spec_factorial((n - 1) as nat)
    }
}

/// Factorial never shrinks when its argument grows by one.
proof fn lemma_factorial_step_grows(n: nat)
    requires
        n >= 1,
    ensures
        spec_factorial((n - 1) as nat) <= spec_factorial(n),
{
    let f = spec_factorial((n - 1) as nat);
    if n >= 2 {
        assert(f <= n * f) by (nonlinear_arith)
            requires
                n >= 2,
                f >= 0,
        ;
    }
}

/// `n` factorial.
pub fn factorial(n: u32) -> (r: u32)
    requires
        spec_factorial(n as nat) <= u32::MAX,
    ensures
        r == spec_factorial(n as nat),
    decreases n,
{
    if n <= 1 {
        1
    } else {
        proof {
            lemma_factorial_step_grows(n as nat);
        }
        n * factorial(n - 1)
    }
}

/// The fetch-and-add step of a statistics counter: adds one and returns
/// the value from before the addition.
pub fn increment_counter(counter: &mut u64) -> (previous: u64)
    requires
        *old(counter) < u64::MAX,
    ensures
        *final(counter) == *old(counter) + 1,
        previous == *old(counter),
{
    let previous = *counter;
    *counter = previous + 1;
    previous
}

} // verus!
