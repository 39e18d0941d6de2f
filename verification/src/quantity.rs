//! Arithmetic on stock quantities that never leaves the 64-bit range.

use vstd::prelude::*;

verus! {

/// `x` brought into the range of `i64`.
pub open spec fn clamp_i64(x: int) -> i64 {
    if x < i64::MIN {
        i64::MIN
    } else if x > i64::MAX {
        i64::MAX
    } else {
        x as i64
    }
}

/// `x` lowered by `q`, but never taken below zero: a quantity that is
/// already negative stays as it is.
pub open spec fn lowered(x: i64, q: u32) -> i64 {
    if x - q >= 0 {
        (x - q) as i64
    } else if x >= 0 {
        0
    } else {
        x
    }
}

/// Saturating addition.
pub fn saturating_add_i64(a: i64, b: i64) -> (r: i64)
    ensures
        r == clamp_i64(a + b),
{
    if b >= 0 {
        if a > i64::MAX - b {
            i64::MAX
        } else {
            a + b
        }
    } else {
        if a < i64::MIN - b {
            i64::MIN
        } else {
            a + b
        }
    }
}

/// Saturating subtraction.
pub fn saturating_sub_i64(a: i64, b: i64) -> (r: i64)
    ensures
        r == clamp_i64(a - b),
{
    if b >= 0 {
        if a < i64::MIN + b {
            i64::MIN
        } else {
            a - b
        }
    } else {
        if a > i64::MAX + b {
            i64::MAX
        } else {
            a - b
        }
    }
}

/// Lowers `x` by `q` without crossing zero.
pub fn lower(x: i64, q: u32) -> (r: i64)
    ensures
        r == lowered(x, q),
{
    let q: i64 = q as i64;
    if x >= q {
        x - q
    } else if x >= 0 {
        0
    } else {
        x
    }
}

/// A count or an amount, held at the upper bound of `u64` if it exceeds it.
pub open spec fn capped(n: int) -> u64 {
    if n > u64::MAX {
        u64::MAX
    } else if n < 0 {
        0
    } else {
        n as u64
    }
}

/// A count, held at the upper bound of `u32` if it exceeds it.
pub open spec fn capped_u32(n: int) -> u32 {
    if n > u32::MAX {
        u32::MAX
    } else if n < 0 {
        0
    } else {
        n as u32
    }
}

/// Saturating multiplication.
pub fn saturating_mul_u64(a: u64, b: u64) -> (r: u64)
    ensures
        r == capped(a * b),
{
    assert(a * b <= u64::MAX * u64::MAX) by (nonlinear_arith)
        requires
            0 <= a <= u64::MAX,
            0 <= b <= u64::MAX,
    ;
    let wide: u128 = (a as u128) * (b as u128);
    if wide > u64::MAX as u128 {
        u64::MAX
    } else {
        wide as u64
    }
}

/// The sum of what `f` gives for the first `n` items.
pub open spec fn total<T>(s: Seq<T>, f: spec_fn(T) -> nat, n: nat) -> nat
    decreases n,
{
    if n == 0 {
        0
    } else {
        total(s, f, (n - 1) as nat) + f(s[n - 1])
    }
}

/// Adding to a capped sum: the cap of the whole is the saturating sum of
/// the caps.
pub proof fn capped_sum(a: nat, b: nat)
    ensures
        capped(capped(a as int) + capped(b as int)) == capped((a + b) as int),
        capped_u32(capped_u32(a as int) + capped_u32(b as int)) == capped_u32((a + b) as int),
{
}

} // verus!
