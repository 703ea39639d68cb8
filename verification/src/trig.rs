//! Fixed-point trigonometry for the renderer, on angles in milli-degrees.
//!
//! Sine and cosine are computed with a rational half-wave approximation in
//! exact integer arithmetic, scaled by 1000. The approximation is exact at
//! every multiple of 90 degrees, which is what the arrow geometry's stated
//! properties rest on.

use vstd::prelude::*;
use vstd::arithmetic::div_mod::lemma_fundamental_div_mod;
use vstd::arithmetic::div_mod::lemma_fundamental_div_mod_converse_mod;
use vstd::arithmetic::div_mod::lemma_div_is_ordered;
use vstd::arithmetic::div_mod::lemma_div_multiples_vanish;
use vstd::arithmetic::div_mod::lemma_div_pos_is_pos;

verus! {

/// Milli-degrees in one full revolution.
pub const FULL_TURN_MILLI: u64 = 360000;

/// Milli-degrees in a half revolution.
pub const HALF_TURN_MILLI: u64 = 180000;

/// Milli-degrees in a quarter revolution.
pub const QUARTER_TURN_MILLI: u64 = 90000;

/// The rational half-wave: for `x` in `[0, 180000]` milli-degrees this is
/// sin(x) scaled by 1000, by the approximation
/// `4x(180 - x) / (40500 - x(180 - x))` on degrees, rewritten for
/// milli-degree inputs.
pub open spec fn spec_half_wave(x: int) -> int {
    4000 * x * (180000 - x) / (40500000000 - x * (180000 - x))
}

/// Sine of `a` milli-degrees, scaled by 1000: the half-wave on the first
/// half revolution, its negation on the second, periodic in a full turn.
pub open spec fn spec_sin_milli(a: int) -> int {
    let n = a % 360000;
    if n <= 180000 {
        spec_half_wave(n)
    } else {
        -spec_half_wave(n - 180000)
    }
}

/// Cosine of `a` milli-degrees, scaled by 1000: the sine a quarter turn
/// ahead.
pub open spec fn spec_cos_milli(a: int) -> int {
    spec_sin_milli(a + 90000)
}

/// The half-wave numerator term is largest in the middle of the wave.
proof fn lemma_half_wave_product_bound(x: int)
    requires
        0 <= x <= 180000,
    ensures
        0 <= x * (180000 - x) <= 8100000000,
{
    assert(0 <= x * (180000 - x) <= 8100000000) by (nonlinear_arith)
        requires
            0 <= x <= 180000,
    {
        assert((x - 90000) * (x - 90000) >= 0);
    }
}

/// The half-wave on `[0, 180000]` milli-degrees, scaled by 1000.
fn half_wave(x: u64) -> (r: i64)
    requires
        x <= 180000,
    ensures
        r == spec_half_wave(x as int),
        0 <= r <= 1000,
{
    proof {
        lemma_half_wave_product_bound(x as int);
    }
    let p = x * (180000 - x);
    let num = 4000 * p;
    let den = 40500000000 - p;
    let q = num / den;
    proof {
        assert(4000 * (x as int) * (180000 - x as int) == 4000 * ((x as int) * (180000
            - x as int))) by (nonlinear_arith);
        lemma_div_pos_is_pos(num as int, den as int);
        lemma_div_is_ordered(num as int, 1000 * den as int, den as int);
        lemma_div_multiples_vanish(1000, den as int);
    }
    q as i64
}

/// Sine of `a` milli-degrees, scaled by 1000. Exact at every multiple of
/// a quarter turn; always within `[-1000, 1000]`.
pub fn sin_milli(a: u64) -> (r: i64)
    ensures
        r == spec_sin_milli(a as int),
        -1000 <= r <= 1000,
{
    let n = a % FULL_TURN_MILLI;
    if n <= HALF_TURN_MILLI {
        half_wave(n)
    } else {
        -half_wave(n - HALF_TURN_MILLI)
    }
}

/// Cosine of `a` milli-degrees, scaled by 1000; the bound on `a` only
/// keeps the shift by a quarter turn inside `u64`.
pub fn cos_milli(a: u64) -> (r: i64)
    requires
        a <= 0xFFFF_FFFF,
    ensures
        r == spec_cos_milli(a as int),
        -1000 <= r <= 1000,
{
    sin_milli(a + QUARTER_TURN_MILLI)
}

/// Reduces any angle in milli-degrees to `[0, 360000)`, agreeing with the
/// mathematical (Euclidean) remainder also for negative angles.
pub fn norm_angle(a: i64) -> (r: u64)
    ensures
        r == a as int % 360000,
        r < 360000,
{
    if a >= 0 {
        (a as u64) % FULL_TURN_MILLI
    } else {
        // |a| without overflowing at the smallest i64
        let mag: u64 = ((-(a + 1)) as u64) + 1;
        let rem = mag % FULL_TURN_MILLI;
        proof {
            lemma_fundamental_div_mod(mag as int, 360000);
            if rem == 0 {
                lemma_fundamental_div_mod_converse_mod(
                    a as int,
                    360000,
                    -(mag as int / 360000),
                    0,
                );
            } else {
                lemma_fundamental_div_mod_converse_mod(
                    a as int,
                    360000,
                    -(mag as int / 360000) - 1,
                    360000 - rem as int,
                );
            }
        }
        if rem == 0 {
            0
        } else {
            FULL_TURN_MILLI - rem
        }
    }
}

} // verus!
