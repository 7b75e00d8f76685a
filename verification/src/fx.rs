//! Fixed-point scalar arithmetic for the engine.
//!
//! Every quantity in the engine (positions, radii, beat-times, speeds) is a
//! count of thousandths held in an `i64`. Well-formed values are clamped to
//! `[-FX_MAX, FX_MAX]`; the saturating operations below keep them there, so
//! timer and motion arithmetic is total.

use vstd::math::abs;
use vstd::prelude::*;

verus! {

/// Fixed-point scalar: an `i64` counting thousandths of a unit.
pub type Fx = i64;

/// One unit (1.0) in fixed-point thousandths.
pub const FX_ONE: i64 = 1000;

/// Magnitude bound for well-formed fixed-point values (2^56 thousandths).
pub const FX_MAX: i64 = 0x100_0000_0000_0000;

/// A fixed-point value is well-formed when its magnitude is at most `FX_MAX`.
pub open spec fn fx_wf(a: int) -> bool {
    -FX_MAX <= a <= FX_MAX
}

/// Clamp an integer into the well-formed fixed-point range.
pub open spec fn clip(a: int) -> int {
    if a > FX_MAX {
        FX_MAX as int
    } else if a < -FX_MAX {
        -FX_MAX as int
    } else {
        a
    }
}

/// Division truncated toward zero (the behavior of `/` on hardware integers).
pub open spec fn tdiv(a: int, b: int) -> int
    recommends
        b != 0,
{
    let q = (abs(a) / abs(b)) as int;
    if (a >= 0) == (b >= 0) {
        q
    } else {
        -q
    }
}

/// Saturating fixed-point addition.
pub open spec fn spec_fx_add(a: int, b: int) -> int {
    clip(a + b)
}

/// Saturating fixed-point subtraction.
pub open spec fn spec_fx_sub(a: int, b: int) -> int {
    clip(a - b)
}

/// Saturating fixed-point multiplication: truncated `a * b / FX_ONE`.
pub open spec fn spec_fx_mul(a: int, b: int) -> int {
    clip(tdiv(a * b, FX_ONE as int))
}

/// Saturating fixed-point division: truncated `a * FX_ONE / b`.
pub open spec fn spec_fx_div(a: int, b: int) -> int
    recommends
        b != 0,
{
    clip(tdiv(a * FX_ONE, b))
}

/// Clamp an `i128` intermediate into the well-formed `i64` range.
fn clip_exec(a: i128) -> (r: i64)
    ensures
        r == clip(a as int),
{
    if a > FX_MAX as i128 {
        FX_MAX
    } else if a < -FX_MAX as i128 {
        -FX_MAX
    } else {
        a as i64
    }
}

/// Saturating fixed-point addition.
pub fn fx_add(a: Fx, b: Fx) -> (r: Fx)
    ensures
        r == spec_fx_add(a as int, b as int),
        fx_wf(r as int),
{
    clip_exec(a as i128 + b as i128)
}

/// Saturating fixed-point subtraction.
pub fn fx_sub(a: Fx, b: Fx) -> (r: Fx)
    ensures
        r == spec_fx_sub(a as int, b as int),
        fx_wf(r as int),
{
    clip_exec(a as i128 - b as i128)
}

/// Magnitude of an `i128` whose magnitude stays below `2^127`, as a `u128`.
fn mag_exec(a: i128) -> (r: u128)
    requires
        a != i128::MIN,
    ensures
        r == abs(a as int),
{
    if a >= 0 {
        a as u128
    } else {
        (-a) as u128
    }
}

/// Saturating fixed-point multiplication.
pub fn fx_mul(a: Fx, b: Fx) -> (r: Fx)
    ensures
        r == spec_fx_mul(a as int, b as int),
        fx_wf(r as int),
{
    proof {
        lemma_i64_product_bound(a as int, b as int);
    }
    let p: i128 = a as i128 * b as i128;
    let q: u128 = mag_exec(p) / (FX_ONE as u128);
    let signed: i128 = if (a < 0) == (b < 0) {
        q as i128
    } else {
        -(q as i128)
    };
    assert(signed == tdiv(a as int * b as int, FX_ONE as int)) by {
        lemma_tdiv_shape(a as int, b as int, p as int, q as int);
    };
    clip_exec(signed)
}

/// Saturating fixed-point division, truncated toward zero.
pub fn fx_div(a: Fx, b: Fx) -> (r: Fx)
    requires
        b != 0,
    ensures
        r == spec_fx_div(a as int, b as int),
        fx_wf(r as int),
{
    let n: i128 = a as i128 * 1000;
    let nm: u128 = mag_exec(n);
    let dm: u128 = mag_exec(b as i128);
    let q: u128 = nm / dm;
    proof {
        vstd::arithmetic::div_mod::lemma_div_nonincreasing(nm as int, dm as int);
    }
    let signed: i128 = if (a < 0) == (b < 0) {
        q as i128
    } else {
        -(q as i128)
    };
    clip_exec(signed)
}

/// Linear interpolation from `a` to `b` by fixed-point factor `t`.
pub open spec fn spec_fx_lerp(a: int, b: int, t: int) -> int {
    spec_fx_add(a, spec_fx_mul(spec_fx_sub(b, a), t))
}

/// Linear interpolation from `a` to `b` by fixed-point factor `t`.
pub fn fx_lerp(a: Fx, b: Fx, t: Fx) -> (r: Fx)
    ensures
        r == spec_fx_lerp(a as int, b as int, t as int),
        fx_wf(r as int),
{
    fx_add(a, fx_mul(fx_sub(b, a), t))
}

/// Euclidean remainder of a value by one full turn (`FX_ONE`).
pub open spec fn spec_emod_turn(a: int) -> int {
    a % (FX_ONE as int)
}

/// Euclidean remainder of a value by one full turn: always in `[0, FX_ONE)`.
pub fn emod_turn(a: Fx) -> (r: Fx)
    ensures
        r == spec_emod_turn(a as int),
        0 <= r < FX_ONE,
{
    let m: u128 = mag_exec(a as i128);
    let rm: u128 = m % (FX_ONE as u128);
    if a >= 0 {
        rm as i64
    } else if rm == 0 {
        proof {
            let k = m as int;
            vstd::arithmetic::div_mod::lemma_fundamental_div_mod(k, FX_ONE as int);
            vstd::arithmetic::div_mod::lemma_fundamental_div_mod_converse(
                a as int,
                FX_ONE as int,
                -(k / (FX_ONE as int)),
                0,
            );
        }
        0
    } else {
        proof {
            let k = m as int;
            vstd::arithmetic::div_mod::lemma_fundamental_div_mod(k, FX_ONE as int);
            vstd::arithmetic::div_mod::lemma_fundamental_div_mod_converse(
                a as int,
                FX_ONE as int,
                -(k / (FX_ONE as int)) - 1,
                FX_ONE as int - (k % (FX_ONE as int)),
            );
        }
        FX_ONE - rm as i64
    }
}

/// Half a turn and a quarter turn, in fixed-point turn units.
pub const FX_HALF_TURN: i64 = 500;

/// A quarter turn in fixed-point turn units.
pub const FX_QUARTER_TURN: i64 = 250;

/// Rational sine approximation on half a turn: exact at 0, a quarter turn
/// (returns `FX_ONE`) and half a turn.
pub open spec fn spec_sin_half(x: int) -> int {
    let g = x * (FX_HALF_TURN - x);
    (16 * FX_ONE * g) / (5 * FX_HALF_TURN * FX_HALF_TURN - 4 * g)
}

/// Sine of an angle measured in fixed-point turns (`FX_ONE` is a full turn).
pub open spec fn spec_sin(a: int) -> int {
    let m = spec_emod_turn(a);
    if m < FX_HALF_TURN {
        spec_sin_half(m)
    } else {
        -spec_sin_half(m - FX_HALF_TURN)
    }
}

/// Cosine of an angle measured in fixed-point turns.
pub open spec fn spec_cos(a: int) -> int {
    spec_sin(a + FX_QUARTER_TURN)
}

fn sin_half_exec(x: i64) -> (r: i64)
    requires
        0 <= x <= FX_HALF_TURN,
    ensures
        r == spec_sin_half(x as int),
        0 <= r <= FX_ONE,
{
    proof {
        assert(0 <= x * (500 - x) <= 62500) by (nonlinear_arith)
            requires
                0 <= x <= 500,
        ;
    }
    let g: i64 = x * (FX_HALF_TURN - x);
    let num: u64 = (16 * FX_ONE * g) as u64;
    let den: u64 = (5 * FX_HALF_TURN * FX_HALF_TURN - 4 * g) as u64;
    let q: u64 = num / den;
    proof {
        assert(num <= 1000 * den);
        vstd::arithmetic::div_mod::lemma_multiply_divide_le(num as int, den as int, 1000);
    }
    q as i64
}

/// Sine of an angle measured in fixed-point turns.
pub fn fx_sin(a: Fx) -> (r: Fx)
    ensures
        r == spec_sin(a as int),
        -FX_ONE <= r <= FX_ONE,
{
    let m = emod_turn(a);
    if m < FX_HALF_TURN {
        sin_half_exec(m)
    } else {
        -sin_half_exec(m - FX_HALF_TURN)
    }
}

/// Cosine of an angle measured in fixed-point turns.
pub fn fx_cos(a: Fx) -> (r: Fx)
    requires
        fx_wf(a as int),
    ensures
        r == spec_cos(a as int),
        -FX_ONE <= r <= FX_ONE,
{
    let m = emod_turn(a);
    proof {
        let a1 = a as int;
        vstd::arithmetic::div_mod::lemma_add_mod_noop(a1, 250, 1000);
        vstd::arithmetic::div_mod::lemma_mod_twice(a1, 1000);
        vstd::arithmetic::div_mod::lemma_small_mod(250, 1000);
        assert((m + 250int) % 1000int == ((a1 % 1000int) % 1000int + 250int % 1000int) % 1000int);
        assert((m + 250int) % 1000int == (a1 + 250int) % 1000int);
        assert(spec_emod_turn(m as int + 250) == spec_emod_turn(a1 + 250));
        assert(spec_sin(m as int + 250) == spec_sin(a1 + 250));
    }
    fx_sin(m + FX_QUARTER_TURN)
}

/// Largest `r` with `r * r <= n`, for `n` up to `2^116`.
pub fn isqrt(n: u128) -> (r: u64)
    requires
        n < 0x10_0000_0000_0000_0000_0000_0000_0000,
    ensures
        r * r <= n < (r + 1) * (r + 1),
{
    let mut lo: u64 = 0;
    let mut hi: u64 = 0x400_0000_0000_0000;
    proof {
        assert((0x400_0000_0000_0001 as int) * 0x400_0000_0000_0001
            > 0x10_0000_0000_0000_0000_0000_0000_0000int) by (nonlinear_arith);
    }
    while lo < hi
        invariant
            lo <= hi <= 0x400_0000_0000_0000,
            (lo as int) * (lo as int) <= n,
            n < (hi as int + 1) * (hi as int + 1),
        decreases hi - lo,
    {
        let mid: u64 = lo + (hi - lo + 1) / 2;
        assert(lo < mid <= hi);
        proof {
            assert((mid as int) * (mid as int) < 0x8000_0000_0000_0000_0000_0000_0000_0000)
                by (nonlinear_arith)
                requires
                    mid <= 0x400_0000_0000_0000u64,
            ;
        }
        let sq: u128 = mid as u128 * mid as u128;
        if sq <= n {
            lo = mid;
        } else {
            proof {
                assert((mid as int - 1 + 1) * (mid as int - 1 + 1) == (mid as int) * (
                mid as int)) by (nonlinear_arith);
            }
            hi = mid - 1;
        }
    }
    lo
}

/// The fixed-point product of nonnegative values is nonnegative.
pub proof fn lemma_fx_mul_nonneg(a: int, b: int)
    requires
        a >= 0,
        b >= 0,
    ensures
        spec_fx_mul(a, b) >= 0,
{
    lemma_mul_sign(a, b);
}

/// The fixed-point quotient of a nonnegative value by a positive one is
/// nonnegative.
pub proof fn lemma_fx_div_nonneg(a: int, b: int)
    requires
        a >= 0,
        b > 0,
    ensures
        spec_fx_div(a, b) >= 0,
{
}

proof fn lemma_i64_product_bound(a: int, b: int) by (nonlinear_arith)
    requires
        -0x8000_0000_0000_0000 <= a <= 0x7fff_ffff_ffff_ffff,
        -0x8000_0000_0000_0000 <= b <= 0x7fff_ffff_ffff_ffff,
    ensures
        -0x4000_0000_0000_0000_0000_0000_0000_0000 <= a * b
            <= 0x4000_0000_0000_0000_0000_0000_0000_0000,
{
}

proof fn lemma_tdiv_shape(a: int, b: int, p: int, q: int)
    requires
        p == a * b,
        q == abs(p) / (FX_ONE as nat),
    ensures
        ((a < 0) == (b < 0) ==> q == tdiv(a * b, FX_ONE as int)),
        ((a < 0) != (b < 0) ==> -q == tdiv(a * b, FX_ONE as int)),
{
    lemma_mul_sign(a, b);
    if p == 0 {
        assert(abs(p) / (FX_ONE as nat) == 0);
    }
}

proof fn lemma_mul_sign(a: int, b: int) by (nonlinear_arith)
    ensures
        (a >= 0 && b >= 0) ==> a * b >= 0,
        (a < 0 && b < 0) ==> a * b > 0,
        ((a >= 0) != (b >= 0)) ==> a * b <= 0,
{
}

} // verus!
