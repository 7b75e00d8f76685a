//! A deterministic one-dimensional value noise over fixed-point inputs:
//! a lattice of pseudo-random levels, linearly interpolated between lattice
//! points. It drives the procedural-path hazard's displacement.

use crate::fx::{spec_emod_turn, spec_fx_add, spec_fx_mul, spec_fx_sub, Fx, FX_ONE};
use vstd::math::abs;
use vstd::prelude::*;

verus! {

/// The lattice level at cell `c`: a bit-mixed hash folded into
/// `[-FX_ONE, FX_ONE]`.
pub open spec fn spec_lattice(c: int) -> int {
    (abs(c) * 2654435761 + 12345) % 2001 - 1000
}

fn lattice(c: i64) -> (r: Fx)
    ensures
        r == spec_lattice(c as int),
        -FX_ONE <= r <= FX_ONE,
{
    let m: u128 = if c >= 0 {
        c as u128
    } else if c == i64::MIN {
        9223372036854775808u128
    } else {
        (-c) as u128
    };
    proof {
        assert(m == abs(c as int));
    }
    let h: u128 = (m * 2654435761 + 12345) % 2001;
    proof {
        vstd::arithmetic::div_mod::lemma_mod_bound(
            (m * 2654435761 + 12345) as int, 2001,
        );
    }
    (h as i64) - 1000
}

/// Value noise at `t`: the two neighboring lattice levels, interpolated by
/// the fractional position of `t` inside its cell.
pub open spec fn spec_noise(t: int) -> int {
    let f = spec_emod_turn(t);
    let c = t - f;
    let a = spec_lattice(c);
    let b = spec_lattice(c + FX_ONE);
    spec_fx_add(a, spec_fx_mul(spec_fx_sub(b, a), f))
}

/// Value noise at `t`, in `[-FX_MAX, FX_MAX]` and built from levels in
/// `[-FX_ONE, FX_ONE]`.
pub fn noise(t: Fx) -> (r: Fx)
    requires
        crate::fx::fx_wf(t as int),
    ensures
        r == spec_noise(t as int),
{
    let f = crate::fx::emod_turn(t);
    let c = t - f;
    let a = lattice(c);
    let b = lattice(c + FX_ONE);
    crate::fx::fx_add(a, crate::fx::fx_mul(crate::fx::fx_sub(b, a), f))
}

} // verus!
