//! Fixed-point RGBA colors and the closed set of time-varying color
//! functions that choreography can install for the foreground and background.

use crate::fx::{
    fx_add, fx_mul, fx_sin, spec_fx_add, spec_fx_lerp, spec_fx_mul, spec_sin, Fx, FX_ONE,
};
use vstd::prelude::*;

verus! {

/// An RGBA color; channels are fixed-point values where `FX_ONE` is full.
#[derive(Clone, Copy, PartialEq, Eq, Structural, Debug)]
pub struct Color {
    pub r: Fx,
    pub g: Fx,
    pub b: Fx,
    pub a: Fx,
}

impl Color {
    /// Build a color from its channels.
    pub fn new(r: Fx, g: Fx, b: Fx, a: Fx) -> (c: Color)
        ensures
            c.r == r && c.g == g && c.b == b && c.a == a,
    {
        Color { r, g, b, a }
    }
}

/// Blend `c1` toward `c2` channelwise by factor `by`.
pub fn mix(c1: Color, c2: Color, by: Fx) -> (c: Color)
    ensures
        c.r == spec_fx_lerp(c1.r as int, c2.r as int, by as int),
        c.g == spec_fx_lerp(c1.g as int, c2.g as int, by as int),
        c.b == spec_fx_lerp(c1.b as int, c2.b as int, by as int),
        c.a == spec_fx_lerp(c1.a as int, c2.a as int, by as int),
{
    Color {
        r: crate::fx::fx_lerp(c1.r, c2.r, by),
        g: crate::fx::fx_lerp(c1.g, c2.g, by),
        b: crate::fx::fx_lerp(c1.b, c2.b, by),
        a: crate::fx::fx_lerp(c1.a, c2.a, by),
    }
}

/// Scale the color channels by `val`, leaving alpha unchanged.
pub fn cmul(clr: Color, val: Fx) -> (c: Color)
    ensures
        c.r == spec_fx_mul(clr.r as int, val as int),
        c.g == spec_fx_mul(clr.g as int, val as int),
        c.b == spec_fx_mul(clr.b as int, val as int),
        c.a == clr.a,
{
    Color { r: fx_mul(clr.r, val), g: fx_mul(clr.g, val), b: fx_mul(clr.b, val), a: clr.a }
}

/// Scale only the alpha channel by `val`.
pub fn acmul(clr: Color, val: Fx) -> (c: Color)
    ensures
        c.r == clr.r && c.g == clr.g && c.b == clr.b,
        c.a == spec_fx_mul(clr.a as int, val as int),
{
    Color { r: clr.r, g: clr.g, b: clr.b, a: fx_mul(clr.a, val) }
}

/// One hue-wheel channel: a sine a third of a turn apart, shifted into
/// `[0, FX_ONE]`.
pub open spec fn spec_hue_ch(phase: int, off: int) -> int {
    spec_fx_add(spec_fx_mul(spec_sin(spec_fx_add(phase, off)), 500), 500)
}

fn hue_ch(phase: Fx, off: Fx) -> (r: Fx)
    ensures
        r == spec_hue_ch(phase as int, off as int),
{
    fx_add(fx_mul(fx_sin(fx_add(phase, off)), 500), 500)
}

/// A cycling rainbow color: three sines a third of a turn apart, full alpha.
pub fn gay(phase: Fx) -> (c: Color)
    ensures
        c.r == spec_hue_ch(phase as int, FX_ONE as int),
        c.g == spec_hue_ch(phase as int, 666),
        c.b == spec_hue_ch(phase as int, 333),
        c.a == FX_ONE,
{
    Color {
        r: hue_ch(phase, FX_ONE),
        g: hue_ch(phase, 666),
        b: hue_ch(phase, 333),
        a: FX_ONE,
    }
}

/// A time-varying color: the closed set of easings the engine offers to
/// choreography for foreground and background colors.
#[derive(Clone, Copy, PartialEq, Eq, Structural, Debug)]
pub enum ColorFn {
    /// A constant color.
    Flat(Color),
    /// The hue wheel evaluated at `t * rate + offset`.
    Rainbow { rate: Fx, offset: Fx },
    /// Blend between two colors by a sine of time shifted into `[0, FX_ONE]`.
    PulseMix { c1: Color, c2: Color, rate: Fx, offset: Fx },
    /// A color whose brightness breathes by a sine of time.
    Breathe { color: Color, rate: Fx, offset: Fx, amp: Fx, base: Fx },
}

/// The channels `(r, g, b, a)` of a color function evaluated at time `t`.
pub open spec fn spec_color_fn_eval(cf: ColorFn, t: int) -> (int, int, int, int) {
    match cf {
        ColorFn::Flat(c) => (c.r as int, c.g as int, c.b as int, c.a as int),
        ColorFn::Rainbow { rate, offset } => {
            let phase = spec_fx_add(spec_fx_mul(t, rate as int), offset as int);
            (
                spec_hue_ch(phase, FX_ONE as int),
                spec_hue_ch(phase, 666),
                spec_hue_ch(phase, 333),
                FX_ONE as int,
            )
        },
        ColorFn::PulseMix { c1, c2, rate, offset } => {
            let by = spec_fx_add(
                spec_fx_mul(spec_sin(spec_fx_add(spec_fx_mul(t, rate as int), offset as int)), 500),
                500,
            );
            (
                spec_fx_lerp(c1.r as int, c2.r as int, by),
                spec_fx_lerp(c1.g as int, c2.g as int, by),
                spec_fx_lerp(c1.b as int, c2.b as int, by),
                spec_fx_lerp(c1.a as int, c2.a as int, by),
            )
        },
        ColorFn::Breathe { color, rate, offset, amp, base } => {
            let v = spec_fx_add(
                spec_fx_mul(
                    spec_sin(spec_fx_add(spec_fx_mul(t, rate as int), offset as int)),
                    amp as int,
                ),
                base as int,
            );
            (
                spec_fx_mul(color.r as int, v),
                spec_fx_mul(color.g as int, v),
                spec_fx_mul(color.b as int, v),
                color.a as int,
            )
        },
    }
}

impl ColorFn {
    /// Evaluate the color function at time `t`.
    pub fn eval(&self, t: Fx) -> (c: Color)
        ensures
            (c.r as int, c.g as int, c.b as int, c.a as int) == spec_color_fn_eval(*self, t as int),
    {
        match *self {
            ColorFn::Flat(c) => c,
            ColorFn::Rainbow { rate, offset } => {
                let phase = fx_add(fx_mul(t, rate), offset);
                gay(phase)
            },
            ColorFn::PulseMix { c1, c2, rate, offset } => {
                let by = fx_add(fx_mul(fx_sin(fx_add(fx_mul(t, rate), offset)), 500), 500);
                mix(c1, c2, by)
            },
            ColorFn::Breathe { color, rate, offset, amp, base } => {
                let v = fx_add(fx_mul(fx_sin(fx_add(fx_mul(t, rate), offset)), amp), base);
                cmul(color, v)
            },
        }
    }
}

} // verus!
