//! RGB8 colors with intensity scaling and linear blending.

use vstd::prelude::*;

use crate::fx::{fx_add, fx_add_s, fx_clamp, fx_clamp_s, fx_mul, fx_mul_s, fx_sub, fx_sub_s};

verus! {

/// A color with three 8-bit channels.
#[derive(Clone, Copy, PartialEq, Eq, Structural, Debug)]
pub struct Color {
    pub r: u8,
    pub g: u8,
    pub b: u8,
}

/// A channel scaled by a fixed-point intensity, clamped into `[0, 255]`.
pub open spec fn spec_channel_scale(c: int, t: int) -> int {
    fx_clamp_s(fx_mul_s(c, t), 0, 255)
}

/// A channel moved toward `o` by the fixed-point factor `t`, clamped into
/// `[0, 255]`.
pub open spec fn spec_channel_lerp(c: int, o: int, t: int) -> int {
    fx_clamp_s(fx_add_s(c, fx_mul_s(fx_sub_s(o, c), t)), 0, 255)
}

/// The packed 32-bit `0x00RRGGBB` form of a color.
pub open spec fn spec_color_hex(c: Color) -> int {
    (c.r as int) * 0x10000 + (c.g as int) * 0x100 + (c.b as int)
}

/// The color with every channel scaled by `t`.
pub open spec fn spec_color_scale(c: Color, t: int) -> Color {
    Color {
        r: spec_channel_scale(c.r as int, t) as u8,
        g: spec_channel_scale(c.g as int, t) as u8,
        b: spec_channel_scale(c.b as int, t) as u8,
    }
}

/// The color with every channel blended toward `o` by `t`.
pub open spec fn spec_color_lerp(c: Color, o: Color, t: int) -> Color {
    Color {
        r: spec_channel_lerp(c.r as int, o.r as int, t) as u8,
        g: spec_channel_lerp(c.g as int, o.g as int, t) as u8,
        b: spec_channel_lerp(c.b as int, o.b as int, t) as u8,
    }
}

fn channel_scale(c: u8, t: i64) -> (r: u8)
    ensures
        r == spec_channel_scale(c as int, t as int),
{
    fx_clamp(fx_mul(c as i64, t), 0, 255) as u8
}

fn channel_lerp(c: u8, o: u8, t: i64) -> (r: u8)
    ensures
        r == spec_channel_lerp(c as int, o as int, t as int),
{
    let delta = fx_sub(o as i64, c as i64);
    let step = fx_mul(delta, t);
    let moved = fx_add(c as i64, step);
    fx_clamp(moved, 0, 255) as u8
}

impl Color {
    /// Builds a color from its channels.
    pub fn new(r: u8, g: u8, b: u8) -> (c: Color)
        ensures
            c == (Color { r, g, b }),
    {
        Color { r, g, b }
    }

    /// The red channel.
    pub fn get_red(&self) -> (r: u8)
        ensures
            r == self.r,
    {
        self.r
    }

    /// The green channel.
    pub fn get_green(&self) -> (r: u8)
        ensures
            r == self.g,
    {
        self.g
    }

    /// The blue channel.
    pub fn get_blue(&self) -> (r: u8)
        ensures
            r == self.b,
    {
        self.b
    }

    /// Packs the channels into `0x00RRGGBB`.
    pub fn to_hex(&self) -> (r: u32)
        ensures
            r == spec_color_hex(*self),
    {
        (self.r as u32) * 0x10000 + (self.g as u32) * 0x100 + (self.b as u32)
    }

    /// Scales each channel by a fixed-point intensity, clamping into the
    /// channel range.
    pub fn scale(&self, t: i64) -> (c: Color)
        ensures
            c == spec_color_scale(*self, t as int),
            c.r == spec_channel_scale(self.r as int, t as int),
            c.g == spec_channel_scale(self.g as int, t as int),
            c.b == spec_channel_scale(self.b as int, t as int),
    {
        Color {
            r: channel_scale(self.r, t),
            g: channel_scale(self.g, t),
            b: channel_scale(self.b, t),
        }
    }

    /// Blends each channel linearly toward `other` by the fixed-point
    /// factor `t`.
    pub fn lerp(&self, other: &Color, t: i64) -> (c: Color)
        ensures
            c == spec_color_lerp(*self, *other, t as int),
            c.r == spec_channel_lerp(self.r as int, other.r as int, t as int),
            c.g == spec_channel_lerp(self.g as int, other.g as int, t as int),
            c.b == spec_channel_lerp(self.b as int, other.b as int, t as int),
    {
        Color {
            r: channel_lerp(self.r, other.r, t),
            g: channel_lerp(self.g, other.g, t),
            b: channel_lerp(self.b, other.b, t),
        }
    }
}

} // verus!
