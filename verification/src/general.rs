//! Shared rendering types: errors, colors, materials, lights.

use vstd::prelude::*;
use crate::fixed::{fx_add_s, fx_mul_s, fx_div_s, fx_add, fx_mul, fx_div, sqrt_floor,
    lemma_sqrt_floor, SCALE};
use crate::vector::Vector3;

verus! {

/// Construction-time failures.  Once rendering begins, per-pixel work never
/// fails: every shading path has a defined fallback instead.
#[derive(Clone, Copy, Debug, PartialEq, Eq, Structural)]
pub enum RayError {
    /// A vector whose length sits inside the zero band cannot be normalized.
    DegenerateVector,
    /// A transform matrix whose determinant sits inside the zero band has
    /// no inverse.
    NonInvertibleTransform,
    /// A transform description that does not follow the mini-language.
    BadTransform,
    /// Too few input files for an operation that needs a pair.
    NotEnoughInputs,
}

/// Linear RGB color; each channel is a raw fixed-point value, one whole
/// unit per full channel.
#[derive(Clone, Copy, Debug, PartialEq, Eq, Structural)]
pub struct Color {
    pub r: i64,
    pub g: i64,
    pub b: i64,
}

/// Channel value of the gamma-2 encoding: the square root of the channel
/// clamped to [0, 1], widened to a byte.
pub open spec fn gamma_byte_s(c: int) -> int {
    let clamped = if c < 0 {
        0
    } else if c > SCALE {
        SCALE as int
    } else {
        c
    };
    let root = sqrt_floor(clamped * SCALE);
    let wide = (root * 256) / (SCALE as int);
    if wide > 255 {
        255
    } else {
        wide
    }
}

impl Color {
    pub open spec fn add_s(self, o: Color) -> Color {
        Color {
            r: fx_add_s(self.r as int, o.r as int) as i64,
            g: fx_add_s(self.g as int, o.g as int) as i64,
            b: fx_add_s(self.b as int, o.b as int) as i64,
        }
    }

    pub open spec fn scale_s(self, c: int) -> Color {
        Color {
            r: fx_mul_s(self.r as int, c) as i64,
            g: fx_mul_s(self.g as int, c) as i64,
            b: fx_mul_s(self.b as int, c) as i64,
        }
    }

    pub open spec fn to_rgb8_s(self) -> [u8; 3] {
        [
            gamma_byte_s(self.r as int) as u8,
            gamma_byte_s(self.g as int) as u8,
            gamma_byte_s(self.b as int) as u8,
        ]
    }

    pub fn new(r: i64, g: i64, b: i64) -> (c: Color)
        ensures
            c == (Color { r, g, b }),
    {
        Color { r, g, b }
    }

    pub fn black() -> (c: Color)
        ensures
            c == (Color { r: 0i64, g: 0i64, b: 0i64 }),
    {
        Color { r: 0, g: 0, b: 0 }
    }

    /// Channel-wise sum of two colors.
    pub fn add(self, o: Color) -> (c: Color)
        ensures
            c == self.add_s(o),
    {
        Color { r: fx_add(self.r, o.r), g: fx_add(self.g, o.g), b: fx_add(self.b, o.b) }
    }

    /// Each channel scaled by a fixed-point factor.
    pub fn scale(self, c: i64) -> (o: Color)
        ensures
            o == self.scale_s(c as int),
    {
        Color { r: fx_mul(self.r, c), g: fx_mul(self.g, c), b: fx_mul(self.b, c) }
    }

    /// Gamma-2 encoding to one byte per channel: square root of the
    /// clamped linear value.
    pub fn to_rgb8(self) -> (o: [u8; 3])
        ensures
            o == self.to_rgb8_s(),
    {
        [gamma_byte(self.r), gamma_byte(self.g), gamma_byte(self.b)]
    }
}

pub fn gamma_byte(c: i64) -> (o: u8)
    ensures
        o as int == gamma_byte_s(c as int),
{
    let clamped: i64 = if c < 0 {
        0
    } else if c > SCALE {
        SCALE
    } else {
        c
    };
    let root = crate::fixed::fx_sqrt(clamped);
    proof {
        if clamped > 0 {
            lemma_sqrt_floor(clamped * (SCALE as int));
            assert(sqrt_floor(clamped * (SCALE as int)) <= SCALE as int) by (nonlinear_arith)
                requires
                    sqrt_floor(clamped * (SCALE as int)) >= 0,
                    sqrt_floor(clamped * (SCALE as int)) * sqrt_floor(clamped * (SCALE as int))
                        <= clamped * (SCALE as int),
                    clamped <= SCALE,
                    SCALE == 1_000_000,
            {}
        }
    }
    let wide: i64 = (root * 256) / SCALE;
    if wide > 255 {
        255
    } else {
        wide as u8
    }
}

/// Surface appearance: base color and a Blinn-style specular exponent.
#[derive(Clone, Copy, Debug, PartialEq, Eq, Structural)]
pub struct Material {
    pub color: Color,
    pub shininess: i32,
}

impl Default for Material {
    /// The material applied when an object omits one: mid-grey, no
    /// specular highlight.
    fn default() -> (m: Material)
        ensures
            m.color.r == SCALE / 2,
            m.color.g == SCALE / 2,
            m.color.b == SCALE / 2,
            m.shininess == 0,
    {
        Material { color: Color { r: SCALE / 2, g: SCALE / 2, b: SCALE / 2 }, shininess: 0 }
    }
}

/// Point light source.
#[derive(Clone, Copy, Debug, PartialEq, Eq, Structural)]
pub struct Light {
    pub position: Vector3,
    pub color: Color,
    pub intensity: i64,
}

/// Raw value of `base` raised to a nonnegative integer power.
pub open spec fn fx_powi_s(base: int, e: nat) -> int
    decreases e,
{
    if e == 0 {
        SCALE as int
    } else {
        fx_mul_s(fx_powi_s(base, (e - 1) as nat), base)
    }
}

/// Raw value of `base` raised to any integer power: a negative exponent
/// inverts the positive power, as the float `powi` does.
pub open spec fn powi_full_s(base: int, e: int) -> int {
    if e >= 0 {
        fx_powi_s(base, e as nat)
    } else {
        fx_div_s(SCALE as int, fx_powi_s(base, (-e) as nat))
    }
}

/// Fixed-point integer power; a negative exponent inverts the positive
/// power, as the float `powi` does.
pub fn fx_powi(base: i64, e: i32) -> (r: i64)
    ensures
        r as int == powi_full_s(base as int, e as int),
{
    let m: u32 = if e < 0 {
        if e == i32::MIN {
            0x8000_0000u32
        } else {
            (-e) as u32
        }
    } else {
        e as u32
    };
    let mut acc: i64 = SCALE;
    let mut i: u32 = 0;
    while i < m
        invariant
            i <= m,
            acc as int == fx_powi_s(base as int, i as nat),
        decreases m - i,
    {
        acc = fx_mul(acc, base);
        i = i + 1;
    }
    if e < 0 {
        fx_div(SCALE, acc)
    } else {
        acc
    }
}

} // verus!
