//! 4x4 fixed-point matrices for object transforms.
//!
//! Supports multiplication, transposition, determinant by minor
//! expansion, and inversion by the adjugate over the determinant.
//! Each contract states the exact raw entries produced.

use vstd::prelude::*;
use crate::fixed::{fx_add_s, fx_sub_s, fx_mul_s, fx_div_s, sat64, iabs,
    fx_add, fx_sub, fx_mul, fx_div, fx_neg, SCALE, EPSILON};
use crate::vector::Vector4;
use crate::trig::{sin_s, cos_s, sin_fx, cos_fx};

verus! {

#[derive(Clone, Copy, Debug, PartialEq, Eq, Structural)]
pub struct SquareMatrix4 {
    pub m00: i64,
    pub m01: i64,
    pub m02: i64,
    pub m03: i64,
    pub m10: i64,
    pub m11: i64,
    pub m12: i64,
    pub m13: i64,
    pub m20: i64,
    pub m21: i64,
    pub m22: i64,
    pub m23: i64,
    pub m30: i64,
    pub m31: i64,
    pub m32: i64,
    pub m33: i64,
}

/// 2x2 determinant `a d - b c`.
pub open spec fn det2_s(a: int, b: int, c: int, d: int) -> int {
    fx_sub_s(fx_mul_s(a, d), fx_mul_s(b, c))
}

/// 3x3 determinant by expansion along the top row.
pub open spec fn det3_s(
    a: int, b: int, c: int,
    d: int, e: int, f: int,
    g: int, h: int, i: int,
) -> int {
    fx_add_s(
        fx_sub_s(fx_mul_s(a, det2_s(e, f, h, i)), fx_mul_s(b, det2_s(d, f, g, i))),
        fx_mul_s(c, det2_s(d, e, g, h)),
    )
}

/// 2x2 determinant.
pub fn det2(a: i64, b: i64, c: i64, d: i64) -> (r: i64)
    ensures
        r as int == det2_s(a as int, b as int, c as int, d as int),
{
    fx_sub(fx_mul(a, d), fx_mul(b, c))
}

/// 3x3 determinant by expansion along the top row.
pub fn det3(
    a: i64, b: i64, c: i64,
    d: i64, e: i64, f: i64,
    g: i64, h: i64, i: i64,
) -> (r: i64)
    ensures
        r as int == det3_s(a as int, b as int, c as int, d as int, e as int, f as int,
            g as int, h as int, i as int),
{
    fx_add(
        fx_sub(fx_mul(a, det2(e, f, h, i)), fx_mul(b, det2(d, f, g, i))),
        fx_mul(c, det2(d, e, g, h)),
    )
}

impl SquareMatrix4 {
    /// Determinant by minor expansion along the top row.
    pub open spec fn determinant_s(self) -> int {
        let a = self.m00 as int;
        let b = self.m01 as int;
        let c = self.m02 as int;
        let d = self.m03 as int;
        let e = self.m10 as int;
        let f = self.m11 as int;
        let g = self.m12 as int;
        let h = self.m13 as int;
        let i = self.m20 as int;
        let j = self.m21 as int;
        let k = self.m22 as int;
        let l = self.m23 as int;
        let mm = self.m30 as int;
        let n = self.m31 as int;
        let o = self.m32 as int;
        let p = self.m33 as int;
        fx_sub_s(
            fx_add_s(
                fx_sub_s(fx_mul_s(a, det3_s(f, g, h, j, k, l, n, o, p)), fx_mul_s(b, det3_s(e, g, h, i, k, l, mm, o, p))),
                fx_mul_s(c, det3_s(e, f, h, i, j, l, mm, n, p)),
            ),
            fx_mul_s(d, det3_s(e, f, g, i, j, k, mm, n, o)),
        )
    }

    /// Rows exchanged with columns.
    pub open spec fn transposed_s(self) -> SquareMatrix4 {
        SquareMatrix4 {
            m00: self.m00,
            m01: self.m10,
            m02: self.m20,
            m03: self.m30,
            m10: self.m01,
            m11: self.m11,
            m12: self.m21,
            m13: self.m31,
            m20: self.m02,
            m21: self.m12,
            m22: self.m22,
            m23: self.m32,
            m30: self.m03,
            m31: self.m13,
            m32: self.m23,
            m33: self.m33,
        }
    }

    /// Matrix product, each entry a row-by-column dot product.
    pub open spec fn mul_s(self, o: SquareMatrix4) -> SquareMatrix4 {
        SquareMatrix4 {
            m00: fx_add_s(fx_add_s(fx_add_s(fx_mul_s(self.m00 as int, o.m00 as int), fx_mul_s(self.m01 as int, o.m10 as int)), fx_mul_s(self.m02 as int, o.m20 as int)), fx_mul_s(self.m03 as int, o.m30 as int)) as i64,
            m01: fx_add_s(fx_add_s(fx_add_s(fx_mul_s(self.m00 as int, o.m01 as int), fx_mul_s(self.m01 as int, o.m11 as int)), fx_mul_s(self.m02 as int, o.m21 as int)), fx_mul_s(self.m03 as int, o.m31 as int)) as i64,
            m02: fx_add_s(fx_add_s(fx_add_s(fx_mul_s(self.m00 as int, o.m02 as int), fx_mul_s(self.m01 as int, o.m12 as int)), fx_mul_s(self.m02 as int, o.m22 as int)), fx_mul_s(self.m03 as int, o.m32 as int)) as i64,
            m03: fx_add_s(fx_add_s(fx_add_s(fx_mul_s(self.m00 as int, o.m03 as int), fx_mul_s(self.m01 as int, o.m13 as int)), fx_mul_s(self.m02 as int, o.m23 as int)), fx_mul_s(self.m03 as int, o.m33 as int)) as i64,
            m10: fx_add_s(fx_add_s(fx_add_s(fx_mul_s(self.m10 as int, o.m00 as int), fx_mul_s(self.m11 as int, o.m10 as int)), fx_mul_s(self.m12 as int, o.m20 as int)), fx_mul_s(self.m13 as int, o.m30 as int)) as i64,
            m11: fx_add_s(fx_add_s(fx_add_s(fx_mul_s(self.m10 as int, o.m01 as int), fx_mul_s(self.m11 as int, o.m11 as int)), fx_mul_s(self.m12 as int, o.m21 as int)), fx_mul_s(self.m13 as int, o.m31 as int)) as i64,
            m12: fx_add_s(fx_add_s(fx_add_s(fx_mul_s(self.m10 as int, o.m02 as int), fx_mul_s(self.m11 as int, o.m12 as int)), fx_mul_s(self.m12 as int, o.m22 as int)), fx_mul_s(self.m13 as int, o.m32 as int)) as i64,
            m13: fx_add_s(fx_add_s(fx_add_s(fx_mul_s(self.m10 as int, o.m03 as int), fx_mul_s(self.m11 as int, o.m13 as int)), fx_mul_s(self.m12 as int, o.m23 as int)), fx_mul_s(self.m13 as int, o.m33 as int)) as i64,
            m20: fx_add_s(fx_add_s(fx_add_s(fx_mul_s(self.m20 as int, o.m00 as int), fx_mul_s(self.m21 as int, o.m10 as int)), fx_mul_s(self.m22 as int, o.m20 as int)), fx_mul_s(self.m23 as int, o.m30 as int)) as i64,
            m21: fx_add_s(fx_add_s(fx_add_s(fx_mul_s(self.m20 as int, o.m01 as int), fx_mul_s(self.m21 as int, o.m11 as int)), fx_mul_s(self.m22 as int, o.m21 as int)), fx_mul_s(self.m23 as int, o.m31 as int)) as i64,
            m22: fx_add_s(fx_add_s(fx_add_s(fx_mul_s(self.m20 as int, o.m02 as int), fx_mul_s(self.m21 as int, o.m12 as int)), fx_mul_s(self.m22 as int, o.m22 as int)), fx_mul_s(self.m23 as int, o.m32 as int)) as i64,
            m23: fx_add_s(fx_add_s(fx_add_s(fx_mul_s(self.m20 as int, o.m03 as int), fx_mul_s(self.m21 as int, o.m13 as int)), fx_mul_s(self.m22 as int, o.m23 as int)), fx_mul_s(self.m23 as int, o.m33 as int)) as i64,
            m30: fx_add_s(fx_add_s(fx_add_s(fx_mul_s(self.m30 as int, o.m00 as int), fx_mul_s(self.m31 as int, o.m10 as int)), fx_mul_s(self.m32 as int, o.m20 as int)), fx_mul_s(self.m33 as int, o.m30 as int)) as i64,
            m31: fx_add_s(fx_add_s(fx_add_s(fx_mul_s(self.m30 as int, o.m01 as int), fx_mul_s(self.m31 as int, o.m11 as int)), fx_mul_s(self.m32 as int, o.m21 as int)), fx_mul_s(self.m33 as int, o.m31 as int)) as i64,
            m32: fx_add_s(fx_add_s(fx_add_s(fx_mul_s(self.m30 as int, o.m02 as int), fx_mul_s(self.m31 as int, o.m12 as int)), fx_mul_s(self.m32 as int, o.m22 as int)), fx_mul_s(self.m33 as int, o.m32 as int)) as i64,
            m33: fx_add_s(fx_add_s(fx_add_s(fx_mul_s(self.m30 as int, o.m03 as int), fx_mul_s(self.m31 as int, o.m13 as int)), fx_mul_s(self.m32 as int, o.m23 as int)), fx_mul_s(self.m33 as int, o.m33 as int)) as i64,
        }
    }

    /// Matrix applied to a homogeneous vector.
    pub open spec fn mul_v4_s(self, v: Vector4) -> Vector4 {
        Vector4 {
            x: fx_add_s(fx_add_s(fx_add_s(fx_mul_s(self.m00 as int, v.x as int), fx_mul_s(self.m01 as int, v.y as int)), fx_mul_s(self.m02 as int, v.z as int)), fx_mul_s(self.m03 as int, v.w as int)) as i64,
            y: fx_add_s(fx_add_s(fx_add_s(fx_mul_s(self.m10 as int, v.x as int), fx_mul_s(self.m11 as int, v.y as int)), fx_mul_s(self.m12 as int, v.z as int)), fx_mul_s(self.m13 as int, v.w as int)) as i64,
            z: fx_add_s(fx_add_s(fx_add_s(fx_mul_s(self.m20 as int, v.x as int), fx_mul_s(self.m21 as int, v.y as int)), fx_mul_s(self.m22 as int, v.z as int)), fx_mul_s(self.m23 as int, v.w as int)) as i64,
            w: fx_add_s(fx_add_s(fx_add_s(fx_mul_s(self.m30 as int, v.x as int), fx_mul_s(self.m31 as int, v.y as int)), fx_mul_s(self.m32 as int, v.z as int)), fx_mul_s(self.m33 as int, v.w as int)) as i64,
        }
    }

    /// Signed cofactors, before transposition.
    pub open spec fn cofactor_s(self) -> SquareMatrix4 {
        let a = self.m00 as int;
        let b = self.m01 as int;
        let c = self.m02 as int;
        let d = self.m03 as int;
        let e = self.m10 as int;
        let f = self.m11 as int;
        let g = self.m12 as int;
        let h = self.m13 as int;
        let i = self.m20 as int;
        let j = self.m21 as int;
        let k = self.m22 as int;
        let l = self.m23 as int;
        let mm = self.m30 as int;
        let n = self.m31 as int;
        let o = self.m32 as int;
        let p = self.m33 as int;
        SquareMatrix4 {
            m00: det3_s(f, g, h, j, k, l, n, o, p) as i64,
            m01: sat64(-(det3_s(e, g, h, i, k, l, mm, o, p))) as i64,
            m02: det3_s(e, f, h, i, j, l, mm, n, p) as i64,
            m03: sat64(-(det3_s(e, f, g, i, j, k, mm, n, o))) as i64,
            m10: sat64(-(det3_s(b, c, d, j, k, l, n, o, p))) as i64,
            m11: det3_s(a, c, d, i, k, l, mm, o, p) as i64,
            m12: sat64(-(det3_s(a, b, d, i, j, l, mm, n, p))) as i64,
            m13: det3_s(a, b, c, i, j, k, mm, n, o) as i64,
            m20: det3_s(b, c, d, f, g, h, n, o, p) as i64,
            m21: sat64(-(det3_s(a, c, d, e, g, h, mm, o, p))) as i64,
            m22: det3_s(a, b, d, e, f, h, mm, n, p) as i64,
            m23: sat64(-(det3_s(a, b, c, e, f, g, mm, n, o))) as i64,
            m30: sat64(-(det3_s(b, c, d, f, g, h, j, k, l))) as i64,
            m31: det3_s(a, c, d, e, g, h, i, k, l) as i64,
            m32: sat64(-(det3_s(a, b, d, e, f, h, i, j, l))) as i64,
            m33: det3_s(a, b, c, e, f, g, i, j, k) as i64,
        }
    }

    /// The inverse the procedure produces: cofactors divided by the
    /// determinant, then transposed (the adjugate rule).
    pub open spec fn inverse_s(self) -> SquareMatrix4 {
        let cof = self.cofactor_s();
        let y = fx_div_s(SCALE as int, self.determinant_s());
        let scaled = SquareMatrix4 {
            m00: fx_mul_s(cof.m00 as int, y) as i64,
            m01: fx_mul_s(cof.m01 as int, y) as i64,
            m02: fx_mul_s(cof.m02 as int, y) as i64,
            m03: fx_mul_s(cof.m03 as int, y) as i64,
            m10: fx_mul_s(cof.m10 as int, y) as i64,
            m11: fx_mul_s(cof.m11 as int, y) as i64,
            m12: fx_mul_s(cof.m12 as int, y) as i64,
            m13: fx_mul_s(cof.m13 as int, y) as i64,
            m20: fx_mul_s(cof.m20 as int, y) as i64,
            m21: fx_mul_s(cof.m21 as int, y) as i64,
            m22: fx_mul_s(cof.m22 as int, y) as i64,
            m23: fx_mul_s(cof.m23 as int, y) as i64,
            m30: fx_mul_s(cof.m30 as int, y) as i64,
            m31: fx_mul_s(cof.m31 as int, y) as i64,
            m32: fx_mul_s(cof.m32 as int, y) as i64,
            m33: fx_mul_s(cof.m33 as int, y) as i64,
        };
        scaled.transposed_s()
    }

}

impl SquareMatrix4 {
    /// Determinant by minor expansion along the top row.
    pub fn determinant(&self) -> (r: i64)
        ensures
            r as int == self.determinant_s(),
    {
        let a = self.m00;
        let b = self.m01;
        let c = self.m02;
        let d = self.m03;
        let e = self.m10;
        let f = self.m11;
        let g = self.m12;
        let h = self.m13;
        let i = self.m20;
        let j = self.m21;
        let k = self.m22;
        let l = self.m23;
        let mm = self.m30;
        let n = self.m31;
        let o = self.m32;
        let p = self.m33;
        fx_sub(
            fx_add(
                fx_sub(fx_mul(a, det3(f, g, h, j, k, l, n, o, p)), fx_mul(b, det3(e, g, h, i, k, l, mm, o, p))),
                fx_mul(c, det3(e, f, h, i, j, l, mm, n, p)),
            ),
            fx_mul(d, det3(e, f, g, i, j, k, mm, n, o)),
        )
    }

    /// A copy with rows exchanged with columns.
    pub fn transposed(&self) -> (r: SquareMatrix4)
        ensures
            r == self.transposed_s(),
    {
        SquareMatrix4 {
            m00: self.m00,
            m01: self.m10,
            m02: self.m20,
            m03: self.m30,
            m10: self.m01,
            m11: self.m11,
            m12: self.m21,
            m13: self.m31,
            m20: self.m02,
            m21: self.m12,
            m22: self.m22,
            m23: self.m32,
            m30: self.m03,
            m31: self.m13,
            m32: self.m23,
            m33: self.m33,
        }
    }

    /// Exchange rows with columns in place.
    pub fn transpose(&mut self)
        ensures
            *final(self) == old(self).transposed_s(),
    {
        *self = self.transposed();
    }

    /// Matrix product.
    pub fn mul(&self, o: &SquareMatrix4) -> (r: SquareMatrix4)
        ensures
            r == self.mul_s(*o),
    {
        SquareMatrix4 {
            m00: fx_add(fx_add(fx_add(fx_mul(self.m00, o.m00), fx_mul(self.m01, o.m10)), fx_mul(self.m02, o.m20)), fx_mul(self.m03, o.m30)),
            m01: fx_add(fx_add(fx_add(fx_mul(self.m00, o.m01), fx_mul(self.m01, o.m11)), fx_mul(self.m02, o.m21)), fx_mul(self.m03, o.m31)),
            m02: fx_add(fx_add(fx_add(fx_mul(self.m00, o.m02), fx_mul(self.m01, o.m12)), fx_mul(self.m02, o.m22)), fx_mul(self.m03, o.m32)),
            m03: fx_add(fx_add(fx_add(fx_mul(self.m00, o.m03), fx_mul(self.m01, o.m13)), fx_mul(self.m02, o.m23)), fx_mul(self.m03, o.m33)),
            m10: fx_add(fx_add(fx_add(fx_mul(self.m10, o.m00), fx_mul(self.m11, o.m10)), fx_mul(self.m12, o.m20)), fx_mul(self.m13, o.m30)),
            m11: fx_add(fx_add(fx_add(fx_mul(self.m10, o.m01), fx_mul(self.m11, o.m11)), fx_mul(self.m12, o.m21)), fx_mul(self.m13, o.m31)),
            m12: fx_add(fx_add(fx_add(fx_mul(self.m10, o.m02), fx_mul(self.m11, o.m12)), fx_mul(self.m12, o.m22)), fx_mul(self.m13, o.m32)),
            m13: fx_add(fx_add(fx_add(fx_mul(self.m10, o.m03), fx_mul(self.m11, o.m13)), fx_mul(self.m12, o.m23)), fx_mul(self.m13, o.m33)),
            m20: fx_add(fx_add(fx_add(fx_mul(self.m20, o.m00), fx_mul(self.m21, o.m10)), fx_mul(self.m22, o.m20)), fx_mul(self.m23, o.m30)),
            m21: fx_add(fx_add(fx_add(fx_mul(self.m20, o.m01), fx_mul(self.m21, o.m11)), fx_mul(self.m22, o.m21)), fx_mul(self.m23, o.m31)),
            m22: fx_add(fx_add(fx_add(fx_mul(self.m20, o.m02), fx_mul(self.m21, o.m12)), fx_mul(self.m22, o.m22)), fx_mul(self.m23, o.m32)),
            m23: fx_add(fx_add(fx_add(fx_mul(self.m20, o.m03), fx_mul(self.m21, o.m13)), fx_mul(self.m22, o.m23)), fx_mul(self.m23, o.m33)),
            m30: fx_add(fx_add(fx_add(fx_mul(self.m30, o.m00), fx_mul(self.m31, o.m10)), fx_mul(self.m32, o.m20)), fx_mul(self.m33, o.m30)),
            m31: fx_add(fx_add(fx_add(fx_mul(self.m30, o.m01), fx_mul(self.m31, o.m11)), fx_mul(self.m32, o.m21)), fx_mul(self.m33, o.m31)),
            m32: fx_add(fx_add(fx_add(fx_mul(self.m30, o.m02), fx_mul(self.m31, o.m12)), fx_mul(self.m32, o.m22)), fx_mul(self.m33, o.m32)),
            m33: fx_add(fx_add(fx_add(fx_mul(self.m30, o.m03), fx_mul(self.m31, o.m13)), fx_mul(self.m32, o.m23)), fx_mul(self.m33, o.m33)),
        }
    }

    /// Matrix applied to a homogeneous vector.
    pub fn mul_v4(&self, v: &Vector4) -> (r: Vector4)
        ensures
            r == self.mul_v4_s(*v),
    {
        Vector4 {
            x: fx_add(fx_add(fx_add(fx_mul(self.m00, v.x), fx_mul(self.m01, v.y)), fx_mul(self.m02, v.z)), fx_mul(self.m03, v.w)),
            y: fx_add(fx_add(fx_add(fx_mul(self.m10, v.x), fx_mul(self.m11, v.y)), fx_mul(self.m12, v.z)), fx_mul(self.m13, v.w)),
            z: fx_add(fx_add(fx_add(fx_mul(self.m20, v.x), fx_mul(self.m21, v.y)), fx_mul(self.m22, v.z)), fx_mul(self.m23, v.w)),
            w: fx_add(fx_add(fx_add(fx_mul(self.m30, v.x), fx_mul(self.m31, v.y)), fx_mul(self.m32, v.z)), fx_mul(self.m33, v.w)),
        }
    }

    /// The inverse, by the adjugate over the determinant; nothing
    /// when the determinant sits inside the zero band.
    pub fn inversed(&self) -> (r: Option<SquareMatrix4>)
        ensures
            r is Some <==> !(-EPSILON <= self.determinant_s() <= EPSILON),
            r matches Some(m) ==> m == self.inverse_s(),
    {
        let a = self.m00;
        let b = self.m01;
        let c = self.m02;
        let d = self.m03;
        let e = self.m10;
        let f = self.m11;
        let g = self.m12;
        let h = self.m13;
        let i = self.m20;
        let j = self.m21;
        let k = self.m22;
        let l = self.m23;
        let mm = self.m30;
        let n = self.m31;
        let o = self.m32;
        let p = self.m33;
        let cof = SquareMatrix4 {
            m00: det3(f, g, h, j, k, l, n, o, p),
            m01: fx_neg(det3(e, g, h, i, k, l, mm, o, p)),
            m02: det3(e, f, h, i, j, l, mm, n, p),
            m03: fx_neg(det3(e, f, g, i, j, k, mm, n, o)),
            m10: fx_neg(det3(b, c, d, j, k, l, n, o, p)),
            m11: det3(a, c, d, i, k, l, mm, o, p),
            m12: fx_neg(det3(a, b, d, i, j, l, mm, n, p)),
            m13: det3(a, b, c, i, j, k, mm, n, o),
            m20: det3(b, c, d, f, g, h, n, o, p),
            m21: fx_neg(det3(a, c, d, e, g, h, mm, o, p)),
            m22: det3(a, b, d, e, f, h, mm, n, p),
            m23: fx_neg(det3(a, b, c, e, f, g, mm, n, o)),
            m30: fx_neg(det3(b, c, d, f, g, h, j, k, l)),
            m31: det3(a, c, d, e, g, h, i, k, l),
            m32: fx_neg(det3(a, b, d, e, f, h, i, j, l)),
            m33: det3(a, b, c, e, f, g, i, j, k),
        };
        let det = self.determinant();
        if -EPSILON <= det && det <= EPSILON {
            return None;
        }
        let y = fx_div(SCALE, det);
        let scaled = SquareMatrix4 {
            m00: fx_mul(cof.m00, y),
            m01: fx_mul(cof.m01, y),
            m02: fx_mul(cof.m02, y),
            m03: fx_mul(cof.m03, y),
            m10: fx_mul(cof.m10, y),
            m11: fx_mul(cof.m11, y),
            m12: fx_mul(cof.m12, y),
            m13: fx_mul(cof.m13, y),
            m20: fx_mul(cof.m20, y),
            m21: fx_mul(cof.m21, y),
            m22: fx_mul(cof.m22, y),
            m23: fx_mul(cof.m23, y),
            m30: fx_mul(cof.m30, y),
            m31: fx_mul(cof.m31, y),
            m32: fx_mul(cof.m32, y),
            m33: fx_mul(cof.m33, y),
        };
        Some(scaled.transposed())
    }

    /// Entry-wise comparison within a raw tolerance.
    pub fn approx_eq(&self, o: &SquareMatrix4, tol: i64) -> (r: bool)
        ensures
            r == (
                iabs(self.m00 as int - o.m00 as int) <= tol
                && iabs(self.m01 as int - o.m01 as int) <= tol
                && iabs(self.m02 as int - o.m02 as int) <= tol
                && iabs(self.m03 as int - o.m03 as int) <= tol
                && iabs(self.m10 as int - o.m10 as int) <= tol
                && iabs(self.m11 as int - o.m11 as int) <= tol
                && iabs(self.m12 as int - o.m12 as int) <= tol
                && iabs(self.m13 as int - o.m13 as int) <= tol
                && iabs(self.m20 as int - o.m20 as int) <= tol
                && iabs(self.m21 as int - o.m21 as int) <= tol
                && iabs(self.m22 as int - o.m22 as int) <= tol
                && iabs(self.m23 as int - o.m23 as int) <= tol
                && iabs(self.m30 as int - o.m30 as int) <= tol
                && iabs(self.m31 as int - o.m31 as int) <= tol
                && iabs(self.m32 as int - o.m32 as int) <= tol
                && iabs(self.m33 as int - o.m33 as int) <= tol),
    {
        near(self.m00, o.m00, tol)
            && near(self.m01, o.m01, tol)
            && near(self.m02, o.m02, tol)
            && near(self.m03, o.m03, tol)
            && near(self.m10, o.m10, tol)
            && near(self.m11, o.m11, tol)
            && near(self.m12, o.m12, tol)
            && near(self.m13, o.m13, tol)
            && near(self.m20, o.m20, tol)
            && near(self.m21, o.m21, tol)
            && near(self.m22, o.m22, tol)
            && near(self.m23, o.m23, tol)
            && near(self.m30, o.m30, tol)
            && near(self.m31, o.m31, tol)
            && near(self.m32, o.m32, tol)
            && near(self.m33, o.m33, tol)
    }
}

/// True when two raw values differ by at most `tol`.
pub fn near(a: i64, b: i64, tol: i64) -> (r: bool)
    ensures
        r == (iabs(a as int - b as int) <= tol),
{
    let d: i128 = a as i128 - b as i128;
    let m: i128 = if d < 0 {
        -d
    } else {
        d
    };
    m <= tol as i128
}
impl SquareMatrix4 {
    /// The identity transform.
    pub open spec fn identity_s() -> SquareMatrix4 {
        SquareMatrix4 {
            m00: SCALE,
            m01: 0i64,
            m02: 0i64,
            m03: 0i64,
            m10: 0i64,
            m11: SCALE,
            m12: 0i64,
            m13: 0i64,
            m20: 0i64,
            m21: 0i64,
            m22: SCALE,
            m23: 0i64,
            m30: 0i64,
            m31: 0i64,
            m32: 0i64,
            m33: SCALE,
        }
    }

    /// The identity transform.
    pub fn identity() -> (r: SquareMatrix4)
        ensures
            r == SquareMatrix4::identity_s(),
    {
        SquareMatrix4 {
            m00: SCALE,
            m01: 0,
            m02: 0,
            m03: 0,
            m10: 0,
            m11: SCALE,
            m12: 0,
            m13: 0,
            m20: 0,
            m21: 0,
            m22: SCALE,
            m23: 0,
            m30: 0,
            m31: 0,
            m32: 0,
            m33: SCALE,
        }
    }

    /// Translation by the vector's components; its `w` lands in the
    /// homogeneous corner, as one in the usual case.
    pub open spec fn translation_s(v: Vector4) -> SquareMatrix4 {
        SquareMatrix4 {
            m00: SCALE,
            m01: 0i64,
            m02: 0i64,
            m03: v.x,
            m10: 0i64,
            m11: SCALE,
            m12: 0i64,
            m13: v.y,
            m20: 0i64,
            m21: 0i64,
            m22: SCALE,
            m23: v.z,
            m30: 0i64,
            m31: 0i64,
            m32: 0i64,
            m33: v.w,
        }
    }

    /// Translation by the vector's components.
    pub fn translation(v: Vector4) -> (r: SquareMatrix4)
        ensures
            r == SquareMatrix4::translation_s(v),
    {
        SquareMatrix4 {
            m00: SCALE,
            m01: 0,
            m02: 0,
            m03: v.x,
            m10: 0,
            m11: SCALE,
            m12: 0,
            m13: v.y,
            m20: 0,
            m21: 0,
            m22: SCALE,
            m23: v.z,
            m30: 0,
            m31: 0,
            m32: 0,
            m33: v.w,
        }
    }

    /// Scaling by the vector's components along the diagonal.
    pub open spec fn scaling_s(v: Vector4) -> SquareMatrix4 {
        SquareMatrix4 {
            m00: v.x,
            m01: 0i64,
            m02: 0i64,
            m03: 0i64,
            m10: 0i64,
            m11: v.y,
            m12: 0i64,
            m13: 0i64,
            m20: 0i64,
            m21: 0i64,
            m22: v.z,
            m23: 0i64,
            m30: 0i64,
            m31: 0i64,
            m32: 0i64,
            m33: v.w,
        }
    }

    /// Scaling by the vector's components.
    pub fn scaling(v: Vector4) -> (r: SquareMatrix4)
        ensures
            r == SquareMatrix4::scaling_s(v),
    {
        SquareMatrix4 {
            m00: v.x,
            m01: 0,
            m02: 0,
            m03: 0,
            m10: 0,
            m11: v.y,
            m12: 0,
            m13: 0,
            m20: 0,
            m21: 0,
            m22: v.z,
            m23: 0,
            m30: 0,
            m31: 0,
            m32: 0,
            m33: v.w,
        }
    }

    /// Rotation about the x axis by raw radians.
    pub open spec fn rot_x_s(radians: int) -> SquareMatrix4 {
        let c = cos_s(radians) as i64;
        let s = sin_s(radians) as i64;
        let ns = sat64(-(s as int)) as i64;
        SquareMatrix4 {
            m00: SCALE,
            m01: 0i64,
            m02: 0i64,
            m03: 0i64,
            m10: 0i64,
            m11: c,
            m12: ns,
            m13: 0i64,
            m20: 0i64,
            m21: s,
            m22: c,
            m23: 0i64,
            m30: 0i64,
            m31: 0i64,
            m32: 0i64,
            m33: SCALE,
        }
    }

    /// Rotation about the x axis by raw radians.
    pub fn rot_x(radians: i64) -> (r: SquareMatrix4)
        ensures
            r == SquareMatrix4::rot_x_s(radians as int),
    {
        let c = cos_fx(radians);
        let s = sin_fx(radians);
        let ns = fx_neg(s);
        SquareMatrix4 {
            m00: SCALE,
            m01: 0,
            m02: 0,
            m03: 0,
            m10: 0,
            m11: c,
            m12: ns,
            m13: 0,
            m20: 0,
            m21: s,
            m22: c,
            m23: 0,
            m30: 0,
            m31: 0,
            m32: 0,
            m33: SCALE,
        }
    }

    /// Rotation about the y axis by raw radians.
    pub open spec fn rot_y_s(radians: int) -> SquareMatrix4 {
        let c = cos_s(radians) as i64;
        let s = sin_s(radians) as i64;
        let ns = sat64(-(s as int)) as i64;
        SquareMatrix4 {
            m00: c,
            m01: 0i64,
            m02: s,
            m03: 0i64,
            m10: 0i64,
            m11: SCALE,
            m12: 0i64,
            m13: 0i64,
            m20: ns,
            m21: 0i64,
            m22: c,
            m23: 0i64,
            m30: 0i64,
            m31: 0i64,
            m32: 0i64,
            m33: SCALE,
        }
    }

    /// Rotation about the y axis by raw radians.
    pub fn rot_y(radians: i64) -> (r: SquareMatrix4)
        ensures
            r == SquareMatrix4::rot_y_s(radians as int),
    {
        let c = cos_fx(radians);
        let s = sin_fx(radians);
        let ns = fx_neg(s);
        SquareMatrix4 {
            m00: c,
            m01: 0,
            m02: s,
            m03: 0,
            m10: 0,
            m11: SCALE,
            m12: 0,
            m13: 0,
            m20: ns,
            m21: 0,
            m22: c,
            m23: 0,
            m30: 0,
            m31: 0,
            m32: 0,
            m33: SCALE,
        }
    }

    /// Rotation about the z axis by raw radians.
    pub open spec fn rot_z_s(radians: int) -> SquareMatrix4 {
        let c = cos_s(radians) as i64;
        let s = sin_s(radians) as i64;
        let ns = sat64(-(s as int)) as i64;
        SquareMatrix4 {
            m00: c,
            m01: ns,
            m02: 0i64,
            m03: 0i64,
            m10: s,
            m11: c,
            m12: 0i64,
            m13: 0i64,
            m20: 0i64,
            m21: 0i64,
            m22: SCALE,
            m23: 0i64,
            m30: 0i64,
            m31: 0i64,
            m32: 0i64,
            m33: SCALE,
        }
    }

    /// Rotation about the z axis by raw radians.
    pub fn rot_z(radians: i64) -> (r: SquareMatrix4)
        ensures
            r == SquareMatrix4::rot_z_s(radians as int),
    {
        let c = cos_fx(radians);
        let s = sin_fx(radians);
        let ns = fx_neg(s);
        SquareMatrix4 {
            m00: c,
            m01: ns,
            m02: 0,
            m03: 0,
            m10: s,
            m11: c,
            m12: 0,
            m13: 0,
            m20: 0,
            m21: 0,
            m22: SCALE,
            m23: 0,
            m30: 0,
            m31: 0,
            m32: 0,
            m33: SCALE,
        }
    }

}

} // verus!
