//! 3- and 4-component vectors over fixed-point scalars, and unit vectors.
//!
//! A `UnitVector3` carries a structural invariant: its squared length lies
//! within `UNIT_TOL` of one.  All surface normals and ray directions use
//! this type, so "must be normalized" is a property of the value, not a
//! convention.

use vstd::prelude::*;
use crate::fixed::{fx_add_s, fx_sub_s, fx_mul_s, fx_div_s, fx_sqrt_s, sat64, iabs,
    fx_add, fx_sub, fx_mul, fx_div, fx_neg, fx_sqrt, SCALE, EPSILON};
use crate::general::RayError;

verus! {

/// Band around one (squared, in raw steps) inside which a vector counts
/// as a unit vector.
pub const UNIT_TOL: i64 = 1000;

#[derive(Clone, Copy, Debug, PartialEq, Eq, Structural)]
pub struct Vector3 {
    pub x: i64,
    pub y: i64,
    pub z: i64,
}

impl Vector3 {
    pub open spec fn add_s(self, o: Vector3) -> Vector3 {
        Vector3 {
            x: fx_add_s(self.x as int, o.x as int) as i64,
            y: fx_add_s(self.y as int, o.y as int) as i64,
            z: fx_add_s(self.z as int, o.z as int) as i64,
        }
    }

    pub open spec fn sub_s(self, o: Vector3) -> Vector3 {
        Vector3 {
            x: fx_sub_s(self.x as int, o.x as int) as i64,
            y: fx_sub_s(self.y as int, o.y as int) as i64,
            z: fx_sub_s(self.z as int, o.z as int) as i64,
        }
    }

    pub open spec fn neg_s(self) -> Vector3 {
        Vector3 {
            x: sat64(-(self.x as int)) as i64,
            y: sat64(-(self.y as int)) as i64,
            z: sat64(-(self.z as int)) as i64,
        }
    }

    pub open spec fn scale_s(self, c: int) -> Vector3 {
        Vector3 {
            x: fx_mul_s(self.x as int, c) as i64,
            y: fx_mul_s(self.y as int, c) as i64,
            z: fx_mul_s(self.z as int, c) as i64,
        }
    }

    pub open spec fn dot_s(self, o: Vector3) -> int {
        fx_add_s(
            fx_add_s(fx_mul_s(self.x as int, o.x as int), fx_mul_s(self.y as int, o.y as int)),
            fx_mul_s(self.z as int, o.z as int),
        )
    }

    pub open spec fn cross_s(self, o: Vector3) -> Vector3 {
        Vector3 {
            x: fx_sub_s(fx_mul_s(self.y as int, o.z as int), fx_mul_s(self.z as int, o.y as int))
                as i64,
            y: fx_sub_s(fx_mul_s(self.z as int, o.x as int), fx_mul_s(self.x as int, o.z as int))
                as i64,
            z: fx_sub_s(fx_mul_s(self.x as int, o.y as int), fx_mul_s(self.y as int, o.x as int))
                as i64,
        }
    }

    pub open spec fn length2_s(self) -> int {
        self.dot_s(self)
    }

    pub open spec fn length_s(self) -> int {
        fx_sqrt_s(self.length2_s())
    }

    /// The components the normalization procedure produces: each divided
    /// by the vector's length.
    pub open spec fn normalize_s(self) -> Vector3 {
        let len = self.length_s();
        Vector3 {
            x: fx_div_s(self.x as int, len) as i64,
            y: fx_div_s(self.y as int, len) as i64,
            z: fx_div_s(self.z as int, len) as i64,
        }
    }

    /// Normalization succeeds when the length clears the zero band and the
    /// rounded result lands inside the unit band.
    pub open spec fn normalize_ok(self) -> bool {
        self.length_s() > EPSILON && is_unit_v(self.normalize_s())
    }

    pub fn new(x: i64, y: i64, z: i64) -> (v: Vector3)
        ensures
            v == (Vector3 { x, y, z }),
    {
        Vector3 { x, y, z }
    }

    /// Component-wise sum.
    pub fn add(self, o: Vector3) -> (r: Vector3)
        ensures
            r == self.add_s(o),
    {
        Vector3 { x: fx_add(self.x, o.x), y: fx_add(self.y, o.y), z: fx_add(self.z, o.z) }
    }

    /// Component-wise difference.
    pub fn sub(self, o: Vector3) -> (r: Vector3)
        ensures
            r == self.sub_s(o),
    {
        Vector3 { x: fx_sub(self.x, o.x), y: fx_sub(self.y, o.y), z: fx_sub(self.z, o.z) }
    }

    /// Component-wise negation.
    pub fn neg(self) -> (r: Vector3)
        ensures
            r == self.neg_s(),
    {
        Vector3 { x: fx_neg(self.x), y: fx_neg(self.y), z: fx_neg(self.z) }
    }

    /// Each component scaled by a fixed-point factor.
    pub fn scale(self, c: i64) -> (r: Vector3)
        ensures
            r == self.scale_s(c as int),
    {
        Vector3 { x: fx_mul(self.x, c), y: fx_mul(self.y, c), z: fx_mul(self.z, c) }
    }

    /// Dot product.
    pub fn dot(self, o: Vector3) -> (r: i64)
        ensures
            r as int == self.dot_s(o),
    {
        fx_add(fx_add(fx_mul(self.x, o.x), fx_mul(self.y, o.y)), fx_mul(self.z, o.z))
    }

    /// Cross product, right-handed.
    pub fn cross(self, o: Vector3) -> (r: Vector3)
        ensures
            r == self.cross_s(o),
    {
        Vector3 {
            x: fx_sub(fx_mul(self.y, o.z), fx_mul(self.z, o.y)),
            y: fx_sub(fx_mul(self.z, o.x), fx_mul(self.x, o.z)),
            z: fx_sub(fx_mul(self.x, o.y), fx_mul(self.y, o.x)),
        }
    }

    /// Squared length.
    pub fn length2(self) -> (r: i64)
        ensures
            r as int == self.length2_s(),
    {
        self.dot(self)
    }

    /// Length.
    pub fn length(self) -> (r: i64)
        ensures
            r as int == self.length_s(),
    {
        fx_sqrt(self.length2())
    }

    /// Scale to unit length.  Fails exactly when the length sits inside
    /// the zero band, or rounding pushed the result outside the unit band.
    pub fn normalized(self) -> (r: Result<UnitVector3, RayError>)
        ensures
            self.normalize_ok() <==> r is Ok,
            r matches Ok(u) ==> u.v == self.normalize_s() && u.wf(),
            r matches Err(e) ==> e == RayError::DegenerateVector,
    {
        let len = self.length();
        if len <= EPSILON {
            return Err(RayError::DegenerateVector);
        }
        let cand = Vector3 {
            x: fx_div(self.x, len),
            y: fx_div(self.y, len),
            z: fx_div(self.z, len),
        };
        let l2 = cand.length2();
        if SCALE - UNIT_TOL <= l2 && l2 <= SCALE + UNIT_TOL {
            Ok(UnitVector3 { v: cand })
        } else {
            Err(RayError::DegenerateVector)
        }
    }
}

/// The squared length lies within `UNIT_TOL` of one.
pub open spec fn is_unit_v(v: Vector3) -> bool {
    SCALE - UNIT_TOL <= v.length2_s() <= SCALE + UNIT_TOL
}

/// A vector known to have (approximately) unit length.
#[derive(Clone, Copy, Debug, PartialEq, Eq, Structural)]
pub struct UnitVector3 {
    pub v: Vector3,
}

impl UnitVector3 {
    /// The structural invariant every constructed unit vector carries.
    pub open spec fn wf(self) -> bool {
        is_unit_v(self.v)
    }

    pub fn into_vector(self) -> (r: Vector3)
        ensures
            r == self.v,
    {
        self.v
    }

    pub fn dot(self, o: Vector3) -> (r: i64)
        ensures
            r as int == self.v.dot_s(o),
    {
        self.v.dot(o)
    }

    pub fn neg(self) -> (r: UnitVector3)
        ensures
            r.v == self.v.neg_s(),
    {
        UnitVector3 { v: self.v.neg() }
    }

    pub fn scale(self, c: i64) -> (r: Vector3)
        ensures
            r == self.v.scale_s(c as int),
    {
        self.v.scale(c)
    }

    /// The mirror direction the incoming direction `self` leaves a surface
    /// of normal `n` with: `self - 2 (self . n) n`, renormalized.
    pub fn reflect(self, n: UnitVector3) -> (r: Result<UnitVector3, RayError>)
        ensures
            reflect_raw_s(self.v, n.v).normalize_ok() <==> r is Ok,
            r matches Ok(u) ==> u.v == reflect_raw_s(self.v, n.v).normalize_s() && u.wf(),
    {
        let u = n.v.scale(fx_mul(2 * SCALE, self.v.dot(n.v)));
        let w = self.v.sub(u);
        w.normalized()
    }
}

/// The un-normalized mirror direction: `v - 2 (v . n) n`.
pub open spec fn reflect_raw_s(v: Vector3, n: Vector3) -> Vector3 {
    v.sub_s(n.scale_s(fx_mul_s(2 * SCALE as int, v.dot_s(n))))
}

/// Homogeneous 4-component vector, for matrix transforms.
#[derive(Clone, Copy, Debug, PartialEq, Eq, Structural)]
pub struct Vector4 {
    pub x: i64,
    pub y: i64,
    pub z: i64,
    pub w: i64,
}

impl Vector4 {
    pub open spec fn xyz_s(self) -> Vector3 {
        Vector3 { x: self.x, y: self.y, z: self.z }
    }

    pub fn from_v3(v: Vector3, w: i64) -> (r: Vector4)
        ensures
            r == (Vector4 { x: v.x, y: v.y, z: v.z, w }),
    {
        Vector4 { x: v.x, y: v.y, z: v.z, w }
    }

    pub fn xyz(self) -> (r: Vector3)
        ensures
            r == self.xyz_s(),
    {
        Vector3 { x: self.x, y: self.y, z: self.z }
    }
}

/// LAW — unit length: every well-formed unit vector's squared length lies
/// within the unit band, and its length within `UNIT_TOL` of one.
pub proof fn lemma_unit_length(u: UnitVector3)
    requires
        u.wf(),
    ensures
        iabs(u.v.length2_s() - SCALE) <= UNIT_TOL,
        iabs(u.v.length_s() - SCALE) <= UNIT_TOL,
{
    let l2 = u.v.length2_s();
    let n = l2 * SCALE;
    crate::fixed::lemma_sqrt_floor(n);
    let s = crate::fixed::sqrt_floor(n);
    assert(iabs(s - SCALE) <= UNIT_TOL) by (nonlinear_arith)
        requires
            s >= 0,
            s * s <= n,
            n < (s + 1) * (s + 1),
            n == l2 * SCALE,
            SCALE - UNIT_TOL <= l2 <= SCALE + UNIT_TOL,
            SCALE == 1_000_000,
            UNIT_TOL == 1000,
    {}
}

/// Exact-model dot product of integer triples (no rounding, no scaling).
pub open spec fn dot_i(
    ax: int, ay: int, az: int,
    bx: int, by: int, bz: int,
) -> int {
    ax * bx + ay * by + az * bz
}

/// LAW — mirror reflection is self-inverse: in the exact model, reflecting
/// a reflected vector about the same normal returns the original vector
/// (scaled by the square of `n . n`, the factor that keeps the model in
/// integers).  The fixed-point `reflect` follows this model up to its
/// stated rounding.
pub proof fn lemma_reflect_involution(
    vx: int, vy: int, vz: int,
    nx: int, ny: int, nz: int,
)
    ensures
        refl_x(refl_x(vx, vy, vz, nx, ny, nz), refl_y(vx, vy, vz, nx, ny, nz),
            refl_z(vx, vy, vz, nx, ny, nz), nx, ny, nz)
            == dot_i(nx, ny, nz, nx, ny, nz) * dot_i(nx, ny, nz, nx, ny, nz) * vx,
        refl_y(refl_x(vx, vy, vz, nx, ny, nz), refl_y(vx, vy, vz, nx, ny, nz),
            refl_z(vx, vy, vz, nx, ny, nz), nx, ny, nz)
            == dot_i(nx, ny, nz, nx, ny, nz) * dot_i(nx, ny, nz, nx, ny, nz) * vy,
        refl_z(refl_x(vx, vy, vz, nx, ny, nz), refl_y(vx, vy, vz, nx, ny, nz),
            refl_z(vx, vy, vz, nx, ny, nz), nx, ny, nz)
            == dot_i(nx, ny, nz, nx, ny, nz) * dot_i(nx, ny, nz, nx, ny, nz) * vz,
{
    let nn = dot_i(nx, ny, nz, nx, ny, nz);
    let vn = dot_i(vx, vy, vz, nx, ny, nz);
    let rx = refl_x(vx, vy, vz, nx, ny, nz);
    let ry = refl_y(vx, vy, vz, nx, ny, nz);
    let rz = refl_z(vx, vy, vz, nx, ny, nz);
    // The reflected vector's projection onto the normal is the original
    // projection, negated and scaled by the normal's squared length:
    // distribute one component at a time, then recombine.
    assert(rx * nx == nn * (vx * nx) - 2 * (vn * (nx * nx))) by (nonlinear_arith)
        requires
            rx == nn * vx - 2 * vn * nx,
    {}
    assert(ry * ny == nn * (vy * ny) - 2 * (vn * (ny * ny))) by (nonlinear_arith)
        requires
            ry == nn * vy - 2 * vn * ny,
    {}
    assert(rz * nz == nn * (vz * nz) - 2 * (vn * (nz * nz))) by (nonlinear_arith)
        requires
            rz == nn * vz - 2 * vn * nz,
    {}
    assert(nn * (vx * nx) + nn * (vy * ny) + nn * (vz * nz) == nn * vn) by (nonlinear_arith)
        requires
            vn == vx * nx + vy * ny + vz * nz,
    {}
    assert(vn * (nx * nx) + vn * (ny * ny) + vn * (nz * nz) == vn * nn) by (nonlinear_arith)
        requires
            nn == nx * nx + ny * ny + nz * nz,
    {}
    assert(dot_i(rx, ry, rz, nx, ny, nz) == nn * vn - 2 * (vn * nn));
    assert(nn * vn - 2 * (vn * nn) == -(vn * nn)) by (nonlinear_arith);
    let rvn = dot_i(rx, ry, rz, nx, ny, nz);
    assert(nn * rx - 2 * rvn * nx == nn * nn * vx) by (nonlinear_arith)
        requires
            rx == nn * vx - 2 * vn * nx,
            rvn == -(vn * nn),
    {}
    assert(nn * ry - 2 * rvn * ny == nn * nn * vy) by (nonlinear_arith)
        requires
            ry == nn * vy - 2 * vn * ny,
            rvn == -(vn * nn),
    {}
    assert(nn * rz - 2 * rvn * nz == nn * nn * vz) by (nonlinear_arith)
        requires
            rz == nn * vz - 2 * vn * nz,
            rvn == -(vn * nn),
    {}
}

/// X component of the exact-model mirror direction.
pub open spec fn refl_x(vx: int, vy: int, vz: int, nx: int, ny: int, nz: int) -> int {
    dot_i(nx, ny, nz, nx, ny, nz) * vx - 2 * dot_i(vx, vy, vz, nx, ny, nz) * nx
}

/// Y component of the exact-model mirror direction.
pub open spec fn refl_y(vx: int, vy: int, vz: int, nx: int, ny: int, nz: int) -> int {
    dot_i(nx, ny, nz, nx, ny, nz) * vy - 2 * dot_i(vx, vy, vz, nx, ny, nz) * ny
}

/// Z component of the exact-model mirror direction.
pub open spec fn refl_z(vx: int, vy: int, vz: int, nx: int, ny: int, nz: int) -> int {
    dot_i(nx, ny, nz, nx, ny, nz) * vz - 2 * dot_i(vx, vy, vz, nx, ny, nz) * nz
}

} // verus!
