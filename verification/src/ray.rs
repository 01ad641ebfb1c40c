//! Parametric rays.

use vstd::prelude::*;
use crate::vector::{Vector3, UnitVector3, Vector4};
use crate::matrix::SquareMatrix4;
use crate::fixed::SCALE;

verus! {

/// A half-line: origin plus a unit direction scaled by the parameter `t`.
#[derive(Clone, Copy, Debug, PartialEq, Eq, Structural)]
pub struct Ray {
    pub origin: Vector3,
    pub direction: UnitVector3,
}

impl Ray {
    /// The point the parameter `t` reaches along the ray.
    pub open spec fn cast_s(self, t: int) -> Vector3 {
        self.origin.add_s(self.direction.v.scale_s(t))
    }

    /// The origin a transform carries the ray to (as a point, `w` one).
    pub open spec fn transformed_origin_s(origin: Vector3, m: SquareMatrix4) -> Vector3 {
        m.mul_v4_s(Vector4 { x: origin.x, y: origin.y, z: origin.z, w: SCALE }).xyz_s()
    }

    /// The direction a transform carries the ray to (as a vector, `w`
    /// zero), before renormalization.
    pub open spec fn transformed_dir_s(direction: UnitVector3, m: SquareMatrix4) -> Vector3 {
        m.mul_v4_s(Vector4 { x: direction.v.x, y: direction.v.y, z: direction.v.z, w: 0i64 })
            .xyz_s()
    }

    /// The point the parameter `t` reaches along the ray.
    pub fn cast(&self, t: i64) -> (r: Vector3)
        ensures
            r == self.cast_s(t as int),
    {
        self.origin.add(self.direction.scale(t))
    }

    /// The ray carried into another space: the origin as a point, the
    /// direction as a vector, renormalized.  Nothing when the transformed
    /// direction is degenerate.
    pub fn with_transform(origin: Vector3, direction: UnitVector3, m: &SquareMatrix4) -> (r:
        Option<Ray>)
        ensures
            Self::transformed_dir_s(direction, *m).normalize_ok() <==> r is Some,
            r matches Some(ray) ==> {
                &&& ray.origin == Self::transformed_origin_s(origin, *m)
                &&& ray.direction.v == Self::transformed_dir_s(direction, *m).normalize_s()
                &&& ray.direction.wf()
            },
    {
        let o = m.mul_v4(&Vector4::from_v3(origin, SCALE)).xyz();
        let d = m.mul_v4(&Vector4::from_v3(direction.into_vector(), 0)).xyz();
        match d.normalized() {
            Ok(u) => Some(Ray { origin: o, direction: u }),
            Err(_) => None,
        }
    }
}

} // verus!
