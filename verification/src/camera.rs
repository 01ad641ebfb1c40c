//! Perspective camera: one ray per normalized image-plane coordinate.

use vstd::prelude::*;
use crate::fixed::{fx_div_s, fx_div, fx_mul_s, SCALE};
use crate::vector::{Vector3, UnitVector3};
use crate::ray::Ray;
use crate::trig::{tan_fx, sin_s, cos_s};

verus! {

/// Largest accepted image side, so plane arithmetic stays in range.
pub const MAX_IMAGE_SIDE: usize = 100_000;

/// A camera at `position` with an orthonormal basis, an image plane at
/// `dist_to_image` derived from the field of view, and fixed output
/// dimensions.  Immutable after construction.
#[derive(Clone, Copy, Debug, PartialEq, Eq, Structural)]
pub struct PerspectiveCamera {
    pub horizontal: UnitVector3,
    pub up: UnitVector3,
    pub direction: UnitVector3,
    pub position: Vector3,
    pub dist_to_image: i64,
    pub aspect_ratio: i64,
    pub image_width: usize,
    pub image_height: usize,
}

impl PerspectiveCamera {
    /// The image-plane distance the constructor derives from the field
    /// of view: the reciprocal of the tangent of half the angle.
    pub open spec fn dist_s(fov: int) -> int {
        let half = fx_div_s(fov, 2 * SCALE as int);
        fx_div_s(SCALE as int, fx_div_s(sin_s(half), cos_s(half)))
    }

    /// The well-formedness the constructor establishes.
    pub open spec fn wf(self) -> bool {
        &&& self.horizontal.wf()
        &&& self.up.wf()
        &&& self.direction.wf()
        &&& 1 <= self.image_width <= MAX_IMAGE_SIDE
        &&& 1 <= self.image_height <= MAX_IMAGE_SIDE
    }

    /// A camera at `(0, 0, 1)` looking down the negative `z` axis at an
    /// image plane through the origin.  `fov` is in raw radians; the
    /// aspect ratio comes from the output dimensions.
    pub fn with_view(fov: i64, image_width: usize, image_height: usize) -> (r:
        PerspectiveCamera)
        requires
            1 <= image_width <= MAX_IMAGE_SIDE,
            1 <= image_height <= MAX_IMAGE_SIDE,
        ensures
            r.horizontal.v == (Vector3 { x: SCALE, y: 0i64, z: 0i64 }),
            r.up.v == (Vector3 { x: 0i64, y: SCALE, z: 0i64 }),
            r.direction.v == (Vector3 { x: 0i64, y: 0i64, z: (-SCALE) as i64 }),
            r.position == (Vector3 { x: 0i64, y: 0i64, z: SCALE }),
            r.dist_to_image as int == Self::dist_s(fov as int),
            r.aspect_ratio as int == fx_div_s(
                image_width as int * SCALE,
                image_height as int * SCALE,
            ),
            r.image_width == image_width,
            r.image_height == image_height,
            r.wf(),
    {
        proof {
            lemma_axis_unit();
        }
        let horizontal = UnitVector3 { v: Vector3 { x: SCALE, y: 0, z: 0 } };
        let up = UnitVector3 { v: Vector3 { x: 0, y: SCALE, z: 0 } };
        let direction = UnitVector3 { v: Vector3 { x: 0, y: 0, z: (-SCALE) as i64 } };
        let position = Vector3 { x: 0, y: 0, z: SCALE };
        // The image plane assumes x and y run over [-1, 1].
        let dist_to_image = fx_div(SCALE, tan_fx(fx_div(fov, 2 * SCALE)));
        let aspect_ratio = fx_div(image_width as i64 * SCALE, image_height as i64 * SCALE);
        PerspectiveCamera {
            horizontal,
            up,
            direction,
            position,
            dist_to_image,
            aspect_ratio,
            image_width,
            image_height,
        }
    }

    /// A camera in general position: the basis comes from the viewing
    /// direction and the stated up direction by two cross products, so
    /// the three are orthogonal.  Fails when either cross product
    /// degenerates (a direction parallel to the stated up).
    pub fn with_pose(
        position: Vector3,
        direction: UnitVector3,
        up: UnitVector3,
        fov: i64,
        image_width: usize,
        image_height: usize,
    ) -> (r: Result<PerspectiveCamera, crate::general::RayError>)
        requires
            direction.wf(),
            1 <= image_width <= MAX_IMAGE_SIDE,
            1 <= image_height <= MAX_IMAGE_SIDE,
        ensures
            ({
                let hv = direction.v.cross_s(up.v);
                hv.normalize_ok() && (hv.normalize_s().cross_s(direction.v)).normalize_ok()
            }) <==> r is Ok,
            r matches Ok(c) ==> {
                let hv = direction.v.cross_s(up.v);
                let uv = hv.normalize_s().cross_s(direction.v);
                &&& c.horizontal.v == hv.normalize_s()
                &&& c.up.v == uv.normalize_s()
                &&& c.direction == direction
                &&& c.position == position
                &&& c.dist_to_image as int == Self::dist_s(fov as int)
                &&& c.aspect_ratio as int == fx_div_s(
                    image_width as int * SCALE,
                    image_height as int * SCALE,
                )
                &&& c.image_width == image_width
                &&& c.image_height == image_height
                &&& c.wf()
            },
    {
        let horizontal = match direction.into_vector().cross(up.into_vector()).normalized() {
            Ok(h) => h,
            Err(e) => {
                return Err(e);
            },
        };
        let up2 = match horizontal.into_vector().cross(direction.into_vector()).normalized() {
            Ok(u) => u,
            Err(e) => {
                return Err(e);
            },
        };
        let dist_to_image = fx_div(SCALE, tan_fx(fx_div(fov, 2 * SCALE)));
        let aspect_ratio = fx_div(image_width as i64 * SCALE, image_height as i64 * SCALE);
        Ok(
            PerspectiveCamera {
                horizontal,
                up: up2,
                direction,
                position,
                dist_to_image,
                aspect_ratio,
                image_width,
                image_height,
            },
        )
    }

    pub fn image_dimensions(&self) -> (r: (usize, usize))
        ensures
            r.0 == self.image_width,
            r.1 == self.image_height,
    {
        (self.image_width, self.image_height)
    }

    /// The direction `shoot_at` aims at, before normalization:
    /// `x * horizontal * aspect + y * up + dist * direction - position`.
    pub open spec fn aim_s(self, x: int, y: int) -> Vector3 {
        self.horizontal.v.scale_s(x).scale_s(self.aspect_ratio as int).add_s(
            self.up.v.scale_s(y),
        ).add_s(self.direction.v.scale_s(self.dist_to_image as int)).sub_s(self.position)
    }

    /// A ray from the camera toward image-plane coordinates
    /// `x, y` in `[-1, 1]`; nothing when the aimed direction degenerates
    /// (a caller error, reported rather than handled).
    pub fn shoot_at(&self, x: i64, y: i64) -> (r: Option<Ray>)
        ensures
            self.aim_s(x as int, y as int).normalize_ok() <==> r is Some,
            r matches Some(ray) ==> {
                &&& ray.origin == self.position
                &&& ray.direction.v == self.aim_s(x as int, y as int).normalize_s()
                &&& ray.direction.wf()
            },
    {
        let ray_direction = self.horizontal.scale(x).scale(self.aspect_ratio).add(
            self.up.scale(y),
        ).add(self.direction.scale(self.dist_to_image)).sub(self.position);
        match ray_direction.normalized() {
            Ok(u) => Some(Ray { origin: self.position, direction: u }),
            Err(_) => None,
        }
    }
}

/// A coordinate axis scaled to one unit is a well-formed unit vector.
proof fn lemma_axis_unit()
    ensures
        crate::vector::is_unit_v(Vector3 { x: SCALE, y: 0i64, z: 0i64 }),
        crate::vector::is_unit_v(Vector3 { x: 0i64, y: SCALE, z: 0i64 }),
        crate::vector::is_unit_v(Vector3 { x: 0i64, y: 0i64, z: (-SCALE) as i64 }),
{
    assert(SCALE as int * SCALE as int == 1_000_000_000_000int) by (nonlinear_arith);
    assert((-SCALE as int) * (-SCALE as int) == 1_000_000_000_000int) by (nonlinear_arith);
    assert(1_000_000_000_000int / 1_000_000int == 1_000_000int) by (nonlinear_arith);
    assert(fx_mul_s(SCALE as int, SCALE as int) == SCALE as int);
    assert(fx_mul_s(-SCALE as int, -SCALE as int) == SCALE as int);
    assert(fx_mul_s(0int, 0int) == 0int);
}

} // verus!
