//! A ray tracer over fixed-point arithmetic: geometric primitives, a
//! scene graph with transformable objects and lights, a recursive
//! Whitted-style shader, and a banded tiled renderer, each with a
//! contract stating the exact value it computes.

use vstd::prelude::*;

pub mod camera;
pub mod desc;
pub mod fixed;
pub mod general;
pub mod lerp;
pub mod matrix;
pub mod objects;
pub mod ray;
pub mod render;
pub mod scene;
pub mod solver;
pub mod transform;
pub mod trig;
pub mod util;
pub mod vector;

use crate::fixed::{fx_add_s, fx_sub_s, fx_mul_s, fx_add, fx_sub, fx_mul, SCALE};
use crate::vector::Vector3;
use crate::general::Color;
use crate::ray::Ray;

verus! {

/// The demo shader hits its sphere when the half-discriminant of the
/// sphere quadratic is strictly positive.
pub open spec fn hit_sphere_s(center: Vector3, radius: int, ray: Ray) -> bool {
    let oc = ray.origin.sub_s(center);
    let a = ray.direction.v.length2_s();
    let half_b = oc.dot_s(ray.direction.v);
    let c = fx_sub_s(oc.length2_s(), fx_mul_s(radius, radius));
    fx_sub_s(fx_mul_s(half_b, half_b), fx_mul_s(a, c)) > 0
}

fn hit_sphere(center: Vector3, radius: i64, ray: &Ray) -> (r: bool)
    ensures
        r == hit_sphere_s(center, radius as int, *ray),
{
    let oc = ray.origin.sub(center);
    let a = ray.direction.into_vector().length2();
    let half_b = oc.dot(ray.direction.into_vector());
    let c = fx_sub(oc.length2(), fx_mul(radius, radius));
    fx_sub(fx_mul(half_b, half_b), fx_mul(a, c)) > 0
}

/// The color `shade` returns: solid red inside the demo sphere, else a
/// white-to-sky gradient over the ray's upward tilt.
pub open spec fn shade_s(ray: Ray) -> Color {
    if hit_sphere_s(Vector3 { x: 0i64, y: 0i64, z: (-SCALE) as i64 }, (SCALE / 2) as int, ray) {
        Color { r: SCALE, g: 0i64, b: 0i64 }
    } else {
        let a = fx_mul_s((SCALE / 2) as int, fx_add_s(ray.direction.v.y as int, SCALE as int))
            as i64;
        let white = Color { r: SCALE, g: SCALE, b: SCALE };
        let sky = Color { r: (SCALE / 2) as i64, g: (SCALE * 7 / 10) as i64, b: SCALE };
        white.scale_s(fx_sub_s(SCALE as int, a as int)).add_s(sky.scale_s(a as int))
    }
}

/// Shade one ray against a fixed demo scene: a half-unit sphere one
/// unit down the viewing axis over a sky gradient.
pub fn shade(ray: Ray) -> (c: Color)
    ensures
        c == shade_s(ray),
{
    if hit_sphere(Vector3 { x: 0, y: 0, z: -SCALE }, SCALE / 2, &ray) {
        return Color::new(SCALE, 0, 0);
    }
    let a = fx_mul(SCALE / 2, fx_add(ray.direction.into_vector().y, SCALE));
    let white = Color::new(SCALE, SCALE, SCALE);
    let sky = Color::new(SCALE / 2, SCALE * 7 / 10, SCALE);
    white.scale(fx_sub(SCALE, a)).add(sky.scale(a))
}

} // verus!
