//! The scene graph and the recursive shading engine.
//!
//! `trace` casts a ray into the scene `n` times: ambient term, per-light
//! diffuse and Blinn-style specular contribution gated by a shadow ray,
//! then one mirror-reflection recursion per depth level.  Per-ray
//! conditions are not errors: a missing intersection falls back to the
//! ambient color, a degenerate direction skips its contribution.

use vstd::prelude::*;
use crate::fixed::{fx_div_s, fx_div, EPSILON};
use crate::vector::{Vector3, UnitVector3};
use crate::ray::Ray;
use crate::general::{Color, Light, powi_full_s, fx_powi};
use crate::objects::{Object3D, Intersection};

verus! {

/// Offset along the normal that nudges a shadow or reflection origin off
/// the surface it starts from (against "shadow acne").
pub const BIAS: i64 = 100;

/// A collection of things rendered together.  Immutable once built and
/// shared read-only by every render worker.
#[derive(Debug)]
pub struct Scene {
    pub ambient_color: Color,
    /// Vertical field of view, raw radians.
    pub fov: i64,
    pub lights: Vec<Light>,
    pub objects: Vec<Object3D>,
}

/// The nearest hit over the scene's objects, scanning from index `i`
/// with the best hit so far; the earliest of equally near hits survives.
pub open spec fn scene_nearest_from_s(
    objects: Seq<Object3D>,
    ray: Ray,
    tmin: int,
    i: int,
    acc: Option<Intersection>,
) -> Option<Intersection>
    decreases objects.len() - i,
{
    if i < 0 || i >= objects.len() {
        acc
    } else {
        let h = objects[i].hit_s(ray, tmin);
        let acc2 = match (acc, h) {
            (Option::Some(a), Option::Some(x)) => if x.t < a.t {
                Option::Some(x)
            } else {
                Option::Some(a)
            },
            (Option::None, x) => x,
            (a, Option::None) => a,
        };
        scene_nearest_from_s(objects, ray, tmin, i + 1, acc2)
    }
}

/// Zero floor: negative raw values contribute nothing.
pub open spec fn fmax0(x: int) -> int {
    if x < 0 {
        0
    } else {
        x
    }
}

impl Scene {
    /// Globally nearest hit across every object.
    pub open spec fn hit_s(self, ray: Ray, tmin: int) -> Option<Intersection> {
        scene_nearest_from_s(self.objects@, ray, tmin, 0, Option::None)
    }

    /// What one light adds at a hit: nothing when the light sits at the
    /// hit point (degenerate direction), when the shadow ray from the
    /// nudged point is blocked, or when the half-vector degenerates;
    /// otherwise the diffuse term plus the specular term, both scaled by
    /// intensity over distance.
    pub open spec fn light_term_s(
        self,
        intr: Intersection,
        off_surface: Vector3,
        light: Light,
    ) -> Color {
        let v = light.position.sub_s(intr.point);
        if !v.normalize_ok() {
            Color { r: 0i64, g: 0i64, b: 0i64 }
        } else {
            let towards = v.normalize_s();
            let shadow_ray = Ray {
                origin: off_surface,
                direction: UnitVector3 { v: towards },
            };
            if self.hit_s(shadow_ray, EPSILON as int) is Some {
                Color { r: 0i64, g: 0i64, b: 0i64 }
            } else {
                let intensity = fx_div_s(light.intensity as int, v.length_s()) as i64;
                let bisector = intr.incoming.v.neg_s().add_s(towards);
                if !bisector.normalize_ok() {
                    Color { r: 0i64, g: 0i64, b: 0i64 }
                } else {
                    let d = intr.normal.v.dot_s(towards);
                    let s = intr.normal.v.dot_s(bisector.normalize_s());
                    let diffuse = intr.material.color.scale_s(intensity as int).scale_s(
                        fmax0(d),
                    );
                    let specular = light.color.scale_s(intensity as int).scale_s(
                        powi_full_s(fmax0(s), intr.material.shininess as int),
                    );
                    diffuse.add_s(specular)
                }
            }
        }
    }

    /// The light terms accumulated onto `acc`, in scene order, starting
    /// at light `i`.
    pub open spec fn lights_from_s(
        self,
        intr: Intersection,
        off_surface: Vector3,
        i: int,
        acc: Color,
    ) -> Color
        decreases self.lights@.len() - i,
    {
        if i < 0 || i >= self.lights@.len() {
            acc
        } else {
            self.lights_from_s(
                intr,
                off_surface,
                i + 1,
                acc.add_s(self.light_term_s(intr, off_surface, self.lights@[i])),
            )
        }
    }

    /// The color `trace` returns: the ambient term always; at a hit with
    /// depth left, every unshadowed light's contribution and the color
    /// seen by the mirror-reflected ray, one recursion per depth level.
    /// A reflection whose direction degenerates contributes nothing.
    pub open spec fn trace_s(self, ray: Ray, n: nat) -> Color
        decreases n,
    {
        if n > 0 {
            match self.hit_s(ray, EPSILON as int) {
                Option::Some(intr) => {
                    let off_surface = intr.point.add_s(intr.normal.v.scale_s(BIAS as int));
                    let lit = self.lights_from_s(intr, off_surface, 0, self.ambient_color);
                    let refl_v = crate::vector::reflect_raw_s(intr.incoming.v, intr.normal.v);
                    if refl_v.normalize_ok() {
                        let reflected = Ray {
                            origin: off_surface,
                            direction: UnitVector3 { v: refl_v.normalize_s() },
                        };
                        lit.add_s(self.trace_s(reflected, (n - 1) as nat))
                    } else {
                        lit
                    }
                },
                Option::None => self.ambient_color,
            }
        } else {
            self.ambient_color
        }
    }

    /// The color `color_debug` returns: the hit's normal as a color, or
    /// the ambient color on a miss.
    pub open spec fn color_debug_s(self, ray: Ray) -> Color {
        match self.hit_s(ray, EPSILON as int) {
            Option::Some(intr) => Color {
                r: intr.normal.v.x,
                g: intr.normal.v.y,
                b: intr.normal.v.z,
            },
            Option::None => self.ambient_color,
        }
    }

    /// Globally nearest hit across every object past `tmin`.
    pub fn intersect(&self, ray: &Ray, tmin: i64) -> (r: Option<Intersection>)
        ensures
            r == self.hit_s(*ray, tmin as int),
    {
        let mut acc: Option<Intersection> = None;
        let mut i: usize = 0;
        while i < self.objects.len()
            invariant
                i <= self.objects.len(),
                scene_nearest_from_s(self.objects@, *ray, tmin as int, 0, Option::None)
                    == scene_nearest_from_s(self.objects@, *ray, tmin as int, i as int, acc),
            decreases self.objects.len() - i,
        {
            let h = self.objects[i].intersect(ray, tmin);
            acc = match (acc, h) {
                (Some(a), Some(x)) => if x.t < a.t {
                    Some(x)
                } else {
                    Some(a)
                },
                (None, x) => x,
                (a, None) => a,
            };
            i = i + 1;
        }
        acc
    }

    /// Recursive Whitted-style shading, `n` traces deep.
    pub fn trace(&self, ray: &Ray, n: usize) -> (c: Color)
        ensures
            c == self.trace_s(*ray, n as nat),
        decreases n,
    {
        if n == 0 {
            return self.ambient_color;
        }
        match self.intersect(ray, EPSILON) {
            Some(intr) => {
                let off_surface = intr.point.add(intr.normal.scale(BIAS));
                let mut color = self.ambient_color;
                let mut i: usize = 0;
                while i < self.lights.len()
                    invariant
                        i <= self.lights.len(),
                        self.lights_from_s(intr, off_surface, 0, self.ambient_color)
                            == self.lights_from_s(intr, off_surface, i as int, color),
                    decreases self.lights.len() - i,
                {
                    let term = self.light_term(intr, off_surface, self.lights[i]);
                    color = color.add(term);
                    i = i + 1;
                }
                match intr.incoming.reflect(intr.normal) {
                    Ok(dir) => {
                        let reflected = Ray { origin: off_surface, direction: dir };
                        color.add(self.trace(&reflected, n - 1))
                    },
                    Err(_) => color,
                }
            },
            None => self.ambient_color,
        }
    }

    /// Color a single hit by its surface normal, for inspecting geometry.
    pub fn color_debug(&self, ray: &Ray) -> (c: Color)
        ensures
            c == self.color_debug_s(*ray),
    {
        match self.intersect(ray, EPSILON) {
            Some(intr) => {
                let nv = intr.normal.into_vector();
                Color::new(nv.x, nv.y, nv.z)
            },
            None => self.ambient_color,
        }
    }

    fn light_term(&self, intr: Intersection, off_surface: Vector3, light: Light) -> (c: Color)
        ensures
            c == self.light_term_s(intr, off_surface, light),
    {
        let v = light.position.sub(intr.point);
        let towards = match v.normalized() {
            Ok(u) => u,
            Err(_) => {
                return Color::black();
            },
        };
        let shadow_ray = Ray { origin: off_surface, direction: towards };
        if self.intersect(&shadow_ray, EPSILON).is_some() {
            return Color::black();
        }
        let intensity = fx_div(light.intensity, v.length());
        let bisector_v = intr.incoming.neg().into_vector().add(towards.into_vector());
        let bisector = match bisector_v.normalized() {
            Ok(u) => u,
            Err(_) => {
                return Color::black();
            },
        };
        let d = intr.normal.dot(towards.into_vector());
        let s = intr.normal.dot(bisector.into_vector());
        let d0 = if d < 0 {
            0
        } else {
            d
        };
        let s0 = if s < 0 {
            0
        } else {
            s
        };
        let diffuse = intr.material.color.scale(intensity).scale(d0);
        let specular = light.color.scale(intensity).scale(fx_powi(s0, intr.material.shininess));
        diffuse.add(specular)
    }
}

/// LAW — a blocked light is a dark light: when the shadow ray from the
/// nudged surface point hits anything, that light contributes neither
/// diffuse nor specular color at the hit.
pub proof fn lemma_occluded_light_contributes_nothing(
    scene: Scene,
    intr: Intersection,
    off_surface: Vector3,
    light: Light,
)
    requires
        ({
            let v = light.position.sub_s(intr.point);
            v.normalize_ok() && scene.hit_s(
                Ray { origin: off_surface, direction: UnitVector3 { v: v.normalize_s() } },
                EPSILON as int,
            ) is Some
        }),
    ensures
        scene.light_term_s(intr, off_surface, light) == (Color { r: 0i64, g: 0i64, b: 0i64 }),
{
}

/// LAW — every miss falls back to ambient: a ray that intersects
/// nothing is shaded with the ambient color alone, at any depth, as is
/// any ray once the depth runs out.
pub proof fn lemma_miss_is_ambient(scene: Scene, ray: Ray, n: nat)
    requires
        n == 0 || scene.hit_s(ray, EPSILON as int) is None,
    ensures
        scene.trace_s(ray, n) == scene.ambient_color,
{
}

} // verus!
