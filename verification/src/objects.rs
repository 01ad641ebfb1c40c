//! Geometric primitives and transformable objects, with their
//! ray-intersection procedures.
//!
//! Each shape reports the nearest valid hit past `tmin` along a single
//! ray, or nothing.  The contracts state the exact hit produced; the
//! supporting laws say that the reported parameter is the smallest
//! candidate past `tmin`.

use vstd::prelude::*;
use crate::fixed::{fx_mul_s, fx_sub_s, fx_add_s, fx_div_s, sat64, fx_mul, fx_sub, fx_add,
    fx_div, fx_neg, narrow64, SCALE, EPSILON};
use crate::vector::{Vector3, UnitVector3, Vector4};
use crate::matrix::SquareMatrix4;
use crate::ray::Ray;
use crate::general::{Material, RayError};
use crate::solver::{quad_os, quartic_s, min_greater_s, wadd_s, wsub_s, wmul_s, wadd, wsub,
    wmul, quartic_o, min_greater_than, quad_o};

verus! {

/// A transient record of one ray-surface hit.
#[derive(Clone, Copy, Debug, PartialEq, Eq, Structural)]
pub struct Intersection {
    /// Ray parameter of the hit, strictly past the caller's `tmin`.
    pub t: i64,
    /// Ray direction at the hit.
    pub incoming: UnitVector3,
    /// The hit point.
    pub point: Vector3,
    /// Surface normal at the hit.
    pub normal: UnitVector3,
    /// Material of the surface hit.
    pub material: Material,
}

/// The closed set of primitives.
#[derive(Clone, Copy, Debug, PartialEq, Eq, Structural)]
pub enum Shape {
    Sphere { origin: Vector3, radius: i64 },
    Plane { offset: i64, normal: UnitVector3 },
    Triangle { v0: Vector3, v1: Vector3, v2: Vector3, normal: UnitVector3 },
    Torus { origin: Vector3, inner_radius: i64, tube_radius: i64 },
}

/// The two sphere quadratic roots as candidates (the quadratic is monic:
/// the direction is unit).
pub open spec fn sphere_candidates_s(origin: Vector3, radius: int, ray: Ray) -> Seq<int> {
    let tro = ray.origin.sub_s(origin);
    let b = fx_mul_s(2 * SCALE as int, ray.direction.v.dot_s(tro));
    let c = fx_sub_s(tro.dot_s(tro), fx_mul_s(radius, radius));
    match quad_os(Option::Some(SCALE as int), Option::Some(b), Option::Some(c)) {
        Option::Some((x1, x2)) => seq![x1, x2],
        Option::None => Seq::empty(),
    }
}

/// The hit the sphere procedure produces: the smallest candidate past
/// `tmin`, its point, and the outward normal; nothing when no candidate
/// clears `tmin` or the normal degenerates.
pub open spec fn sphere_hit_s(
    origin: Vector3,
    radius: int,
    ray: Ray,
    tmin: int,
    material: Material,
) -> Option<Intersection> {
    match min_greater_s(sphere_candidates_s(origin, radius, ray), tmin) {
        Option::Some(tw) => {
            let t = sat64(tw) as i64;
            let p = ray.cast_s(t as int);
            let nv = p.sub_s(origin);
            if nv.normalize_ok() {
                Option::Some(
                    Intersection {
                        t,
                        incoming: ray.direction,
                        point: p,
                        normal: UnitVector3 { v: nv.normalize_s() },
                        material,
                    },
                )
            } else {
                Option::None
            }
        },
        Option::None => Option::None,
    }
}

/// Ray-sphere intersection by the quadratic formula.
pub fn sphere_intersect(
    origin: Vector3,
    radius: i64,
    ray: &Ray,
    tmin: i64,
    material: Material,
) -> (r: Option<Intersection>)
    ensures
        r == sphere_hit_s(origin, radius as int, *ray, tmin as int, material),
{
    let tro = ray.origin.sub(origin);
    let b = fx_mul(2 * SCALE, ray.direction.dot(tro));
    let c = fx_sub(tro.dot(tro), fx_mul(radius, radius));
    let mut cands: Vec<i128> = Vec::new();
    match quad_o(Some(SCALE as i128), Some(b as i128), Some(c as i128)) {
        Some((x1, x2)) => {
            cands.push(x1);
            cands.push(x2);
            proof {
                assert(crate::solver::seq_i(cands@) =~= sphere_candidates_s(
                    origin, radius as int, *ray,
                ));
            }
        },
        None => {
            proof {
                assert(crate::solver::seq_i(cands@) =~= sphere_candidates_s(
                    origin, radius as int, *ray,
                ));
            }
        },
    }
    match min_greater_than(tmin as i128, &cands) {
        Some(tw) => {
            let t = narrow64(tw);
            let p = ray.cast(t);
            let nv = p.sub(origin);
            match nv.normalized() {
                Ok(u) => Some(
                    Intersection { t, incoming: ray.direction, point: p, normal: u, material },
                ),
                Err(_) => None,
            }
        },
        None => None,
    }
}

/// The hit the plane procedure produces.  A ray within the zero band of
/// parallel misses, the coincident case included: an infinitely thin
/// plane is not rendered as a surface seen edge-on.
pub open spec fn plane_hit_s(
    offset: int,
    normal: UnitVector3,
    ray: Ray,
    tmin: int,
    material: Material,
) -> Option<Intersection> {
    let denominator = ray.direction.v.dot_s(normal.v);
    if -EPSILON <= denominator <= EPSILON {
        Option::None
    } else {
        let nominator = sat64(-fx_add_s(offset, normal.v.dot_s(ray.origin)));
        let t = fx_div_s(nominator, denominator) as i64;
        if tmin < t {
            Option::Some(
                Intersection {
                    t,
                    incoming: ray.direction,
                    point: ray.cast_s(t as int),
                    normal,
                    material,
                },
            )
        } else {
            Option::None
        }
    }
}

/// Ray-plane intersection for the implicit form `normal . P + offset = 0`.
pub fn plane_intersect(
    offset: i64,
    normal: UnitVector3,
    ray: &Ray,
    tmin: i64,
    material: Material,
) -> (r: Option<Intersection>)
    ensures
        r == plane_hit_s(offset as int, normal, *ray, tmin as int, material),
{
    let denominator = ray.direction.dot(normal.into_vector());
    if -EPSILON <= denominator && denominator <= EPSILON {
        return None;
    }
    let nominator = fx_neg(fx_add(offset, normal.dot(ray.origin)));
    let t = fx_div(nominator, denominator);
    if tmin < t {
        Some(
            Intersection { t, incoming: ray.direction, point: ray.cast(t), normal, material },
        )
    } else {
        None
    }
}

/// The hit the triangle procedure produces: the supporting plane's hit,
/// kept when the three same-winding inside tests all pass.
pub open spec fn triangle_hit_s(
    v0: Vector3,
    v1: Vector3,
    v2: Vector3,
    normal: UnitVector3,
    ray: Ray,
    tmin: int,
    material: Material,
) -> Option<Intersection> {
    let nv = normal.v;
    let d = nv.dot_s(v0);
    let denom = nv.dot_s(ray.direction.v);
    if -EPSILON <= denom <= EPSILON {
        Option::None
    } else {
        let t = fx_div_s(fx_sub_s(d, nv.dot_s(ray.origin)), denom) as i64;
        let q = ray.cast_s(t as int);
        let x1 = v1.sub_s(v0).cross_s(q.sub_s(v0)).dot_s(nv);
        let x2 = v2.sub_s(v1).cross_s(q.sub_s(v1)).dot_s(nv);
        let x3 = v0.sub_s(v2).cross_s(q.sub_s(v2)).dot_s(nv);
        if tmin < t && x1 >= 0 && x2 >= 0 && x3 >= 0 {
            Option::Some(
                Intersection { t, incoming: ray.direction, point: q, normal, material },
            )
        } else {
            Option::None
        }
    }
}

/// Ray-triangle intersection: supporting plane, then the inside-outside
/// test by three cross products against the stored normal.  A degenerate
/// triangle simply fails the inside tests.
pub fn triangle_intersect(
    v0: Vector3,
    v1: Vector3,
    v2: Vector3,
    normal: UnitVector3,
    ray: &Ray,
    tmin: i64,
    material: Material,
) -> (r: Option<Intersection>)
    ensures
        r == triangle_hit_s(v0, v1, v2, normal, *ray, tmin as int, material),
{
    let nv = normal.into_vector();
    let d = nv.dot(v0);
    let denom = nv.dot(ray.direction.into_vector());
    if -EPSILON <= denom && denom <= EPSILON {
        return None;
    }
    let t = fx_div(fx_sub(d, nv.dot(ray.origin)), denom);
    let q = ray.cast(t);
    let x1 = v1.sub(v0).cross(q.sub(v0)).dot(nv);
    let x2 = v2.sub(v1).cross(q.sub(v1)).dot(nv);
    let x3 = v0.sub(v2).cross(q.sub(v2)).dot(nv);
    if tmin < t && x1 >= 0 && x2 >= 0 && x3 >= 0 {
        Some(Intersection { t, incoming: ray.direction, point: q, normal, material })
    } else {
        None
    }
}

/// The monic quartic coefficients of the torus equation, over checked
/// wide values, from the two radii and the ray carried into the torus's
/// local space (its origin subtracted).
pub open spec fn torus_coeffs_s(origin: Vector3, ir: int, tr: int, ray: Ray) -> (Option<int>,
    Option<int>, Option<int>, Option<int>) {
    let dp = ray.origin.sub_s(origin);
    let evx = Option::Some(ray.direction.v.x as int);
    let evy = Option::Some(ray.direction.v.y as int);
    let evz = Option::Some(ray.direction.v.z as int);
    let dpx = Option::Some(dp.x as int);
    let dpy = Option::Some(dp.y as int);
    let dpz = Option::Some(dp.z as int);
    let ir2 = wmul_s(Option::Some(ir), Option::Some(ir));
    let g = wmul_s(
        wmul_s(Option::Some(4 * SCALE as int), ir2),
        wadd_s(wmul_s(evx, evx), wmul_s(evy, evy)),
    );
    let h = wmul_s(
        wmul_s(Option::Some(8 * SCALE as int), ir2),
        wadd_s(wmul_s(dpx, evx), wmul_s(dpy, evy)),
    );
    let i = wmul_s(
        wmul_s(Option::Some(4 * SCALE as int), ir2),
        wadd_s(wmul_s(dpx, dpx), wmul_s(dpy, dpy)),
    );
    let j = wadd_s(wadd_s(wmul_s(evx, evx), wmul_s(evy, evy)), wmul_s(evz, evz));
    let k = wmul_s(
        Option::Some(2 * SCALE as int),
        wadd_s(wadd_s(wmul_s(dpx, evx), wmul_s(dpy, evy)), wmul_s(dpz, evz)),
    );
    let l = wsub_s(
        wadd_s(
            wadd_s(wadd_s(wmul_s(dpx, dpx), wmul_s(dpy, dpy)), wmul_s(dpz, dpz)),
            ir2,
        ),
        wmul_s(Option::Some(tr), Option::Some(tr)),
    );
    let c3 = wmul_s(Option::Some(2 * SCALE as int), wmul_s(j, k));
    let c2 = wsub_s(
        wadd_s(wmul_s(Option::Some(2 * SCALE as int), wmul_s(j, l)), wmul_s(k, k)),
        g,
    );
    let c1 = wsub_s(wmul_s(Option::Some(2 * SCALE as int), wmul_s(k, l)), h);
    let c0 = wsub_s(wmul_s(l, l), i);
    (c3, c2, c1, c0)
}

/// The hit the torus procedure produces: the smallest real quartic root
/// past `tmin`; the normal points from the tube's center circle to the
/// hit point.  Nothing when no root clears `tmin`, or a normal step
/// degenerates.
pub open spec fn torus_hit_s(
    origin: Vector3,
    ir: int,
    tr: int,
    ray: Ray,
    tmin: int,
    material: Material,
) -> Option<Intersection> {
    let (c3, c2, c1, c0) = torus_coeffs_s(origin, ir, tr, ray);
    let roots = quartic_s(c3, c2, c1, c0);
    match min_greater_s(roots, tmin) {
        Option::Some(tw) => {
            let t = sat64(tw) as i64;
            let point = ray.cast_s(t as int);
            let pv = point.sub_s(origin);
            if !pv.normalize_ok() {
                Option::None
            } else {
                let p = pv.normalize_s();
                let shadow = Vector3 { x: p.x, y: p.y, z: 0i64 };
                if !shadow.normalize_ok() {
                    Option::None
                } else {
                    let q = shadow.normalize_s().scale_s(ir);
                    let nv = pv.sub_s(q);
                    if !nv.normalize_ok() {
                        Option::None
                    } else {
                        Option::Some(
                            Intersection {
                                t,
                                incoming: ray.direction,
                                point,
                                normal: UnitVector3 { v: nv.normalize_s() },
                                material,
                            },
                        )
                    }
                }
            }
        },
        Option::None => Option::None,
    }
}

/// Ray-torus intersection: the implicit torus equation yields a monic
/// quartic in the ray parameter, solved in wide precision.
pub fn torus_intersect(
    origin: Vector3,
    ir: i64,
    tr: i64,
    ray: &Ray,
    tmin: i64,
    material: Material,
) -> (r: Option<Intersection>)
    ensures
        r == torus_hit_s(origin, ir as int, tr as int, *ray, tmin as int, material),
{
    let dp = ray.origin.sub(origin);
    let evx: Option<i128> = Some(ray.direction.v.x as i128);
    let evy: Option<i128> = Some(ray.direction.v.y as i128);
    let evz: Option<i128> = Some(ray.direction.v.z as i128);
    let dpx: Option<i128> = Some(dp.x as i128);
    let dpy: Option<i128> = Some(dp.y as i128);
    let dpz: Option<i128> = Some(dp.z as i128);
    let ir2 = wmul(Some(ir as i128), Some(ir as i128));
    let g = wmul(
        wmul(Some(4 * SCALE as i128), ir2),
        wadd(wmul(evx, evx), wmul(evy, evy)),
    );
    let h = wmul(
        wmul(Some(8 * SCALE as i128), ir2),
        wadd(wmul(dpx, evx), wmul(dpy, evy)),
    );
    let i = wmul(
        wmul(Some(4 * SCALE as i128), ir2),
        wadd(wmul(dpx, dpx), wmul(dpy, dpy)),
    );
    let j = wadd(wadd(wmul(evx, evx), wmul(evy, evy)), wmul(evz, evz));
    let k = wmul(
        Some(2 * SCALE as i128),
        wadd(wadd(wmul(dpx, evx), wmul(dpy, evy)), wmul(dpz, evz)),
    );
    let l = wsub(
        wadd(
            wadd(wadd(wmul(dpx, dpx), wmul(dpy, dpy)), wmul(dpz, dpz)),
            ir2,
        ),
        wmul(Some(tr as i128), Some(tr as i128)),
    );
    let c3 = wmul(Some(2 * SCALE as i128), wmul(j, k));
    let c2 = wsub(
        wadd(wmul(Some(2 * SCALE as i128), wmul(j, l)), wmul(k, k)),
        g,
    );
    let c1 = wsub(wmul(Some(2 * SCALE as i128), wmul(k, l)), h);
    let c0 = wsub(wmul(l, l), i);
    let roots = quartic_o(c3, c2, c1, c0);
    match min_greater_than(tmin as i128, &roots) {
        Some(tw) => {
            let t = narrow64(tw);
            let point = ray.cast(t);
            let pv = point.sub(origin);
            match pv.normalized() {
                Ok(p) => {
                    let shadow = Vector3 { x: p.v.x, y: p.v.y, z: 0 };
                    match shadow.normalized() {
                        Ok(ps) => {
                            let q = ps.scale(ir);
                            let nv = pv.sub(q);
                            match nv.normalized() {
                                Ok(n) => Some(
                                    Intersection {
                                        t,
                                        incoming: ray.direction,
                                        point,
                                        normal: n,
                                        material,
                                    },
                                ),
                                Err(_) => None,
                            }
                        },
                        Err(_) => None,
                    }
                },
                Err(_) => None,
            }
        },
        None => None,
    }
}

/// The hit one shape produces for this ray.
pub open spec fn shape_hit_s(shape: Shape, ray: Ray, tmin: int, material: Material) -> Option<
    Intersection> {
    match shape {
        Shape::Sphere { origin, radius } => sphere_hit_s(
            origin, radius as int, ray, tmin, material,
        ),
        Shape::Plane { offset, normal } => plane_hit_s(
            offset as int, normal, ray, tmin, material,
        ),
        Shape::Triangle { v0, v1, v2, normal } => triangle_hit_s(
            v0, v1, v2, normal, ray, tmin, material,
        ),
        Shape::Torus { origin, inner_radius, tube_radius } => torus_hit_s(
            origin, inner_radius as int, tube_radius as int, ray, tmin, material,
        ),
    }
}

/// The nearest hit over a list of shapes, scanning from index `i` with
/// the best hit so far: a later hit replaces the current one only when
/// strictly nearer, so the earliest of equally near hits survives.
pub open spec fn nearest_from_s(
    shapes: Seq<Shape>,
    ray: Ray,
    tmin: int,
    material: Material,
    i: int,
    acc: Option<Intersection>,
) -> Option<Intersection>
    decreases shapes.len() - i,
{
    if i < 0 || i >= shapes.len() {
        acc
    } else {
        let h = shape_hit_s(shapes[i], ray, tmin, material);
        let acc2 = match (acc, h) {
            (Option::Some(a), Option::Some(x)) => if x.t < a.t {
                Option::Some(x)
            } else {
                Option::Some(a)
            },
            (Option::None, x) => x,
            (a, Option::None) => a,
        };
        nearest_from_s(shapes, ray, tmin, material, i + 1, acc2)
    }
}

/// An intersectable collection of shapes sharing one material, with an
/// optional transform whose inverse is cached at construction.
#[derive(Clone, Debug)]
pub struct Object3D {
    /// The object's transform as given, kept to carry hit points back
    /// to world space.
    pub transform: Option<SquareMatrix4>,
    /// The cached inverse of that transform, applied to every incoming
    /// ray; computed once at construction because every intersection
    /// uses it.
    pub inverse: Option<SquareMatrix4>,
    pub shapes: Vec<Shape>,
    pub material: Material,
}

impl Object3D {
    /// The hit this object produces: intersect every shape in the space
    /// the cached inverse carries the ray to, keep the nearest, then
    /// return to world space: the hit point through the transform, the
    /// winning normal through the transpose of the inverse, and the
    /// incoming direction as the world ray's own.  A ray whose
    /// transformed direction degenerates misses.
    pub open spec fn hit_s(self, ray: Ray, tmin: int) -> Option<Intersection> {
        match (self.transform, self.inverse) {
            (Option::Some(fwd), Option::Some(inv)) => if !Ray::transformed_dir_s(
                ray.direction,
                inv,
            ).normalize_ok() {
                Option::None
            } else {
                let ray2 = Ray {
                    origin: Ray::transformed_origin_s(ray.origin, inv),
                    direction: UnitVector3 {
                        v: Ray::transformed_dir_s(ray.direction, inv).normalize_s(),
                    },
                };
                match nearest_from_s(
                    self.shapes@, ray2, tmin, self.material, 0, Option::None,
                ) {
                    Option::Some(intr) => {
                        let nw = inv.transposed_s().mul_v4_s(
                            Vector4 {
                                x: intr.normal.v.x,
                                y: intr.normal.v.y,
                                z: intr.normal.v.z,
                                w: 0i64,
                            },
                        ).xyz_s();
                        let pw = fwd.mul_v4_s(
                            Vector4 {
                                x: intr.point.x,
                                y: intr.point.y,
                                z: intr.point.z,
                                w: SCALE,
                            },
                        ).xyz_s();
                        if nw.normalize_ok() {
                            Option::Some(
                                Intersection {
                                    t: intr.t,
                                    incoming: ray.direction,
                                    point: pw,
                                    normal: UnitVector3 { v: nw.normalize_s() },
                                    material: intr.material,
                                },
                            )
                        } else {
                            Option::None
                        }
                    },
                    Option::None => Option::None,
                }
            },
            _ => nearest_from_s(self.shapes@, ray, tmin, self.material, 0, Option::None),
        }
    }

    /// Build an object; the transform, when present, is inverted here
    /// once, so every intersection reuses the cached inverse.  Fails
    /// exactly when the transform's determinant sits inside the zero
    /// band.
    pub fn new(transform: Option<SquareMatrix4>, shapes: Vec<Shape>, material: Option<
        Material>) -> (r: Result<Object3D, RayError>)
        ensures
            (match transform {
                Option::Some(t) => -EPSILON <= t.determinant_s() <= EPSILON,
                Option::None => false,
            }) <==> r is Err,
            r matches Err(e) ==> e == RayError::NonInvertibleTransform,
            r matches Ok(o) ==> {
                &&& o.transform == transform
                &&& o.inverse == (match transform {
                    Option::Some(t) => Option::Some(t.inverse_s()),
                    Option::None => Option::<SquareMatrix4>::None,
                })
                &&& o.shapes@ == shapes@
                &&& o.material == (match material {
                    Option::Some(m) => m,
                    Option::None => Material {
                        color: crate::general::Color {
                            r: (SCALE / 2) as i64,
                            g: (SCALE / 2) as i64,
                            b: (SCALE / 2) as i64,
                        },
                        shininess: 0i32,
                    },
                })
            },
    {
        let inv = match &transform {
            Some(t) => match t.inversed() {
                Some(m) => Some(m),
                None => {
                    return Err(RayError::NonInvertibleTransform);
                },
            },
            None => None,
        };
        let material = match material {
            Some(m) => m,
            None => Material::default(),
        };
        Ok(Object3D { transform, inverse: inv, shapes, material })
    }

    /// Nearest hit among this object's shapes, through its transform.
    pub fn intersect(&self, ray: &Ray, tmin: i64) -> (r: Option<Intersection>)
        ensures
            r == self.hit_s(*ray, tmin as int),
    {
        match (&self.transform, &self.inverse) {
            (Some(fwd), Some(inv)) => {
                match Ray::with_transform(ray.origin, ray.direction, inv) {
                    Some(ray2) => {
                        match nearest_shapes(&self.shapes, &ray2, tmin, self.material) {
                            Some(intr) => {
                                let nw = inv.transposed().mul_v4(
                                    &Vector4::from_v3(intr.normal.into_vector(), 0),
                                ).xyz();
                                let pw = fwd.mul_v4(
                                    &Vector4::from_v3(intr.point, SCALE),
                                ).xyz();
                                match nw.normalized() {
                                    Ok(n) => Some(
                                        Intersection {
                                            t: intr.t,
                                            incoming: ray.direction,
                                            point: pw,
                                            normal: n,
                                            material: intr.material,
                                        },
                                    ),
                                    Err(_) => None,
                                }
                            },
                            None => None,
                        }
                    },
                    None => None,
                }
            },
            _ => nearest_shapes(&self.shapes, ray, tmin, self.material),
        }
    }
}

/// Nearest hit over a list of shapes.
pub fn nearest_shapes(shapes: &Vec<Shape>, ray: &Ray, tmin: i64, material: Material) -> (r:
    Option<Intersection>)
    ensures
        r == nearest_from_s(shapes@, *ray, tmin as int, material, 0, Option::None),
{
    let mut acc: Option<Intersection> = None;
    let mut i: usize = 0;
    while i < shapes.len()
        invariant
            i <= shapes.len(),
            nearest_from_s(shapes@, *ray, tmin as int, material, 0, Option::None)
                == nearest_from_s(shapes@, *ray, tmin as int, material, i as int, acc),
        decreases shapes.len() - i,
    {
        let h = match shapes[i] {
            Shape::Sphere { origin, radius } => sphere_intersect(
                origin, radius, ray, tmin, material,
            ),
            Shape::Plane { offset, normal } => plane_intersect(
                offset, normal, ray, tmin, material,
            ),
            Shape::Triangle { v0, v1, v2, normal } => triangle_intersect(
                v0, v1, v2, normal, ray, tmin, material,
            ),
            Shape::Torus { origin, inner_radius, tube_radius } => torus_intersect(
                origin, inner_radius, tube_radius, ray, tmin, material,
            ),
        };
        acc = match (acc, h) {
            (Some(a), Some(x)) => if x.t < a.t {
                Some(x)
            } else {
                Some(a)
            },
            (None, x) => x,
            (a, None) => a,
        };
        i = i + 1;
    }
    acc
}

/// LAW — sphere hits report the nearest root: when the sphere procedure
/// reports a hit, its parameter is one of the quadratic's roots, it lies
/// strictly past `tmin`, and no root past `tmin` undercuts it by more
/// than the zero band; when it reports none, no root lies past `tmin`
/// (or the quadratic had none).
pub proof fn lemma_sphere_hit_nearest(
    origin: Vector3,
    radius: int,
    ray: Ray,
    tmin: int,
    material: Material,
)
    ensures
        sphere_hit_s(origin, radius, ray, tmin, material) matches Option::Some(intr) ==> {
            let cands = sphere_candidates_s(origin, radius, ray);
            exists|j: int|
                0 <= j < cands.len() && intr.t == crate::fixed::sat64(cands[j]) && tmin
                    < cands[j] && forall|k: int|
                    0 <= k < cands.len() && tmin < cands[k] ==> cands[j] <= cands[k] + EPSILON
        },
{
    let cands = sphere_candidates_s(origin, radius, ray);
    crate::solver::lemma_min_greater(cands, tmin);
    match min_greater_s(cands, tmin) {
        Option::Some(m) => {
            let j = choose|j: int| 0 <= j < cands.len() && m == cands[j];
            assert(0 <= j < cands.len() && m == cands[j]);
        },
        Option::None => {},
    }
}

} // verus!
