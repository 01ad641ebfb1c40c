//! Scene construction from a plain description.
//!
//! The host parses its textual scene format into these description
//! values; `Scene::from_desc` turns them into a renderable scene, and it
//! alone enforces the construction rules: every transform description
//! must follow the mini-language, every object transform must be
//! invertible, every stated normal must be normalizable.  These are the
//! only operator-facing failures; after construction, rendering never
//! fails.

use vstd::prelude::*;
use crate::fixed::SCALE;
use crate::vector::{Vector3, UnitVector3, Vector4};
use crate::matrix::SquareMatrix4;
use crate::general::{Color, Material, Light, RayError};
use crate::objects::{Shape, Object3D};
use crate::scene::Scene;
use crate::transform::{parse_transform_s, parse_transform_bytes};
use crate::trig::{degs_to_rads_s, degs_to_rads};

verus! {

/// A color as the description format states it: one byte per channel.
#[derive(Clone, Copy, Debug, PartialEq, Eq, Structural)]
pub struct Rgb8 {
    pub r: u8,
    pub g: u8,
    pub b: u8,
}

/// A shape as described, normals still arbitrary vectors.
#[derive(Clone, Debug)]
pub enum ShapeDesc {
    Sphere { origin: Vector3, radius: i64 },
    Plane { offset: i64, normal: Vector3 },
    Triangle { v0: Vector3, v1: Vector3, v2: Vector3, normal: Vector3 },
    Torus { origin: Vector3, inner_radius: i64, tube_radius: i64 },
}

/// A material as described.
#[derive(Clone, Debug)]
pub struct MaterialDesc {
    pub color: Rgb8,
    pub shininess: i32,
}

/// An object as described: an optional transform in the mini-language,
/// shapes, and an optional material.
#[derive(Clone, Debug)]
pub struct ObjectDesc {
    pub transform: Option<Vec<u8>>,
    pub shapes: Vec<ShapeDesc>,
    pub material: Option<MaterialDesc>,
}

/// A light as described.
#[derive(Clone, Debug)]
pub struct LightDesc {
    pub position: Vector3,
    pub color: Rgb8,
    pub intensity: i64,
}

/// Lights grouped under one optional transform, so a set of lights can
/// be placed as a unit; the transform carries each position into world
/// space at construction.
#[derive(Clone, Debug)]
pub struct LightGroupDesc {
    pub transform: Option<Vec<u8>>,
    pub lights: Vec<LightDesc>,
}

/// A whole scene as described: ambient color, field of view in degrees,
/// light groups and objects, each list in drawing order.
#[derive(Clone, Debug)]
pub struct SceneDesc {
    pub ambient_color: Rgb8,
    pub fov_degrees: i64,
    pub lights: Vec<LightGroupDesc>,
    pub objects: Vec<ObjectDesc>,
}

/// Byte channels scaled into fixed-point `[0, 1]` channels.
pub open spec fn color_of_rgb8_s(c: Rgb8) -> Color {
    Color {
        r: ((c.r as int * SCALE) / 255) as i64,
        g: ((c.g as int * SCALE) / 255) as i64,
        b: ((c.b as int * SCALE) / 255) as i64,
    }
}

/// Byte channels scaled into fixed-point `[0, 1]` channels.
pub fn color_of_rgb8(c: Rgb8) -> (r: Color)
    ensures
        r == color_of_rgb8_s(c),
{
    Color {
        r: c.r as i64 * SCALE / 255,
        g: c.g as i64 * SCALE / 255,
        b: c.b as i64 * SCALE / 255,
    }
}

/// The material a description yields.
pub open spec fn material_of_s(d: MaterialDesc) -> Material {
    Material { color: color_of_rgb8_s(d.color), shininess: d.shininess }
}

/// The shape a description yields: stated normals are normalized here,
/// and a degenerate one fails the construction.
pub open spec fn shape_of_s(d: ShapeDesc) -> Result<Shape, RayError> {
    match d {
        ShapeDesc::Sphere { origin, radius } => Result::Ok(Shape::Sphere { origin, radius }),
        ShapeDesc::Plane { offset, normal } => if normal.normalize_ok() {
            Result::Ok(
                Shape::Plane { offset, normal: UnitVector3 { v: normal.normalize_s() } },
            )
        } else {
            Result::Err(RayError::DegenerateVector)
        },
        ShapeDesc::Triangle { v0, v1, v2, normal } => if normal.normalize_ok() {
            Result::Ok(
                Shape::Triangle { v0, v1, v2, normal: UnitVector3 { v: normal.normalize_s() } },
            )
        } else {
            Result::Err(RayError::DegenerateVector)
        },
        ShapeDesc::Torus { origin, inner_radius, tube_radius } => Result::Ok(
            Shape::Torus { origin, inner_radius, tube_radius },
        ),
    }
}

/// All shapes of one object, in order; the first failure wins.
pub open spec fn shapes_of_s(ds: Seq<ShapeDesc>, i: int) -> Result<Seq<Shape>, RayError>
    decreases ds.len() - i,
{
    if i < 0 || i >= ds.len() {
        Result::Ok(Seq::empty())
    } else {
        match shape_of_s(ds[i]) {
            Result::Ok(sh) => match shapes_of_s(ds, i + 1) {
                Result::Ok(rest) => Result::Ok(seq![sh] + rest),
                Result::Err(e) => Result::Err(e),
            },
            Result::Err(e) => Result::Err(e),
        }
    }
}

/// The spec-level view of a built object: transform, cached inverse,
/// shapes, material.
pub type ObjView = (Option<SquareMatrix4>, Option<SquareMatrix4>, Seq<Shape>, Material);

pub open spec fn obj_view(o: Object3D) -> ObjView {
    (o.transform, o.inverse, o.shapes@, o.material)
}

/// The object a description yields (as its view): its transform parsed
/// and inverted, its shapes built, its material defaulted when omitted.
pub open spec fn object_of_s(d: ObjectDesc) -> Result<ObjView, RayError> {
    let mt = match d.transform {
        Option::Some(t) => match parse_transform_s(t@) {
            Option::Some(m) => Result::Ok(Option::Some(m)),
            Option::None => Result::Err(RayError::BadTransform),
        },
        Option::None => Result::Ok(Option::<SquareMatrix4>::None),
    };
    match mt {
        Result::Ok(mt) => match shapes_of_s(d.shapes@, 0) {
            Result::Ok(shapes) => match mt {
                Option::Some(m) => if -crate::fixed::EPSILON <= m.determinant_s()
                    <= crate::fixed::EPSILON {
                    Result::Err(RayError::NonInvertibleTransform)
                } else {
                    Result::Ok(
                        (
                            Option::Some(m),
                            Option::Some(m.inverse_s()),
                            shapes,
                            material_of_or_default_s(d.material),
                        ),
                    )
                },
                Option::None => Result::Ok(
                    (
                        Option::<SquareMatrix4>::None,
                        Option::<SquareMatrix4>::None,
                        shapes,
                        material_of_or_default_s(d.material),
                    ),
                ),
            },
            Result::Err(e) => Result::Err(e),
        },
        Result::Err(e) => Result::Err(e),
    }
}

/// The stated material, or mid-grey with no highlight when omitted.
pub open spec fn material_of_or_default_s(d: Option<MaterialDesc>) -> Material {
    match d {
        Option::Some(m) => material_of_s(m),
        Option::None => Material {
            color: Color { r: (SCALE / 2) as i64, g: (SCALE / 2) as i64, b: (SCALE / 2) as i64 },
            shininess: 0i32,
        },
    }
}

/// All objects, in order, as their views; the first failure wins.
pub open spec fn objects_of_s(ds: Seq<ObjectDesc>, i: int) -> Result<Seq<ObjView>, RayError>
    decreases ds.len() - i,
{
    if i < 0 || i >= ds.len() {
        Result::Ok(Seq::empty())
    } else {
        match object_of_s(ds[i]) {
            Result::Ok(o) => match objects_of_s(ds, i + 1) {
                Result::Ok(rest) => Result::Ok(seq![o] + rest),
                Result::Err(e) => Result::Err(e),
            },
            Result::Err(e) => Result::Err(e),
        }
    }
}

/// One described light placed into world space by its group transform
/// (the position as a point, `w` one).
pub open spec fn light_of_s(d: LightDesc, m: Option<SquareMatrix4>) -> Light {
    let p = match m {
        Option::Some(m) => m.mul_v4_s(
            Vector4 { x: d.position.x, y: d.position.y, z: d.position.z, w: SCALE },
        ).xyz_s(),
        Option::None => d.position,
    };
    Light { position: p, color: color_of_rgb8_s(d.color), intensity: d.intensity }
}

/// The placed lights of one group, in order.
pub open spec fn group_lights_s(ds: Seq<LightDesc>, m: Option<SquareMatrix4>, i: int)
    -> Seq<Light>
    decreases ds.len() - i,
{
    if i < 0 || i >= ds.len() {
        Seq::empty()
    } else {
        seq![light_of_s(ds[i], m)] + group_lights_s(ds, m, i + 1)
    }
}

/// The placed lights of all groups, flattened in order; a group whose
/// transform fails the mini-language fails the construction.
pub open spec fn lights_of_s(gs: Seq<LightGroupDesc>, i: int) -> Result<Seq<Light>, RayError>
    decreases gs.len() - i,
{
    if i < 0 || i >= gs.len() {
        Result::Ok(Seq::empty())
    } else {
        let mt = match gs[i].transform {
            Option::Some(t) => match parse_transform_s(t@) {
                Option::Some(m) => Result::Ok(Option::Some(m)),
                Option::None => Result::Err(RayError::BadTransform),
            },
            Option::None => Result::Ok(Option::<SquareMatrix4>::None),
        };
        match mt {
            Result::Ok(m) => match lights_of_s(gs, i + 1) {
                Result::Ok(rest) => Result::Ok(group_lights_s(gs[i].lights@, m, 0) + rest),
                Result::Err(e) => Result::Err(e),
            },
            Result::Err(e) => Result::Err(e),
        }
    }
}

/// The spec-level view of a built scene: ambient color, field of view
/// in raw radians, placed lights, object views.
pub type SceneView = (Color, i64, Seq<Light>, Seq<ObjView>);

pub open spec fn scene_view(s: Scene) -> SceneView {
    (s.ambient_color, s.fov, s.lights@, s.objects@.map_values(|o: Object3D| obj_view(o)))
}

/// The scene a description yields (as its view): ambient color scaled,
/// field of view in radians, lights placed, objects built — or the
/// first construction error, found before any rendering starts.
pub open spec fn scene_of_s(d: SceneDesc) -> Result<SceneView, RayError> {
    match lights_of_s(d.lights@, 0) {
        Result::Ok(lights) => match objects_of_s(d.objects@, 0) {
            Result::Ok(objects) => Result::Ok(
                (
                    color_of_rgb8_s(d.ambient_color),
                    degs_to_rads_s(d.fov_degrees as int) as i64,
                    lights,
                    objects,
                ),
            ),
            Result::Err(e) => Result::Err(e),
        },
        Result::Err(e) => Result::Err(e),
    }
}

fn shape_of(d: &ShapeDesc) -> (r: Result<Shape, RayError>)
    ensures
        r == shape_of_s(*d),
{
    match d {
        ShapeDesc::Sphere { origin, radius } => Ok(
            Shape::Sphere { origin: *origin, radius: *radius },
        ),
        ShapeDesc::Plane { offset, normal } => match normal.normalized() {
            Ok(u) => Ok(Shape::Plane { offset: *offset, normal: u }),
            Err(e) => Err(e),
        },
        ShapeDesc::Triangle { v0, v1, v2, normal } => match normal.normalized() {
            Ok(u) => Ok(Shape::Triangle { v0: *v0, v1: *v1, v2: *v2, normal: u }),
            Err(e) => Err(e),
        },
        ShapeDesc::Torus { origin, inner_radius, tube_radius } => Ok(
            Shape::Torus {
                origin: *origin,
                inner_radius: *inner_radius,
                tube_radius: *tube_radius,
            },
        ),
    }
}

fn shapes_of_from(ds: &Vec<ShapeDesc>, i: usize) -> (r: Result<Vec<Shape>, RayError>)
    requires
        i <= ds@.len(),
    ensures
        (match r {
            Result::Ok(shapes) => Result::Ok(shapes@),
            Result::Err(e) => Result::<Seq<Shape>, RayError>::Err(e),
        }) == shapes_of_s(ds@, i as int),
    decreases ds@.len() - i,
{
    if i >= ds.len() {
        return Ok(Vec::new());
    }
    match shape_of(&ds[i]) {
        Ok(sh) => match shapes_of_from(ds, i + 1) {
            Ok(rest) => {
                let mut out: Vec<Shape> = Vec::new();
                out.push(sh);
                let mut q: usize = 0;
                let rest_len = rest.len();
                while q < rest_len
                    invariant
                        q <= rest_len,
                        rest_len == rest@.len(),
                        out@ == seq![sh] + rest@.subrange(0, q as int),
                    decreases rest_len - q,
                {
                    out.push(rest[q]);
                    proof {
                        assert(out@ =~= seq![sh] + rest@.subrange(0, q as int + 1));
                    }
                    q = q + 1;
                }
                proof {
                    assert(rest@.subrange(0, rest_len as int) =~= rest@);
                }
                Ok(out)
            },
            Err(e) => Err(e),
        },
        Err(e) => Err(e),
    }
}

fn object_of(d: &ObjectDesc) -> (r: Result<Object3D, RayError>)
    ensures
        (match r {
            Result::Ok(o) => Result::Ok(obj_view(o)),
            Result::Err(e) => Result::<ObjView, RayError>::Err(e),
        }) == object_of_s(*d),
{
    let mt: Option<SquareMatrix4> = match &d.transform {
        Some(t) => match parse_transform_bytes(t.as_slice()) {
            Ok(m) => Some(m),
            Err(e) => {
                return Err(e);
            },
        },
        None => None,
    };
    let shapes = match shapes_of_from(&d.shapes, 0) {
        Ok(s) => s,
        Err(e) => {
            return Err(e);
        },
    };
    let material: Option<Material> = match &d.material {
        Some(m) => Some(Material { color: color_of_rgb8(m.color), shininess: m.shininess }),
        None => None,
    };
    Object3D::new(mt, shapes, material)
}

#[verifier::rlimit(100)]
#[verifier::spinoff_prover]
fn objects_of_from(ds: &Vec<ObjectDesc>, i: usize) -> (r: Result<Vec<Object3D>, RayError>)
    requires
        i <= ds@.len(),
    ensures
        (match r {
            Result::Ok(os) => Result::Ok(os@.map_values(|o: Object3D| obj_view(o))),
            Result::Err(e) => Result::<Seq<ObjView>, RayError>::Err(e),
        }) == objects_of_s(ds@, i as int),
    decreases ds@.len() - i,
{
    if i >= ds.len() {
        proof {
            assert(Seq::<Object3D>::empty().map_values(|o: Object3D| obj_view(o))
                =~= Seq::<ObjView>::empty());
        }
        return Ok(Vec::new());
    }
    match object_of(&ds[i]) {
        Ok(o) => match objects_of_from(ds, i + 1) {
            Ok(mut rest) => {
                let ghost rest0 = rest@;
                rest.insert(0, o);
                proof {
                    assert(rest@ =~= seq![o] + rest0);
                    assert((seq![o] + rest0).map_values(|x: Object3D| obj_view(x))
                        =~= seq![obj_view(o)] + rest0.map_values(|x: Object3D| obj_view(x)));
                }
                Ok(rest)
            },
            Err(e) => Err(e),
        },
        Err(e) => Err(e),
    }
}

fn group_lights(ds: &Vec<LightDesc>, mt: &Option<SquareMatrix4>, i: usize) -> (r: Vec<Light>)
    requires
        i <= ds@.len(),
    ensures
        r@ == group_lights_s(ds@, *mt, i as int),
    decreases ds@.len() - i,
{
    if i >= ds.len() {
        return Vec::new();
    }
    let ld = &ds[i];
    let p = match mt {
        Some(m) => m.mul_v4(&Vector4::from_v3(ld.position, SCALE)).xyz(),
        None => ld.position,
    };
    let first = Light { position: p, color: color_of_rgb8(ld.color), intensity: ld.intensity };
    let rest = group_lights(ds, mt, i + 1);
    let mut out: Vec<Light> = Vec::new();
    out.push(first);
    let mut q: usize = 0;
    let rest_len = rest.len();
    while q < rest_len
        invariant
            q <= rest_len,
            rest_len == rest@.len(),
            out@ == seq![first] + rest@.subrange(0, q as int),
        decreases rest_len - q,
    {
        out.push(rest[q]);
        proof {
            assert(out@ =~= seq![first] + rest@.subrange(0, q as int + 1));
        }
        q = q + 1;
    }
    proof {
        assert(rest@.subrange(0, rest_len as int) =~= rest@);
    }
    out
}

fn lights_of_from(gs: &Vec<LightGroupDesc>, i: usize) -> (r: Result<Vec<Light>, RayError>)
    requires
        i <= gs@.len(),
    ensures
        (match r {
            Result::Ok(ls) => Result::Ok(ls@),
            Result::Err(e) => Result::<Seq<Light>, RayError>::Err(e),
        }) == lights_of_s(gs@, i as int),
    decreases gs@.len() - i,
{
    if i >= gs.len() {
        return Ok(Vec::new());
    }
    let g = &gs[i];
    let mt: Option<SquareMatrix4> = match &g.transform {
        Some(t) => match parse_transform_bytes(t.as_slice()) {
            Ok(m) => Some(m),
            Err(e) => {
                return Err(e);
            },
        },
        None => None,
    };
    let mut out = group_lights(&g.lights, &mt, 0);
    match lights_of_from(gs, i + 1) {
        Ok(rest) => {
            let ghost head = out@;
            let mut q: usize = 0;
            let rest_len = rest.len();
            while q < rest_len
                invariant
                    q <= rest_len,
                    rest_len == rest@.len(),
                    out@ == head + rest@.subrange(0, q as int),
                decreases rest_len - q,
            {
                out.push(rest[q]);
                proof {
                    assert(out@ =~= head + rest@.subrange(0, q as int + 1));
                }
                q = q + 1;
            }
            proof {
                assert(head + rest@.subrange(0, 0) =~= head);
                assert(rest@.subrange(0, rest_len as int) =~= rest@);
            }
            Ok(out)
        },
        Err(e) => Err(e),
    }
}

impl Scene {
    /// Build a renderable scene from a description, or report the first
    /// construction error; nothing is rendered unless every transform
    /// parses, every object transform inverts and every normal
    /// normalizes.
    pub fn from_desc(d: &SceneDesc) -> (r: Result<Scene, RayError>)
        ensures
            (match r {
                Result::Ok(s) => Result::Ok(scene_view(s)),
                Result::Err(e) => Result::<SceneView, RayError>::Err(e),
            }) == scene_of_s(*d),
    {
        let lights = match lights_of_from(&d.lights, 0) {
            Ok(ls) => ls,
            Err(e) => {
                return Err(e);
            },
        };
        let objects = match objects_of_from(&d.objects, 0) {
            Ok(os) => os,
            Err(e) => {
                return Err(e);
            },
        };
        Ok(
            Scene {
                ambient_color: color_of_rgb8(d.ambient_color),
                fov: degs_to_rads(d.fov_degrees),
                lights,
                objects,
            },
        )
    }
}

} // verus!
