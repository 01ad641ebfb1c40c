use raycast::desc::{SceneDesc, ObjectDesc, ShapeDesc, MaterialDesc, LightDesc, LightGroupDesc,
    Rgb8};
use raycast::scene::Scene;
use raycast::general::RayError;
use raycast::vector::Vector3;
use raycast::fixed::SCALE;

fn fx(v: f64) -> i64 {
    (v * 1_000_000.0).round() as i64
}

fn white() -> Rgb8 {
    Rgb8 { r: 255, g: 255, b: 255 }
}

fn base_desc() -> SceneDesc {
    SceneDesc {
        ambient_color: Rgb8 { r: 25, g: 25, b: 25 },
        fov_degrees: 90 * SCALE,
        lights: vec![LightGroupDesc {
            transform: None,
            lights: vec![LightDesc {
                position: Vector3::new(0, fx(2.0), fx(1.0)),
                color: white(),
                intensity: fx(1.0),
            }],
        }],
        objects: vec![ObjectDesc {
            transform: None,
            shapes: vec![ShapeDesc::Sphere { origin: Vector3::new(0, 0, -SCALE), radius: fx(0.5) }],
            material: Some(MaterialDesc { color: Rgb8 { r: 255, g: 0, b: 0 }, shininess: 4 }),
        }],
    }
}

#[test]
fn build_simple_scene() {
    let scene = Scene::from_desc(&base_desc()).unwrap();
    assert_eq!(scene.lights.len(), 1);
    assert_eq!(scene.objects.len(), 1);
    // Degrees turn into radians at construction.
    assert!((scene.fov - 1_570_796).abs() <= 10);
    // Byte channels scale into unit channels.
    assert_eq!(scene.ambient_color.r, 25 * SCALE / 255);
    // The full red channel reaches exactly one.
    assert_eq!(scene.objects[0].material.color.r, SCALE);
}

#[test]
fn omitted_material_defaults_to_grey() {
    let mut d = base_desc();
    d.objects[0].material = None;
    let scene = Scene::from_desc(&d).unwrap();
    assert_eq!(scene.objects[0].material.color.r, SCALE / 2);
    assert_eq!(scene.objects[0].material.shininess, 0);
}

#[test]
fn bad_transform_fails_construction() {
    let mut d = base_desc();
    d.objects[0].transform = Some(b"Twirl 3".to_vec());
    assert_eq!(Scene::from_desc(&d).unwrap_err(), RayError::BadTransform);
}

#[test]
fn non_invertible_transform_fails_construction() {
    let mut d = base_desc();
    d.objects[0].transform = Some(b"Scale 0".to_vec());
    assert_eq!(Scene::from_desc(&d).unwrap_err(), RayError::NonInvertibleTransform);
}

#[test]
fn degenerate_normal_fails_construction() {
    let mut d = base_desc();
    d.objects[0].shapes = vec![ShapeDesc::Plane { offset: 0, normal: Vector3::new(0, 0, 0) }];
    assert_eq!(Scene::from_desc(&d).unwrap_err(), RayError::DegenerateVector);
}

#[test]
fn light_group_transform_places_lights() {
    let mut d = base_desc();
    d.lights[0].transform = Some(b"Translate 0 0 -1".to_vec());
    let scene = Scene::from_desc(&d).unwrap();
    assert_eq!(scene.lights[0].position.y, fx(2.0));
    assert_eq!(scene.lights[0].position.z, 0);
}
