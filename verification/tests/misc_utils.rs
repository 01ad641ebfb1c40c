use raycast::util::{filename, up, doot, beep, top};
use raycast::lerp::{LerpConfig, half_lerp};
use raycast::general::RayError;
use raycast::trig::{sin_fx, cos_fx, degs_to_rads, PI_RAW, HALF_PI_RAW};
use raycast::fixed::{fx_sqrt, SCALE};

#[test]
fn filename_strips_directory_and_extension() {
    assert_eq!(filename("renders/scene.json").unwrap(), "scene");
    assert_eq!(filename("a/b/c.png").unwrap(), "c");
    assert_eq!(filename("noext").unwrap(), "noext");
    assert_eq!(filename("dir.with.dots/archive.tar.gz").unwrap(), "archive.tar");
    assert_eq!(filename(".hidden").unwrap(), ".hidden");
    assert_eq!(filename(""), None);
    assert_eq!(filename("trailing/"), None);
}

#[test]
fn lerp_config_needs_two_files() {
    assert_eq!(
        LerpConfig::new(vec!["one.png".to_string()]).err().unwrap(),
        RayError::NotEnoughInputs
    );
    let ok = LerpConfig::new(vec!["one.png".to_string(), "two.png".to_string()]).unwrap();
    assert_eq!(ok.filepaths.len(), 2);
}

#[test]
fn half_lerp_midpoints() {
    assert_eq!(half_lerp([0, 100, 65535], [100, 50, 65535]), [50, 100, 65535]);
    assert_eq!(half_lerp([0, 0, 0], [0, 0, 0]), [0, 0, 0]);
    assert_eq!(half_lerp([65535, 0, 1], [0, 65535, 2]), [65535, 32767, 1]);
}

#[test]
fn trig_reference_points() {
    assert!((cos_fx(0) - SCALE).abs() <= 10);
    assert!(sin_fx(0).abs() <= 10);
    assert!((sin_fx(HALF_PI_RAW) - SCALE).abs() <= 10);
    assert!(sin_fx(PI_RAW).abs() <= 10);
    // Thirty degrees has sine one half.
    let rads = degs_to_rads(30 * SCALE);
    assert!((sin_fx(rads) - SCALE / 2).abs() <= 100);
    assert!((degs_to_rads(180 * SCALE) - PI_RAW).abs() <= 10);
}

#[test]
fn sqrt_reference_points() {
    assert_eq!(fx_sqrt(SCALE), SCALE);
    assert_eq!(fx_sqrt(4 * SCALE), 2 * SCALE);
    assert_eq!(fx_sqrt(0), 0);
    assert_eq!(fx_sqrt(-5), 0);
    // The square root of two to six decimal places.
    assert_eq!(fx_sqrt(2 * SCALE), 1_414_213);
}

#[test]
fn beeps_are_silent() {
    up();
    doot();
    beep();
    top();
}
