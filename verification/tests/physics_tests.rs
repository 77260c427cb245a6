use oled_wallpaper::error::Error;
use oled_wallpaper::physics::{check_body_id, check_orbit_ids, check_static_bodies};

fn validation_text(r: Result<(), Error>) -> String {
    match r {
        Err(Error::Validation(m)) => m,
        Err(e) => panic!("expected a validation error, got {}", e.message()),
        Ok(()) => panic!("expected a validation error"),
    }
}

#[test]
fn test_validation_fails_empty_id() {
    assert!(check_body_id("").is_err());
    assert_eq!(validation_text(check_body_id("")), "CelestialBody ID cannot be empty");
}

#[test]
fn named_bodies_pass_the_id_check() {
    assert!(check_body_id("test").is_ok());
    assert!(check_body_id("sun").is_ok());
}

#[test]
fn test_validation_fails_empty_body_id() {
    assert!(check_orbit_ids("", "sun").is_err());
    assert_eq!(validation_text(check_orbit_ids("", "sun")), "Orbit body_id cannot be empty");
}

#[test]
fn test_validation_fails_empty_parent_id() {
    assert!(check_orbit_ids("planet", "").is_err());
    assert_eq!(validation_text(check_orbit_ids("planet", "")), "Orbit parent_id cannot be empty");
}

#[test]
fn test_validation_fails_self_orbit() {
    assert!(check_orbit_ids("planet", "planet").is_err());
    assert_eq!(validation_text(check_orbit_ids("planet", "planet")), "Body cannot orbit itself");
}

#[test]
fn orbit_ids_checked_in_order() {
    assert!(check_orbit_ids("planet", "sun").is_ok());
    assert_eq!(validation_text(check_orbit_ids("", "")), "Orbit body_id cannot be empty");
}

#[test]
fn test_validate_fails_multiple_suns() {
    assert!(check_static_bodies(&[true, true]).is_err());
    assert_eq!(
        validation_text(check_static_bodies(&[true, false, true, true])),
        "Expected exactly 1 static body, found 3"
    );
}

#[test]
fn one_or_no_static_body_is_fine() {
    assert!(check_static_bodies(&[]).is_ok());
    assert!(check_static_bodies(&[false, false]).is_ok());
    assert!(check_static_bodies(&[false, true, false]).is_ok());
}
