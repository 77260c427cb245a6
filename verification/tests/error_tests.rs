use oled_wallpaper::error::{Error, Result};

#[test]
fn test_error_display() {
    let err = Error::Config("test error".to_string());
    assert_eq!(err.message(), "Configuration error: test error");
}

#[test]
fn test_result_type() {
    let ok_result: Result<i32> = Ok(42);
    assert!(ok_result.is_ok());

    let err_result: Result<i32> = Err(Error::Config("test".to_string()));
    assert!(err_result.is_err());
}

#[test]
fn every_text_variant_has_its_prefix() {
    let cases = [
        (Error::Physics("p".to_string()), "Physics simulation error: p"),
        (Error::Render("r".to_string()), "Rendering error: r"),
        (Error::Wallpaper("w".to_string()), "Wallpaper integration error: w"),
        (Error::TomlParse("t".to_string()), "TOML parsing error: t"),
        (Error::Json("j".to_string()), "JSON error: j"),
        (Error::InvalidArgument("a".to_string()), "Invalid argument: a"),
        (Error::NotFound("n".to_string()), "Not found: n"),
        (Error::Validation("v".to_string()), "Validation error: v"),
        (Error::Unknown("u".to_string()), "Unknown error: u"),
    ];
    for (e, expected) in cases {
        assert_eq!(e.message(), expected);
    }
}

#[test]
fn io_error_message_starts_with_prefix() {
    let e = Error::Io(std::io::Error::new(std::io::ErrorKind::Other, "disk gone"));
    let m = e.message();
    assert!(m.starts_with("IO error: "));
    assert!(m.ends_with("disk gone"));
}
