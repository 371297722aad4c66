use backlight_control::brightness::{
    absolute_brightness, adjust_brightness_absolute, adjust_brightness_relative, get_brightness,
    get_max_brightness, relative_brightness, set_brightness,
};
use backlight_control::{ControlFile, Error};

fn file(text: &str) -> Result<String, Error> {
    Ok(text.to_string())
}

fn written(text: &str) -> Result<String, Error> {
    Ok(text.to_string())
}

fn is_missing_device(r: &Result<String, Error>) -> bool {
    matches!(r, Err(Error::FailedToGetFirstEntry))
}

#[test]
fn reads_value_with_surrounding_whitespace() {
    assert_eq!(get_max_brightness(file("  1200\n")).unwrap(), 1200);
    assert_eq!(get_brightness(file("\t7 \r\n")).unwrap(), 7);
    assert_eq!(get_brightness(file("0")).unwrap(), 0);
    assert_eq!(get_brightness(file("+15\n")).unwrap(), 15);
    assert_eq!(get_brightness(file("4294967295")).unwrap(), u32::MAX);
}

#[test]
fn reads_value_with_unicode_whitespace() {
    assert_eq!(get_brightness(file("\u{85}7")).unwrap(), 7);
    assert_eq!(get_max_brightness(file("\u{3000}120\u{2028}\u{a0}")).unwrap(), 120);
    assert_eq!(get_brightness(file("\u{2000}\u{200a}\u{205f}42\u{1680}\u{202f}\n")).unwrap(), 42);
}

#[test]
fn malformed_file_is_a_parse_error() {
    assert!(matches!(get_brightness(file("abc")), Err(Error::ParseError(ControlFile::Brightness))));
    assert!(matches!(
        get_max_brightness(file("")),
        Err(Error::ParseError(ControlFile::MaxBrightness))
    ));
    assert!(matches!(get_brightness(file("1 2")), Err(Error::ParseError(ControlFile::Brightness))));
    assert!(matches!(get_brightness(file("-3")), Err(Error::ParseError(ControlFile::Brightness))));
    assert!(matches!(get_brightness(file("\u{200b}3")), Err(Error::ParseError(ControlFile::Brightness))));
    assert!(matches!(get_brightness(file("\u{663}")), Err(Error::ParseError(ControlFile::Brightness))));
    assert!(matches!(
        get_brightness(file("4294967296")),
        Err(Error::ParseError(ControlFile::Brightness))
    ));
}

#[test]
fn read_failure_is_passed_on() {
    let r = get_brightness(Err(Error::IoError("permission denied".to_string())));
    match r {
        Err(Error::IoError(m)) => assert_eq!(m, "permission denied"),
        _ => panic!("expected the read failure"),
    }
}

#[test]
fn set_within_range_reads_back() {
    for v in [0u32, 1, 9, 10, 99, 100, 255] {
        let w = set_brightness(v, file("255\n")).unwrap();
        assert_eq!(get_brightness(Ok(w)).unwrap(), v);
    }
}

#[test]
fn set_above_maximum_stores_maximum() {
    assert_eq!(set_brightness(300, file("255")), written("255"));
    assert_eq!(set_brightness(u32::MAX, file("96000\n")), written("96000"));
}

#[test]
fn set_writes_plain_decimal() {
    assert_eq!(set_brightness(120, file("4000")), written("120"));
    assert_eq!(set_brightness(0, file("4000")), written("0"));
}

#[test]
fn absolute_percentage_of_two_hundred() {
    assert_eq!(adjust_brightness_absolute(50, true, file("200")), written("100"));
}

#[test]
fn absolute_percentage_truncates() {
    assert_eq!(adjust_brightness_absolute(33, true, file("10")), written("3"));
    assert_eq!(absolute_brightness(10, 33, true), 3);
}

#[test]
fn absolute_plain_and_over_hundred_percent() {
    assert_eq!(adjust_brightness_absolute(40, false, file("200")), written("40"));
    assert_eq!(adjust_brightness_absolute(500, false, file("200")), written("200"));
    assert_eq!(adjust_brightness_absolute(150, true, file("200")), written("200"));
    assert_eq!(absolute_brightness(u32::MAX, u32::MAX, true), u32::MAX);
}

#[test]
fn relative_large_decrease_stops_at_zero() {
    for current in ["0", "1", "500", "1000"] {
        assert_eq!(adjust_brightness_relative(-1000, false, file(current), file("4000")), written("0"));
    }
    assert_eq!(relative_brightness(0, 100, i32::MIN, false), 0);
    assert_eq!(relative_brightness(100, 100, i32::MIN, true), 0);
}

#[test]
fn relative_percentage_increase() {
    assert_eq!(adjust_brightness_relative(10, true, file("50"), file("100")), written("60"));
}

#[test]
fn relative_plain_and_clamped_high() {
    assert_eq!(adjust_brightness_relative(25, false, file("50"), file("100")), written("75"));
    assert_eq!(adjust_brightness_relative(-20, false, file("50"), file("100")), written("30"));
    assert_eq!(adjust_brightness_relative(80, false, file("50"), file("100")), written("100"));
    assert_eq!(relative_brightness(u32::MAX, u32::MAX, i32::MAX, true), u32::MAX);
}

#[test]
fn relative_negative_percentage_truncates_toward_zero() {
    assert_eq!(relative_brightness(50, 100, -33, false), 17);
    assert_eq!(relative_brightness(5, 10, -33, true), 2);
    assert_eq!(relative_brightness(5, 10, 33, true), 8);
}

#[test]
fn missing_device_fails_every_operation() {
    let gone = || Err(Error::FailedToGetFirstEntry);
    assert!(matches!(get_brightness(gone()), Err(Error::FailedToGetFirstEntry)));
    assert!(matches!(get_max_brightness(gone()), Err(Error::FailedToGetFirstEntry)));
    assert!(is_missing_device(&set_brightness(10, gone())));
    assert!(is_missing_device(&adjust_brightness_absolute(10, true, gone())));
    assert!(is_missing_device(&adjust_brightness_relative(10, false, gone(), gone())));
    assert!(is_missing_device(&adjust_brightness_relative(10, true, file("5"), gone())));
}

#[test]
fn relative_reports_current_before_maximum() {
    let r = adjust_brightness_relative(5, false, file("x"), Err(Error::FailedToGetFirstEntry));
    assert!(matches!(r, Err(Error::ParseError(ControlFile::Brightness))));
}

#[test]
fn error_descriptions() {
    assert_eq!(Error::IoError("denied".to_string()).description(), "denied");
    assert!(Error::FailedToGetFirstEntry.description().contains("/sys/class/backlight"));
    assert!(Error::ParseError(ControlFile::MaxBrightness).description().contains("max_brightness"));
}
