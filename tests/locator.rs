use backlight_control::locator::{join_path, Locator, BRIGHTNESS_BASE_PATH};
use backlight_control::Error;

fn names(entries: &[Option<&str>]) -> Result<Vec<Option<String>>, Error> {
    Ok(entries.iter().map(|e| e.map(|s| s.to_string())).collect())
}

#[test]
fn joins_with_a_separator() {
    assert_eq!(join_path("/sys/class/backlight", "intel_backlight"), "/sys/class/backlight/intel_backlight");
}

#[test]
fn new_locator_asks_for_a_scan() {
    let l = Locator::new(BRIGHTNESS_BASE_PATH);
    assert!(l.needs_scan());
    assert!(l.device_path().is_none());
    assert_eq!(l.base(), "/sys/class/backlight");
}

#[test]
fn first_readable_entry_is_chosen() {
    let mut l = Locator::new("/base");
    l.record_scan(names(&[None, Some("acpi_video0"), Some("intel_backlight")]));
    assert!(!l.needs_scan());
    assert_eq!(l.device_path().unwrap().unwrap(), "/base/acpi_video0");
}

#[test]
fn empty_base_directory_is_missing_device() {
    let mut l = Locator::new("/base");
    l.record_scan(names(&[]));
    assert!(matches!(l.device_path(), Some(Err(Error::FailedToGetFirstEntry))));
    let mut l = Locator::new("/base");
    l.record_scan(names(&[None, None]));
    assert!(matches!(l.device_path(), Some(Err(Error::FailedToGetFirstEntry))));
}

#[test]
fn unlistable_base_directory_is_an_io_error() {
    let mut l = Locator::new("/base");
    l.record_scan(Err(Error::IoError("No such file or directory".to_string())));
    assert!(matches!(l.device_path(), Some(Err(Error::IoError(_)))));
    assert!(!l.needs_scan());
}

#[test]
fn resolution_is_kept_after_first_scan() {
    let mut scans = 0;
    let mut l = Locator::new("/base");
    for _ in 0..5 {
        if l.needs_scan() {
            scans += 1;
            l.record_scan(names(&[Some("first")]));
        }
        assert_eq!(l.device_path().unwrap().unwrap(), "/base/first");
    }
    assert_eq!(scans, 1);
    l.record_scan(names(&[Some("second")]));
    assert_eq!(l.device_path().unwrap().unwrap(), "/base/first");
}

#[test]
fn failure_is_not_retried() {
    let mut l = Locator::new("/base");
    l.record_scan(names(&[]));
    assert!(!l.needs_scan());
    l.record_scan(names(&[Some("late")]));
    assert!(matches!(l.device_path(), Some(Err(Error::FailedToGetFirstEntry))));
}
