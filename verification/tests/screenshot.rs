use gamescope_portal::error::ScreenshotError;
use gamescope_portal::error::invalid_path_message;
use gamescope_portal::screenshot::LocalTimestamp;
use gamescope_portal::screenshot::Screenshot;
use gamescope_portal::screenshot::screenshot_file_name;

fn ts(year: u32, month: u32, day: u32, hour: u32, minute: u32, second: u32) -> LocalTimestamp {
    LocalTimestamp {
        year,
        month,
        day,
        hour,
        minute,
        second,
    }
}

#[test]
fn composed_filename_matches_clock_reading() {
    assert_eq!(
        screenshot_file_name(&ts(2024, 1, 2, 3, 4, 5)),
        "Screenshot_20240102_030405.png"
    );
}

#[test]
fn filename_pads_every_field() {
    assert_eq!(
        screenshot_file_name(&ts(987, 12, 31, 23, 59, 59)),
        "Screenshot_09871231_235959.png"
    );
}

#[test]
fn plan_composes_file_url() {
    let s = Screenshot::new();
    let plan = s
        .plan(Some("/tmp/pics".to_string()), &ts(2024, 1, 2, 3, 4, 5))
        .unwrap();
    assert_eq!(plan.file_name, "Screenshot_20240102_030405.png");
    assert_eq!(plan.path, "/tmp/pics/Screenshot_20240102_030405.png");
    assert_eq!(plan.url, "file:///tmp/pics/Screenshot_20240102_030405.png");
}

#[test]
fn plan_without_directory_fails() {
    let s = Screenshot::new();
    let r = s.plan(None, &ts(2024, 1, 2, 3, 4, 5));
    assert!(matches!(r, Err(ScreenshotError::NoDestinationDirectory)));
}

#[test]
fn plan_with_relative_directory_is_invalid_path() {
    let s = Screenshot::new();
    let r = s.plan(Some("pics".to_string()), &ts(2024, 1, 2, 3, 4, 5));
    assert!(matches!(r, Err(ScreenshotError::InvalidPath)));
}

#[test]
fn helper_success_reports_url() {
    let s = Screenshot::new();
    let url = "file:///tmp/pics/Screenshot_20240102_030405.png".to_string();
    assert_eq!(s.capture_outcome(true, url.clone()), Ok(url));
}

#[test]
fn helper_failure_fails_request() {
    let s = Screenshot::new();
    let url = "file:///tmp/pics/Screenshot_20240102_030405.png".to_string();
    assert_eq!(
        s.capture_outcome(false, url),
        Err(ScreenshotError::HelperLaunchFailed)
    );
}

#[test]
fn watch_event_filter_requires_close_write_and_name() {
    let s = Screenshot::new();
    let name = "Screenshot_20240102_030405.png".to_string();
    let other = "other.png".to_string();
    assert!(s.watch_event_matches(true, Some(&name), &name));
    assert!(!s.watch_event_matches(false, Some(&name), &name));
    assert!(!s.watch_event_matches(true, None, &name));
    assert!(!s.watch_event_matches(true, Some(&other), &name));
}

#[test]
fn pick_color_always_unsupported() {
    let s = Screenshot::new();
    assert_eq!(s.pick_color(), ScreenshotError::Unsupported);
    assert_eq!(
        s.pick_color().message(),
        "PickColor method is not implemented"
    );
}

#[test]
fn screenshot_error_messages() {
    assert_eq!(
        ScreenshotError::NoDestinationDirectory.message(),
        "No XDG pictures directory to save screenshot to"
    );
    assert_eq!(
        ScreenshotError::HelperLaunchFailed.message(),
        "Failed to take screenshot"
    );
    assert_eq!(
        invalid_path_message(&"pics/x.png".to_string()),
        "Invalid file path: pics/x.png"
    );
}
