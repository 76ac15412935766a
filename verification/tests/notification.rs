use bugsnag::deviceinfo::{generate_hardware_id, DeviceInfo, StaticSystemInfo};
use bugsnag::hardware::{HardwareInfo, PlatformProbe};

fn running_system() -> StaticSystemInfo {
    StaticSystemInfo::collect(
        HardwareInfo::from_probe(&PlatformProbe::Other, generate_hardware_id()),
        sys_info::hostname().ok(),
    )
}
use bugsnag::event::Event;
use bugsnag::exception::Exception;
use bugsnag::notification::{Notification, NOTIFIER_NAME, NOTIFIER_URL, NOTIFIER_VERSION};
use bugsnag::stacktrace::Frame;

#[test]
fn test_notification_to_json() {
    let empty_vec = Vec::new();
    let notification = Notification::new("safe-api-key", &empty_vec);

    assert_eq!(notification.api_key, "safe-api-key");
    assert_eq!(notification.notifier.name, NOTIFIER_NAME);
    assert_eq!(notification.notifier.version, NOTIFIER_VERSION);
    assert_eq!(notification.notifier.url, NOTIFIER_URL);
    assert_eq!(notification.events.len(), 0);
}

#[test]
fn test_notification_with_event_to_json() {
    let frames = vec![Frame::new("test.rs", 400, "test", false)];
    let exceptions = vec![Exception::new("Assert", "Assert", &frames)];
    let mut device = DeviceInfo::new("1.0.0", "testmachine", &running_system());
    device.set_time("1970-01-01T00:00:00.000Z");
    let app = None;
    let user = None;
    let unhandled = None;
    let events = vec![Event::new(&exceptions, None, None, None, &device, &app, &user, &unhandled)];

    let _notification = Notification::new("safe-api-key", &events);

    assert!(true);
}

#[test]
fn notifier_describes_this_library() {
    assert_eq!(NOTIFIER_NAME, "Bugsnag Rust");
    assert_eq!(NOTIFIER_URL, "https://github.com/mehcode/bugsnag-rs");
    assert_eq!(NOTIFIER_VERSION, "0.2.1");
}

#[test]
fn frames_and_exceptions_keep_their_parts() {
    let frames = vec![Frame::new("test.rs", 400, "test", false)];
    assert_eq!(frames[0].file, "test.rs");
    assert_eq!(frames[0].line_number, 400);
    assert_eq!(frames[0].method, "test");
    assert!(!frames[0].in_project);
    let e = Exception::new("Assert", "boom", &frames);
    assert_eq!(e.error_class, "Assert");
    assert_eq!(e.message, "boom");
    assert_eq!(e.stacktrace.len(), 1);
}
