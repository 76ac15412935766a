use bugsnag::appinfo::AppInfo;
use bugsnag::deviceinfo::{generate_hardware_id, DeviceInfo, StaticSystemInfo};
use bugsnag::hardware::{HardwareInfo, PlatformProbe};

fn running_system() -> StaticSystemInfo {
    StaticSystemInfo::collect(
        HardwareInfo::from_probe(&PlatformProbe::Other, generate_hardware_id()),
        sys_info::hostname().ok(),
    )
}
use bugsnag::event::{Event, PAYLOAD_VERSION};
use bugsnag::user::User;
use bugsnag::Severity;

#[test]
fn test_event_to_json() {
    let empty_vec = Vec::new();
    let mut device = DeviceInfo::new("1.0.0", "testmachine", &running_system());
    device.set_time("1970-01-01T00:00:00.000Z");
    let app = None;
    let user = None;
    let unhandled = None;
    let _evt = Event::new(
        &empty_vec,
        Some(&Severity::Error),
        None,
        None,
        &device,
        &app,
        &user,
        &unhandled,
    );

    assert!(true);
}

#[test]
fn test_event_with_context_to_json() {
    let empty_vec = Vec::new();
    let mut device = DeviceInfo::new("1.0.0", "testmachine", &running_system());
    device.set_time("1970-01-01T00:00:00.000Z");
    let app = None;
    let user = None;
    let unhandled = None;
    let _evt = Event::new(
        &empty_vec,
        Some(&Severity::Error),
        Some("test/context"),
        None,
        &device,
        &app,
        &user,
        &unhandled,
    );

    assert!(true);
}

#[test]
fn test_event_with_app_info_to_json() {
    let empty_vec = Vec::new();
    let mut device = DeviceInfo::new("1.0.0", "testmachine", &running_system());
    device.set_time("1970-01-01T00:00:00.000Z");
    let app = Some(AppInfo::new(Some("1.0.0"), Some("test"), Some("rust")));
    let user = None;
    let unhandled = None;
    let _evt = Event::new(
        &empty_vec,
        Some(&Severity::Error),
        None,
        None,
        &device,
        &app,
        &user,
        &unhandled,
    );

    assert!(true);
}

#[test]
fn event_holds_its_parts() {
    let empty_vec = Vec::new();
    let device = DeviceInfo::new_at("1.0.0", "m", &running_system(), "t".to_string());
    let app = Some(AppInfo::new(Some("1.0.0"), None, Some("rust")));
    let user = Some(User::new("19", None, None));
    let unhandled = Some(true);
    let evt = Event::new(
        &empty_vec,
        Some(&Severity::Warning),
        Some("ctx"),
        Some("group"),
        &device,
        &app,
        &user,
        &unhandled,
    );
    assert_eq!(evt.payload_version, 5);
    assert_eq!(PAYLOAD_VERSION, 5);
    assert_eq!(evt.severity, Some(&Severity::Warning));
    assert_eq!(evt.context, Some("ctx"));
    assert_eq!(evt.group_hash, Some("group"));
    assert_eq!(evt.device.hostname, "m");
    assert_eq!(evt.app.as_ref().unwrap().release_stage, None);
    assert_eq!(evt.user.as_ref().unwrap().id, "19");
    assert_eq!(*evt.unhandled, Some(true));
    assert_eq!(evt.exceptions.len(), 0);
}

#[test]
fn app_info_keeps_given_parts() {
    let app = AppInfo::new(Some("1.0.0"), Some("test"), None);
    assert_eq!(app.version, Some("1.0.0".to_string()));
    assert_eq!(app.release_stage, Some("test".to_string()));
    assert_eq!(app.atype, None);
}
