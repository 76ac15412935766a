use std::collections::HashMap;

use bugsnag::deviceinfo::{
    clock_reading, format_current_time, format_time, generate_hardware_id, ClockReading,
    DeviceInfo, DiskInfo, StaticSystemInfo,
};
use bugsnag::platform::{DiskStats, EpochOffset, MemoryStats};
use bugsnag::hardware::{HardwareInfo, PlatformProbe};

fn is_utc_millis_timestamp(s: &str) -> bool {
    let c: Vec<char> = s.chars().collect();
    let n = c.len();
    n >= 24
        && c[n - 5] == '.'
        && c[n - 4].is_ascii_digit()
        && c[n - 3].is_ascii_digit()
        && c[n - 2].is_ascii_digit()
        && c[n - 1] == 'Z'
}

fn test_system() -> StaticSystemInfo {
    let hardware = HardwareInfo::from_probe(&PlatformProbe::Other, Some("hw-1".to_string()));
    StaticSystemInfo::assemble(
        hardware,
        Some("Linux".to_string()),
        Some("Linux".to_string()),
        Some("6.1.0".to_string()),
        Some("box".to_string()),
        Some(MemoryStats { total: 2048, free: 512 }),
        Some(DiskStats { total: 8192, free: 100 }),
    )
}

fn running_system() -> StaticSystemInfo {
    StaticSystemInfo::collect(
        HardwareInfo::from_probe(&PlatformProbe::Other, generate_hardware_id()),
        sys_info::hostname().ok(),
    )
}

#[test]
fn test_deviceinfo_to_json() {
    let mut info = DeviceInfo::new("1.0.0", "testmachine", &running_system());
    info.set_time("1970-01-01T00:00:00.000Z");

    assert_eq!(info.id, None);
    assert_eq!(info.manufacturer, None);
    assert_eq!(info.model, None);
    assert_eq!(info.model_number, None);
    assert_eq!(info.os_name, sys_info::os_type().unwrap_or("Unknown".to_owned()));
    assert_eq!(info.os_version, "1.0.0");
    assert_eq!(info.hostname, "testmachine");
    assert_eq!(info.free_memory, None);
    assert_eq!(info.total_memory, sys_info::mem_info().ok().map(|info| info.total));
    assert_eq!(info.free_disk, None);
    assert_eq!(info.total_disk, None);
    assert_eq!(info.disk_usage, None);
    assert_eq!(info.time, "1970-01-01T00:00:00.000Z");
}

#[test]
fn test_deviceinfo_to_json_with_set() {
    let system = running_system();
    let mut info = DeviceInfo::generate(&system);
    info.set_hostname("testmachine3");
    info.set_os_version("3.0.0");
    info.set_id("device-123");
    info.set_manufacturer("Test Corp");
    info.set_model("TestDevice");
    info.set_model_number("TD-001");
    info.set_os_name("TestOS");
    info.set_free_memory(1024);
    info.set_total_memory(2048);
    info.set_free_disk(4096);
    info.set_total_disk(8192);
    info.set_time("2023-01-01T00:00:00.000Z");

    assert_eq!(info.id, Some("device-123".to_string()));
    assert_eq!(info.manufacturer, Some("Test Corp".to_string()));
    assert_eq!(info.model, Some("TestDevice".to_string()));
    assert_eq!(info.model_number, Some("TD-001".to_string()));
    assert_eq!(info.os_name, "TestOS");
    assert_eq!(info.os_version, "3.0.0");
    assert_eq!(info.hostname, "testmachine3");
    assert_eq!(info.free_memory, Some(1024));
    assert_eq!(info.total_memory, Some(2048));
    assert_eq!(info.free_disk, Some(4096));
    assert_eq!(info.total_disk, Some(8192));
    assert_eq!(info.disk_usage, None);
    assert_eq!(info.time, "2023-01-01T00:00:00.000Z");
}

#[test]
fn test_hardware_id_generation() {
    let device_info = DeviceInfo::generate(&running_system());
    assert!(device_info.id.is_some());
    let hwid = device_info.id.unwrap();
    assert!(!hwid.is_empty());
    let device_info2 = DeviceInfo::generate(&running_system());
    assert_eq!(device_info2.id, Some(hwid));
}

#[test]
fn hardware_id_is_32_lower_hex_digits() {
    if let Some(id) = generate_hardware_id() {
        assert_eq!(id.len(), 32);
        assert!(id.chars().all(|c| c.is_ascii_digit() || ('a'..='f').contains(&c)));
    }
}

#[test]
fn current_time_has_rfc3339_millis_shape() {
    let t = format_current_time();
    assert!(is_utc_millis_timestamp(&t), "{}", t);
    assert_eq!(t.chars().nth(10), Some('T'));
}

#[test]
fn new_device_has_current_time() {
    let info = DeviceInfo::new("2.0", "host", &running_system());
    assert!(is_utc_millis_timestamp(&info.time));
}

#[test]
fn assemble_fills_defaults() {
    let hardware = HardwareInfo::from_probe(&PlatformProbe::Other, None);
    let s = StaticSystemInfo::assemble(hardware, None, None, None, None, None, None);
    assert_eq!(s.os_name, "Unknown");
    assert_eq!(s.os_version, "Unknown:u.k.n.o.w.n");
    assert_eq!(s.hostname, "UnknownHost");
    assert_eq!(s.total_memory, None);
    assert_eq!(s.total_disk, None);
}

#[test]
fn assemble_joins_type_and_release() {
    let s = test_system();
    assert_eq!(s.os_name, "Linux");
    assert_eq!(s.os_version, "Linux:6.1.0");
    assert_eq!(s.hostname, "box");
    assert_eq!(s.total_memory, Some(2048));
    assert_eq!(s.total_disk, Some(8192));
}

#[test]
fn collect_reads_running_system() {
    let s = StaticSystemInfo::collect(
        HardwareInfo::from_probe(&PlatformProbe::Other, None),
        Some("probe-host".to_string()),
    );
    let os = sys_info::os_type().unwrap_or("Unknown".to_owned());
    let release = sys_info::os_release().unwrap_or("u.k.n.o.w.n".to_owned());
    assert_eq!(s.os_name, os);
    assert_eq!(s.os_version, format!("{}:{}", os, release));
    assert_eq!(s.hostname, "probe-host");
    assert_eq!(s.total_memory, sys_info::mem_info().ok().map(|m| m.total));
    assert_eq!(s.total_disk, sys_info::disk_info().ok().map(|d| d.total));
    assert_eq!(s.hardware.manufacturer, "Unknown");
}

#[test]
fn from_system_copies_system_facts() {
    let s = test_system();
    let d = DeviceInfo::from_system(
        &s,
        Some(MemoryStats { total: 999, free: 100 }),
        "2024-05-06T07:08:09.010Z".to_string(),
    );
    assert_eq!(d.id, Some("hw-1".to_string()));
    assert_eq!(d.manufacturer, Some("Unknown".to_string()));
    assert_eq!(d.model, Some("Unknown".to_string()));
    assert_eq!(d.model_number, Some("Unknown".to_string()));
    assert_eq!(d.os_name, "Linux");
    assert_eq!(d.os_version, "Linux:6.1.0");
    assert_eq!(d.hostname, "box");
    assert_eq!(d.free_memory, Some(100));
    assert_eq!(d.total_memory, Some(2048));
    assert_eq!(d.free_disk, None);
    assert_eq!(d.total_disk, Some(8192));
    assert_eq!(d.disk_usage, None);
    assert_eq!(d.time, "2024-05-06T07:08:09.010Z");
}

#[test]
fn new_at_leaves_rest_absent() {
    let d = DeviceInfo::new_at("1.2.3", "h", &test_system(), "t".to_string());
    assert_eq!(d.os_name, "Linux");
    assert_eq!(d.os_version, "1.2.3");
    assert_eq!(d.hostname, "h");
    assert_eq!(d.total_memory, Some(2048));
    assert_eq!(d.total_disk, None);
    assert_eq!(d.id, None);
    assert_eq!(d.free_memory, None);
    assert_eq!(d.time, "t");
}

#[test]
fn later_setter_wins_and_others_stay() {
    let mut d = DeviceInfo::new_at("1", "h", &test_system(), "t".to_string());
    d.set_model("a");
    d.set_hostname("h2");
    d.set_model("b");
    assert_eq!(d.model, Some("b".to_string()));
    assert_eq!(d.hostname, "h2");
    assert_eq!(d.os_version, "1");
    assert_eq!(d.manufacturer, None);
}

#[test]
fn setters_of_distinct_fields_commute() {
    let mut a = DeviceInfo::new_at("1", "h", &test_system(), "t".to_string());
    let mut b = DeviceInfo::new_at("1", "h", &test_system(), "t".to_string());
    a.set_free_disk(5);
    a.set_manufacturer("M");
    b.set_manufacturer("M");
    b.set_free_disk(5);
    assert_eq!(a.free_disk, b.free_disk);
    assert_eq!(a.manufacturer, b.manufacturer);
}

#[test]
fn set_disk_usage_stores_map() {
    let mut d = DeviceInfo::new_at("1", "h", &test_system(), "t".to_string());
    let mut m = HashMap::new();
    m.insert(
        "/".to_string(),
        DiskInfo { total: 10, free: 4, used: 6, mount_point: "/".to_string() },
    );
    d.set_disk_usage(m);
    let usage = d.disk_usage.unwrap();
    assert_eq!(usage.len(), 1);
    assert_eq!(
        usage.get("/"),
        Some(&DiskInfo { total: 10, free: 4, used: 6, mount_point: "/".to_string() })
    );
}

#[test]
fn new_and_generate_share_system_facts() {
    let system = running_system();
    let a = DeviceInfo::new("1", "x", &system);
    let b = DeviceInfo::new("1", "x", &system);
    let g = DeviceInfo::generate(&system);
    assert_eq!(a.os_name, g.os_name);
    assert_eq!(a.total_memory, g.total_memory);
    assert_eq!(a.os_name, b.os_name);
    assert_eq!(a.total_memory, b.total_memory);
    assert_eq!(a.os_version, b.os_version);
}

#[test]
fn clock_reading_before_and_after_epoch() {
    let after = clock_reading(Ok(EpochOffset { secs: 5, nanos: 7 })).unwrap();
    assert_eq!((after.secs, after.nanos), (5, 7));
    let before = clock_reading(Err(EpochOffset { secs: 5, nanos: 250_000_000 })).unwrap();
    assert_eq!((before.secs, before.nanos), (-6, 750_000_000));
    let whole = clock_reading(Err(EpochOffset { secs: 5, nanos: 0 })).unwrap();
    assert_eq!((whole.secs, whole.nanos), (-5, 0));
    assert!(clock_reading(Ok(EpochOffset { secs: u64::MAX, nanos: 0 })).is_none());
    let min = clock_reading(Err(EpochOffset { secs: 1u64 << 63, nanos: 0 })).unwrap();
    assert_eq!(min.secs, i64::MIN);
}

#[test]
fn format_time_spells_the_reading() {
    assert_eq!(
        format_time(Some(ClockReading { secs: 1516991409, nanos: 453_829_000 })),
        "2018-01-26T18:30:09.453Z"
    );
    assert_eq!(format_time(Some(ClockReading { secs: 0, nanos: 0 })), "1970-01-01T00:00:00.000Z");
    assert_eq!(
        format_time(Some(ClockReading { secs: -1, nanos: 999_000_000 })),
        "1969-12-31T23:59:59.999Z"
    );
    assert_eq!(format_time(None), "");
    assert_eq!(format_time(Some(ClockReading { secs: i64::MAX, nanos: 0 })), "");
}
