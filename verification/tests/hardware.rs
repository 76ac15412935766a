use bugsnag::hardware::{
    dmi_text_of, found_hardware_of, hardware_from_profiler, hardware_from_sysctl, probed_model_of,
    wmic_value_of, HardwareInfo, PlatformProbe,
};

fn some(s: &str) -> Option<String> {
    Some(s.to_string())
}

const PROFILER: &str = "Hardware:\n\n    Hardware Overview:\n\n      Model Name: MacBook Pro\n      Model Identifier: MacBookPro18,3\n      Chip: Apple M1 Pro\n";

#[test]
fn profiler_output_gives_apple_model() {
    let m = hardware_from_profiler(PROFILER).unwrap();
    assert_eq!(m.manufacturer, "Apple");
    assert_eq!(m.model, "MacBook Pro");
    assert_eq!(m.model_number, "MacBookPro18,3");
}

#[test]
fn profiler_output_with_crlf_lines() {
    let out = "Model Name: iMac\r\nModel Identifier: iMac21,1\r\n";
    let m = hardware_from_profiler(out).unwrap();
    assert_eq!(m.model, "iMac");
    assert_eq!(m.model_number, "iMac21,1");
}

#[test]
fn profiler_value_stops_at_next_colon() {
    let out = "Model Name: Mac: Studio\nModel Identifier: Mac13,1";
    let m = hardware_from_profiler(out).unwrap();
    assert_eq!(m.model, "Mac");
}

#[test]
fn profiler_output_without_identifier_gives_nothing() {
    assert!(hardware_from_profiler("Model Name: MacBook Pro\n").is_none());
    assert!(hardware_from_profiler("").is_none());
    assert!(hardware_from_profiler("Model Name:\nModel Identifier: X1\n").is_none());
}

#[test]
fn last_profiler_line_wins() {
    let out = "Model Name: A\nModel Identifier: B\nModel Name: C\n";
    let m = hardware_from_profiler(out).unwrap();
    assert_eq!(m.model, "C");
    assert_eq!(m.model_number, "B");
}

#[test]
fn sysctl_output_gives_mac() {
    let m = hardware_from_sysctl("  MacBookAir10,1\n").unwrap();
    assert_eq!(m.manufacturer, "Apple");
    assert_eq!(m.model, "Mac");
    assert_eq!(m.model_number, "MacBookAir10,1");
    assert!(hardware_from_sysctl(" \n\t").is_none());
}

#[test]
fn dmi_text_drops_placeholder_and_whitespace() {
    assert_eq!(dmi_text_of(&some("  Dell Inc.\n")), "Dell Inc.");
    assert_eq!(dmi_text_of(&some("To Be Filled By O.E.M.\n")), "");
    assert_eq!(dmi_text_of(&None), "");
    assert_eq!(dmi_text_of(&some("\u{3000}Lenovo\u{00A0}")), "Lenovo");
}

#[test]
fn found_hardware_fills_unknown() {
    let m = found_hardware_of("Dell".to_string(), String::new(), "A01".to_string()).unwrap();
    assert_eq!(m.manufacturer, "Dell");
    assert_eq!(m.model, "Unknown");
    assert_eq!(m.model_number, "A01");
    assert!(found_hardware_of(String::new(), String::new(), String::new()).is_none());
}

#[test]
fn linux_probe_prefers_dmidecode_then_files() {
    let probe = PlatformProbe::Linux {
        dmi_manufacturer: some("To Be Filled By O.E.M."),
        dmi_product: some("OptiPlex 7090\n"),
        dmi_version: None,
        sys_vendor: some("Dell Inc.\n"),
        product_name: some("ignored"),
        product_version: some("\n"),
    };
    let m = probed_model_of(&probe).unwrap();
    assert_eq!(m.manufacturer, "Dell Inc.");
    assert_eq!(m.model, "OptiPlex 7090");
    assert_eq!(m.model_number, "Unknown");
}

#[test]
fn linux_probe_with_nothing_gives_unknown_info() {
    let probe = PlatformProbe::Linux {
        dmi_manufacturer: None,
        dmi_product: some("To Be Filled By O.E.M."),
        dmi_version: None,
        sys_vendor: None,
        product_name: some("   "),
        product_version: None,
    };
    assert!(probed_model_of(&probe).is_none());
    let info = HardwareInfo::from_probe(&probe, some("abc"));
    assert_eq!(info.id, some("abc"));
    assert_eq!(info.manufacturer, "Unknown");
    assert_eq!(info.model, "Unknown");
    assert_eq!(info.model_number, "Unknown");
}

#[test]
fn wmic_value_takes_first_keyed_line() {
    let out = some("\r\n\r\nManufacturer=LENOVO \r\nManufacturer=Other\r\n");
    assert_eq!(wmic_value_of(&out, "Manufacturer="), "LENOVO");
    assert_eq!(wmic_value_of(&some("Model=\r\n"), "Model="), "");
    assert_eq!(wmic_value_of(&some("Other=1"), "Model="), "");
    assert_eq!(wmic_value_of(&None, "Model="), "");
}

#[test]
fn windows_probe_gives_model() {
    let probe = PlatformProbe::Windows {
        manufacturer: some("Manufacturer=HP\r\n"),
        model: some("Model=EliteBook 840\r\n"),
        sku: None,
    };
    let info = HardwareInfo::from_probe(&probe, None);
    assert_eq!(info.id, None);
    assert_eq!(info.manufacturer, "HP");
    assert_eq!(info.model, "EliteBook 840");
    assert_eq!(info.model_number, "Unknown");
}

#[test]
fn macos_probe_falls_back_to_sysctl() {
    let probe = PlatformProbe::MacOs { profiler: some("garbage"), sysctl: some("Mac14,2\n") };
    let info = HardwareInfo::from_probe(&probe, None);
    assert_eq!(info.manufacturer, "Apple");
    assert_eq!(info.model, "Mac");
    assert_eq!(info.model_number, "Mac14,2");
    let probe = PlatformProbe::MacOs { profiler: some(PROFILER), sysctl: some("Mac14,2") };
    let info = HardwareInfo::from_probe(&probe, None);
    assert_eq!(info.model, "MacBook Pro");
}

#[test]
fn other_platform_gives_unknown_info() {
    let info = HardwareInfo::from_probe(&PlatformProbe::Other, None);
    assert_eq!(info.manufacturer, "Unknown");
    assert_eq!(info.model, "Unknown");
    assert_eq!(info.model_number, "Unknown");
}
