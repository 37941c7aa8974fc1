use nib::daemon::adb_transport::{AdbTransportManager as Adb, FormFactor};

#[test]
fn device_list_keeps_ready_devices_only() {
    let out = "List of devices attached\nR58N12ABCDE\tdevice\nZY22GHKLMN\tunauthorized\nemulator-5554   device product:sdk model:x\n\n";
    assert_eq!(Adb::parse_device_list(out), vec!["R58N12ABCDE", "emulator-5554"]);
}

#[test]
fn device_list_handles_crlf_and_empty_output() {
    assert_eq!(Adb::parse_device_list("A\tdevice\r\nB device\r\n"), vec!["A", "B"]);
    assert!(Adb::parse_device_list("").is_empty());
    assert!(Adb::parse_device_list("device").is_empty());
    assert!(Adb::parse_device_list("X devices").is_empty());
    assert_eq!(Adb::parse_device_list("  C\u{a0}device"), vec!["C"]);
}

#[test]
fn reverse_args_with_and_without_serial() {
    assert_eq!(Adb::reverse_args(Some("ABC"), 6002, 6000), vec!["-s", "ABC", "reverse", "tcp:6002", "tcp:6000"]);
    assert_eq!(Adb::reverse_args(None, 6001, 6001), vec!["reverse", "tcp:6001", "tcp:6001"]);
    assert_eq!(Adb::reverse_args(None, 0, 65535), vec!["reverse", "tcp:0", "tcp:65535"]);
}

#[test]
fn getprop_and_wm_size_args() {
    assert_eq!(Adb::getprop_args(Some("S"), "ro.product.model"), vec!["-s", "S", "shell", "getprop", "ro.product.model"]);
    assert_eq!(Adb::wm_size_args(None), vec!["shell", "wm", "size"]);
}

#[test]
fn adb_path_choice() {
    assert_eq!(Adb::default_sdk_adb_path("/home/u"), "/home/u/Android/Sdk/platform-tools/adb");
    assert_eq!(Adb::choose_adb_path(Some("/opt/adb".into()), "/x".into(), true), "/opt/adb");
    assert_eq!(Adb::choose_adb_path(None, "/x".into(), true), "/x");
    assert_eq!(Adb::choose_adb_path(None, "/x".into(), false), "adb");
}

#[test]
fn reverse_outcome_messages() {
    assert!(Adb::reverse_outcome(true, "ignored").is_ok());
    assert_eq!(Adb::reverse_outcome(false, "no devices").unwrap_err(), "ADB reverse failed: no devices");
}

#[test]
fn display_name_fallbacks() {
    assert_eq!(Adb::display_name("Galaxy Tab S9", "SM-X710", Some("R5")), "Galaxy Tab S9");
    assert_eq!(Adb::display_name("", "Pixel 8", Some("R5")), "Pixel 8");
    assert_eq!(Adb::display_name("", "", Some("R5")), "R5");
    assert_eq!(Adb::display_name("", "", None), "Android Device");
}

#[test]
fn form_factor_heuristics() {
    assert_eq!(Adb::classify_form_factor("tablet", "anything"), FormFactor::Tablet);
    assert_eq!(Adb::classify_form_factor("default", "xiaomi pad 6"), FormFactor::Tablet);
    assert_eq!(Adb::classify_form_factor("default", "pixel 8"), FormFactor::Phone);
    assert_eq!(Adb::classify_form_factor("", "galaxy s24"), FormFactor::Phone);
    assert_eq!(Adb::classify_form_factor("", "oneplus 12"), FormFactor::Undetermined);
}

#[test]
fn device_details_compare_in_lower_case() {
    let (name, f) = Adb::device_details("Galaxy TAB S9", "", "default", None);
    assert_eq!(name, "Galaxy TAB S9");
    assert_eq!(f, FormFactor::Tablet);
    let (_, f) = Adb::device_details("", "PIXEL 8", "nosdcard", Some("X"));
    assert_eq!(f, FormFactor::Phone);
    let (_, f) = Adb::device_details("", "", "TABLET", Some("X"));
    assert_eq!(f, FormFactor::Tablet);
}

#[test]
fn wm_size_sides() {
    assert_eq!(
        Adb::wm_size_dimensions("Physical size: 1600x2560\n"),
        Some(("1600".to_string(), "2560".to_string()))
    );
    assert_eq!(Adb::wm_size_dimensions("garbage"), None);
    assert_eq!(Adb::wm_size_dimensions("Physical size: 1600"), None);
    assert_eq!(Adb::wm_size_dimensions("a: 1x2x3"), None);
    assert_eq!(Adb::wm_size_dimensions("Override size: 10x20: extra"), Some(("10".into(), "20".into())));
}

#[test]
fn prop_values_are_trimmed() {
    assert_eq!(Adb::prop_value("  Pixel 8\r\n"), "Pixel 8");
    assert_eq!(Adb::prop_value("\n"), "");
}
