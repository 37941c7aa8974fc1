use nib::i18n::{is_spanish, tr};
use nib::indicator::{
    same_device_infos, tooltip_description, tray_menu, tray_status, DeviceInfo, MenuAction,
    MenuEntry, TrayStatus,
};

fn dev(serial: &str, name: &str, tablet: bool, streaming: bool) -> DeviceInfo {
    DeviceInfo { serial: serial.into(), name: name.into(), is_tablet: tablet, is_streaming: streaming }
}

#[test]
fn translations_follow_the_locale() {
    assert_eq!(tr("start_stream", false), "Start Stream");
    assert_eq!(tr("start_stream", true), "Iniciar transmisi\u{f3}n");
    assert_eq!(tr("app_title", true), "Nib Display");
    assert_eq!(tr("app_title", false), "Nib Display");
    assert_eq!(tr("no_free_ports", false), "");
    assert_eq!(tr("unknown", true), "");
    assert_eq!(tr("stylus_subtitle", false), "Map tablet pen directly to GNOME virtual digitizer");
}

#[test]
fn spanish_locale_detection() {
    assert!(is_spanish(&vec!["en_US.UTF-8".to_string(), "es_ES".to_string()]));
    assert!(is_spanish(&vec!["es".to_string()]));
    assert!(!is_spanish(&vec!["en".to_string(), "C".to_string()]));
    assert!(!is_spanish(&Vec::new()));
}

#[test]
fn tray_status_and_tooltip() {
    let none: Vec<DeviceInfo> = Vec::new();
    assert_eq!(tray_status(&none), TrayStatus::Passive);
    assert_eq!(tooltip_description(&none, false), "No devices connected");
    let two = vec![dev("a", "Tab", true, false), dev("b", "Phone", false, false)];
    assert_eq!(tray_status(&two), TrayStatus::Active);
    assert_eq!(tooltip_description(&two, false), "Devices connected: Tab, Phone");
    let streaming = vec![dev("a", "Tab", true, true), dev("b", "Phone", false, false), dev("c", "P2", false, true)];
    assert_eq!(tooltip_description(&streaming, false), "Streaming active to Tab, P2");
    assert_eq!(tooltip_description(&streaming, true), "Transmitiendo a Tab, P2");
}

#[test]
fn tray_menu_layout() {
    let menu = tray_menu(&Vec::new(), false);
    assert_eq!(menu.len(), 5);
    match &menu[0] {
        MenuEntry::Item { label, enabled, icon, action } => {
            assert_eq!(label, "No devices connected");
            assert!(!enabled);
            assert_eq!(*icon, "display-symbolic");
            assert!(matches!(action, MenuAction::Nothing));
        }
        _ => panic!("expected an item"),
    }
    let menu = tray_menu(&vec![dev("S1", "Tab", true, true), dev("S2", "Ph", false, false)], false);
    assert_eq!(menu.len(), 6);
    match &menu[0] {
        MenuEntry::Item { label, icon, action, .. } => {
            assert_eq!(label, "Stop Stream (Tab)");
            assert_eq!(*icon, "tablet-symbolic");
            assert!(matches!(action, MenuAction::ToggleDevice(s) if s == "S1"));
        }
        _ => panic!("expected an item"),
    }
    match &menu[1] {
        MenuEntry::Item { label, icon, .. } => {
            assert_eq!(label, "Start Stream (Ph)");
            assert_eq!(*icon, "phone-symbolic");
        }
        _ => panic!("expected an item"),
    }
    assert!(matches!(menu[2], MenuEntry::Separator));
    assert!(matches!(&menu[3], MenuEntry::Item { action: MenuAction::ShowWindow, .. }));
    assert!(matches!(menu[4], MenuEntry::Separator));
    assert!(matches!(&menu[5], MenuEntry::Item { action: MenuAction::Quit, .. }));
}

#[test]
fn device_lists_compare_entry_by_entry() {
    let a = vec![dev("a", "A", true, false)];
    let b = vec![dev("a", "A", true, false)];
    let c = vec![dev("a", "A", true, true)];
    assert!(same_device_infos(&a, &b));
    assert!(!same_device_infos(&a, &c));
    assert!(!same_device_infos(&a, &Vec::new()));
}
