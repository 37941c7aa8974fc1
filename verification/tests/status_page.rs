use nib::daemon::StreamConfig;
use nib::ui::status_page::{
    claim_slot, config_for_device, device_row_subtitle, first_device, plan_device_update,
    ports_for_serial, ports_for_slot, release_unused_port_slots, sort_serials, DaemonStatus,
    PortSlots, MAX_DEVICE_SLOTS, fallback_device_details, stream_end_notice, StreamEnd,
};

#[test]
fn slot_maps_to_its_port_pair() {
    assert_eq!(ports_for_slot(0), (6000, 6001));
    assert_eq!(ports_for_slot(1), (6002, 6003));
    assert_eq!(ports_for_slot(MAX_DEVICE_SLOTS - 1), (6018, 6019));
}

#[test]
fn same_serial_keeps_its_slot() {
    let mut slots = PortSlots::new();
    let first = claim_slot(&mut slots, "ABC123").unwrap();
    assert_eq!(claim_slot(&mut slots, "ABC123"), Some(first));
    assert_eq!(slots.len(), 1);
}

#[test]
fn distinct_serials_never_share_a_slot() {
    let serials = ["R58N12ABCDE", "R58N12ABCED", "ZY22GHKLMN", "ZY22GHKLNM"];
    let mut slots = PortSlots::new();
    let mut assigned = Vec::new();
    for serial in serials {
        assigned.push(claim_slot(&mut slots, serial).unwrap());
    }
    let mut unique = assigned.clone();
    unique.sort_unstable();
    unique.dedup();
    assert_eq!(unique.len(), assigned.len(), "slots handed out twice");
}

#[test]
fn claims_the_lowest_free_slot() {
    let mut slots = PortSlots::new();
    for i in 0..3 {
        claim_slot(&mut slots, &format!("device{}", i));
    }
    slots.remove("device1");
    assert_eq!(claim_slot(&mut slots, "newcomer"), Some(1));
}

#[test]
fn pool_exhaustion_reports_none_instead_of_reusing() {
    let mut slots = PortSlots::new();
    for i in 0..MAX_DEVICE_SLOTS {
        assert!(claim_slot(&mut slots, &format!("device{}", i)).is_some());
    }
    assert_eq!(claim_slot(&mut slots, "one-too-many"), None);
    assert_eq!(slots.len(), MAX_DEVICE_SLOTS as usize);
}

#[test]
fn ports_for_serial_is_stable_and_distinct() {
    let mut slots = PortSlots::new();
    assert_eq!(ports_for_serial(&mut slots, "A"), Some((6000, 6001)));
    assert_eq!(ports_for_serial(&mut slots, "B"), Some((6002, 6003)));
    assert_eq!(ports_for_serial(&mut slots, "A"), Some((6000, 6001)));
    assert_eq!(slots.get("B"), Some(1));
    assert_eq!(slots.get("C"), None);
}

#[test]
fn released_slots_are_reused_and_kept_ones_stay() {
    let mut slots = PortSlots::new();
    for s in ["a", "b", "c", "d"] {
        claim_slot(&mut slots, s);
    }
    let connected = vec!["a".to_string()];
    let streaming = vec!["c".to_string()];
    release_unused_port_slots(&mut slots, &connected, &streaming);
    assert_eq!(slots.len(), 2);
    assert_eq!(slots.get("a"), Some(0));
    assert_eq!(slots.get("c"), Some(2));
    assert!(!slots.contains_key("b"));
    assert!(!slots.contains_key("d"));
    assert_eq!(claim_slot(&mut slots, "e"), Some(1));
    assert_eq!(claim_slot(&mut slots, "f"), Some(3));
}

#[test]
fn remove_reports_the_released_slot() {
    let mut slots = PortSlots::new();
    claim_slot(&mut slots, "x");
    claim_slot(&mut slots, "y");
    assert_eq!(slots.remove("y"), Some(1));
    assert_eq!(slots.remove("y"), None);
    assert_eq!(slots.len(), 1);
}

#[test]
fn device_poll_is_sorted_and_reconciled() {
    let polled = vec!["ZX1".to_string(), "AB2".to_string(), "M".to_string(), "AB".to_string()];
    let daemons = vec![
        DaemonStatus { serial: "AB2".to_string(), is_streaming: true, session_alive: false },
        DaemonStatus { serial: "GONE".to_string(), is_streaming: true, session_alive: true },
        DaemonStatus { serial: "M".to_string(), is_streaming: true, session_alive: true },
    ];
    let plan = plan_device_update(polled, &daemons);
    assert_eq!(plan.devices, vec!["AB", "AB2", "M", "ZX1"]);
    assert_eq!(plan.externally_stopped, vec!["AB2"]);
    assert_eq!(plan.unplugged, vec!["GONE"]);
}

#[test]
fn sort_orders_by_code_point_like_str_ord() {
    let input = vec![
        "b".to_string(),
        "B".to_string(),
        "\u{e9}".to_string(),
        "a".to_string(),
        "".to_string(),
        "ab".to_string(),
        "a".to_string(),
    ];
    let mut expected = input.clone();
    expected.sort();
    assert_eq!(sort_serials(input), expected);
}

#[test]
fn row_subtitle_shows_ports_or_the_exhaustion_text() {
    assert_eq!(
        device_row_subtitle("R58N", Some((6002, 6003)), "none"),
        "ADB Serial: R58N \u{2022} Ports: Video 6002 / Input 6003"
    );
    assert_eq!(device_row_subtitle("R58N", None, "No free ports"), "ADB Serial: R58N \u{2022} No free ports");
}

#[test]
fn first_known_device_is_toggled() {
    assert_eq!(first_device(&vec!["a".to_string(), "b".to_string()]).map(|s| s.as_str()), Some("a"));
    assert_eq!(first_device(&Vec::new()), None);
}

#[test]
fn device_config_takes_serial_and_ports() {
    let c = config_for_device(StreamConfig::default(), "SER", (6004, 6005));
    assert_eq!(c.device_serial.as_deref(), Some("SER"));
    assert_eq!((c.video_port, c.input_port), (6004, 6005));
    assert_eq!((c.width, c.height, c.fps), (2560, 1600, 60));
}

#[test]
fn unreachable_device_details_fall_back_to_a_tablet_named_by_serial() {
    assert_eq!(fallback_device_details("R58N12"), ("Android Device (R58N12)".to_string(), true));
}

#[test]
fn stream_end_notices_name_the_device() {
    assert_eq!(
        stream_end_notice(StreamEnd::Unplugged, "R58N12", false),
        ("Device disconnected (R58N12)".to_string(), "unplug-R58N12".to_string())
    );
    assert_eq!(
        stream_end_notice(StreamEnd::Unplugged, "R58N12", true),
        ("Dispositivo desconectado (R58N12)".to_string(), "unplug-R58N12".to_string())
    );
    // The stopped-externally key has no text in the table, so only the serial is shown.
    assert_eq!(
        stream_end_notice(StreamEnd::StoppedExternally, "ZY22", false),
        (" (ZY22)".to_string(), "external-stop-ZY22".to_string())
    );
}
