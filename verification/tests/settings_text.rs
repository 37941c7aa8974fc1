use nib::daemon::virtual_monitor::DisplayMode;
use nib::daemon::StreamConfig;
use nib::text::{decimal_string, str_contains, str_eq, str_lex_le, str_starts_with, trim_whitespace};
use nib::ui::display_settings::stream_config_for;

#[test]
fn stream_config_defaults() {
    let c = StreamConfig::default();
    assert_eq!((c.width, c.height, c.fps), (2560, 1600, 60));
    assert_eq!(c.encoder, "vaapi");
    assert_eq!(c.display_mode, DisplayMode::Extend);
    assert_eq!(c.device_serial, None);
    assert_eq!((c.video_port, c.input_port), (6000, 6001));
}

#[test]
fn settings_selection_to_config() {
    let c = stream_config_for(1, 2, 1);
    assert_eq!(c.display_mode, DisplayMode::Mirror);
    assert_eq!((c.width, c.height, c.fps), (1920, 1080, 120));
    let c = stream_config_for(0, 1, 2);
    assert_eq!(c.display_mode, DisplayMode::Extend);
    assert_eq!((c.width, c.height, c.fps), (1920, 1200, 30));
    let c = stream_config_for(7, 7, 7);
    assert_eq!(c.display_mode, DisplayMode::Extend);
    assert_eq!((c.width, c.height, c.fps), (2560, 1600, 60));
    assert_eq!(c.encoder, "vaapi");
}

#[test]
fn text_primitives() {
    assert_eq!(decimal_string(0), "0");
    assert_eq!(decimal_string(6019), "6019");
    assert_eq!(decimal_string(u64::MAX), u64::MAX.to_string());
    assert!(str_eq("abc", "abc"));
    assert!(!str_eq("abc", "abd"));
    assert!(str_contains("galaxy s24", "galaxy s"));
    assert!(str_contains("x", ""));
    assert!(!str_contains("", "x"));
    assert!(str_starts_with("Meta-0", "Meta"));
    assert!(!str_starts_with("Me", "Meta"));
    assert!(str_lex_le("ab", "b"));
    assert!(!str_lex_le("b", "ab"));
    assert!(str_lex_le("a", "ab"));
    assert_eq!(trim_whitespace("\u{3000} x y \t"), "x y");
}
