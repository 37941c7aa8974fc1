use nib::daemon::screencast::{
    encoder_element, encoder_pipeline_string, encoder_properties, frame_length_prefix,
    keepalive_time, select_encoder, supported_properties, EncoderAvailability, EncoderKind,
    ScreencastPipeline,
};
use nib::daemon::StreamConfig;

const X264: &str = "x264enc tune=zerolatency speed-preset=ultrafast bitrate=12000";

fn all_available() -> EncoderAvailability {
    EncoderAvailability { nvh264enc: true, vah264enc: true, vaapih264enc: true, x264enc: true }
}

#[test]
fn supported_properties_filters_to_what_the_element_exposes() {
    let props = supported_properties(
        true,
        &vec![("silent", "true"), ("not-a-real-property", "42")],
        &vec![true, false],
    );
    assert!(
        props.contains("silent=true"),
        "expected a supported property to be kept, got: {props}"
    );
    assert!(
        !props.contains("not-a-real-property"),
        "expected an unsupported property to be filtered out, got: {props}"
    );
}

#[test]
fn supported_properties_empty_for_nonexistent_element() {
    let props = supported_properties(false, &vec![("foo", "bar")], &vec![true]);
    assert_eq!(props, "");
}

#[test]
fn supported_properties_are_space_joined_in_order() {
    let desired = encoder_properties(EncoderKind::Vah264);
    let props = supported_properties(true, &desired, &vec![true, false, true, true]);
    assert_eq!(props, "rate-control=cbr gop-size=30 bframes=0");
    assert_eq!(supported_properties(true, &desired, &vec![false, false, false, false]), "");
}

#[test]
fn build_pipeline_desc_includes_node_id_and_fd_in_source() {
    let config = StreamConfig { width: 1920, height: 1080, ..StreamConfig::default() };
    let pipeline = ScreencastPipeline::new(config);
    let desc = pipeline.build_pipeline_desc(false, X264, Some(42), Some(7));
    assert!(desc.contains("fd=7"), "missing fd in: {desc}");
    assert!(desc.contains("path=42"), "missing node_id path in: {desc}");
}

#[test]
fn build_pipeline_desc_omits_fd_and_path_when_absent() {
    let pipeline = ScreencastPipeline::new(StreamConfig::default());
    let desc = pipeline.build_pipeline_desc(false, X264, None, None);
    assert!(!desc.contains("fd="), "unexpected fd in: {desc}");
    assert!(!desc.contains("path="), "unexpected path in: {desc}");
}

#[test]
fn build_pipeline_desc_has_no_fixed_framerate_constraint() {
    let config = StreamConfig { fps: 120, ..StreamConfig::default() };
    let pipeline = ScreencastPipeline::new(config);
    let desc = pipeline.build_pipeline_desc(false, X264, None, None);
    assert!(!desc.contains("framerate="), "pipeline must never pin a framerate: {desc}");
}

#[test]
fn build_pipeline_desc_forces_annex_b_baseline_h264() {
    let pipeline = ScreencastPipeline::new(StreamConfig::default());
    let desc = pipeline.build_pipeline_desc(true, X264, None, None);
    assert!(desc.contains("profile=baseline"), "missing baseline profile: {desc}");
    assert!(desc.contains("stream-format=byte-stream"), "missing Annex-B stream format: {desc}");
}

#[test]
fn build_pipeline_desc_matches_configured_resolution() {
    let config = StreamConfig { width: 2560, height: 1600, ..StreamConfig::default() };
    let pipeline = ScreencastPipeline::new(config);
    let desc = pipeline.build_pipeline_desc(false, X264, None, None);
    assert!(desc.contains("width=2560"));
    assert!(desc.contains("height=1600"));
}

#[test]
fn build_pipeline_desc_exact_text() {
    let pipeline = ScreencastPipeline::new(StreamConfig { width: 1920, height: 1080, ..StreamConfig::default() });
    let desc = pipeline.build_pipeline_desc(true, "x264enc", Some(42), Some(-3));
    assert_eq!(
        desc,
        "pipewiresrc do-timestamp=true always-copy=true keepalive-time=0 fd=-3 path=42 ! video/x-raw ! queue max-size-buffers=1 max-size-bytes=0 max-size-time=0 leaky=downstream ! videoconvert n-threads=4 ! videoscale ! video/x-raw,width=1920,height=1080 ! queue max-size-buffers=1 max-size-bytes=0 max-size-time=0 leaky=downstream ! x264enc ! video/x-h264,profile=baseline ! h264parse config-interval=1 ! video/x-h264,stream-format=byte-stream,alignment=au ! appsink name=sink sync=false max-buffers=1 drop=true"
    );
    let native = pipeline.build_pipeline_desc(false, "x264enc", None, Some(5));
    assert!(native.starts_with("pipewiresrc do-timestamp=true always-copy=true keepalive-time=16 fd=5 ! "));
}

#[test]
fn keepalive_is_off_only_when_sandboxed() {
    assert_eq!(keepalive_time(true), 0);
    assert_eq!(keepalive_time(false), 16);
}

#[test]
fn hardware_encoders_are_skipped_when_sandboxed() {
    assert_eq!(select_encoder(false, all_available()), EncoderKind::Nvh264);
    assert_eq!(select_encoder(true, all_available()), EncoderKind::X264);
    let no_x264 = EncoderAvailability { x264enc: false, ..all_available() };
    assert_eq!(select_encoder(true, no_x264), EncoderKind::OpenH264);
    let only_vaapi = EncoderAvailability { nvh264enc: false, vah264enc: false, vaapih264enc: true, x264enc: false };
    assert_eq!(select_encoder(false, only_vaapi), EncoderKind::Vaapih264);
    let va = EncoderAvailability { nvh264enc: false, ..all_available() };
    assert_eq!(select_encoder(false, va), EncoderKind::Vah264);
}

#[test]
fn encoder_strings() {
    assert_eq!(encoder_element(EncoderKind::OpenH264), "openh264enc");
    assert_eq!(encoder_pipeline_string(EncoderKind::Nvh264, "zerolatency=true"), "nvh264enc zerolatency=true");
    assert_eq!(encoder_pipeline_string(EncoderKind::X264, ""), "x264enc ");
    assert_eq!(encoder_properties(EncoderKind::OpenH264), vec![("gop-size", "30"), ("bitrate", "12000000")]);
    assert_eq!(encoder_properties(EncoderKind::X264).len(), 8);
    assert_eq!(encoder_properties(EncoderKind::Nvh264)[1], ("tune", "ultra-low-latency"));
}

#[test]
fn frame_prefix_is_big_endian_length() {
    assert_eq!(frame_length_prefix(0x0102_0304), [1, 2, 3, 4]);
    assert_eq!(frame_length_prefix(300), [0, 0, 1, 44]);
    assert_eq!(frame_length_prefix(0), [0, 0, 0, 0]);
}
