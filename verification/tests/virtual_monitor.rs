use nib::daemon::cursor_keepalive::{
    choose_keepalive_monitor, find_monitor_by_point, find_virtual_monitor, keepalive_search_step,
    stream_center, GdkMonitorInfo, SearchStep, KEEPALIVE_RETRY_MILLIS, KEEPALIVE_SEARCH_ATTEMPTS,
};
use nib::daemon::virtual_monitor::gesture::{
    gesture_expired, SwipeAction, SwipeLatch, SwipeReading, SWIPE_GESTURE_TIMEOUT_NANOS,
};
use nib::daemon::virtual_monitor::input::{
    for_session, overview_toggle_plan, scroll_plan, right_click_plan, stylus_down_plan, stylus_up_plan, touch_down_plan,
    touch_motion_plan, touch_up_plan, workspace_switch_plan, InputStep, KeyState,
};
use nib::daemon::virtual_monitor::motion::{
    self, motion_call, MotionAction, MotionCall, MotionCoordinates, MotionProbe, MotionStream,
};
use nib::daemon::virtual_monitor::{
    locate_virtual_monitor, DisplayMode, LogicalMonitorInfo, MonitorIdent, MonitorModes,
    MonitorState, SourceKind, StreamReport,
};
use nib::daemon::{is_session_alive, port_forwards, FailureKind, SessionProbe, StreamConfig};

fn ident(connector: &str, vendor: &str) -> MonitorIdent {
    MonitorIdent { connector: connector.into(), vendor: vendor.into(), product: "p".into(), serial: "s".into() }
}

#[test]
fn update_target_resolution_does_not_affect_the_captured_stream_pixel_space() {
    let mut mgr = MonitorState::new();
    mgr.update_target_resolution(1080, 2400);
    assert_eq!(mgr.stream_geometry(), (0, 0, 2560, 1600));
}

#[test]
fn notify_touch_down_sets_last_input_on_virtual() {
    let mut mgr = MonitorState::new();
    assert!(!mgr.was_last_input_on_virtual);
    mgr.record_input();
    assert!(mgr.was_last_input_on_virtual);
}

#[test]
fn motion_names() {
    assert_eq!(motion::name(motion::STREAM_LOCAL), "node_id + stream-local");
    assert_eq!(motion::name(motion::RELATIVE), "relative deltas");
    assert_eq!(motion::name(motion::UNPROBED), "unprobed");
    assert_eq!(motion::name(200), "unprobed");
}

#[test]
fn motion_probe_tries_shapes_in_order_and_caches_the_winner() {
    let (mut p, first) = MotionProbe::start(motion::UNPROBED);
    assert_eq!(first, motion::STREAM_LOCAL);
    assert_eq!(p.on_result(false), MotionAction::Send(motion::STREAM_GLOBAL));
    assert_eq!(p.on_result(true), MotionAction::Finish(motion::STREAM_GLOBAL));

    let (mut p, first) = MotionProbe::start(motion::ZERO_GLOBAL);
    assert_eq!(first, motion::ZERO_GLOBAL);
    assert_eq!(p.on_result(true), MotionAction::Finish(motion::ZERO_GLOBAL));

    let (mut p, _) = MotionProbe::start(motion::STREAM_GLOBAL);
    assert_eq!(p.on_result(false), MotionAction::Send(motion::STREAM_LOCAL));
    assert_eq!(p.on_result(false), MotionAction::Send(motion::STREAM_GLOBAL));
    assert_eq!(p.on_result(false), MotionAction::Send(motion::ZERO_GLOBAL));
    assert_eq!(p.on_result(false), MotionAction::Send(motion::RELATIVE));
    assert_eq!(p.on_result(false), MotionAction::Finish(motion::RELATIVE));
}

#[test]
fn stream_report_overrides_mode_size_and_position() {
    let mut s = MonitorState::new();
    s.begin_create(DisplayMode::Extend, 0, 1200);
    assert_eq!((s.width, s.height, s.actual_width, s.actual_height), (2560, 1200, 2560, 1200));
    assert_eq!(s.requested_source(), SourceKind::Virtual);
    let out = s.apply_stream(Some(StreamReport {
        node_id: 77,
        source: Some(SourceKind::Monitor),
        size: Some((1920, 1080)),
        position: None,
    }));
    assert_eq!(out.node_id, Some(77));
    assert_eq!(out.mode, DisplayMode::Mirror);
    assert!(!out.needs_alignment);
    assert_eq!(s.stream_geometry(), (0, 0, 1920, 1080));

    let mut e = MonitorState::new();
    e.begin_create(DisplayMode::Extend, 1920, 1200);
    let out = e.apply_stream(Some(StreamReport { node_id: 3, source: None, size: Some((320, 200)), position: None }));
    assert!(out.needs_alignment);
    assert_eq!(e.stream_geometry(), (0, 0, 1920, 1200));
    let out = e.apply_stream(Some(StreamReport { node_id: 3, source: None, size: None, position: Some((2560, 0)) }));
    assert!(!out.needs_alignment);
    assert_eq!(e.stream_geometry(), (2560, 0, 1920, 1200));
}

#[test]
fn destroy_resets_offsets_and_reports_cursor_reset() {
    let mut s = MonitorState::new();
    s.apply_stream(Some(StreamReport { node_id: 1, source: None, size: None, position: Some((5, 6)) }));
    s.record_input();
    s.mark_session_closed();
    assert!(s.is_session_closed());
    assert!(s.begin_destroy());
    assert!(!s.begin_destroy());
    assert_eq!(s.stream_geometry(), (5, 6, 2560, 1600));
    s.finish_destroy();
    assert_eq!(s.stream_geometry(), (0, 0, 2560, 1600));
    assert_eq!(s.node_id, None);
    assert!(!s.is_session_closed());
}

#[test]
fn virtual_monitor_is_located_in_display_config() {
    let logical = vec![
        LogicalMonitorInfo { x: 0, y: 0, monitors: vec![ident("DP-1", "DEL")] },
        LogicalMonitorInfo { x: 2560, y: 0, monitors: vec![ident("eDP-1", "BOE"), ident("Meta-0", "MetaProducts")] },
    ];
    let monitors = vec![
        MonitorModes { connector: "DP-1".into(), first_mode: Some((2560, 1440)) },
        MonitorModes { connector: "Meta-0".into(), first_mode: Some((1920, 1200)) },
        MonitorModes { connector: "Meta-0".into(), first_mode: None },
    ];
    let p = locate_virtual_monitor(DisplayMode::Extend, &logical, &monitors);
    assert_eq!(p.offset, (2560, 0));
    assert_eq!(p.size, Some((1920, 1200)));
    let p = locate_virtual_monitor(DisplayMode::Mirror, &logical, &monitors);
    assert_eq!(p.offset, (0, 0));
    assert_eq!(p.size, None);
    let plain = vec![LogicalMonitorInfo { x: 7, y: 8, monitors: vec![ident("HDMI-1", "Virtually")] }];
    let p = locate_virtual_monitor(DisplayMode::Extend, &plain, &monitors);
    assert_eq!(p.offset, (0, 0));
    let vendor = vec![LogicalMonitorInfo { x: 7, y: 8, monitors: vec![ident("X", "the Meta vendor")] }];
    let p = locate_virtual_monitor(DisplayMode::Extend, &vendor, &monitors);
    assert_eq!(p.offset, (7, 8));
    assert_eq!(p.size, None);
}

#[test]
fn placement_updates_geometry() {
    let mut s = MonitorState::new();
    let logical = vec![LogicalMonitorInfo { x: -1920, y: 40, monitors: vec![ident("Virtual-1", "")] }];
    let monitors = vec![MonitorModes { connector: "Virtual-1".into(), first_mode: Some((1280, 800)) }];
    s.apply_placement(locate_virtual_monitor(DisplayMode::Extend, &logical, &monitors));
    assert_eq!(s.stream_geometry(), (-1920, 40, 1280, 800));
}

#[test]
fn keepalive_monitor_choice() {
    let monitors = vec![
        GdkMonitorInfo { connector: Some("DP-1".into()), x: 0, y: 0, width: 2560, height: 1440 },
        GdkMonitorInfo { connector: None, x: 2560, y: 0, width: 1920, height: 1080 },
        GdkMonitorInfo { connector: Some("Meta-0".into()), x: 4480, y: 0, width: 1920, height: 1200 },
    ];
    assert_eq!(stream_center((2560, 0, 1920, 1080)), (3520, 540));
    assert_eq!(stream_center((0, 0, -3, 5)), (-1, 2));
    assert_eq!(find_monitor_by_point(&monitors, (2560, 0)), Some(1));
    assert_eq!(find_monitor_by_point(&monitors, (2559, 1439)), Some(0));
    assert_eq!(find_monitor_by_point(&monitors, (0, 1440)), None);
    assert_eq!(find_virtual_monitor(&monitors), Some(2));
    assert_eq!(choose_keepalive_monitor(DisplayMode::Extend, &monitors, (0, 0, 100, 100)), Some(2));
    assert_eq!(choose_keepalive_monitor(DisplayMode::Mirror, &monitors, (0, 0, 100, 100)), Some(0));
    assert_eq!(choose_keepalive_monitor(DisplayMode::Mirror, &monitors, (9000, 0, 100, 100)), Some(2));
    let real = vec![GdkMonitorInfo { connector: Some("DP-1".into()), x: 0, y: 0, width: 100, height: 100 }];
    assert_eq!(choose_keepalive_monitor(DisplayMode::Extend, &real, (0, 0, 100, 100)), Some(0));
    assert_eq!(choose_keepalive_monitor(DisplayMode::Extend, &real, (500, 0, 100, 100)), None);
}

#[test]
fn input_plans() {
    let p = touch_down_plan(DisplayMode::Extend, 3);
    assert_eq!(p.steps, vec![InputStep::PointerMotion, InputStep::PointerButton(272, KeyState::Pressed)]);
    assert!(p.stop_on_error);
    let p = touch_down_plan(DisplayMode::Mirror, 3);
    assert_eq!(p.steps, vec![InputStep::TouchDown(3)]);
    assert!(!p.stop_on_error);
    assert_eq!(touch_motion_plan(DisplayMode::Mirror, 1).steps, vec![InputStep::TouchMotion(1)]);
    assert_eq!(touch_motion_plan(DisplayMode::Extend, 1).steps, vec![InputStep::PointerMotion]);
    assert_eq!(touch_up_plan(DisplayMode::Mirror, 2).steps, vec![InputStep::TouchUp(2)]);
    assert_eq!(
        touch_up_plan(DisplayMode::Extend, 2).steps,
        vec![InputStep::PointerMotion, InputStep::PointerButton(272, KeyState::Released)]
    );
    assert_eq!(stylus_down_plan().steps[1], InputStep::PointerButton(272, KeyState::Pressed));
    assert_eq!(stylus_up_plan().steps[0], InputStep::PointerMotion);
    assert_eq!(right_click_plan().steps[2], InputStep::PointerButton(273, KeyState::Pressed));
    assert_eq!(overview_toggle_plan().steps[1], InputStep::Keycode(125, KeyState::Pressed));
    assert_eq!(
        workspace_switch_plan(true).steps,
        vec![
            InputStep::Keycode(29, KeyState::Pressed),
            InputStep::Keycode(56, KeyState::Pressed),
            InputStep::Keycode(106, KeyState::Pressed),
            InputStep::Keycode(106, KeyState::Released),
            InputStep::Keycode(56, KeyState::Released),
            InputStep::Keycode(29, KeyState::Released),
        ]
    );
    assert_eq!(workspace_switch_plan(false).steps[2], InputStep::Keycode(105, KeyState::Pressed));
}

#[test]
fn session_liveness() {
    assert!(is_session_alive(SessionProbe::NoSession));
    assert!(is_session_alive(SessionProbe::Busy));
    assert!(is_session_alive(SessionProbe::Read(false)));
    assert!(!is_session_alive(SessionProbe::Read(true)));
}

#[test]
fn port_forwards_map_to_device_ports() {
    let c = StreamConfig { video_port: 6004, input_port: 6005, ..StreamConfig::default() };
    assert_eq!(port_forwards(&c), [(6004, 6000), (6005, 6001)]);
}

/// The caller's side of a swipe gesture: per-axis sums and the latch.
struct Swipe {
    dx_accum: f64,
    dy_accum: f64,
    since_last: Option<u128>,
    latch: SwipeLatch,
}

impl Swipe {
    fn new() -> Self {
        Swipe { dx_accum: 0.0, dy_accum: 0.0, since_last: None, latch: SwipeLatch::new() }
    }

    /// One packet, arriving `since_last` after the previous one.
    fn packet(&mut self, dx: f64, dy: f64) -> Option<SwipeAction> {
        let new_gesture = gesture_expired(self.since_last);
        if new_gesture {
            self.dx_accum = 0.0;
            self.dy_accum = 0.0;
        }
        self.since_last = Some(0);
        self.dx_accum += dx;
        self.dy_accum += dy;
        let reading = SwipeReading {
            vertical_over: self.dy_accum.abs() > 120.0,
            vertical_dominant: self.dy_accum.abs() >= self.dx_accum.abs(),
            horizontal_over: self.dx_accum.abs() > 120.0,
            rightward: self.dx_accum > 0.0,
        };
        self.latch.step(new_gesture, reading)
    }
}

#[test]
fn swipe_gesture_fires_at_most_once_per_continuous_gesture() {
    let mut swipe = Swipe::new();
    let mut fired = Vec::new();
    for _ in 0..3 {
        fired.extend(swipe.packet(0.0, 50.0));
    }
    assert!(swipe.latch.fired, "cumulative dy (150) should have crossed the trigger threshold");
    assert_eq!(fired, vec![SwipeAction::Overview]);

    for _ in 0..3 {
        fired.extend(swipe.packet(0.0, 50.0));
    }
    assert!(swipe.latch.fired);
    assert_eq!(fired, vec![SwipeAction::Overview]);
}

#[test]
fn swipe_gesture_rearms_after_a_gap_between_gestures() {
    let mut swipe = Swipe::new();
    for _ in 0..3 {
        swipe.packet(0.0, 50.0);
    }
    assert!(swipe.latch.fired);

    swipe.since_last = Some(500_000_000);
    assert_eq!(swipe.packet(0.0, 10.0), None);
    assert!(!swipe.latch.fired, "a new gesture should be able to fire again");
    assert_eq!(swipe.dy_accum, 10.0, "accumulator should reset on a new gesture");
}

#[test]
fn swipe_gap_boundary_and_directions() {
    assert!(gesture_expired(None));
    assert!(!gesture_expired(Some(SWIPE_GESTURE_TIMEOUT_NANOS)));
    assert!(gesture_expired(Some(SWIPE_GESTURE_TIMEOUT_NANOS + 1)));

    let mut right = Swipe::new();
    assert_eq!(right.packet(130.0, 10.0), Some(SwipeAction::WorkspaceRight));
    let mut left = Swipe::new();
    assert_eq!(left.packet(-130.0, 10.0), Some(SwipeAction::WorkspaceLeft));
    // A dominant vertical swipe wins over a horizontal one past the threshold.
    let mut both = Swipe::new();
    assert_eq!(both.packet(125.0, -130.0), Some(SwipeAction::Overview));
    // Horizontal dominance with both past the threshold switches workspace.
    let mut wide = Swipe::new();
    assert_eq!(wide.packet(-140.0, 130.0), Some(SwipeAction::WorkspaceLeft));
}

#[test]
fn granted_mode_is_adopted_and_decides_the_keepalive() {
    let mut config = StreamConfig::default();
    assert!(!config.adopt_granted_mode(DisplayMode::Mirror));
    assert_eq!(config.display_mode, DisplayMode::Mirror);
    assert_eq!((config.width, config.height, config.video_port), (2560, 1600, 6000));
    assert!(config.adopt_granted_mode(DisplayMode::Extend));
    assert_eq!(config.display_mode, DisplayMode::Extend);
}

#[test]
fn notify_methods_are_safe_noops_without_an_active_session() {
    let plans = vec![
        right_click_plan(),
        overview_toggle_plan(),
        scroll_plan(),
        touch_down_plan(DisplayMode::Mirror, 0),
        touch_down_plan(DisplayMode::Extend, 0),
        touch_motion_plan(DisplayMode::Extend, 0),
        touch_up_plan(DisplayMode::Extend, 0),
        stylus_down_plan(),
        stylus_up_plan(),
        workspace_switch_plan(true),
    ];
    for p in plans {
        let len = p.steps.len();
        assert!(for_session(p.clone(), false).steps.is_empty());
        assert_eq!(for_session(p, true).steps.len(), len);
    }
    assert_eq!(scroll_plan().steps, vec![InputStep::Axis]);
}

#[test]
fn motion_shapes_map_to_their_portal_calls() {
    assert_eq!(
        motion_call(motion::STREAM_LOCAL),
        MotionCall::Absolute(MotionStream::Node, MotionCoordinates::StreamLocal)
    );
    assert_eq!(
        motion_call(motion::STREAM_GLOBAL),
        MotionCall::Absolute(MotionStream::Node, MotionCoordinates::DesktopGlobal)
    );
    assert_eq!(
        motion_call(motion::ZERO_GLOBAL),
        MotionCall::Absolute(MotionStream::Zero, MotionCoordinates::DesktopGlobal)
    );
    assert_eq!(motion_call(motion::RELATIVE), MotionCall::Relative);
    assert_eq!(motion_call(motion::UNPROBED), MotionCall::Relative);
}

#[test]
fn keepalive_search_retries_ten_times() {
    assert_eq!(KEEPALIVE_RETRY_MILLIS, 200);
    assert_eq!(keepalive_search_step(1, true), SearchStep::Found);
    assert_eq!(keepalive_search_step(1, false), SearchStep::WaitThenRetry);
    assert_eq!(keepalive_search_step(9, false), SearchStep::WaitThenRetry);
    assert_eq!(keepalive_search_step(10, false), SearchStep::WaitThenGiveUp);
    assert_eq!(keepalive_search_step(10, true), SearchStep::Found);
    let mut searches = 0;
    loop {
        searches += 1;
        if keepalive_search_step(searches, false) != SearchStep::WaitThenRetry {
            break;
        }
    }
    assert_eq!(searches, KEEPALIVE_SEARCH_ATTEMPTS);
}

#[test]
fn daemon_error_is_cancelled_only_for_a_cancelled_portal_response() {
    assert!(FailureKind::PortalCancelled.is_cancelled());
    assert!(!FailureKind::Portal.is_cancelled());
    assert!(!FailureKind::Other.is_cancelled());
    assert!(!FailureKind::DBus.is_cancelled());
    assert!(!FailureKind::Io.is_cancelled());
}
