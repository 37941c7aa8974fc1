//! State of the RemoteDesktop/ScreenCast portal session behind a virtual or mirrored
//! display: its mode, the captured stream's geometry, and how pointer motion is shaped.
//!
//! The portal calls themselves are made by the caller; this module decides what is asked of
//! the portal and what its replies change.

pub mod gesture;
pub mod input;
pub mod motion;

use vstd::prelude::*;
use crate::text::{contains, starts_with, str_contains, str_eq, str_starts_with};

verus! {

/// Selects how the streamed display is exposed on the GNOME desktop.
#[derive(Clone, Copy, Debug, PartialEq, Eq, Structural)]
pub enum DisplayMode {
    /// Creates a new independent Virtual Display in GNOME (Extended Desktop).
    Extend,
    /// Captures an existing physical monitor (Screen Mirroring).
    Mirror,
}

/// The kind of screencast source the portal is asked for, or reports having granted.
#[derive(Clone, Copy, Debug, PartialEq, Eq, Structural)]
pub enum SourceKind {
    /// A physical monitor.
    Monitor,
    /// A virtual monitor created for the session.
    Virtual,
    /// Anything else (a window, say).
    Other,
}

/// What the portal reported about the first stream of a started session.
#[derive(Clone, Copy, Debug)]
pub struct StreamReport {
    /// PipeWire node id of the stream.
    pub node_id: u32,
    /// Source type granted, when reported.
    pub source: Option<SourceKind>,
    /// Stream size, when reported.
    pub size: Option<(i32, i32)>,
    /// Stream position in the compositor's global coordinates, when reported.
    pub position: Option<(i32, i32)>,
}

/// Mutter `DisplayConfig` monitor identity: connector, vendor, product, serial.
#[derive(Clone, Debug)]
pub struct MonitorIdent {
    /// Connector name, e.g. `Meta-0` or `DP-1`.
    pub connector: String,
    /// Vendor name.
    pub vendor: String,
    /// Product name.
    pub product: String,
    /// Serial.
    pub serial: String,
}

/// Mutter `DisplayConfig` monitor entry, reduced to what placement reads: its connector and
/// the size of its first mode.
#[derive(Clone, Debug)]
pub struct MonitorModes {
    /// Connector name.
    pub connector: String,
    /// Width and height of the first listed mode, if any mode is listed.
    pub first_mode: Option<(i32, i32)>,
}

/// Mutter `DisplayConfig` logical monitor entry, reduced to its position and the monitors it
/// shows.
#[derive(Clone, Debug)]
pub struct LogicalMonitorInfo {
    /// Horizontal offset in the global layout.
    pub x: i32,
    /// Vertical offset in the global layout.
    pub y: i32,
    /// The monitors this logical monitor shows.
    pub monitors: Vec<MonitorIdent>,
}

/// Where the captured stream sits, as worked out from `DisplayConfig`.
#[derive(Clone, Copy, Debug)]
pub struct Placement {
    /// Offset of the stream in the global layout.
    pub offset: (i32, i32),
    /// Pixel size of the stream, when the virtual monitor's mode was found.
    pub size: Option<(i32, i32)>,
}

/// Mutter's naming of virtual/headless outputs: a `Meta` connector or vendor, or a
/// connector mentioning `Virtual`.
pub open spec fn is_virtual_ident(m: MonitorIdent) -> bool {
    starts_with(m.connector@, "Meta"@) || contains(m.vendor@, "Meta"@) || contains(
        m.connector@,
        "Virtual"@,
    )
}

/// In `DisplayConfig`, a monitor is taken for the virtual output when its connector starts
/// with `Meta`, its vendor mentions `Meta`, or its connector mentions `Virtual`; any other
/// monitor is a physical one.
pub proof fn law_virtual_ident_names(m: MonitorIdent)
    ensures
        starts_with(m.connector@, "Meta"@) ==> is_virtual_ident(m),
        contains(m.vendor@, "Meta"@) ==> is_virtual_ident(m),
        contains(m.connector@, "Virtual"@) ==> is_virtual_ident(m),
        !starts_with(m.connector@, "Meta"@) && !contains(m.vendor@, "Meta"@) && !contains(
            m.connector@,
            "Virtual"@,
        ) ==> !is_virtual_ident(m),
{
}

/// Connector of the first monitor of `ms` named like a virtual output.
pub open spec fn first_virtual_ident(ms: Seq<MonitorIdent>) -> Option<Seq<char>>
    decreases ms.len(),
{
    if ms.len() == 0 {
        None
    } else if is_virtual_ident(ms[0]) {
        Some(ms[0].connector@)
    } else {
        first_virtual_ident(ms.drop_first())
    }
}

/// Position and connector of the first logical monitor that shows a virtual output.
pub open spec fn first_virtual_logical(lms: Seq<LogicalMonitorInfo>) -> Option<
    (i32, i32, Seq<char>),
>
    decreases lms.len(),
{
    if lms.len() == 0 {
        None
    } else {
        match first_virtual_ident(lms[0].monitors@) {
            Some(c) => Some((lms[0].x, lms[0].y, c)),
            None => first_virtual_logical(lms.drop_first()),
        }
    }
}

/// First-mode size of the last monitor on `connector` that lists a mode.
pub open spec fn last_mode_on(ms: Seq<MonitorModes>, connector: Seq<char>) -> Option<(i32, i32)>
    decreases ms.len(),
{
    if ms.len() == 0 {
        None
    } else if ms.last().connector@ == connector && ms.last().first_mode is Some {
        ms.last().first_mode
    } else {
        last_mode_on(ms.drop_last(), connector)
    }
}

/// Placement of the stream from a `DisplayConfig.GetCurrentState` reply: in `Extend` mode the
/// first logical monitor showing a virtual output gives the offset, and that output's mode
/// the size; otherwise (or when none is found) the offset is the origin.
pub open spec fn placement_of(
    mode: DisplayMode,
    logical: Seq<LogicalMonitorInfo>,
    monitors: Seq<MonitorModes>,
) -> Placement {
    if mode == DisplayMode::Extend {
        match first_virtual_logical(logical) {
            Some((x, y, c)) => Placement { offset: (x, y), size: last_mode_on(monitors, c) },
            None => Placement { offset: (0, 0), size: None },
        }
    } else {
        Placement { offset: (0, 0), size: None }
    }
}

/// Whether a monitor identity is named like one of Mutter's virtual outputs.
pub fn is_virtual_monitor_ident(m: &MonitorIdent) -> (r: bool)
    ensures
        r == is_virtual_ident(*m),
{
    str_starts_with(m.connector.as_str(), "Meta") || str_contains(m.vendor.as_str(), "Meta")
        || str_contains(m.connector.as_str(), "Virtual")
}

fn find_virtual_ident(ms: &Vec<MonitorIdent>) -> (r: Option<usize>)
    ensures
        match r {
            Some(i) => i < ms@.len() && first_virtual_ident(ms@) == Some(ms@[i as int].connector@),
            None => first_virtual_ident(ms@) is None,
        },
{
    let mut i: usize = 0;
    assert(ms@.skip(0) =~= ms@);
    while i < ms.len()
        invariant
            i <= ms@.len(),
            first_virtual_ident(ms@) == first_virtual_ident(ms@.skip(i as int)),
        decreases ms@.len() - i,
    {
        assert(ms@.skip(i as int)[0] == ms@[i as int]);
        if is_virtual_monitor_ident(&ms[i]) {
            return Some(i);
        }
        assert(ms@.skip(i as int).drop_first() =~= ms@.skip(i + 1));
        i = i + 1;
    }
    None
}

fn find_last_mode(ms: &Vec<MonitorModes>, connector: &str) -> (r: Option<(i32, i32)>)
    ensures
        r == last_mode_on(ms@, connector@),
{
    let mut i: usize = ms.len();
    assert(ms@.take(ms@.len() as int) =~= ms@);
    while i > 0
        invariant
            i <= ms@.len(),
            last_mode_on(ms@, connector@) == last_mode_on(ms@.take(i as int), connector@),
        decreases i,
    {
        let m = &ms[i - 1];
        assert(ms@.take(i as int).last() == ms@[i - 1]);
        if m.first_mode.is_some() && str_eq(m.connector.as_str(), connector) {
            return m.first_mode;
        }
        assert(ms@.take(i as int).drop_last() =~= ms@.take(i - 1));
        i = i - 1;
    }
    None
}

/// Locates the created virtual monitor in a `DisplayConfig.GetCurrentState` reply (in
/// `Extend` mode) and gives the stream's offset and, when found, its size.
pub fn locate_virtual_monitor(
    mode: DisplayMode,
    logical: &Vec<LogicalMonitorInfo>,
    monitors: &Vec<MonitorModes>,
) -> (r: Placement)
    ensures
        r == placement_of(mode, logical@, monitors@),
{
    if mode != DisplayMode::Extend {
        return Placement { offset: (0, 0), size: None };
    }
    let mut i: usize = 0;
    assert(logical@.skip(0) =~= logical@);
    while i < logical.len()
        invariant
            mode == DisplayMode::Extend,
            i <= logical@.len(),
            first_virtual_logical(logical@) == first_virtual_logical(logical@.skip(i as int)),
        decreases logical@.len() - i,
    {
        let lm = &logical[i];
        assert(logical@.skip(i as int)[0] == logical@[i as int]);
        match find_virtual_ident(&lm.monitors) {
            Some(j) => {
                let size = find_last_mode(monitors, lm.monitors[j].connector.as_str());
                return Placement { offset: (lm.x, lm.y), size };
            },
            None => {},
        }
        assert(logical@.skip(i as int).drop_first() =~= logical@.skip(i + 1));
        i = i + 1;
    }
    Placement { offset: (0, 0), size: None }
}

/// Width used for a requested size of zero.
pub const DEFAULT_WIDTH: u32 = 2560;

/// Height used for a requested size of zero.
pub const DEFAULT_HEIGHT: u32 = 1600;

/// The source kind to ask the portal for: physical monitors to mirror, a virtual one to
/// extend onto. Asking for only one keeps the portal's picker from overriding the choice.
pub open spec fn requested_source_of(mode: DisplayMode) -> SourceKind {
    match mode {
        DisplayMode::Mirror => SourceKind::Monitor,
        DisplayMode::Extend => SourceKind::Virtual,
    }
}

/// The mode actually in effect once the portal reports the source it granted.
pub open spec fn resolved_mode_of(mode: DisplayMode, granted: Option<SourceKind>) -> DisplayMode {
    match granted {
        Some(SourceKind::Monitor) => DisplayMode::Mirror,
        Some(SourceKind::Virtual) => DisplayMode::Extend,
        _ => mode,
    }
}

/// A reported stream size is trusted from 640x480 up; smaller ones are placeholders.
pub open spec fn size_is_real(w: i32, h: i32) -> bool {
    w >= 640 && h >= 480
}

/// Plain state of a display session: the mode, target and captured sizes, the stream's
/// position, and the input bookkeeping. The portal proxies that go with it are held by the
/// caller.
#[derive(Clone, Copy, Debug)]
pub struct MonitorState {
    /// PipeWire node id of the stream, once a session is started.
    pub node_id: Option<u32>,
    /// Whether the display session extends the desktop or mirrors an existing monitor.
    pub display_mode: DisplayMode,
    /// Target width.
    pub width: u32,
    /// Target height.
    pub height: u32,
    /// Whether the most recent pointer input targeted the streamed display, so the cursor
    /// can be reset to the primary screen on teardown.
    pub was_last_input_on_virtual: bool,
    /// Set when the portal session was closed by something else than a teardown.
    pub session_closed: bool,
    /// Horizontal offset of the captured stream in the global layout.
    pub x_offset: i32,
    /// Vertical offset of the captured stream in the global layout.
    pub y_offset: i32,
    /// Width of the captured stream in pixels.
    pub actual_width: i32,
    /// Height of the captured stream in pixels.
    pub actual_height: i32,
    /// Cached motion shape, one of the `motion` constants.
    pub motion_strategy: u8,
}

/// What applying a stream report decided.
#[derive(Clone, Copy, Debug)]
pub struct StreamOutcome {
    /// The node id to capture.
    pub node_id: Option<u32>,
    /// The mode in effect.
    pub mode: DisplayMode,
    /// Whether the stream's position must still be looked up in `DisplayConfig`.
    pub needs_alignment: bool,
}

impl MonitorState {
    /// A fresh, unconnected state: mirror mode, 2560x1600, at the origin, nothing probed.
    pub fn new() -> (r: Self)
        ensures
            r.node_id is None,
            r.display_mode == DisplayMode::Mirror,
            r.width == DEFAULT_WIDTH && r.height == DEFAULT_HEIGHT,
            !r.was_last_input_on_virtual,
            !r.session_closed,
            r.x_offset == 0 && r.y_offset == 0,
            r.actual_width == 2560 && r.actual_height == 1600,
            r.motion_strategy == motion::UNPROBED,
    {
        MonitorState {
            node_id: None,
            display_mode: DisplayMode::Mirror,
            width: DEFAULT_WIDTH,
            height: DEFAULT_HEIGHT,
            was_last_input_on_virtual: false,
            session_closed: false,
            x_offset: 0,
            y_offset: 0,
            actual_width: 2560,
            actual_height: 1600,
            motion_strategy: motion::UNPROBED,
        }
    }

    /// Takes note of the client device's native resolution. It only goes to the log: the
    /// captured stream's pixel space, which maps the client's normalized coordinates, stays as
    /// the portal reported it.
    pub fn update_target_resolution(&mut self, width: u32, height: u32)
        ensures
            *final(self) == *old(self),
    {
    }

    /// The captured stream's logical geometry `(x, y, width, height)` in the compositor's
    /// global coordinate space.
    pub fn stream_geometry(&self) -> (r: (i32, i32, i32, i32))
        ensures
            r == (self.x_offset, self.y_offset, self.actual_width, self.actual_height),
    {
        (self.x_offset, self.y_offset, self.actual_width, self.actual_height)
    }

    /// Starts creating a display in `mode`: a zero size falls back to 2560x1600, and the
    /// captured size starts out as the target size.
    pub fn begin_create(&mut self, mode: DisplayMode, width: u32, height: u32)
        ensures
            final(self).display_mode == mode,
            final(self).width == (if width > 0 { width } else { DEFAULT_WIDTH }),
            final(self).height == (if height > 0 { height } else { DEFAULT_HEIGHT }),
            final(self).actual_width == final(self).width as i32,
            final(self).actual_height == final(self).height as i32,
            final(self).node_id == old(self).node_id,
            final(self).x_offset == old(self).x_offset,
            final(self).y_offset == old(self).y_offset,
            final(self).was_last_input_on_virtual == old(self).was_last_input_on_virtual,
            final(self).session_closed == old(self).session_closed,
            final(self).motion_strategy == old(self).motion_strategy,
    {
        self.display_mode = mode;
        self.width = if width > 0 { width } else { DEFAULT_WIDTH };
        self.height = if height > 0 { height } else { DEFAULT_HEIGHT };
        self.actual_width = self.width as i32;
        self.actual_height = self.height as i32;
    }

    /// The source kind to ask the portal for in the current mode.
    pub fn requested_source(&self) -> (r: SourceKind)
        ensures
            r == requested_source_of(self.display_mode),
    {
        match self.display_mode {
            DisplayMode::Mirror => SourceKind::Monitor,
            DisplayMode::Extend => SourceKind::Virtual,
        }
    }

    /// Applies what the portal reported about the first stream of the started session (or
    /// that there is none): the granted source overrides the mode, a real size replaces the
    /// target and captured sizes, a position becomes the offset. A fresh session is open.
    pub fn apply_stream(&mut self, report: Option<StreamReport>) -> (r: StreamOutcome)
        ensures
            final(self).session_closed == false,
            final(self).was_last_input_on_virtual == old(self).was_last_input_on_virtual,
            final(self).motion_strategy == old(self).motion_strategy,
            match report {
                None => {
                    &&& final(self).node_id is None
                    &&& final(self).display_mode == old(self).display_mode
                    &&& final(self).width == old(self).width
                    &&& final(self).height == old(self).height
                    &&& final(self).actual_width == old(self).actual_width
                    &&& final(self).actual_height == old(self).actual_height
                    &&& final(self).x_offset == old(self).x_offset
                    &&& final(self).y_offset == old(self).y_offset
                    &&& r == StreamOutcome {
                        node_id: None,
                        mode: old(self).display_mode,
                        needs_alignment: old(self).display_mode == DisplayMode::Extend,
                    }
                },
                Some(rep) => {
                    &&& final(self).node_id == Some(rep.node_id)
                    &&& final(self).display_mode == resolved_mode_of(
                        old(self).display_mode,
                        rep.source,
                    )
                    &&& match rep.size {
                        Some((w, h)) if size_is_real(w, h) => {
                            &&& final(self).width == w as u32
                            &&& final(self).height == h as u32
                            &&& final(self).actual_width == w
                            &&& final(self).actual_height == h
                        },
                        _ => {
                            &&& final(self).width == old(self).width
                            &&& final(self).height == old(self).height
                            &&& final(self).actual_width == old(self).actual_width
                            &&& final(self).actual_height == old(self).actual_height
                        },
                    }
                    &&& match rep.position {
                        Some((x, y)) => final(self).x_offset == x && final(self).y_offset == y,
                        None => final(self).x_offset == old(self).x_offset && final(self).y_offset
                            == old(self).y_offset,
                    }
                    &&& r == StreamOutcome {
                        node_id: Some(rep.node_id),
                        mode: final(self).display_mode,
                        needs_alignment: final(self).display_mode == DisplayMode::Extend
                            && rep.position is None,
                    }
                },
            },
    {
        self.session_closed = false;
        match report {
            None => {
                self.node_id = None;
                StreamOutcome {
                    node_id: None,
                    mode: self.display_mode,
                    needs_alignment: self.display_mode == DisplayMode::Extend,
                }
            },
            Some(rep) => {
                match rep.source {
                    Some(SourceKind::Monitor) => {
                        self.display_mode = DisplayMode::Mirror;
                    },
                    Some(SourceKind::Virtual) => {
                        self.display_mode = DisplayMode::Extend;
                    },
                    _ => {},
                }
                match rep.size {
                    Some((w, h)) => {
                        if w >= 640 && h >= 480 {
                            self.width = w as u32;
                            self.height = h as u32;
                            self.actual_width = w;
                            self.actual_height = h;
                        }
                    },
                    None => {},
                }
                let mut got_position = false;
                match rep.position {
                    Some((x, y)) => {
                        self.x_offset = x;
                        self.y_offset = y;
                        got_position = true;
                    },
                    None => {},
                }
                self.node_id = Some(rep.node_id);
                StreamOutcome {
                    node_id: Some(rep.node_id),
                    mode: self.display_mode,
                    needs_alignment: self.display_mode == DisplayMode::Extend && !got_position,
                }
            },
        }
    }

    /// Applies a placement worked out from `DisplayConfig`.
    pub fn apply_placement(&mut self, p: Placement)
        ensures
            final(self).x_offset == p.offset.0,
            final(self).y_offset == p.offset.1,
            match p.size {
                Some((w, h)) => final(self).actual_width == w && final(self).actual_height == h,
                None => final(self).actual_width == old(self).actual_width
                    && final(self).actual_height == old(self).actual_height,
            },
            final(self).node_id == old(self).node_id,
            final(self).display_mode == old(self).display_mode,
            final(self).width == old(self).width,
            final(self).height == old(self).height,
            final(self).was_last_input_on_virtual == old(self).was_last_input_on_virtual,
            final(self).session_closed == old(self).session_closed,
            final(self).motion_strategy == old(self).motion_strategy,
    {
        self.x_offset = p.offset.0;
        self.y_offset = p.offset.1;
        match p.size {
            Some((w, h)) => {
                self.actual_width = w;
                self.actual_height = h;
            },
            None => {},
        }
    }

    /// Records that an input event was injected into the streamed display.
    pub fn record_input(&mut self)
        ensures
            *final(self) == (MonitorState { was_last_input_on_virtual: true, ..*old(self) }),
    {
        self.was_last_input_on_virtual = true;
    }

    /// Whether touch events go through the pointer API: on an `Extend` (virtual) output the
    /// portal's touch API rejects every position, so taps and drags become pointer events.
    pub fn routes_touch_via_pointer(&self) -> (r: bool)
        ensures
            r == (self.display_mode == DisplayMode::Extend),
    {
        self.display_mode == DisplayMode::Extend
    }

    /// Records that the portal session was closed from outside.
    pub fn mark_session_closed(&mut self)
        ensures
            *final(self) == (MonitorState { session_closed: true, ..*old(self) }),
    {
        self.session_closed = true;
    }

    /// Reports whether the portal session was closed externally.
    pub fn is_session_closed(&self) -> (r: bool)
        ensures
            r == self.session_closed,
    {
        self.session_closed
    }

    /// Starts tearing the session down: the session no longer counts as closed from outside,
    /// and the input flag is cleared. Returns whether the last input went to the streamed
    /// display, in which case the cursor is moved back to the primary screen's origin before
    /// the session closes.
    pub fn begin_destroy(&mut self) -> (r: bool)
        ensures
            r == old(self).was_last_input_on_virtual,
            *final(self) == (MonitorState {
                was_last_input_on_virtual: false,
                session_closed: false,
                ..*old(self)
            }),
    {
        let reset = self.was_last_input_on_virtual;
        self.was_last_input_on_virtual = false;
        self.session_closed = false;
        reset
    }

    /// Finishes tearing the session down once it is closed: no stream, and the offset back at
    /// the origin.
    pub fn finish_destroy(&mut self)
        ensures
            *final(self) == (MonitorState { node_id: None, x_offset: 0, y_offset: 0, ..*old(self) }),
    {
        self.node_id = None;
        self.x_offset = 0;
        self.y_offset = 0;
    }
}

/// Asking the portal for the source kind of the requested mode, then resolving the mode
/// from what it granted, gives back the requested mode when the portal grants what was
/// asked: no mode is overridden unless the portal itself chose otherwise.
pub proof fn law_granted_request_keeps_mode(mode: DisplayMode)
    ensures
        resolved_mode_of(mode, Some(requested_source_of(mode))) == mode,
        resolved_mode_of(mode, None) == mode,
        resolved_mode_of(mode, Some(SourceKind::Other)) == mode,
{
}

/// The portal is asked for exactly the kind of source the mode needs: physical monitors to
/// mirror, a virtual monitor to extend onto, never anything else; and a granted monitor
/// always means mirroring, a granted virtual monitor always means extending, whatever was
/// asked.
pub proof fn law_source_kinds_match_modes(mode: DisplayMode)
    ensures
        (requested_source_of(mode) == SourceKind::Monitor) <==> (mode == DisplayMode::Mirror),
        (requested_source_of(mode) == SourceKind::Virtual) <==> (mode == DisplayMode::Extend),
        requested_source_of(mode) != SourceKind::Other,
        resolved_mode_of(mode, Some(SourceKind::Monitor)) == DisplayMode::Mirror,
        resolved_mode_of(mode, Some(SourceKind::Virtual)) == DisplayMode::Extend,
{
}

/// Stream sizes from 640x480 up are real and replace the target size; anything smaller in
/// either direction is a placeholder and is ignored.
pub proof fn law_placeholder_sizes_ignored(w: i32, h: i32)
    ensures
        w < 640 || h < 480 ==> !size_is_real(w, h),
        w >= 640 && h >= 480 ==> size_is_real(w, h),
{
}

/// Only an extended desktop is looked up in `DisplayConfig`: in `Mirror` mode, and in
/// `Extend` mode when no logical monitor shows a virtual output, the stream sits at the
/// origin and keeps its size; when one does, the stream sits at that logical monitor's
/// position.
pub proof fn law_placement_only_for_virtual_outputs(
    mode: DisplayMode,
    logical: Seq<LogicalMonitorInfo>,
    monitors: Seq<MonitorModes>,
)
    ensures
        mode == DisplayMode::Mirror ==> placement_of(mode, logical, monitors) == (Placement {
            offset: (0, 0),
            size: None,
        }),
        first_virtual_logical(logical) is None ==> placement_of(mode, logical, monitors) == (
        Placement { offset: (0, 0), size: None }),
        mode == DisplayMode::Extend ==> (first_virtual_logical(logical) matches Some((x, y, c))
            ==> placement_of(mode, logical, monitors).offset == (x, y)),
{
}

} // verus!
