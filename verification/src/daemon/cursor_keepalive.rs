//! Choosing the monitor that the cursor keepalive overlay repaints: the output being
//! captured, found among GDK's monitors either by its virtual connector name or by the
//! captured stream's position.

use vstd::prelude::*;
use crate::daemon::virtual_monitor::DisplayMode;
use crate::text::{contains, starts_with, str_contains, str_starts_with};

verus! {

/// A GDK monitor as the overlay sees it: connector name (when known) and logical geometry.
#[derive(Clone, Debug)]
pub struct GdkMonitorInfo {
    /// Connector name, e.g. `Meta-0` or `DP-1`.
    pub connector: Option<String>,
    /// Left edge.
    pub x: i32,
    /// Top edge.
    pub y: i32,
    /// Width.
    pub width: i32,
    /// Height.
    pub height: i32,
}

/// Half of `w`, rounded toward zero (Rust's `/` on integers).
pub open spec fn half(w: int) -> int {
    if w >= 0 {
        w / 2
    } else {
        -((-w) / 2)
    }
}

/// Centre of a rectangle `(x, y, width, height)`.
pub open spec fn center_of(rect: (i32, i32, i32, i32)) -> (int, int) {
    (rect.0 + half(rect.2 as int), rect.1 + half(rect.3 as int))
}

/// Whether a monitor's geometry contains a point (left and top edges inclusive).
pub open spec fn contains_point(m: GdkMonitorInfo, p: (int, int)) -> bool {
    p.0 >= m.x && p.0 < m.x + m.width && p.1 >= m.y && p.1 < m.y + m.height
}

/// Whether a connector is named like one of Mutter's virtual/headless outputs.
pub open spec fn is_virtual_connector(c: Option<String>) -> bool {
    match c {
        Some(s) => starts_with(s@, "Meta"@) || contains(s@, "Virtual"@),
        None => false,
    }
}

/// Mutter's virtual/headless outputs are recognised by name: any connector starting with
/// `Meta` or mentioning `Virtual` anywhere is one, any other connector is not, and a monitor
/// without a connector name never is.
pub proof fn law_virtual_connector_names(c: String)
    ensures
        starts_with(c@, "Meta"@) ==> is_virtual_connector(Some(c)),
        contains(c@, "Virtual"@) ==> is_virtual_connector(Some(c)),
        !starts_with(c@, "Meta"@) && !contains(c@, "Virtual"@) ==> !is_virtual_connector(Some(c)),
        !is_virtual_connector(None),
{
}

/// In `Extend` mode a monitor with a virtual connector name wins over any monitor under the
/// stream's centre: whenever one exists, the overlay goes on the first of them.
pub proof fn law_extend_prefers_virtual_connector(
    monitors: Seq<GdkMonitorInfo>,
    i: int,
    r: Option<usize>,
)
    requires
        0 <= i < monitors.len(),
        monitors[i].connector matches Some(c) && (starts_with(c@, "Meta"@) || contains(
            c@,
            "Virtual"@,
        )),
        is_first_index(monitors, |m: GdkMonitorInfo| is_virtual_connector(m.connector), r),
    ensures
        r matches Some(j) && j <= i && (monitors[j as int].connector matches Some(c) && (
        starts_with(c@, "Meta"@) || contains(c@, "Virtual"@))),
{
    let pred = |m: GdkMonitorInfo| is_virtual_connector(m.connector);
    assert(pred(monitors[i]));
    match r {
        Some(j) => {
            if (j as int) > i {
                assert(!pred(monitors[i]));
            }
        },
        None => {
            assert(!pred(monitors[i]));
        },
    }
}

/// Whether `r` is the first index of `ms` satisfying `pred` (or `None` when none does).
pub open spec fn is_first_index(
    ms: Seq<GdkMonitorInfo>,
    pred: spec_fn(GdkMonitorInfo) -> bool,
    r: Option<usize>,
) -> bool {
    match r {
        Some(i) => i < ms.len() && pred(ms[i as int]) && forall|j: int|
            0 <= j < i ==> !pred(#[trigger] ms[j]),
        None => forall|j: int| 0 <= j < ms.len() ==> !pred(#[trigger] ms[j]),
    }
}

/// The centre of the captured stream's rectangle `(x, y, width, height)`.
pub fn stream_center(rect: (i32, i32, i32, i32)) -> (r: (i64, i64))
    ensures
        r.0 == center_of(rect).0,
        r.1 == center_of(rect).1,
{
    let (x, y, w, h) = rect;
    let hw: i64 = if w >= 0 {
        (w as i64) / 2
    } else {
        -((-(w as i64)) / 2)
    };
    let hh: i64 = if h >= 0 {
        (h as i64) / 2
    } else {
        -((-(h as i64)) / 2)
    };
    (x as i64 + hw, y as i64 + hh)
}

/// Finds the monitor whose geometry contains `point`, for locating a real, mirrored monitor.
pub fn find_monitor_by_point(monitors: &Vec<GdkMonitorInfo>, point: (i64, i64)) -> (r: Option<
    usize,
>)
    ensures
        is_first_index(
            monitors@,
            |m: GdkMonitorInfo| contains_point(m, (point.0 as int, point.1 as int)),
            r,
        ),
{
    let ghost pred = |m: GdkMonitorInfo| contains_point(m, (point.0 as int, point.1 as int));
    let (px, py) = point;
    let mut i: usize = 0;
    while i < monitors.len()
        invariant
            i <= monitors@.len(),
            pred == (|m: GdkMonitorInfo| contains_point(m, (point.0 as int, point.1 as int))),
            px == point.0 && py == point.1,
            forall|j: int| 0 <= j < i ==> !pred(#[trigger] monitors@[j]),
        decreases monitors@.len() - i,
    {
        let m = &monitors[i];
        if px >= m.x as i64 && px < m.x as i64 + m.width as i64 && py >= m.y as i64 && py < m.y as i64
            + m.height as i64 {
            return Some(i);
        }
        i = i + 1;
    }
    None
}

/// Whether a connector is named like a Mutter virtual/headless output.
pub fn connector_is_virtual(c: &Option<String>) -> (r: bool)
    ensures
        r == is_virtual_connector(*c),
{
    match c {
        Some(s) => str_starts_with(s.as_str(), "Meta") || str_contains(s.as_str(), "Virtual"),
        None => false,
    }
}

/// Finds a monitor whose connector name matches Mutter's virtual/headless output naming.
pub fn find_virtual_monitor(monitors: &Vec<GdkMonitorInfo>) -> (r: Option<usize>)
    ensures
        is_first_index(monitors@, |m: GdkMonitorInfo| is_virtual_connector(m.connector), r),
{
    let ghost pred = |m: GdkMonitorInfo| is_virtual_connector(m.connector);
    let mut i: usize = 0;
    while i < monitors.len()
        invariant
            i <= monitors@.len(),
            pred == (|m: GdkMonitorInfo| is_virtual_connector(m.connector)),
            forall|j: int| 0 <= j < i ==> !pred(#[trigger] monitors@[j]),
        decreases monitors@.len() - i,
    {
        if connector_is_virtual(&monitors[i].connector) {
            return Some(i);
        }
        i = i + 1;
    }
    None
}

/// Picks the captured output among GDK's monitors: for `Extend` the virtual-connector match
/// first and the monitor under the stream's centre second; for `Mirror` the other way round.
pub fn choose_keepalive_monitor(
    mode: DisplayMode,
    monitors: &Vec<GdkMonitorInfo>,
    stream_rect: (i32, i32, i32, i32),
) -> (r: Option<usize>)
    ensures
        ({
            let c = center_of(stream_rect);
            let by_name = |m: GdkMonitorInfo| is_virtual_connector(m.connector);
            let by_point = |m: GdkMonitorInfo| contains_point(m, c);
            match mode {
                DisplayMode::Extend => if exists|i: int|
                    0 <= i < monitors@.len() && by_name(#[trigger] monitors@[i]) {
                    is_first_index(monitors@, by_name, r)
                } else {
                    is_first_index(monitors@, by_point, r)
                },
                DisplayMode::Mirror => if exists|i: int|
                    0 <= i < monitors@.len() && by_point(#[trigger] monitors@[i]) {
                    is_first_index(monitors@, by_point, r)
                } else {
                    is_first_index(monitors@, by_name, r)
                },
            }
        }),
{
    let center = stream_center(stream_rect);
    match mode {
        DisplayMode::Extend => match find_virtual_monitor(monitors) {
            Some(i) => Some(i),
            None => find_monitor_by_point(monitors, center),
        },
        DisplayMode::Mirror => match find_monitor_by_point(monitors, center) {
            Some(i) => Some(i),
            None => find_virtual_monitor(monitors),
        },
    }
}

/// How many times the monitor list is searched for the captured output before the overlay
/// is given up: GDK's list updates asynchronously after the portal creates the output.
pub const KEEPALIVE_SEARCH_ATTEMPTS: u32 = 10;

/// Pause between two searches, in milliseconds.
pub const KEEPALIVE_RETRY_MILLIS: u64 = 200;

/// What follows a search of the monitor list.
#[derive(Clone, Copy, Debug, PartialEq, Eq, Structural)]
pub enum SearchStep {
    /// The output was found: start the overlay on it.
    Found,
    /// Wait `KEEPALIVE_RETRY_MILLIS`, then search again.
    WaitThenRetry,
    /// Wait `KEEPALIVE_RETRY_MILLIS`, then give the overlay up.
    WaitThenGiveUp,
}

/// The step after search number `done` (counting from 1) found the output or not: every
/// failed search is followed by a pause, and the searches stop after
/// `KEEPALIVE_SEARCH_ATTEMPTS`.
pub open spec fn search_step_of(done: u32, found: bool) -> SearchStep {
    if found {
        SearchStep::Found
    } else if done < KEEPALIVE_SEARCH_ATTEMPTS {
        SearchStep::WaitThenRetry
    } else {
        SearchStep::WaitThenGiveUp
    }
}

/// Decides what follows search number `done` (counting from 1) of the monitor list.
pub fn keepalive_search_step(done: u32, found: bool) -> (r: SearchStep)
    ensures
        r == search_step_of(done, found),
{
    if found {
        SearchStep::Found
    } else if done < KEEPALIVE_SEARCH_ATTEMPTS {
        SearchStep::WaitThenRetry
    } else {
        SearchStep::WaitThenGiveUp
    }
}

/// The search for the captured output is bounded: starting from the first search, the
/// retries stop at search `KEEPALIVE_SEARCH_ATTEMPTS`, and a search that finds the output
/// always ends them.
pub proof fn law_keepalive_search_is_bounded(done: u32, found: bool)
    requires
        done >= 1,
    ensures
        search_step_of(done, found) == SearchStep::WaitThenRetry ==> done < KEEPALIVE_SEARCH_ATTEMPTS,
        done >= KEEPALIVE_SEARCH_ATTEMPTS ==> search_step_of(done, found) != SearchStep::WaitThenRetry,
        found ==> search_step_of(done, found) == SearchStep::Found,
{
}

/// A monitor's geometry holds its left and top edges and stops short of its right and bottom
/// ones, so two monitors side by side never both hold a point on their shared edge.
pub proof fn law_monitor_edges(m: GdkMonitorInfo, n: GdkMonitorInfo, p: (int, int))
    requires
        m.width > 0,
        m.height > 0,
        n.x == m.x + m.width,
        n.y == m.y,
    ensures
        contains_point(m, (m.x as int, m.y as int)),
        !contains_point(m, (m.x + m.width, m.y as int)),
        !(contains_point(m, p) && contains_point(n, p)),
{
}

} // verus!
