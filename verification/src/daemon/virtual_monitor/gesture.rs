//! The 3-finger swipe gesture: the client streams one delta packet per touch-move frame for
//! the whole gesture, and the gesture fires at most one action.
//!
//! The caller accumulates the deltas per axis and measures the sums against the trigger
//! threshold; this module decides when a gesture starts anew and whether the reading of its
//! sums fires an action.

use vstd::prelude::*;

verus! {

/// Gap between consecutive swipe packets, in nanoseconds, after which the next packet starts
/// a new gesture rather than continuing the current one.
pub const SWIPE_GESTURE_TIMEOUT_NANOS: u128 = 200_000_000;

/// The GNOME action a completed 3-finger swipe triggers.
#[derive(Clone, Copy, Debug, PartialEq, Eq, Structural)]
pub enum SwipeAction {
    /// Toggle the Activities Overview.
    Overview,
    /// Switch to the workspace on the left.
    WorkspaceLeft,
    /// Switch to the workspace on the right.
    WorkspaceRight,
}

/// The accumulated deltas of the gesture in progress, measured against the trigger
/// threshold.
#[derive(Clone, Copy, Debug, PartialEq, Eq, Structural)]
pub struct SwipeReading {
    /// The vertical sum's magnitude exceeds the threshold.
    pub vertical_over: bool,
    /// The vertical sum's magnitude is at least the horizontal sum's.
    pub vertical_dominant: bool,
    /// The horizontal sum's magnitude exceeds the threshold.
    pub horizontal_over: bool,
    /// The horizontal sum is positive.
    pub rightward: bool,
}

/// A packet arriving `since_last` nanoseconds after the previous one (`None`: no previous
/// packet) starts a new gesture when the gap exceeds the timeout.
pub open spec fn starts_new_gesture(since_last: Option<u128>) -> bool {
    match since_last {
        None => true,
        Some(gap) => gap > SWIPE_GESTURE_TIMEOUT_NANOS,
    }
}

/// The action a reading calls for: a dominant vertical swipe past the threshold toggles the
/// Overview, otherwise a horizontal one past it switches workspace in its direction.
pub open spec fn action_of(r: SwipeReading) -> Option<SwipeAction> {
    if r.vertical_over && r.vertical_dominant {
        Some(SwipeAction::Overview)
    } else if r.horizontal_over {
        if r.rightward {
            Some(SwipeAction::WorkspaceRight)
        } else {
            Some(SwipeAction::WorkspaceLeft)
        }
    } else {
        None
    }
}

/// Whether the gesture in progress has already fired its action.
#[derive(Clone, Copy, Debug, PartialEq, Eq, Structural)]
pub struct SwipeLatch {
    /// The gesture in progress has fired.
    pub fired: bool,
}

/// The latch and the action after one packet: a new gesture re-arms the latch, and an armed
/// latch fires on a reading that calls for an action.
pub open spec fn latch_step(fired: bool, new_gesture: bool, r: SwipeReading) -> (
    bool,
    Option<SwipeAction>,
) {
    let armed = new_gesture || !fired;
    if armed && action_of(r) is Some {
        (true, action_of(r))
    } else {
        (fired && !new_gesture, None)
    }
}

/// The latch after a run of packets, each given as whether it starts a new gesture and its
/// reading.
pub open spec fn latch_after(fired: bool, packets: Seq<(bool, SwipeReading)>) -> bool
    decreases packets.len(),
{
    if packets.len() == 0 {
        fired
    } else {
        latch_after(latch_step(fired, packets[0].0, packets[0].1).0, packets.drop_first())
    }
}

/// How many actions a run of packets fires.
pub open spec fn actions_fired(fired: bool, packets: Seq<(bool, SwipeReading)>) -> nat
    decreases packets.len(),
{
    if packets.len() == 0 {
        0
    } else {
        let (f, a) = latch_step(fired, packets[0].0, packets[0].1);
        (if a is Some {
            1nat
        } else {
            0nat
        }) + actions_fired(f, packets.drop_first())
    }
}

/// Whether a packet arriving `since_last` nanoseconds after the previous one (`None`: none
/// before it) starts a new gesture.
pub fn gesture_expired(since_last: Option<u128>) -> (r: bool)
    ensures
        r == starts_new_gesture(since_last),
{
    match since_last {
        None => true,
        Some(gap) => gap > SWIPE_GESTURE_TIMEOUT_NANOS,
    }
}

impl SwipeLatch {
    /// A latch with no gesture in progress.
    pub fn new() -> (r: Self)
        ensures
            !r.fired,
    {
        SwipeLatch { fired: false }
    }

    /// Handles one packet: `new_gesture` tells whether it starts a new gesture (the caller
    /// then restarts its sums before measuring), `reading` measures the sums including this
    /// packet. Returns the action to fire, if any.
    pub fn step(&mut self, new_gesture: bool, reading: SwipeReading) -> (r: Option<SwipeAction>)
        ensures
            (final(self).fired, r) == latch_step(old(self).fired, new_gesture, reading),
    {
        if new_gesture {
            self.fired = false;
        }
        if self.fired {
            return None;
        }
        let action = if reading.vertical_over && reading.vertical_dominant {
            Some(SwipeAction::Overview)
        } else if reading.horizontal_over {
            if reading.rightward {
                Some(SwipeAction::WorkspaceRight)
            } else {
                Some(SwipeAction::WorkspaceLeft)
            }
        } else {
            None
        };
        if action.is_some() {
            self.fired = true;
        }
        action
    }
}

/// A continuous gesture (no packet in it starts a new one) fires at most one action, and
/// none at all once its latch has fired.
pub proof fn law_swipe_fires_at_most_once(fired: bool, packets: Seq<(bool, SwipeReading)>)
    requires
        forall|i: int| 0 <= i < packets.len() ==> !(#[trigger] packets[i]).0,
    ensures
        actions_fired(fired, packets) <= 1,
        fired ==> actions_fired(fired, packets) == 0,
        fired ==> latch_after(fired, packets),
        actions_fired(fired, packets) == 1 ==> latch_after(fired, packets),
    decreases packets.len(),
{
    if packets.len() > 0 {
        let (f, a) = latch_step(fired, packets[0].0, packets[0].1);
        let rest = packets.drop_first();
        assert(!packets[0].0);
        assert forall|i: int| 0 <= i < rest.len() implies !(#[trigger] rest[i]).0 by {
            assert(rest[i] == packets[i + 1]);
        }
        law_swipe_fires_at_most_once(f, rest);
    }
}

/// A packet that starts a new gesture re-arms the latch: it fires exactly what its reading
/// calls for, whatever the previous gesture fired.
pub proof fn law_swipe_rearms_after_gap(fired: bool, reading: SwipeReading)
    ensures
        latch_step(fired, true, reading) == latch_step(false, true, reading),
        latch_step(fired, true, reading).1 == action_of(reading),
        latch_step(fired, true, reading).0 == (action_of(reading) is Some),
{
}

/// The action follows the swipe's direction: a vertical swipe past the threshold that is
/// at least as long as the horizontal one toggles the Overview; otherwise a horizontal one
/// past the threshold switches to the workspace on its side (right for a positive sum,
/// left for a negative one); a swipe past no threshold fires nothing.
pub proof fn law_swipe_direction(r: SwipeReading)
    ensures
        r.vertical_over && r.vertical_dominant ==> action_of(r) == Some(SwipeAction::Overview),
        !(r.vertical_over && r.vertical_dominant) && r.horizontal_over && r.rightward ==> action_of(r)
            == Some(SwipeAction::WorkspaceRight),
        !(r.vertical_over && r.vertical_dominant) && r.horizontal_over && !r.rightward ==> action_of(r)
            == Some(SwipeAction::WorkspaceLeft),
        !r.vertical_over && !r.horizontal_over ==> action_of(r) is None,
        starts_new_gesture(None),
        forall|gap: u128| #![trigger starts_new_gesture(Some(gap))]
            starts_new_gesture(Some(gap)) <==> gap > 200_000_000,
{
}

} // verus!
