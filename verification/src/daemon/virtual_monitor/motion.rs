//! Argument shapes for `NotifyPointerMotionAbsolute` in `Extend` mode, and the probing that
//! finds one the portal accepts.
//!
//! Portals disagree on whether the coordinates are stream-local or desktop-global and on
//! which stream id they want, so the working shape has to be found by trying. The shape found
//! is cached so that steady-state motion costs one D-Bus round trip per event.

use vstd::prelude::*;

verus! {

/// Nothing known yet: the next motion event probes each shape in turn.
pub const UNPROBED: u8 = 0;

/// The stream's own node id, with stream-local pixel coordinates.
pub const STREAM_LOCAL: u8 = 1;

/// The stream's own node id, with desktop-global coordinates.
pub const STREAM_GLOBAL: u8 = 2;

/// Stream id 0, with desktop-global coordinates.
pub const ZERO_GLOBAL: u8 = 3;

/// No absolute shape was accepted: send relative deltas instead.
pub const RELATIVE: u8 = 4;

/// The absolute shapes, in the order they are probed.
pub open spec fn absolute_candidate(k: int) -> u8 {
    if k == 0 {
        STREAM_LOCAL
    } else if k == 1 {
        STREAM_GLOBAL
    } else {
        ZERO_GLOBAL
    }
}

/// Log name of a strategy.
pub open spec fn strategy_name(strategy: u8) -> Seq<char> {
    if strategy == STREAM_LOCAL {
        "node_id + stream-local"@
    } else if strategy == STREAM_GLOBAL {
        "node_id + desktop-global"@
    } else if strategy == ZERO_GLOBAL {
        "stream 0 + desktop-global"@
    } else if strategy == RELATIVE {
        "relative deltas"@
    } else {
        "unprobed"@
    }
}

/// Human-readable name for logs.
pub fn name(strategy: u8) -> (r: &'static str)
    ensures
        r@ == strategy_name(strategy),
{
    if strategy == STREAM_LOCAL {
        "node_id + stream-local"
    } else if strategy == STREAM_GLOBAL {
        "node_id + desktop-global"
    } else if strategy == ZERO_GLOBAL {
        "stream 0 + desktop-global"
    } else if strategy == RELATIVE {
        "relative deltas"
    } else {
        "unprobed"
    }
}

/// Where one motion event stands in the search for a shape the portal accepts.
#[derive(Clone, Copy, Debug, PartialEq, Eq, Structural)]
pub enum ProbePhase {
    /// Sending the shape cached by an earlier event.
    Cached(u8),
    /// Sending the absolute shape with this index in the probe order.
    Candidate(u8),
    /// No absolute shape was accepted: sending relative deltas.
    Fallback,
    /// Done; the shape to cache for the next event.
    Finished(u8),
}

/// What the event loop does next.
#[derive(Clone, Copy, Debug, PartialEq, Eq, Structural)]
pub enum MotionAction {
    /// Send the motion in this shape and report whether the portal accepted it.
    Send(u8),
    /// Stop, and cache this shape.
    Finish(u8),
}

/// The phase a motion event starts in, given the cached shape.
pub open spec fn probe_start(cached: u8) -> ProbePhase {
    if cached != UNPROBED {
        ProbePhase::Cached(cached)
    } else {
        ProbePhase::Candidate(0)
    }
}

/// The phase after the portal answered (`ok`: accepted) the shape `phase` sent.
pub open spec fn probe_step(phase: ProbePhase, ok: bool) -> ProbePhase {
    match phase {
        ProbePhase::Cached(c) => if ok {
            ProbePhase::Finished(c)
        } else {
            ProbePhase::Candidate(0)
        },
        ProbePhase::Candidate(k) => if ok {
            ProbePhase::Finished(absolute_candidate(k as int))
        } else if k < 2 {
            ProbePhase::Candidate((k + 1) as u8)
        } else {
            ProbePhase::Fallback
        },
        ProbePhase::Fallback => ProbePhase::Finished(RELATIVE),
        ProbePhase::Finished(c) => ProbePhase::Finished(c),
    }
}

/// The action a phase calls for.
pub open spec fn phase_action(phase: ProbePhase) -> MotionAction {
    match phase {
        ProbePhase::Cached(c) => MotionAction::Send(c),
        ProbePhase::Candidate(k) => MotionAction::Send(absolute_candidate(k as int)),
        ProbePhase::Fallback => MotionAction::Send(RELATIVE),
        ProbePhase::Finished(c) => MotionAction::Finish(c),
    }
}

/// The phase reached after the portal gave the answers `results`, in order.
pub open spec fn probe_run(phase: ProbePhase, results: Seq<bool>) -> ProbePhase
    decreases results.len(),
{
    if results.len() == 0 {
        phase
    } else {
        probe_run(probe_step(phase, results[0]), results.drop_first())
    }
}

/// Phases in range: candidate indices below 3.
pub open spec fn phase_wf(phase: ProbePhase) -> bool {
    match phase {
        ProbePhase::Candidate(k) => k < 3,
        _ => true,
    }
}

/// Steps left before a phase is finished, at most.
pub open spec fn steps_left(phase: ProbePhase) -> nat {
    match phase {
        ProbePhase::Cached(_) => 5,
        ProbePhase::Candidate(k) => (4 - k) as nat,
        ProbePhase::Fallback => 1,
        ProbePhase::Finished(_) => 0,
    }
}

/// The search for a working motion shape during one motion event.
pub struct MotionProbe {
    /// Current phase.
    pub phase: ProbePhase,
}

impl MotionProbe {
    /// Starts a motion event with the cached shape (`UNPROBED` when none), returning the probe
    /// and the first shape to send.
    pub fn start(cached: u8) -> (r: (MotionProbe, u8))
        ensures
            r.0.phase == probe_start(cached),
            phase_action(r.0.phase) == MotionAction::Send(r.1),
            phase_wf(r.0.phase),
    {
        if cached != UNPROBED {
            (MotionProbe { phase: ProbePhase::Cached(cached) }, cached)
        } else {
            (MotionProbe { phase: ProbePhase::Candidate(0) }, STREAM_LOCAL)
        }
    }

    /// Records whether the portal accepted the shape last sent, and says what to do next.
    pub fn on_result(&mut self, ok: bool) -> (r: MotionAction)
        requires
            phase_wf(old(self).phase),
        ensures
            final(self).phase == probe_step(old(self).phase, ok),
            phase_wf(final(self).phase),
            r == phase_action(final(self).phase),
    {
        let next = match self.phase {
            ProbePhase::Cached(c) => if ok {
                ProbePhase::Finished(c)
            } else {
                ProbePhase::Candidate(0)
            },
            ProbePhase::Candidate(k) => if ok {
                ProbePhase::Finished(
                    if k == 0 {
                        STREAM_LOCAL
                    } else if k == 1 {
                        STREAM_GLOBAL
                    } else {
                        ZERO_GLOBAL
                    },
                )
            } else if k < 2 {
                ProbePhase::Candidate(k + 1)
            } else {
                ProbePhase::Fallback
            },
            ProbePhase::Fallback => ProbePhase::Finished(RELATIVE),
            ProbePhase::Finished(c) => ProbePhase::Finished(c),
        };
        self.phase = next;
        match next {
            ProbePhase::Cached(c) => MotionAction::Send(c),
            ProbePhase::Candidate(k) => MotionAction::Send(
                if k == 0 {
                    STREAM_LOCAL
                } else if k == 1 {
                    STREAM_GLOBAL
                } else {
                    ZERO_GLOBAL
                },
            ),
            ProbePhase::Fallback => MotionAction::Send(RELATIVE),
            ProbePhase::Finished(c) => MotionAction::Finish(c),
        }
    }
}

proof fn lemma_step_decreases(phase: ProbePhase, ok: bool)
    requires
        phase_wf(phase),
    ensures
        phase_wf(probe_step(phase, ok)),
        phase is Finished || steps_left(probe_step(phase, ok)) < steps_left(phase),
        phase is Finished ==> probe_step(phase, ok) == phase,
{
}

proof fn lemma_run_finishes(phase: ProbePhase, results: Seq<bool>)
    requires
        phase_wf(phase),
        results.len() >= steps_left(phase),
    ensures
        probe_run(phase, results) is Finished,
    decreases results.len(),
{
    if results.len() > 0 {
        lemma_step_decreases(phase, results[0]);
        lemma_run_finishes(probe_step(phase, results[0]), results.drop_first());
    }
}

/// A motion event always settles: whatever the portal answers, after at most five answers
/// (four when nothing was cached) the probe has finished and named a shape to cache.
pub proof fn law_probe_terminates(cached: u8, results: Seq<bool>)
    requires
        results.len() >= (if cached != UNPROBED { 5int } else { 4int }),
    ensures
        probe_run(probe_start(cached), results) is Finished,
{
    lemma_run_finishes(probe_start(cached), results);
}

/// When the cached shape still works, the event takes one round trip and the cache stays.
pub proof fn law_cached_shape_is_kept(cached: u8)
    requires
        cached != UNPROBED,
    ensures
        probe_step(probe_start(cached), true) == ProbePhase::Finished(cached),
{
}

/// With nothing cached, or once the cached shape fails, the shapes are tried in the order
/// stream-local, stream-global, zero-global, then relative deltas.
pub proof fn law_probe_order(cached: u8)
    ensures
        phase_action(probe_run(probe_start(cached), if cached != UNPROBED { seq![false] } else { seq![] }))
            == MotionAction::Send(STREAM_LOCAL),
        phase_action(probe_run(ProbePhase::Candidate(0), seq![false])) == MotionAction::Send(
            STREAM_GLOBAL,
        ),
        phase_action(probe_run(ProbePhase::Candidate(0), seq![false, false])) == MotionAction::Send(
            ZERO_GLOBAL,
        ),
        phase_action(probe_run(ProbePhase::Candidate(0), seq![false, false, false]))
            == MotionAction::Send(RELATIVE),
        probe_run(ProbePhase::Candidate(0), seq![false, false, false, false])
            == ProbePhase::Finished(RELATIVE),
{
    reveal_with_fuel(probe_run, 5);
    assert(seq![false].drop_first() =~= Seq::<bool>::empty());
    assert(seq![false, false].drop_first() =~= seq![false]);
    assert(seq![false, false, false].drop_first() =~= seq![false, false]);
    assert(seq![false, false, false, false].drop_first() =~= seq![false, false, false]);
}

/// The shape the portal accepted is the one cached: a phase that sends shape `s` (other than
/// the relative fallback, which is cached whatever the answer) finishes with `s` on success.
pub proof fn law_accepted_shape_is_cached(phase: ProbePhase, s: u8)
    requires
        phase_action(phase) == MotionAction::Send(s),
    ensures
        probe_step(phase, true) == ProbePhase::Finished(s),
{
}

/// A finished probe never caches `UNPROBED`, so the next event skips the full probe.
pub proof fn law_cache_never_unprobed(cached: u8, results: Seq<bool>)
    ensures
        probe_run(probe_start(cached), results) matches ProbePhase::Finished(c) ==> c != UNPROBED,
{
    lemma_run_not_unprobed(probe_start(cached), results);
}

proof fn lemma_run_not_unprobed(phase: ProbePhase, results: Seq<bool>)
    requires
        phase matches ProbePhase::Cached(c) ==> c != UNPROBED,
        phase matches ProbePhase::Finished(c) ==> c != UNPROBED,
    ensures
        probe_run(phase, results) matches ProbePhase::Finished(c) ==> c != UNPROBED,
    decreases results.len(),
{
    if results.len() > 0 {
        lemma_run_not_unprobed(probe_step(phase, results[0]), results.drop_first());
    }
}

/// Which stream id a `NotifyPointerMotionAbsolute` call names.
#[derive(Clone, Copy, Debug, PartialEq, Eq, Structural)]
pub enum MotionStream {
    /// The stream's own PipeWire node id.
    Node,
    /// Stream id 0.
    Zero,
}

/// Which coordinates a motion call carries.
#[derive(Clone, Copy, Debug, PartialEq, Eq, Structural)]
pub enum MotionCoordinates {
    /// Pixels local to the captured stream.
    StreamLocal,
    /// Desktop-global pixels (the stream's offset added).
    DesktopGlobal,
}

/// The portal call that sends one motion event in a given shape.
#[derive(Clone, Copy, Debug, PartialEq, Eq, Structural)]
pub enum MotionCall {
    /// `NotifyPointerMotionAbsolute` on this stream with these coordinates.
    Absolute(MotionStream, MotionCoordinates),
    /// `NotifyPointerMotion` with the deltas from the previous position.
    Relative,
}

/// The call of each shape: the three absolute shapes as named, and relative deltas for the
/// fallback (and for any value that names no absolute shape).
pub open spec fn motion_call_of(strategy: u8) -> MotionCall {
    if strategy == STREAM_LOCAL {
        MotionCall::Absolute(MotionStream::Node, MotionCoordinates::StreamLocal)
    } else if strategy == STREAM_GLOBAL {
        MotionCall::Absolute(MotionStream::Node, MotionCoordinates::DesktopGlobal)
    } else if strategy == ZERO_GLOBAL {
        MotionCall::Absolute(MotionStream::Zero, MotionCoordinates::DesktopGlobal)
    } else {
        MotionCall::Relative
    }
}

/// The portal call that sends a motion event in the shape `strategy`; the cached fast path
/// and the probe send events the same way through it.
pub fn motion_call(strategy: u8) -> (r: MotionCall)
    ensures
        r == motion_call_of(strategy),
{
    if strategy == STREAM_LOCAL {
        MotionCall::Absolute(MotionStream::Node, MotionCoordinates::StreamLocal)
    } else if strategy == STREAM_GLOBAL {
        MotionCall::Absolute(MotionStream::Node, MotionCoordinates::DesktopGlobal)
    } else if strategy == ZERO_GLOBAL {
        MotionCall::Absolute(MotionStream::Zero, MotionCoordinates::DesktopGlobal)
    } else {
        MotionCall::Relative
    }
}

/// Each shape is sent as its own portal call: the three absolute shapes as three different
/// absolute calls (the stream's node id with local, then with global coordinates, then
/// stream 0 with global coordinates), and relative deltas only for the fallback shape (or a
/// value that names no absolute shape).
pub proof fn law_shapes_are_distinct_calls(strategy: u8)
    ensures
        motion_call_of(STREAM_LOCAL) != motion_call_of(STREAM_GLOBAL),
        motion_call_of(STREAM_GLOBAL) != motion_call_of(ZERO_GLOBAL),
        motion_call_of(STREAM_LOCAL) != motion_call_of(ZERO_GLOBAL),
        (motion_call_of(strategy) is Relative) <==> !(strategy == STREAM_LOCAL || strategy
            == STREAM_GLOBAL || strategy == ZERO_GLOBAL),
        motion_call_of(STREAM_LOCAL) == MotionCall::Absolute(
            MotionStream::Node,
            MotionCoordinates::StreamLocal,
        ),
        motion_call_of(ZERO_GLOBAL) == MotionCall::Absolute(
            MotionStream::Zero,
            MotionCoordinates::DesktopGlobal,
        ),
        motion_call_of(STREAM_GLOBAL) == MotionCall::Absolute(
            MotionStream::Node,
            MotionCoordinates::DesktopGlobal,
        ),
{
}

} // verus!
