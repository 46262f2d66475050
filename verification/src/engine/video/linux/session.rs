//! The decisions of the native video session: its setup checks, the steps of
//! its frame loop, and what it reports when it ends.
//!
//! The loop's outside work (waiting on the compositor, receiving decoded
//! frames, drawing) is done by the caller, which reports what happened as a
//! [`SessionEvent`] and performs the [`SessionAction`] it gets back.
use vstd::prelude::*;

verus! {

/// What the frame loop remembers between rounds.
#[derive(Debug, Clone, Copy, PartialEq, Eq, Structural)]
pub struct SessionState {
    /// "Ready" was already signalled to the starter of the session.
    pub signaled_ready: bool,
    /// The loop ended because a stop was asked for (rather than because the
    /// decoder went away).
    pub shutting_down: bool,
}

/// What happened in one round of the frame loop, in the order the loop
/// checks: a stop request, giving up on frame callbacks, no frame in time,
/// the decoder gone, or a decoded frame ready to draw.
#[derive(Debug, Clone, Copy, PartialEq, Eq, Structural)]
pub enum SessionEvent {
    Shutdown,
    CallbacksGivenUp,
    FrameTimeout,
    DecoderGone,
    FrameReady,
}

/// What the loop does next.
#[derive(Debug, Clone, Copy, PartialEq, Eq, Structural)]
pub enum SessionAction {
    /// Leave the loop and tear the session down.
    Stop,
    /// Start the next round.
    Skip,
    /// Signal "ready" to the starter, then draw the frame.
    SignalReadyThenRender,
    /// Draw the frame.
    Render,
}

/// The state of a loop that has not run yet.
pub open spec fn initial_session() -> SessionState {
    SessionState { signaled_ready: false, shutting_down: false }
}

/// One round of the frame loop: a stop request or abandoned frame
/// callbacks stop it as a shutdown; a missing frame starts the next round;
/// a vanished decoder stops it as it is; a frame is drawn, and the first
/// frame is preceded by the "ready" signal.
pub open spec fn next_session(s: SessionState, e: SessionEvent) -> (SessionState, SessionAction) {
    match e {
        SessionEvent::Shutdown | SessionEvent::CallbacksGivenUp => (
            SessionState { shutting_down: true, ..s },
            SessionAction::Stop,
        ),
        SessionEvent::FrameTimeout => (s, SessionAction::Skip),
        SessionEvent::DecoderGone => (s, SessionAction::Stop),
        SessionEvent::FrameReady => (
            SessionState { signaled_ready: true, ..s },
            if s.signaled_ready {
                SessionAction::Render
            } else {
                SessionAction::SignalReadyThenRender
            },
        ),
    }
}

impl SessionState {
    /// The state before the first round.
    pub fn new() -> (r: Self)
        ensures
            r == initial_session(),
    {
        SessionState { signaled_ready: false, shutting_down: false }
    }
}

/// The next state and action of the frame loop.
pub fn session_step(s: SessionState, e: SessionEvent) -> (r: (SessionState, SessionAction))
    ensures
        r == next_session(s, e),
{
    match e {
        SessionEvent::Shutdown | SessionEvent::CallbacksGivenUp => (
            SessionState { signaled_ready: s.signaled_ready, shutting_down: true },
            SessionAction::Stop,
        ),
        SessionEvent::FrameTimeout => (s, SessionAction::Skip),
        SessionEvent::DecoderGone => (s, SessionAction::Stop),
        SessionEvent::FrameReady => {
            let action = if s.signaled_ready {
                SessionAction::Render
            } else {
                SessionAction::SignalReadyThenRender
            };
            (SessionState { signaled_ready: true, shutting_down: s.shutting_down }, action)
        },
    }
}

/// The state after a run of rounds with the given events, from `s`.
pub open spec fn run_session_steps(s: SessionState, events: Seq<SessionEvent>) -> SessionState
    decreases events.len(),
{
    if events.len() == 0 {
        s
    } else {
        run_session_steps(next_session(s, events[0]).0, events.drop_first())
    }
}

/// How many rounds of a run signal "ready".
pub open spec fn ready_signals(s: SessionState, events: Seq<SessionEvent>) -> nat
    decreases events.len(),
{
    if events.len() == 0 {
        0
    } else {
        (if next_session(s, events[0]).1 == SessionAction::SignalReadyThenRender {
            1nat
        } else {
            0nat
        }) + ready_signals(next_session(s, events[0]).0, events.drop_first())
    }
}

/// "Ready" is signalled at most once in a session, and exactly once if a
/// frame is ever drawn: it comes with the first frame, before it is drawn.
pub proof fn lemma_ready_signalled_once(events: Seq<SessionEvent>)
    ensures
        ready_signals(initial_session(), events) <= 1,
        ready_signals(initial_session(), events) == 1 <==> events.contains(SessionEvent::FrameReady),
        run_session_steps(initial_session(), events).signaled_ready <==> events.contains(
            SessionEvent::FrameReady,
        ),
{
    lemma_ready_signals_from(initial_session(), events);
}

proof fn lemma_ready_signals_from(s: SessionState, events: Seq<SessionEvent>)
    ensures
        s.signaled_ready ==> ready_signals(s, events) == 0,
        s.signaled_ready ==> run_session_steps(s, events).signaled_ready,
        !s.signaled_ready ==> (ready_signals(s, events) == 1 <==> events.contains(
            SessionEvent::FrameReady,
        )),
        !s.signaled_ready ==> ready_signals(s, events) <= 1,
        !s.signaled_ready ==> (run_session_steps(s, events).signaled_ready <==> events.contains(
            SessionEvent::FrameReady,
        )),
    decreases events.len(),
{
    if events.len() > 0 {
        let rest = events.drop_first();
        let t = next_session(s, events[0]).0;
        lemma_ready_signals_from(t, rest);
        assert(events == seq![events[0]] + rest);
        if events.contains(SessionEvent::FrameReady) && events[0] != SessionEvent::FrameReady {
            let i = choose|i: int| 0 <= i < events.len() && events[i] == SessionEvent::FrameReady;
            assert(rest[i - 1] == SessionEvent::FrameReady);
        }
        if rest.contains(SessionEvent::FrameReady) {
            let i = choose|i: int| 0 <= i < rest.len() && rest[i] == SessionEvent::FrameReady;
            assert(events[i + 1] == SessionEvent::FrameReady);
        }
    }
}

/// What the wait for frame callbacks does next.
#[derive(Debug, Clone, Copy, PartialEq, Eq, Structural)]
pub enum CallbackWait {
    /// No callback is awaited: the frame loop goes on.
    Proceed,
    /// A stop was asked for: stop awaiting callbacks and stop the loop.
    GiveUpOnShutdown,
    /// The time allowed is over: stop awaiting callbacks and stop the loop.
    GiveUpOnDeadline,
    /// Wait for the compositor's next events and look again.
    Dispatch,
}

/// One look of the wait for frame callbacks, whose checks come in this
/// order: is a callback still awaited, was a stop asked for, is the time
/// allowed over.
pub open spec fn callback_wait(pending: bool, shutdown_requested: bool, deadline_passed: bool) -> CallbackWait {
    if !pending {
        CallbackWait::Proceed
    } else if shutdown_requested {
        CallbackWait::GiveUpOnShutdown
    } else if deadline_passed {
        CallbackWait::GiveUpOnDeadline
    } else {
        CallbackWait::Dispatch
    }
}

/// What the wait for frame callbacks does next.
pub fn callback_wait_step(pending: bool, shutdown_requested: bool, deadline_passed: bool) -> (r:
    CallbackWait)
    ensures
        r == callback_wait(pending, shutdown_requested, deadline_passed),
{
    if !pending {
        CallbackWait::Proceed
    } else if shutdown_requested {
        CallbackWait::GiveUpOnShutdown
    } else if deadline_passed {
        CallbackWait::GiveUpOnDeadline
    } else {
        CallbackWait::Dispatch
    }
}

/// The report when the compositor offers no `wl_compositor`.
pub open spec fn no_compositor_message() -> Seq<char> {
    "wl_compositor missing"@
}

/// The report when the compositor offers no layer shell.
pub open spec fn no_layer_shell_message() -> Seq<char> {
    "zwlr_layer_shell_v1 missing: compositor does not support layer-shell wallpapers"@
}

/// The report when no output is known completely.
pub open spec fn no_outputs_message() -> Seq<char> {
    "no Wayland outputs found"@
}

/// The checks before the session draws anything, in order: a compositor, a
/// layer shell, and an output to mirror to. On success, the three are
/// handed back together.
pub fn session_setup<C, L>(
    compositor: Option<C>,
    layer_shell: Option<L>,
    primary: Option<u32>,
) -> (r: Result<(C, L, u32), String>)
    ensures
        compositor is None ==> (r matches Err(m) && m@ == no_compositor_message()),
        compositor is Some && layer_shell is None ==> (r matches Err(m) && m@
            == no_layer_shell_message()),
        compositor is Some && layer_shell is Some && primary is None ==> (r matches Err(m) && m@
            == no_outputs_message()),
        compositor is Some && layer_shell is Some && primary is Some ==> r == Ok::<
            (C, L, u32),
            String,
        >((compositor->0, layer_shell->0, primary->0)),
{
    match compositor {
        None => Err(String::from_str("wl_compositor missing")),
        Some(c) => match layer_shell {
            None => Err(
                String::from_str(
                    "zwlr_layer_shell_v1 missing: compositor does not support layer-shell wallpapers",
                ),
            ),
            Some(l) => match primary {
                None => Err(String::from_str("no Wayland outputs found")),
                Some(p) => Ok((c, l, p)),
            },
        },
    }
}

/// What the session sends on its "ready" channel when it ends with
/// `outcome`: its error when it failed, nothing when it ended normally. (It
/// then always signals that it exited.)
pub fn session_report(outcome: Result<(), String>) -> (r: Option<Result<(), String>>)
    ensures
        match outcome {
            Ok(_) => r is None,
            Err(e) => r matches Some(Err(m)) && m@ == e@,
        },
{
    match outcome {
        Ok(()) => None,
        Err(e) => Some(Err(e)),
    }
}

} // verus!
