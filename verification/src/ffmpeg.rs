//! Running the encoder, and the graceful-then-forced shutdown protocol.
//!
//! Some supervised processes accept an interactive quit instruction on
//! their input stream and shut themselves down cleanly; killing them
//! abruptly risks incomplete output. The orchestrator negotiates: it
//! waits for either natural exit or the caller's cancellation, sends one
//! quit instruction on cancellation, grants a bounded grace period, and
//! only then escalates to cancelling the process-scoped token, which
//! makes the supervisor kill the child. The waiting and the timer are the
//! caller's; every transition of the protocol is decided here, by
//! [`shutdown_step`], and the protocol's invariants — one quit at most,
//! escalation never before a quit attempt — are proved below.

use vstd::prelude::*;
use vstd::string::*;

use crate::cmd::CommandError;
use crate::find::FindBinaryError;

verus! {

/// A failure of one supervised encoder run.
#[derive(Clone, Debug)]
pub enum FfmpegError {
    /// The run itself failed, or was cancelled.
    Command { inner_error: CommandError },
    /// The encoder binary could not be resolved.
    FindBinary { inner_error: FindBinaryError },
    /// The encoder binary was found nowhere.
    NotFound,
}

/// The operator guidance for an encoder binary that resolution found
/// nowhere: name the override variable, and point at the search path.
pub fn ffmpeg_not_found_guidance() -> (r: String)
    ensures
        r@
            == "Unable to locate ffmpeg on your PATH, set LIBFFMPEG_FFMPEG_PATH to the binary, or update your PATH"@,
{
    String::from_str(
        "Unable to locate ffmpeg on your PATH, set LIBFFMPEG_FFMPEG_PATH to the binary, or update your PATH",
    )
}

/// Where one shutdown negotiation stands.
#[derive(Clone, Copy, Debug, PartialEq, Eq, Structural)]
pub enum ShutdownState {
    /// The process runs; the caller has not cancelled.
    WaitForCancelOrExit,
    /// The quit instruction has been sent; the grace period runs.
    QuitSent,
    /// The process exited on its own — before cancellation, or within the
    /// grace period. No kill was performed.
    ExitedGracefully,
    /// The grace period elapsed; the process-scoped token was cancelled
    /// and the supervisor kills the child.
    Escalated,
}

/// What the negotiation can observe: the supervisor's terminal outcome
/// ("exited"), the caller's cancellation, or the grace timer elapsing.
#[derive(Clone, Copy, Debug, PartialEq, Eq, Structural)]
pub enum ShutdownEvent {
    ProcessExited,
    CancelRequested,
    GraceElapsed,
}

/// What the caller must do after one transition.
#[derive(Clone, Copy, Debug, PartialEq, Eq, Structural)]
pub enum ShutdownAction {
    DoNothing,
    /// Send the single interactive quit instruction, and start the grace
    /// timer.
    SendQuit,
    /// Cancel the process-scoped token: the supervisor will kill the
    /// child and report `Cancelled`.
    CancelProcess,
}

/// The transition table of the shutdown protocol. Natural exit is always
/// terminal and never answered with a kill; cancellation sends the quit
/// instruction exactly once; only a grace period that elapses after the
/// quit escalates. Terminal states absorb every later event, as does a
/// grace timer that fires when no quit was sent.
pub open spec fn shutdown_transition(s: ShutdownState, e: ShutdownEvent) -> (
    ShutdownState,
    ShutdownAction,
) {
    match (s, e) {
        (ShutdownState::WaitForCancelOrExit, ShutdownEvent::ProcessExited) => (
            ShutdownState::ExitedGracefully,
            ShutdownAction::DoNothing,
        ),
        (ShutdownState::WaitForCancelOrExit, ShutdownEvent::CancelRequested) => (
            ShutdownState::QuitSent,
            ShutdownAction::SendQuit,
        ),
        (ShutdownState::WaitForCancelOrExit, ShutdownEvent::GraceElapsed) => (
            ShutdownState::WaitForCancelOrExit,
            ShutdownAction::DoNothing,
        ),
        (ShutdownState::QuitSent, ShutdownEvent::ProcessExited) => (
            ShutdownState::ExitedGracefully,
            ShutdownAction::DoNothing,
        ),
        (ShutdownState::QuitSent, ShutdownEvent::CancelRequested) => (
            ShutdownState::QuitSent,
            ShutdownAction::DoNothing,
        ),
        (ShutdownState::QuitSent, ShutdownEvent::GraceElapsed) => (
            ShutdownState::Escalated,
            ShutdownAction::CancelProcess,
        ),
        (ShutdownState::ExitedGracefully, _) => (
            ShutdownState::ExitedGracefully,
            ShutdownAction::DoNothing,
        ),
        (ShutdownState::Escalated, _) => (ShutdownState::Escalated, ShutdownAction::DoNothing),
    }
}

/// Advances the shutdown negotiation by one observation.
pub fn shutdown_step(s: ShutdownState, e: ShutdownEvent) -> (r: (ShutdownState, ShutdownAction))
    ensures
        r == shutdown_transition(s, e),
{
    match (s, e) {
        (ShutdownState::WaitForCancelOrExit, ShutdownEvent::ProcessExited) => (
            ShutdownState::ExitedGracefully,
            ShutdownAction::DoNothing,
        ),
        (ShutdownState::WaitForCancelOrExit, ShutdownEvent::CancelRequested) => (
            ShutdownState::QuitSent,
            ShutdownAction::SendQuit,
        ),
        (ShutdownState::WaitForCancelOrExit, ShutdownEvent::GraceElapsed) => (
            ShutdownState::WaitForCancelOrExit,
            ShutdownAction::DoNothing,
        ),
        (ShutdownState::QuitSent, ShutdownEvent::ProcessExited) => (
            ShutdownState::ExitedGracefully,
            ShutdownAction::DoNothing,
        ),
        (ShutdownState::QuitSent, ShutdownEvent::CancelRequested) => (
            ShutdownState::QuitSent,
            ShutdownAction::DoNothing,
        ),
        (ShutdownState::QuitSent, ShutdownEvent::GraceElapsed) => (
            ShutdownState::Escalated,
            ShutdownAction::CancelProcess,
        ),
        (ShutdownState::ExitedGracefully, _) => (
            ShutdownState::ExitedGracefully,
            ShutdownAction::DoNothing,
        ),
        (ShutdownState::Escalated, _) => (ShutdownState::Escalated, ShutdownAction::DoNothing),
    }
}

/// The state after a sequence of observations, folded in order.
pub open spec fn shutdown_run_state(s: ShutdownState, events: Seq<ShutdownEvent>) -> ShutdownState
    decreases events.len(),
{
    if events.len() == 0 {
        s
    } else {
        shutdown_transition(shutdown_run_state(s, events.drop_last()), events.last()).0
    }
}

/// How many steps of a run demand the given action.
pub open spec fn count_actions(
    s: ShutdownState,
    events: Seq<ShutdownEvent>,
    a: ShutdownAction,
) -> int
    decreases events.len(),
{
    if events.len() == 0 {
        0
    } else {
        count_actions(s, events.drop_last(), a) + if shutdown_transition(
            shutdown_run_state(s, events.drop_last()),
            events.last(),
        ).1 == a {
            1int
        } else {
            0int
        }
    }
}

/// An action count is never negative.
pub proof fn lemma_count_actions_nonneg(
    s: ShutdownState,
    events: Seq<ShutdownEvent>,
    a: ShutdownAction,
)
    ensures
        count_actions(s, events, a) >= 0,
    decreases events.len(),
{
    if events.len() > 0 {
        lemma_count_actions_nonneg(s, events.drop_last(), a);
    }
}

/// The quit instruction is sent at most once per shutdown sequence: a run
/// that did not start in the waiting state never sends it, a run that did
/// sends it at most once, and as long as the run still waits, it has not
/// been sent.
pub proof fn lemma_quit_sent_at_most_once(s: ShutdownState, events: Seq<ShutdownEvent>)
    ensures
        !(s is WaitForCancelOrExit) ==> !(shutdown_run_state(s, events) is WaitForCancelOrExit)
            && count_actions(s, events, ShutdownAction::SendQuit) == 0,
        s is WaitForCancelOrExit ==> count_actions(s, events, ShutdownAction::SendQuit) <= 1,
        shutdown_run_state(s, events) is WaitForCancelOrExit ==> count_actions(
            s,
            events,
            ShutdownAction::SendQuit,
        ) == 0,
    decreases events.len(),
{
    if events.len() > 0 {
        lemma_quit_sent_at_most_once(s, events.drop_last());
    }
}

/// With no quit sent, nothing was ever escalated: the run sits in the
/// waiting state or saw a natural exit, and the process token was never
/// cancelled.
pub proof fn lemma_no_quit_no_escalation(events: Seq<ShutdownEvent>)
    ensures
        count_actions(ShutdownState::WaitForCancelOrExit, events, ShutdownAction::SendQuit) == 0
            ==> (count_actions(
            ShutdownState::WaitForCancelOrExit,
            events,
            ShutdownAction::CancelProcess,
        ) == 0 && (shutdown_run_state(ShutdownState::WaitForCancelOrExit, events)
            is WaitForCancelOrExit || shutdown_run_state(
            ShutdownState::WaitForCancelOrExit,
            events,
        ) is ExitedGracefully)),
    decreases events.len(),
{
    if events.len() > 0 {
        lemma_no_quit_no_escalation(events.drop_last());
        lemma_count_actions_nonneg(
            ShutdownState::WaitForCancelOrExit,
            events.drop_last(),
            ShutdownAction::SendQuit,
        );
    }
}

/// The escalation path is reachable only after a quit attempt: a run that
/// ever cancels the process token, or ends escalated, sent the quit
/// instruction first.
pub proof fn lemma_escalation_needs_quit(events: Seq<ShutdownEvent>)
    ensures
        count_actions(ShutdownState::WaitForCancelOrExit, events, ShutdownAction::CancelProcess)
            >= 1 ==> count_actions(
            ShutdownState::WaitForCancelOrExit,
            events,
            ShutdownAction::SendQuit,
        ) >= 1,
        shutdown_run_state(ShutdownState::WaitForCancelOrExit, events) is Escalated
            ==> count_actions(
            ShutdownState::WaitForCancelOrExit,
            events,
            ShutdownAction::SendQuit,
        ) >= 1,
{
    lemma_no_quit_no_escalation(events);
    lemma_count_actions_nonneg(
        ShutdownState::WaitForCancelOrExit,
        events,
        ShutdownAction::SendQuit,
    );
}

/// Folding one observation, then the rest, is one run.
pub proof fn lemma_shutdown_run_cons(
    s: ShutdownState,
    e: ShutdownEvent,
    rest: Seq<ShutdownEvent>,
    a: ShutdownAction,
)
    ensures
        shutdown_run_state(s, seq![e] + rest) == shutdown_run_state(
            shutdown_transition(s, e).0,
            rest,
        ),
        count_actions(s, seq![e] + rest, a) == (if shutdown_transition(s, e).1 == a {
            1int
        } else {
            0int
        }) + count_actions(shutdown_transition(s, e).0, rest, a),
    decreases rest.len(),
{
    if rest.len() == 0 {
        assert((seq![e] + rest) =~= seq![e]);
        assert(seq![e].drop_last() =~= Seq::<ShutdownEvent>::empty());
        assert(seq![e].last() == e);
        assert(shutdown_run_state(s, Seq::<ShutdownEvent>::empty()) == s);
        assert(count_actions(s, Seq::<ShutdownEvent>::empty(), a) == 0);
        assert(count_actions(shutdown_transition(s, e).0, Seq::<ShutdownEvent>::empty(), a) == 0);
    } else {
        lemma_shutdown_run_cons(s, e, rest.drop_last(), a);
        assert((seq![e] + rest).drop_last() =~= seq![e] + rest.drop_last());
        assert((seq![e] + rest).last() == rest.last());
    }
}

/// A process that exits within the grace period after the quit
/// instruction is never killed: the run ends gracefully and the process
/// token is never cancelled, whatever is observed afterwards.
pub proof fn lemma_exit_within_grace_no_kill(later: Seq<ShutdownEvent>)
    ensures
        shutdown_run_state(ShutdownState::QuitSent, seq![ShutdownEvent::ProcessExited] + later)
            is ExitedGracefully,
        count_actions(
            ShutdownState::QuitSent,
            seq![ShutdownEvent::ProcessExited] + later,
            ShutdownAction::CancelProcess,
        ) == 0,
{
    lemma_shutdown_run_cons(
        ShutdownState::QuitSent,
        ShutdownEvent::ProcessExited,
        later,
        ShutdownAction::CancelProcess,
    );
    lemma_terminal_states_quiet(ShutdownState::ExitedGracefully, later);
}

/// A grace period that elapses before the exit escalates at once: the
/// process token is cancelled, which makes the supervisor kill the child
/// and report `Cancelled`.
pub proof fn lemma_grace_elapsed_escalates()
    ensures
        shutdown_transition(ShutdownState::QuitSent, ShutdownEvent::GraceElapsed) == (
            ShutdownState::Escalated,
            ShutdownAction::CancelProcess,
        ),
{
}

/// A terminal state stays terminal and demands nothing further.
pub proof fn lemma_terminal_states_quiet(s: ShutdownState, events: Seq<ShutdownEvent>)
    requires
        s is ExitedGracefully || s is Escalated,
    ensures
        shutdown_run_state(s, events) == s,
        count_actions(s, events, ShutdownAction::SendQuit) == 0,
        count_actions(s, events, ShutdownAction::CancelProcess) == 0,
    decreases events.len(),
{
    if events.len() > 0 {
        lemma_terminal_states_quiet(s, events.drop_last());
    }
}

} // verus!
