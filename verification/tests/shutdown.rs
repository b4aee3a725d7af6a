//! The graceful-then-forced shutdown protocol.

use libffmpeg::ffmpeg::{shutdown_step, ShutdownAction, ShutdownEvent, ShutdownState};

#[test]
fn natural_exit_needs_no_quit() {
    // The process finishes on its own: nothing is sent, nothing killed.
    let (s, a) = shutdown_step(
        ShutdownState::WaitForCancelOrExit,
        ShutdownEvent::ProcessExited,
    );
    assert_eq!(s, ShutdownState::ExitedGracefully);
    assert_eq!(a, ShutdownAction::DoNothing);
}

#[test]
fn cancellation_sends_quit_once() {
    let (s, a) = shutdown_step(
        ShutdownState::WaitForCancelOrExit,
        ShutdownEvent::CancelRequested,
    );
    assert_eq!(s, ShutdownState::QuitSent);
    assert_eq!(a, ShutdownAction::SendQuit);
    // A repeated cancellation does not send the instruction again.
    let (s, a) = shutdown_step(s, ShutdownEvent::CancelRequested);
    assert_eq!(s, ShutdownState::QuitSent);
    assert_eq!(a, ShutdownAction::DoNothing);
}

#[test]
fn exit_within_grace_period_avoids_kill() {
    // Quit sent, then the process exits within the grace period: no
    // forced kill occurs.
    let (s, a) = shutdown_step(ShutdownState::QuitSent, ShutdownEvent::ProcessExited);
    assert_eq!(s, ShutdownState::ExitedGracefully);
    assert_eq!(a, ShutdownAction::DoNothing);
    // The grace timer firing afterwards changes nothing.
    let (s, a) = shutdown_step(s, ShutdownEvent::GraceElapsed);
    assert_eq!(s, ShutdownState::ExitedGracefully);
    assert_eq!(a, ShutdownAction::DoNothing);
}

#[test]
fn grace_elapsed_escalates_to_kill() {
    // Quit sent, grace period elapses first: the process-scoped token is
    // cancelled, and the supervisor will kill the child and report
    // Cancelled.
    let (s, a) = shutdown_step(ShutdownState::QuitSent, ShutdownEvent::GraceElapsed);
    assert_eq!(s, ShutdownState::Escalated);
    assert_eq!(a, ShutdownAction::CancelProcess);
}

#[test]
fn grace_timer_without_quit_does_nothing() {
    // The escalation path is unreachable before cancellation was
    // requested.
    let (s, a) = shutdown_step(
        ShutdownState::WaitForCancelOrExit,
        ShutdownEvent::GraceElapsed,
    );
    assert_eq!(s, ShutdownState::WaitForCancelOrExit);
    assert_eq!(a, ShutdownAction::DoNothing);
}

#[test]
fn terminal_states_absorb_everything() {
    for terminal in [ShutdownState::ExitedGracefully, ShutdownState::Escalated] {
        for e in [
            ShutdownEvent::ProcessExited,
            ShutdownEvent::CancelRequested,
            ShutdownEvent::GraceElapsed,
        ] {
            let (s, a) = shutdown_step(terminal, e);
            assert_eq!(s, terminal);
            assert_eq!(a, ShutdownAction::DoNothing);
        }
    }
}

#[test]
fn full_escalation_sequence() {
    let mut s = ShutdownState::WaitForCancelOrExit;
    let mut quits = 0;
    let mut kills = 0;
    for e in [
        ShutdownEvent::CancelRequested,
        ShutdownEvent::CancelRequested,
        ShutdownEvent::GraceElapsed,
        ShutdownEvent::ProcessExited,
    ] {
        let (next, a) = shutdown_step(s, e);
        if a == ShutdownAction::SendQuit {
            quits += 1;
        }
        if a == ShutdownAction::CancelProcess {
            kills += 1;
        }
        s = next;
    }
    assert_eq!(quits, 1);
    assert_eq!(kills, 1);
    assert_eq!(s, ShutdownState::Escalated);
}
