//! The supervision loop: accumulation, forwarding, termination and
//! cancellation precedence.

use libffmpeg::cmd::{
    CommandContext, CommandError, CommandEvent, CommandMonitorMessage, CommandStep,
};
use libffmpeg::exit::CommandExitCode;

fn success_code() -> CommandExitCode {
    CommandExitCode::new(true, Some(0), None, Some(false), None, Some(false))
}

fn failure_code(code: i32) -> CommandExitCode {
    CommandExitCode::new(false, Some(code), None, Some(false), None, Some(false))
}

#[test]
fn exit_code_new_keeps_fields() {
    let c = CommandExitCode::new(false, Some(1), Some(9), Some(true), None, Some(false));
    assert!(!c.success);
    assert_eq!(c.code, Some(1));
    assert_eq!(c.signal, Some(9));
    assert_eq!(c.core_dumped, Some(true));
    assert_eq!(c.stopped_signal, None);
    assert_eq!(c.continued, Some(false));
}

#[test]
fn supervisor_accumulates_lines_and_reports_exit() {
    // Two stdout lines and one stderr line, then an exit: the terminal
    // record holds exactly those lines, per stream in arrival order, and
    // the descriptor reflects the status.
    let mut ctx = CommandContext::new(false);
    let events = [
        CommandEvent::StdoutLine {
            line: String::from("first"),
        },
        CommandEvent::StderrLine {
            line: String::from("warning: x"),
        },
        CommandEvent::StdoutLine {
            line: String::from("second"),
        },
    ];
    for e in events {
        match ctx.step(e) {
            CommandStep::Proceed { forward } => assert!(forward.is_none()),
            CommandStep::Finish { .. } => panic!("line events must not finish the loop"),
        }
    }
    let code = failure_code(3);
    match ctx.step(CommandEvent::Exited { code }) {
        CommandStep::Finish { outcome, kill } => {
            assert!(!kill);
            let exit = outcome.expect("an exit with a status is data, not an error");
            assert_eq!(exit.stdout_lines, vec!["first", "second"]);
            assert_eq!(exit.stderr_lines, vec!["warning: x"]);
            let got = exit.exit_code.expect("status was reported");
            assert!(!got.success);
            assert_eq!(got.code, Some(3));
        }
        CommandStep::Proceed { .. } => panic!("an exit event is terminal"),
    }
}

#[test]
fn supervisor_forwards_lines_when_monitored() {
    let mut ctx = CommandContext::new(true);
    match ctx.step(CommandEvent::StdoutLine {
        line: String::from("out"),
    }) {
        CommandStep::Proceed { forward } => assert_eq!(
            forward,
            Some(CommandMonitorMessage::Stdout {
                line: String::from("out")
            })
        ),
        CommandStep::Finish { .. } => panic!("line events must not finish the loop"),
    }
    match ctx.step(CommandEvent::StderrLine {
        line: String::from("err"),
    }) {
        CommandStep::Proceed { forward } => assert_eq!(
            forward,
            Some(CommandMonitorMessage::Stderr {
                line: String::from("err")
            })
        ),
        CommandStep::Finish { .. } => panic!("line events must not finish the loop"),
    }
}

#[test]
fn cancellation_always_wins_and_kills() {
    // However much was accumulated, a cancellation event kills the child
    // and reports Cancelled — never a success result.
    let mut ctx = CommandContext::new(false);
    let _ = ctx.step(CommandEvent::StdoutLine {
        line: String::from("halfway"),
    });
    match ctx.step(CommandEvent::Cancelled) {
        CommandStep::Finish { outcome, kill } => {
            assert!(kill);
            assert_eq!(outcome.unwrap_err(), CommandError::Cancelled);
        }
        CommandStep::Proceed { .. } => panic!("cancellation is terminal"),
    }
}

#[test]
fn wait_failure_is_its_own_error() {
    // The OS reporting completion without a status is a distinguished
    // failure, not a success and not a cancellation.
    let mut ctx = CommandContext::new(false);
    match ctx.step(CommandEvent::WaitFailed {
        message: String::from("wait: no status"),
    }) {
        CommandStep::Finish { outcome, kill } => {
            assert!(!kill);
            assert_eq!(
                outcome.unwrap_err(),
                CommandError::BadExit {
                    message: String::from("wait: no status")
                }
            );
        }
        CommandStep::Proceed { .. } => panic!("a wait failure is terminal"),
    }
}

#[test]
fn successful_exit_with_no_output() {
    let mut ctx = CommandContext::new(true);
    match ctx.step(CommandEvent::Exited {
        code: success_code(),
    }) {
        CommandStep::Finish { outcome, kill } => {
            assert!(!kill);
            let exit = outcome.unwrap();
            assert!(exit.stdout_lines.is_empty());
            assert!(exit.stderr_lines.is_empty());
            assert!(exit.exit_code.unwrap().success);
        }
        CommandStep::Proceed { .. } => panic!("an exit event is terminal"),
    }
}
