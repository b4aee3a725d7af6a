//! The line policies: progress extraction and duration extraction.

use libffmpeg::cmd::{CommandExit, CommandMonitorMessage};
use libffmpeg::duration::{
    duration_from_exit, ffprobe_not_found_guidance, parse_seconds_micros, DurationError,
};
use libffmpeg::exit::CommandExitCode;
use libffmpeg::num::parse_u64;
use libffmpeg::progress::{parse_progress_line, progress_update};

#[test]
fn progress_line_yields_microseconds() {
    // `out_time_us=2500000` reads as 2.5 seconds.
    assert_eq!(parse_progress_line("out_time_us=2500000"), Some(2_500_000));
}

#[test]
fn progress_line_zero_yields_nothing() {
    assert_eq!(parse_progress_line("out_time_us=0"), None);
}

#[test]
fn progress_line_without_separator_is_skipped() {
    assert_eq!(parse_progress_line("out_time_us2500000"), None);
}

#[test]
fn progress_line_bad_number_is_skipped_without_lasting_effect() {
    assert_eq!(parse_progress_line("out_time_us=abc"), None);
    assert_eq!(parse_progress_line("out_time_us=12x"), None);
    assert_eq!(parse_progress_line("out_time_us="), None);
    // A later well-formed line is unaffected.
    assert_eq!(parse_progress_line("out_time_us=1"), Some(1));
}

#[test]
fn unrecognized_line_is_ignored() {
    assert_eq!(parse_progress_line("frame=25"), None);
    assert_eq!(parse_progress_line("progress=continue"), None);
    assert_eq!(parse_progress_line(""), None);
}

#[test]
fn progress_ignores_stderr_lane() {
    assert_eq!(
        progress_update(&CommandMonitorMessage::Stderr {
            line: String::from("out_time_us=2500000"),
        }),
        None
    );
    assert_eq!(
        progress_update(&CommandMonitorMessage::Stdout {
            line: String::from("out_time_us=2500000"),
        }),
        Some(2_500_000)
    );
}

#[test]
fn digit_parsing() {
    assert_eq!(parse_u64("0"), Some(0));
    assert_eq!(parse_u64("18446744073709551615"), Some(u64::MAX));
    assert_eq!(parse_u64("18446744073709551616"), None);
    assert_eq!(parse_u64(""), None);
    assert_eq!(parse_u64("12a"), None);
    assert_eq!(parse_u64("-1"), None);
}

#[test]
fn seconds_parsing() {
    assert_eq!(parse_seconds_micros("2.500000"), Some(2_500_000));
    assert_eq!(parse_seconds_micros("3"), Some(3_000_000));
    assert_eq!(parse_seconds_micros("3."), Some(3_000_000));
    assert_eq!(parse_seconds_micros(".5"), Some(500_000));
    assert_eq!(parse_seconds_micros("0.000001"), Some(1));
    // A seventh fractional digit is below microsecond precision.
    assert_eq!(parse_seconds_micros("1.2345678"), Some(1_234_567));
    assert_eq!(parse_seconds_micros("."), None);
    assert_eq!(parse_seconds_micros("1.2.3"), None);
    assert_eq!(parse_seconds_micros("abc"), None);
    assert_eq!(parse_seconds_micros(""), None);
    assert_eq!(parse_seconds_micros("99999999999999999999"), None);
}

fn exit_with(lines: Vec<&str>, code: Option<CommandExitCode>) -> CommandExit {
    let mut e = CommandExit::empty();
    e.stdout_lines = lines.into_iter().map(String::from).collect();
    e.exit_code = code;
    e
}

fn ok_code() -> CommandExitCode {
    CommandExitCode::new(true, Some(0), None, Some(false), None, Some(false))
}

#[test]
fn duration_of_well_formed_probe_run() {
    let exit = exit_with(vec!["2.500000"], Some(ok_code()));
    match duration_from_exit(exit) {
        Ok(us) => assert_eq!(us, 2_500_000),
        other => panic!("expected Ok, got {other:?}"),
    }
}

#[test]
fn duration_missing_status_is_incomplete() {
    let exit = exit_with(vec!["2.5"], None);
    match duration_from_exit(exit) {
        Err(DurationError::IncompleteSubprocess { result }) => {
            assert_eq!(result.stdout_lines, vec!["2.5"]);
            assert!(result.exit_code.is_none());
        }
        other => panic!("expected IncompleteSubprocess, got {other:?}"),
    }
}

#[test]
fn duration_unsuccessful_exit_reports_code() {
    let bad = CommandExitCode::new(false, Some(1), None, Some(false), None, Some(false));
    let exit = exit_with(vec!["2.5"], Some(bad));
    match duration_from_exit(exit) {
        Err(DurationError::ExitedUnsuccessfully { exit_code }) => {
            assert_eq!(exit_code.code, Some(1));
        }
        other => panic!("expected ExitedUnsuccessfully, got {other:?}"),
    }
}

#[test]
fn duration_without_output_expects_line() {
    let exit = exit_with(vec![], Some(ok_code()));
    match duration_from_exit(exit) {
        Err(DurationError::ExpectedLine { result }) => {
            assert!(result.stdout_lines.is_empty());
            assert!(result.exit_code.is_none());
        }
        other => panic!("expected ExpectedLine, got {other:?}"),
    }
}

#[test]
fn duration_parse_failure_carries_line() {
    let exit = exit_with(vec!["N/A"], Some(ok_code()));
    match duration_from_exit(exit) {
        Err(DurationError::Parse { message }) => assert_eq!(message, "N/A"),
        other => panic!("expected Parse, got {other:?}"),
    }
}

#[test]
fn duration_reads_first_line_only() {
    let exit = exit_with(vec!["1.5", "2.5"], Some(ok_code()));
    match duration_from_exit(exit) {
        Ok(us) => assert_eq!(us, 1_500_000),
        other => panic!("expected Ok, got {other:?}"),
    }
}

#[test]
fn not_found_guidance_names_override_and_path() {
    let g = ffprobe_not_found_guidance();
    assert!(g.contains("LIBFFMPEG_FFPROBE_PATH"));
    assert!(g.contains("PATH"));
    let g = libffmpeg::ffmpeg::ffmpeg_not_found_guidance();
    assert!(g.contains("LIBFFMPEG_FFMPEG_PATH"));
}
