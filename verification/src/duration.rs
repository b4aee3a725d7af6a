//! Duration extraction: interpreting the terminal record of a probe run
//! that was asked to print a media file's duration in seconds.
//!
//! The probe's output is one line holding a decimal number of seconds.
//! Interpreting the record is pure: a missing exit status, an
//! unsuccessful exit, a missing line and an unparsable line each map to
//! their own error, and a well-formed line to the duration in
//! microseconds, the fractional part read to microsecond precision.

use vstd::prelude::*;
use vstd::string::*;

use crate::cmd::{CommandError, CommandExit, CommandExitView};
use crate::exit::CommandExitCode;
use crate::find::FindBinaryError;
use crate::num::{
    all_digits,
    digits_value,
    lemma_digits_value_bound,
    lemma_digits_value_nonneg,
    lemma_pow10_6,
    lemma_pow10_adds,
    lemma_pow10_increases,
    lemma_pow10_pos,
    parse_u64,
    pow10,
    pow10_u64,
};
use crate::progress::{find_char, find_char_at, lemma_find_char};

verus! {

/// A failure of duration extraction.
#[derive(Clone, Debug)]
pub enum DurationError {
    /// The probe run itself failed.
    Command { inner_error: CommandError },
    /// The probe binary could not be resolved.
    FindBinary { inner_error: FindBinaryError },
    /// The probe returned, but no exit status was present.
    IncompleteSubprocess { result: CommandExit },
    /// The probe exited unsuccessfully.
    ExitedUnsuccessfully { exit_code: CommandExitCode },
    /// The probe exited successfully but wrote no line to read a duration
    /// from.
    ExpectedLine { result: CommandExit },
    /// The line the probe wrote is not a decimal number of seconds.
    Parse { message: String },
    /// The probe binary was found nowhere.
    FfprobeNotFound,
}

/// The fractional digits of a decimal-seconds line, scaled to
/// microseconds: the first six digits, or fewer digits scaled up.
pub open spec fn frac_micros(fp: Seq<char>) -> int {
    if fp.len() >= 6 {
        digits_value(fp.subrange(0, 6))
    } else {
        digits_value(fp) * pow10((6 - fp.len()) as nat)
    }
}

/// A whole and a fractional digit part as microseconds.
pub open spec fn parts_micros(ip: Seq<char>, fp: Seq<char>) -> int {
    digits_value(ip) * 1000000 + frac_micros(fp)
}

/// A decimal-seconds line as microseconds: digits with at most one
/// decimal point, at least one digit in all, the whole reading fitting a
/// `u64` — anything else reads as nothing.
pub open spec fn seconds_micros(line: Seq<char>) -> Option<int> {
    match find_char(line, '.') {
        None => {
            if line.len() > 0 && all_digits(line) && digits_value(line) * 1000000 <= u64::MAX {
                Some(digits_value(line) * 1000000)
            } else {
                None
            }
        },
        Some(i) => {
            let ip = line.subrange(0, i);
            let fp = line.subrange(i + 1, line.len() as int);
            if ip.len() + fp.len() > 0 && all_digits(ip) && all_digits(fp) && parts_micros(ip, fp)
                <= u64::MAX {
                Some(parts_micros(ip, fp))
            } else {
                None
            }
        },
    }
}

/// The fractional part of a line always scales to less than one second.
proof fn lemma_frac_micros_bounds(fp: Seq<char>)
    requires
        all_digits(fp),
    ensures
        0 <= frac_micros(fp) < 1000000,
{
    if fp.len() >= 6 {
        let f6 = fp.subrange(0, 6);
        assert(all_digits(f6)) by {
            assert(forall|k: int| 0 <= k < 6 ==> f6[k] == fp[k]);
        }
        lemma_digits_value_bound(f6);
        lemma_digits_value_nonneg(f6);
        lemma_pow10_6();
    } else {
        lemma_digits_value_bound(fp);
        lemma_digits_value_nonneg(fp);
        lemma_pow10_adds(fp.len(), (6 - fp.len()) as nat);
        lemma_pow10_6();
        lemma_pow10_pos((6 - fp.len()) as nat);
        assert(digits_value(fp) * pow10((6 - fp.len()) as nat) < pow10(fp.len()) * pow10(
            (6 - fp.len()) as nat,
        )) by (nonlinear_arith)
            requires
                0 <= digits_value(fp) < pow10(fp.len()),
                pow10((6 - fp.len()) as nat) >= 1,
        {}
        assert(digits_value(fp) * pow10((6 - fp.len()) as nat) >= 0) by (nonlinear_arith)
            requires
                digits_value(fp) >= 0,
                pow10((6 - fp.len()) as nat) >= 1,
        {}
    }
}

/// Parses a decimal-seconds line into microseconds.
pub fn parse_seconds_micros(line: &str) -> (r: Option<u64>)
    ensures
        ({
            match seconds_micros(line@) {
                Some(v) => r matches Some(u) && u == v,
                None => r is None,
            }
        }),
{
    let n = line.unicode_len();
    match find_char_at(line, '.') {
        None => {
            match parse_u64(line) {
                None => {
                    proof {
                        if line@.len() > 0 && all_digits(line@) {
                            lemma_digits_value_nonneg(line@);
                            assert(digits_value(line@) > u64::MAX);
                            assert(digits_value(line@) * 1000000 > u64::MAX) by (nonlinear_arith)
                                requires
                                    digits_value(line@) > u64::MAX,
                            {}
                        }
                    }
                    None
                },
                Some(v) => {
                    if v > u64::MAX / 1000000 {
                        proof {
                            assert(v * 1000000 > u64::MAX) by (nonlinear_arith)
                                requires
                                    v > u64::MAX / 1000000,
                            {}
                        }
                        None
                    } else {
                        proof {
                            assert(v * 1000000 <= u64::MAX) by (nonlinear_arith)
                                requires
                                    v <= u64::MAX / 1000000,
                            {}
                        }
                        Some(v * 1000000)
                    }
                },
            }
        },
        Some(i) => {
            proof {
                lemma_find_char(line@, '.');
            }
            let ip = line.substring_char(0, i);
            let fp = line.substring_char(i + 1, n);
            let ip_len = ip.unicode_len();
            let fp_len = fp.unicode_len();
            if ip_len == 0 && fp_len == 0 {
                return None;
            }
            let iv: u64 = if ip_len == 0 {
                0
            } else {
                match parse_u64(ip) {
                    None => {
                        proof {
                            let ipv = line@.subrange(0, i as int);
                            if all_digits(ipv) {
                                lemma_digits_value_nonneg(ipv);
                                let fpv = line@.subrange(i + 1, line@.len() as int);
                                if all_digits(fpv) {
                                    lemma_frac_micros_bounds(fpv);
                                    assert(digits_value(ipv) * 1000000 > u64::MAX)
                                        by (nonlinear_arith)
                                        requires
                                            digits_value(ipv) > u64::MAX,
                                    {}
                                }
                            }
                        }
                        return None;
                    },
                    Some(v) => v,
                }
            };
            let fv: u64 = if fp_len == 0 {
                0
            } else if fp_len >= 6 {
                if !crate::num::check_all_digits(fp) {
                    return None;
                }
                let f6 = fp.substring_char(0, 6);
                proof {
                    let fpv = line@.subrange(i + 1, line@.len() as int);
                    assert(all_digits(f6@)) by {
                        assert(forall|k: int| 0 <= k < 6 ==> f6@[k] == fpv[k]);
                    }
                    lemma_digits_value_bound(f6@);
                    lemma_digits_value_nonneg(f6@);
                    lemma_pow10_6();
                }
                match parse_u64(f6) {
                    None => {
                        proof {
                            assert(false);
                        }
                        return None;
                    },
                    Some(v) => v,
                }
            } else {
                match parse_u64(fp) {
                    None => {
                        proof {
                            let fpv = line@.subrange(i + 1, line@.len() as int);
                            if all_digits(fpv) {
                                lemma_digits_value_bound(fpv);
                                lemma_digits_value_nonneg(fpv);
                                lemma_pow10_6();
                                lemma_pow10_increases(fpv.len(), 6);
                            }
                        }
                        return None;
                    },
                    Some(v) => {
                        proof {
                            let fpv = line@.subrange(i + 1, line@.len() as int);
                            lemma_digits_value_bound(fpv);
                            lemma_digits_value_nonneg(fpv);
                            lemma_pow10_pos((6 - fpv.len()) as nat);
                            lemma_pow10_adds(fpv.len(), (6 - fpv.len()) as nat);
                            lemma_pow10_6();
                            assert(v * pow10((6 - fpv.len()) as nat) < pow10(fpv.len()) * pow10(
                                (6 - fpv.len()) as nat,
                            )) by (nonlinear_arith)
                                requires
                                    0 <= v < pow10(fpv.len()),
                                    pow10((6 - fpv.len()) as nat) >= 1,
                            {}
                        }
                        let scale = pow10_u64(6 - fp_len);
                        v * scale
                    },
                }
            };
            proof {
                let ipv = line@.subrange(0, i as int);
                let fpv = line@.subrange(i + 1, line@.len() as int);
                if ipv.len() == 0 {
                    assert(digits_value(ipv) == 0);
                }
                if fpv.len() == 0 {
                    assert(frac_micros(fpv) == 0 * pow10(6));
                    assert(0 * pow10(6) == 0) by (nonlinear_arith);
                }
                lemma_frac_micros_bounds(fpv);
                assert(fv == frac_micros(fpv));
            }
            if iv > (u64::MAX - fv) / 1000000 {
                proof {
                    assert(iv * 1000000 + fv > u64::MAX) by (nonlinear_arith)
                        requires
                            iv > (u64::MAX - fv) / 1000000,
                            0 <= fv <= u64::MAX,
                            iv >= 0,
                    {}
                }
                None
            } else {
                proof {
                    assert(iv * 1000000 + fv <= u64::MAX) by (nonlinear_arith)
                        requires
                            iv <= (u64::MAX - fv) / 1000000,
                            0 <= fv <= u64::MAX,
                            iv >= 0,
                    {}
                }
                Some(iv * 1000000 + fv)
            }
        },
    }
}

/// The outcome duration extraction owes for one terminal record: each
/// abnormality its own error, and a well-formed duration line the
/// microsecond reading.
pub open spec fn duration_outcome_matches(
    pre: CommandExitView,
    r: Result<u64, DurationError>,
) -> bool {
    match pre.exit_code {
        None => r matches Err(DurationError::IncompleteSubprocess { result }) && result@ == pre,
        Some(code) => {
            if !code.success {
                r matches Err(DurationError::ExitedUnsuccessfully { exit_code }) && exit_code
                    == code
            } else if pre.stdout_lines.len() == 0 {
                r matches Err(DurationError::ExpectedLine { result }) && result@.stdout_lines
                    == pre.stdout_lines && result@.stderr_lines == pre.stderr_lines
                    && result@.exit_code is None
            } else {
                match seconds_micros(pre.stdout_lines[0]) {
                    Some(v) => r matches Ok(u) && u == v,
                    None => r matches Err(DurationError::Parse { message }) && message@
                        == pre.stdout_lines[0],
                }
            }
        },
    }
}

/// Interprets the terminal record of a probe run: the duration the probe
/// printed, in microseconds, or the error the record calls for.
pub fn duration_from_exit(result: CommandExit) -> (r: Result<u64, DurationError>)
    ensures
        duration_outcome_matches(result@, r),
{
    let mut result = result;
    match result.exit_code {
        None => Err(DurationError::IncompleteSubprocess { result }),
        Some(code) => {
            if !code.success {
                return Err(DurationError::ExitedUnsuccessfully { exit_code: code });
            }
            result.exit_code = None;
            if result.stdout_lines.len() == 0 {
                return Err(DurationError::ExpectedLine { result });
            }
            let parsed = parse_seconds_micros(result.stdout_lines[0].as_str());
            match parsed {
                Some(v) => Ok(v),
                None => Err(DurationError::Parse { message: result.stdout_lines[0].clone() }),
            }
        },
    }
}

/// The operator guidance for a probe binary that resolution found
/// nowhere: name the override variable, and point at the search path.
pub fn ffprobe_not_found_guidance() -> (r: String)
    ensures
        r@
            == "Unable to locate ffprobe on your PATH, set LIBFFMPEG_FFPROBE_PATH to the binary, or update your PATH"@,
{
    String::from_str(
        "Unable to locate ffprobe on your PATH, set LIBFFMPEG_FFPROBE_PATH to the binary, or update your PATH",
    )
}

} // verus!
