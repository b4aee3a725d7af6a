//! The progress-line policy: extracting elapsed time from the lines an
//! encoder writes when asked to report progress on its output stream.
//!
//! A progress line has the shape `out_time_us=<microseconds>`. A line
//! recognized by its prefix yields the number after the first `=`, in
//! microseconds; a zero reading yields nothing; a line lacking `=`,
//! failing the numeric parse, or not starting with the prefix is skipped
//! without affecting any later line.

use vstd::prelude::*;
use vstd::string::*;

use crate::cmd::CommandMonitorMessage;
use crate::num::{all_digits, digits_value, parse_u64};

verus! {

/// Whether `s` starts with the prefix `p`.
pub open spec fn starts_with_chars(s: Seq<char>, p: Seq<char>) -> bool {
    s.len() >= p.len() && s.subrange(0, p.len() as int) == p
}

/// Whether a string starts with a prefix, character for character.
pub fn starts_with(s: &str, p: &str) -> (r: bool)
    ensures
        r == starts_with_chars(s@, p@),
{
    let np = p.unicode_len();
    if s.unicode_len() < np {
        return false;
    }
    let mut i: usize = 0;
    while i < np
        invariant
            i <= np,
            np == p@.len(),
            np <= s@.len(),
            forall|k: int| 0 <= k < i ==> s@[k] == p@[k],
        decreases np - i,
    {
        if s.get_char(i) != p.get_char(i) {
            proof {
                assert(s@.subrange(0, np as int)[i as int] == s@[i as int]);
            }
            return false;
        }
        i += 1;
    }
    proof {
        assert(s@.subrange(0, np as int) =~= p@);
    }
    true
}

/// The index of the first occurrence of `c` in `s`.
pub open spec fn find_char(s: Seq<char>, c: char) -> Option<int>
    decreases s.len(),
{
    if s.len() == 0 {
        None
    } else if s[0] == c {
        Some(0)
    } else {
        match find_char(s.drop_first(), c) {
            Some(i) => Some(i + 1),
            None => None,
        }
    }
}

/// `find_char` names the first occurrence, or reports that there is none.
pub proof fn lemma_find_char(s: Seq<char>, c: char)
    ensures
        ({
            match find_char(s, c) {
                Some(i) => 0 <= i < s.len() && s[i] == c && (forall|k: int|
                    0 <= k < i ==> #[trigger] s[k] != c),
                None => forall|k: int| 0 <= k < s.len() ==> #[trigger] s[k] != c,
            }
        }),
    decreases s.len(),
{
    if s.len() > 0 && s[0] != c {
        let t = s.drop_first();
        lemma_find_char(t, c);
        match find_char(t, c) {
            Some(j) => {
                assert(find_char(s, c) == Some(j + 1));
                assert(s[j + 1] == t[j]);
                assert forall|k: int| 0 <= k < j + 1 implies #[trigger] s[k] != c by {
                    if k >= 1 {
                        assert(s[k] == t[k - 1]);
                    }
                }
            },
            None => {
                assert forall|k: int| 0 <= k < s.len() implies #[trigger] s[k] != c by {
                    if k >= 1 {
                        assert(s[k] == t[k - 1]);
                    }
                }
            },
        }
    }
}

/// Finds the first occurrence of a character in a string.
pub fn find_char_at(s: &str, c: char) -> (r: Option<usize>)
    ensures
        ({
            match r {
                Some(i) => find_char(s@, c) == Some(i as int),
                None => find_char(s@, c) is None,
            }
        }),
{
    let n = s.unicode_len();
    let mut i: usize = 0;
    while i < n
        invariant
            i <= n,
            n == s@.len(),
            forall|k: int| 0 <= k < i ==> #[trigger] s@[k] != c,
        decreases n - i,
    {
        if s.get_char(i) == c {
            proof {
                lemma_find_char(s@, c);
            }
            return Some(i);
        }
        i += 1;
    }
    proof {
        lemma_find_char(s@, c);
    }
    None
}

/// The progress reading of one line: the microsecond count after the
/// first `=` of a line bearing the recognized prefix, provided it is a
/// positive number that fits — anything else reads as nothing.
pub open spec fn progress_micros(line: Seq<char>) -> Option<int> {
    if !starts_with_chars(line, "out_time_us"@) {
        None
    } else {
        match find_char(line, '=') {
            None => None,
            Some(i) => {
                let digits = line.subrange(i + 1, line.len() as int);
                if digits.len() > 0 && all_digits(digits) && 1 <= digits_value(digits)
                    <= u64::MAX {
                    Some(digits_value(digits))
                } else {
                    None
                }
            },
        }
    }
}

/// Reads one line under the progress policy. A malformed or unrecognized
/// line yields `None` and nothing more: it never fails the caller.
pub fn parse_progress_line(line: &str) -> (r: Option<u64>)
    ensures
        ({
            match progress_micros(line@) {
                Some(v) => r matches Some(u) && u == v,
                None => r is None,
            }
        }),
{
    if !starts_with(line, "out_time_us") {
        return None;
    }
    match find_char_at(line, '=') {
        None => None,
        Some(i) => {
            proof {
                lemma_find_char(line@, '=');
            }
            let n = line.unicode_len();
            let rest = line.substring_char(i + 1, n);
            match parse_u64(rest) {
                None => None,
                Some(v) => {
                    if v >= 1 {
                        Some(v)
                    } else {
                        None
                    }
                },
            }
        },
    }
}

/// The progress reading of one monitor message: only stdout lines carry
/// progress; stderr lines are ignored.
pub open spec fn progress_of_message(m: CommandMonitorMessage) -> Option<int> {
    match m {
        CommandMonitorMessage::Stdout { line } => progress_micros(line@),
        CommandMonitorMessage::Stderr { .. } => None,
    }
}

/// Reads one observed monitor message under the progress policy.
pub fn progress_update(m: &CommandMonitorMessage) -> (r: Option<u64>)
    ensures
        ({
            match progress_of_message(*m) {
                Some(v) => r matches Some(u) && u == v,
                None => r is None,
            }
        }),
{
    match m {
        CommandMonitorMessage::Stdout { line } => parse_progress_line(line.as_str()),
        CommandMonitorMessage::Stderr { .. } => None,
    }
}

} // verus!
