//! Binary resolution: mapping a logical program name to a validated
//! executable path.
//!
//! Resolution consults, in order: a caller-supplied override path, an
//! override read from the environment variable named by
//! [`env_key_for`], and finally every directory of the search-path
//! variable, scanned concurrently. The filesystem itself is read by the
//! caller; every decision over what it read — how a stat result is
//! classified, when a candidate is accepted, and how the override and the
//! directory scans combine into one outcome — is made here, by verified
//! functions, with the resolution order captured in the
//! [`ResolveState`] machine.

use vstd::prelude::*;
use vstd::string::*;

use crate::text::{ascii_upper, octal_digits, str_eq, to_ascii_upper, trim_spaces, trimmed};

verus! {

/// The classification of a filesystem object, as resolution reports it
/// when a candidate is rejected for its type.
#[derive(Clone, Copy, Debug, PartialEq, Eq, Structural)]
pub enum FileType {
    File,
    Symlink,
    Directory,
    BlockDevice,
    CharDevice,
    Fifo,
    Socket,
    Other,
}

/// The classification of a stat result's type flags, tested in a fixed
/// order: directory, regular file, symlink, then the POSIX special types.
pub open spec fn classified_file_type(
    is_dir: bool,
    is_file: bool,
    is_symlink: bool,
    is_block: bool,
    is_char_dev: bool,
    is_fifo: bool,
    is_socket: bool,
) -> FileType {
    if is_dir {
        FileType::Directory
    } else if is_file {
        FileType::File
    } else if is_symlink {
        FileType::Symlink
    } else if is_block {
        FileType::BlockDevice
    } else if is_char_dev {
        FileType::CharDevice
    } else if is_fifo {
        FileType::Fifo
    } else if is_socket {
        FileType::Socket
    } else {
        FileType::Other
    }
}

impl FileType {
    /// Classifies the type flags of one stat result.
    pub fn from_flags(
        is_dir: bool,
        is_file: bool,
        is_symlink: bool,
        is_block: bool,
        is_char_dev: bool,
        is_fifo: bool,
        is_socket: bool,
    ) -> (r: FileType)
        ensures
            r == classified_file_type(
                is_dir,
                is_file,
                is_symlink,
                is_block,
                is_char_dev,
                is_fifo,
                is_socket,
            ),
    {
        if is_dir {
            FileType::Directory
        } else if is_file {
            FileType::File
        } else if is_symlink {
            FileType::Symlink
        } else if is_block {
            FileType::BlockDevice
        } else if is_char_dev {
            FileType::CharDevice
        } else if is_fifo {
            FileType::Fifo
        } else if is_socket {
            FileType::Socket
        } else {
            FileType::Other
        }
    }
}

/// A failure of binary resolution. The first six variants carry the path
/// that was being examined and the text of the underlying system error;
/// the last two describe a candidate that was found but rejected, and a
/// missing search-path variable.
#[derive(Clone, Debug, PartialEq)]
pub enum FindBinaryError {
    SearchPathCanonicalize { search_path: String, message: String },
    SearchPathMetadata { search_path: String, message: String },
    OpenReadDir { search_path: String, message: String },
    ReadDirEntry { search_path: String, message: String },
    BinaryPathCanonicalize { binary_path: String, message: String },
    BinaryPathMeta { binary_path: String, message: String },
    InvalidFileType { binary_path: String, actual: FileType, expected: FileType },
    NotExecutable { binary_path: String, mode: String, mask: String },
    PathUnset { message: String },
}

/// The executable-permission mask: at least one of the owner, group or
/// other execute bits must be set.
pub const EXEC_MASK: u32 = 0o111;

/// Validates a candidate whose canonical path, type classification and
/// permission bits have been read: only a regular file with at least one
/// executable bit is accepted, and a rejection names the specific
/// violation — wrong type, or right type but not executable.
pub fn validate_binary(binary_path: String, file_type: FileType, mode: u32) -> (r: Result<
    String,
    FindBinaryError,
>)
    ensures
        file_type is File && mode & EXEC_MASK != 0 ==> (r matches Ok(p) && p@ == binary_path@),
        !(file_type is File) ==> (r matches Err(e) && e matches FindBinaryError::InvalidFileType {
            binary_path: b,
            actual,
            expected,
        } && b@ == binary_path@ && actual == file_type && expected is File),
        file_type is File && mode & EXEC_MASK == 0 ==> (r matches Err(e) && e matches
            FindBinaryError::NotExecutable { binary_path: b, mode: m, mask } && b@ == binary_path@
            && m@ == octal_digits(mode as nat) && mask@ == octal_digits(EXEC_MASK as nat)),
{
    if !matches!(file_type, FileType::File) {
        return Err(
            FindBinaryError::InvalidFileType {
                binary_path,
                actual: file_type,
                expected: FileType::File,
            },
        );
    }
    if mode & EXEC_MASK == 0 {
        return Err(
            FindBinaryError::NotExecutable {
                binary_path,
                mode: crate::text::octal_string(mode),
                mask: crate::text::octal_string(EXEC_MASK),
            },
        );
    }
    Ok(binary_path)
}

/// The override variable for a logical name: the name upper-cased between
/// the fixed prefix and suffix of the convention.
pub open spec fn env_key_chars(name: Seq<char>) -> Seq<char> {
    "LIBFFMPEG_"@ + ascii_upper(name) + "_PATH"@
}

/// Builds the override-variable name for a logical program name.
pub fn env_key_for(name: &str) -> (r: String)
    ensures
        r@ == env_key_chars(name@),
{
    let mut r = String::from_str("LIBFFMPEG_");
    let upper = to_ascii_upper(name);
    r.append(upper.as_str());
    r.append("_PATH");
    r
}

/// Reads an override path out of an environment variable's value: the
/// trimmed value, provided the variable was set and not blank.
pub fn override_from_env(value: Option<String>) -> (r: Option<String>)
    ensures
        ({
            match value {
                None => r is None,
                Some(v) => if trimmed(v@).len() == 0 {
                    r is None
                } else {
                    r matches Some(t) && t@ == trimmed(v@)
                },
            }
        }),
{
    match value {
        None => None,
        Some(v) => {
            let t = trim_spaces(v.as_str());
            if t.unicode_len() == 0 {
                None
            } else {
                Some(t)
            }
        },
    }
}

/// Requires the search-path variable to be set: its absence is a fatal
/// resolution error, never a silent empty search.
pub fn check_search_paths(paths: Option<String>) -> (r: Result<String, FindBinaryError>)
    ensures
        paths matches Some(p) ==> (r matches Ok(q) && q@ == p@),
        paths is None ==> (r matches Err(e) && e matches FindBinaryError::PathUnset { .. }),
{
    match paths {
        Some(p) => Ok(p),
        None => Err(
            FindBinaryError::PathUnset {
                message: String::from_str("environment variable not found"),
            },
        ),
    }
}

/// Looks a name up among a directory's entries: the first entry whose name
/// matches exactly, case-sensitively.
pub fn find_name_in_entries(entries: &Vec<String>, name: &str) -> (r: Option<usize>)
    ensures
        r matches Some(i) ==> i < entries.len() && entries@[i as int]@ == name@ && (forall|k: int|
            0 <= k < i ==> entries@[k]@ != name@),
        r is None ==> forall|k: int| 0 <= k < entries.len() ==> entries@[k]@ != name@,
{
    let mut i: usize = 0;
    while i < entries.len()
        invariant
            i <= entries.len(),
            forall|k: int| 0 <= k < i ==> entries@[k]@ != name@,
        decreases entries.len() - i,
    {
        if str_eq(entries[i].as_str(), name) {
            return Some(i);
        }
        i += 1;
    }
    None
}

/// What one whole resolution produced: a validated path, a definite "not
/// found", or a failure that ends the resolution.
#[derive(Clone, Debug, PartialEq)]
pub enum ResolveOutcome {
    Found { path: String },
    NotFound,
    Failed { error: FindBinaryError },
}

/// Where a resolution stands. An override, when one is present, is always
/// examined first; the search-path directories are consulted only
/// afterwards, and a terminal outcome absorbs everything that later
/// finishes in the background.
#[derive(Clone, Debug, PartialEq)]
pub enum ResolveState {
    /// An override path is being validated. `from_env` records whether it
    /// came from the environment variable rather than from the caller, and
    /// `dirs` how many search-path directories stand ready behind it.
    ValidatingOverride { from_env: bool, dirs: usize },
    /// The search-path directories are being scanned concurrently;
    /// `pending` of them have not reported yet.
    Scanning { pending: usize },
    /// The resolution is decided.
    Done { outcome: ResolveOutcome },
}

/// What the resolution has observed: the override's validation finished,
/// or one directory scan finished — with a validated match, or without one
/// (a directory whose scan erred reports no match; such errors are logged
/// by the caller, never escalated).
#[derive(Debug, PartialEq)]
pub enum ResolveEvent {
    OverrideChecked { result: Result<String, FindBinaryError> },
    DirFinished { found: Option<String> },
}

/// The state a resolution starts in: validating the override if one is
/// present, otherwise scanning — or already "not found" when there is
/// nothing to scan.
pub open spec fn initial_resolve_state(
    override_present: bool,
    from_env: bool,
    dirs: usize,
) -> ResolveState {
    if override_present {
        ResolveState::ValidatingOverride { from_env, dirs }
    } else if dirs == 0 {
        ResolveState::Done { outcome: ResolveOutcome::NotFound }
    } else {
        ResolveState::Scanning { pending: dirs }
    }
}

/// The transition of the resolution machine.
///
/// A valid override resolves immediately. An invalid override taken from
/// the environment fails the resolution outright — by design it does not
/// fall back to scanning; an invalid caller-supplied override falls
/// through to the scan. The first directory to report a validated match
/// wins; when every directory has reported without one, the outcome is
/// "not found", never an error. Terminal states absorb every later event,
/// as do events that do not belong to the current state.
pub open spec fn resolve_transition(s: ResolveState, e: ResolveEvent) -> ResolveState {
    match (s, e) {
        (
            ResolveState::ValidatingOverride { from_env, dirs },
            ResolveEvent::OverrideChecked { result },
        ) => match result {
            Ok(path) => ResolveState::Done { outcome: ResolveOutcome::Found { path } },
            Err(error) => {
                if from_env {
                    ResolveState::Done { outcome: ResolveOutcome::Failed { error } }
                } else if dirs == 0 {
                    ResolveState::Done { outcome: ResolveOutcome::NotFound }
                } else {
                    ResolveState::Scanning { pending: dirs }
                }
            },
        },
        (ResolveState::Scanning { pending }, ResolveEvent::DirFinished { found }) => match found {
            Some(path) => ResolveState::Done { outcome: ResolveOutcome::Found { path } },
            None => {
                if pending <= 1 {
                    ResolveState::Done { outcome: ResolveOutcome::NotFound }
                } else {
                    ResolveState::Scanning { pending: (pending - 1) as usize }
                }
            },
        },
        (ResolveState::ValidatingOverride { from_env, dirs }, ResolveEvent::DirFinished { .. }) => {
            ResolveState::ValidatingOverride { from_env, dirs }
        },
        (ResolveState::Scanning { pending }, ResolveEvent::OverrideChecked { .. }) => {
            ResolveState::Scanning { pending }
        },
        (ResolveState::Done { outcome }, _) => ResolveState::Done { outcome },
    }
}

/// Starts one resolution.
pub fn resolve_start(override_present: bool, from_env: bool, dirs: usize) -> (r: ResolveState)
    ensures
        r == initial_resolve_state(override_present, from_env, dirs),
{
    if override_present {
        ResolveState::ValidatingOverride { from_env, dirs }
    } else if dirs == 0 {
        ResolveState::Done { outcome: ResolveOutcome::NotFound }
    } else {
        ResolveState::Scanning { pending: dirs }
    }
}

/// Advances one resolution by one observation.
pub fn resolve_step(s: ResolveState, e: ResolveEvent) -> (r: ResolveState)
    ensures
        r == resolve_transition(s, e),
{
    match (s, e) {
        (
            ResolveState::ValidatingOverride { from_env, dirs },
            ResolveEvent::OverrideChecked { result },
        ) => match result {
            Ok(path) => ResolveState::Done { outcome: ResolveOutcome::Found { path } },
            Err(error) => {
                if from_env {
                    ResolveState::Done { outcome: ResolveOutcome::Failed { error } }
                } else if dirs == 0 {
                    ResolveState::Done { outcome: ResolveOutcome::NotFound }
                } else {
                    ResolveState::Scanning { pending: dirs }
                }
            },
        },
        (ResolveState::Scanning { pending }, ResolveEvent::DirFinished { found }) => match found {
            Some(path) => ResolveState::Done { outcome: ResolveOutcome::Found { path } },
            None => {
                if pending <= 1 {
                    ResolveState::Done { outcome: ResolveOutcome::NotFound }
                } else {
                    ResolveState::Scanning { pending: pending - 1 }
                }
            },
        },
        (
            ResolveState::ValidatingOverride { from_env, dirs },
            ResolveEvent::DirFinished { .. },
        ) => ResolveState::ValidatingOverride { from_env, dirs },
        (ResolveState::Scanning { pending }, ResolveEvent::OverrideChecked { .. }) => {
            ResolveState::Scanning { pending }
        },
        (ResolveState::Done { outcome }, _) => ResolveState::Done { outcome },
    }
}

/// The state after a sequence of observations, folded in order.
pub open spec fn resolve_run(s: ResolveState, events: Seq<ResolveEvent>) -> ResolveState
    decreases events.len(),
{
    if events.len() == 0 {
        s
    } else {
        resolve_transition(resolve_run(s, events.drop_last()), events.last())
    }
}

/// Folding one observation, then the rest, is one run.
pub proof fn lemma_resolve_run_cons(s: ResolveState, e: ResolveEvent, rest: Seq<ResolveEvent>)
    ensures
        resolve_run(s, seq![e] + rest) == resolve_run(resolve_transition(s, e), rest),
    decreases rest.len(),
{
    if rest.len() == 0 {
        assert((seq![e] + rest) =~= seq![e]);
        assert(seq![e].drop_last() =~= Seq::<ResolveEvent>::empty());
        assert(resolve_run(s, Seq::<ResolveEvent>::empty()) == s);
        assert(seq![e].last() == e);
        assert(resolve_run(s, seq![e]) == resolve_transition(s, e));
    } else {
        lemma_resolve_run_cons(s, e, rest.drop_last());
        assert((seq![e] + rest).drop_last() =~= seq![e] + rest.drop_last());
        assert((seq![e] + rest).last() == rest.last());
    }
}

/// A decided resolution stays decided, whatever straggling scans report.
pub proof fn lemma_done_absorbs(outcome: ResolveOutcome, events: Seq<ResolveEvent>)
    ensures
        resolve_run(ResolveState::Done { outcome }, events) == (ResolveState::Done { outcome }),
    decreases events.len(),
{
    if events.len() > 0 {
        lemma_done_absorbs(outcome, events.drop_last());
    }
}

/// A valid override wins outright: once it validates, resolution returns
/// that path, and nothing any search-path directory reports afterwards —
/// match or no match — can change the outcome. The search path is never
/// consulted for the answer.
pub proof fn lemma_override_short_circuits(
    from_env: bool,
    dirs: usize,
    path: String,
    later: Seq<ResolveEvent>,
)
    ensures
        resolve_run(
            ResolveState::ValidatingOverride { from_env, dirs },
            seq![ResolveEvent::OverrideChecked { result: Ok(path) }] + later,
        ) == (ResolveState::Done { outcome: ResolveOutcome::Found { path } }),
{
    let s = ResolveState::ValidatingOverride { from_env, dirs };
    let e = ResolveEvent::OverrideChecked { result: Ok(path) };
    lemma_resolve_run_cons(s, e, later);
    lemma_done_absorbs(ResolveOutcome::Found { path }, later);
}

/// An override taken from the environment that fails validation fails the
/// whole resolution with that error: by design there is no fallback to
/// search-path scanning in the same call cycle.
pub proof fn lemma_env_override_failure_is_final(
    dirs: usize,
    error: FindBinaryError,
    later: Seq<ResolveEvent>,
)
    ensures
        resolve_run(
            ResolveState::ValidatingOverride { from_env: true, dirs },
            seq![ResolveEvent::OverrideChecked { result: Err(error) }] + later,
        ) == (ResolveState::Done { outcome: ResolveOutcome::Failed { error } }),
{
    let s = ResolveState::ValidatingOverride { from_env: true, dirs };
    let e = ResolveEvent::OverrideChecked { result: Err(error) };
    lemma_resolve_run_cons(s, e, later);
    lemma_done_absorbs(ResolveOutcome::Failed { error }, later);
}

/// Whether one observation carried this path into the resolution: a
/// validated override, or a validated directory match.
pub open spec fn event_carries(e: ResolveEvent, path: String) -> bool {
    match e {
        ResolveEvent::OverrideChecked { result: Ok(p) } => p == path,
        ResolveEvent::DirFinished { found: Some(p) } => p == path,
        _ => false,
    }
}

/// Resolution never fabricates a path: a run that resolves to a found
/// path was handed that path by one of its observations — a validated
/// override or a validated directory match.
pub proof fn lemma_no_fabricated_path(s: ResolveState, events: Seq<ResolveEvent>, path: String)
    requires
        resolve_run(s, events) == (ResolveState::Done {
            outcome: ResolveOutcome::Found { path },
        }),
        s != (ResolveState::Done { outcome: ResolveOutcome::Found { path } }),
    ensures
        exists|i: int| 0 <= i < events.len() && event_carries(#[trigger] events[i], path),
    decreases events.len(),
{
    let found = ResolveState::Done { outcome: ResolveOutcome::Found { path } };
    let before = resolve_run(s, events.drop_last());
    if before == found {
        lemma_no_fabricated_path(s, events.drop_last(), path);
        let i = choose|i: int|
            0 <= i < events.drop_last().len() && event_carries(
                #[trigger] events.drop_last()[i],
                path,
            );
        assert(event_carries(events[i], path));
    } else {
        assert(event_carries(events[events.len() - 1], path));
    }
}

/// True when every event is a directory scan that found nothing.
pub open spec fn all_misses(events: Seq<ResolveEvent>) -> bool {
    forall|i: int|
        0 <= i < events.len() ==> (#[trigger] events[i]) matches ResolveEvent::DirFinished {
            found: None,
        }
}

/// A binary absent from every scanned directory resolves to "not found",
/// never to an error, however many directories there were.
pub proof fn lemma_all_scans_miss(pending: usize, events: Seq<ResolveEvent>)
    requires
        pending >= 1,
        events.len() == pending,
        all_misses(events),
    ensures
        resolve_run(ResolveState::Scanning { pending }, events) == (ResolveState::Done {
            outcome: ResolveOutcome::NotFound,
        }),
    decreases pending,
{
    let first = events[0];
    let rest = events.drop_first();
    assert(events =~= seq![first] + rest);
    lemma_resolve_run_cons(ResolveState::Scanning { pending }, first, rest);
    if pending == 1 {
        lemma_done_absorbs(ResolveOutcome::NotFound, rest);
    } else {
        assert(all_misses(rest)) by {
            assert(forall|i: int| 0 <= i < rest.len() ==> rest[i] == events[i + 1]);
        }
        lemma_all_scans_miss((pending - 1) as usize, rest);
    }
}

/// A binary absent from every directory, with no override or with an
/// invalid caller-supplied one, resolves to "not found", never an error.
pub proof fn lemma_absent_binary_not_found(
    dirs: usize,
    error: FindBinaryError,
    misses: Seq<ResolveEvent>,
)
    requires
        misses.len() == dirs,
        all_misses(misses),
    ensures
        resolve_run(initial_resolve_state(false, false, dirs), misses) == (ResolveState::Done {
            outcome: ResolveOutcome::NotFound,
        }),
        resolve_run(
            initial_resolve_state(true, false, dirs),
            seq![ResolveEvent::OverrideChecked { result: Err(error) }] + misses,
        ) == (ResolveState::Done { outcome: ResolveOutcome::NotFound }),
{
    let s = initial_resolve_state(true, false, dirs);
    let e = ResolveEvent::OverrideChecked { result: Err(error) };
    lemma_resolve_run_cons(s, e, misses);
    if dirs == 0 {
        lemma_done_absorbs(ResolveOutcome::NotFound, misses);
        assert(resolve_run(initial_resolve_state(false, false, 0), misses) == (ResolveState::Done {
            outcome: ResolveOutcome::NotFound,
        }));
    } else {
        lemma_all_scans_miss(dirs, misses);
    }
}

} // verus!
