//! The normalized terminal record of one supervised process.
//!
//! The operating system reports completion of a child process through an
//! opaque exit-status value; what the rest of the library reads of it is a
//! handful of plain fields (success flag, numeric code, terminating signal,
//! and the POSIX extras). The caller that waited on the child extracts those
//! fields and builds a `CommandExitCode` here, so every later decision over
//! an exit is a decision over plain, fully specified values.

use vstd::prelude::*;

verus! {

/// The normalized exit descriptor of a finished process.
///
/// `success` is the platform's notion of a successful termination (on POSIX,
/// exit code zero; termination by signal is never a success). `code` is the
/// numeric exit code when the process exited normally. The remaining fields
/// are present only where the platform reports them: `signal` and
/// `stopped_signal` name POSIX signals, `core_dumped` and `continued` the
/// matching POSIX flags.
#[derive(Clone, Copy, Debug, PartialEq, Eq, Structural)]
pub struct CommandExitCode {
    pub success: bool,
    pub code: Option<i32>,
    pub signal: Option<i32>,
    pub core_dumped: Option<bool>,
    pub stopped_signal: Option<i32>,
    pub continued: Option<bool>,
}

impl CommandExitCode {
    /// Assembles an exit descriptor from the fields the platform reported.
    pub fn new(
        success: bool,
        code: Option<i32>,
        signal: Option<i32>,
        core_dumped: Option<bool>,
        stopped_signal: Option<i32>,
        continued: Option<bool>,
    ) -> (r: CommandExitCode)
        ensures
            r.success == success,
            r.code == code,
            r.signal == signal,
            r.core_dumped == core_dumped,
            r.stopped_signal == stopped_signal,
            r.continued == continued,
    {
        CommandExitCode { success, code, signal, core_dumped, stopped_signal, continued }
    }
}

} // verus!
