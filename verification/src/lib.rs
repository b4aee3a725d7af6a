//! Supervision of externally spawned processes: binary resolution on the
//! filesystem, a line-oriented supervision loop with cooperative
//! cancellation, a bounded monitor channel, and a graceful-then-forced
//! shutdown protocol, together with the line policies (progress and
//! duration extraction) that consume observed output.
//!
//! Every decision this library makes is a pure function over plain values,
//! stated in contracts and verified; the asynchronous plumbing that feeds
//! those decisions (process I/O, channels, timers) lives outside.

pub mod cmd;
pub mod duration;
pub mod exit;
pub mod ffmpeg;
pub mod find;
pub mod num;
pub mod progress;
pub mod text;
