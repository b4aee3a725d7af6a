//! The per-process supervision loop, as a verified state machine.
//!
//! One supervised invocation is driven by a loop that races four events:
//! the process exited, cancellation was observed, a stdout line arrived, a
//! stderr line arrived. The racing itself is asynchronous plumbing; every
//! decision the loop makes — what to accumulate, what to forward to the
//! monitor channel, when to kill the child, and what terminal outcome to
//! report — is made here, by [`CommandContext::step`], whose contract pins
//! the transition exactly. The caller owning the child feeds in one
//! [`CommandEvent`] per iteration and performs the returned [`CommandStep`].

use vstd::prelude::*;

use crate::exit::CommandExitCode;

verus! {

/// A failure of the supervision loop itself.
///
/// A successful-but-non-zero exit is *not* an error of this component; it is
/// returned as ordinary data inside [`CommandExit`]. `BadExit` means the
/// operating system failed to report any completion status at all.
#[derive(Clone, Debug, PartialEq)]
pub enum CommandError {
    /// Cancellation was requested and the child was killed.
    Cancelled,
    /// The process could not be spawned at all.
    BadSpawn { message: String },
    /// The wait handle completed without yielding an exit status.
    BadExit { message: String },
    /// A required permit could not be acquired before spawning.
    Acquire { message: String },
}

/// The terminal record of one supervised process: the accumulated output
/// lines of each stream in arrival order, and the normalized exit
/// descriptor, if the operating system reported one.
#[derive(Clone, Debug)]
pub struct CommandExit {
    pub stdout_lines: Vec<String>,
    pub stderr_lines: Vec<String>,
    pub exit_code: Option<CommandExitCode>,
}

/// The abstract value of a [`CommandExit`]: each stream as a sequence of
/// character sequences, in arrival order.
pub struct CommandExitView {
    pub stdout_lines: Seq<Seq<char>>,
    pub stderr_lines: Seq<Seq<char>>,
    pub exit_code: Option<CommandExitCode>,
}

impl View for CommandExit {
    type V = CommandExitView;

    open spec fn view(&self) -> CommandExitView {
        CommandExitView {
            stdout_lines: self.stdout_lines.deep_view(),
            stderr_lines: self.stderr_lines.deep_view(),
            exit_code: self.exit_code,
        }
    }
}

impl CommandExit {
    /// An empty record: no lines seen, no exit status yet.
    pub fn empty() -> (r: CommandExit)
        ensures
            r@.stdout_lines == Seq::<Seq<char>>::empty(),
            r@.stderr_lines == Seq::<Seq<char>>::empty(),
            r@.exit_code is None,
    {
        let r = CommandExit { stdout_lines: Vec::new(), stderr_lines: Vec::new(), exit_code: None };
        proof {
            assert(r@.stdout_lines =~= Seq::<Seq<char>>::empty());
            assert(r@.stderr_lines =~= Seq::<Seq<char>>::empty());
        }
        r
    }

    /// A copy of the record whose abstract value is exactly this one's.
    pub fn snapshot(&self) -> (r: CommandExit)
        ensures
            r@ == self@,
    {
        let stdout_lines = self.stdout_lines.clone();
        let stderr_lines = self.stderr_lines.clone();
        proof {
            assert(stdout_lines.deep_view() =~~= self.stdout_lines.deep_view());
            assert(stderr_lines.deep_view() =~~= self.stderr_lines.deep_view());
        }
        CommandExit { stdout_lines, stderr_lines, exit_code: self.exit_code }
    }
}

/// A tagged line event, forwarded over the monitor channel: one physical
/// output line, labelled with the stream it arrived on.
#[derive(Clone, Debug, PartialEq)]
pub enum CommandMonitorMessage {
    Stdout { line: String },
    Stderr { line: String },
}

/// One of the four competing events a supervision-loop iteration can
/// observe, plus the distinguished failure of the wait handle itself.
#[derive(Debug)]
pub enum CommandEvent {
    /// The process exited and the OS reported a status.
    Exited { code: CommandExitCode },
    /// The wait handle completed without a status.
    WaitFailed { message: String },
    /// Cancellation was observed on the process's token.
    Cancelled,
    /// A stdout line became available.
    StdoutLine { line: String },
    /// A stderr line became available.
    StderrLine { line: String },
}

/// What the loop must do after one step: keep looping (forwarding a line to
/// the monitor channel if one is attached), or finish with a terminal
/// outcome, killing the child first when cancellation won the race.
#[derive(Debug)]
pub enum CommandStep {
    Proceed { forward: Option<CommandMonitorMessage> },
    Finish { outcome: Result<CommandExit, CommandError>, kill: bool },
}

/// The state carried across iterations of one supervision loop: whether a
/// monitor channel is attached, and the record accumulated so far.
pub struct CommandContext {
    pub has_monitor: bool,
    pub result: CommandExit,
}

/// The abstract state of a supervision loop.
pub struct CommandContextView {
    pub has_monitor: bool,
    pub result: CommandExitView,
}

impl View for CommandContext {
    type V = CommandContextView;

    open spec fn view(&self) -> CommandContextView {
        CommandContextView { has_monitor: self.has_monitor, result: self.result@ }
    }
}

/// The state after one event: a line event appends to its stream and
/// nothing else; an exit records the descriptor; cancellation and a wait
/// failure leave the accumulated record as it stands.
pub open spec fn step_state_after(pre: CommandContextView, event: CommandEvent) -> CommandContextView {
    match event {
        CommandEvent::Exited { code } => CommandContextView {
            has_monitor: pre.has_monitor,
            result: CommandExitView {
                stdout_lines: pre.result.stdout_lines,
                stderr_lines: pre.result.stderr_lines,
                exit_code: Some(code),
            },
        },
        CommandEvent::WaitFailed { message: _ } => pre,
        CommandEvent::Cancelled => pre,
        CommandEvent::StdoutLine { line } => CommandContextView {
            has_monitor: pre.has_monitor,
            result: CommandExitView {
                stdout_lines: pre.result.stdout_lines.push(line@),
                stderr_lines: pre.result.stderr_lines,
                exit_code: pre.result.exit_code,
            },
        },
        CommandEvent::StderrLine { line } => CommandContextView {
            has_monitor: pre.has_monitor,
            result: CommandExitView {
                stdout_lines: pre.result.stdout_lines,
                stderr_lines: pre.result.stderr_lines.push(line@),
                exit_code: pre.result.exit_code,
            },
        },
    }
}

/// What one step returns, pinned for every state and event. An exit, a wait
/// failure and cancellation are terminal; only cancellation kills the
/// child, and it does so whatever the state — cancellation always wins. A
/// line event continues the loop and is forwarded exactly when a monitor
/// channel is attached.
pub open spec fn step_result_matches(
    pre: CommandContextView,
    event: CommandEvent,
    r: CommandStep,
) -> bool {
    match event {
        CommandEvent::Exited { code: _ } => {
            &&& r matches CommandStep::Finish { outcome, kill }
            &&& !kill
            &&& outcome matches Ok(exit)
            &&& exit@ == step_state_after(pre, event).result
        },
        CommandEvent::WaitFailed { message } => {
            &&& r matches CommandStep::Finish { outcome, kill }
            &&& !kill
            &&& outcome matches Err(e)
            &&& e matches CommandError::BadExit { message: m }
            &&& m@ == message@
        },
        CommandEvent::Cancelled => {
            &&& r matches CommandStep::Finish { outcome, kill }
            &&& kill
            &&& outcome matches Err(e)
            &&& e is Cancelled
        },
        CommandEvent::StdoutLine { line } => {
            &&& r matches CommandStep::Proceed { forward }
            &&& pre.has_monitor ==> (forward matches Some(m) && m matches
                CommandMonitorMessage::Stdout { line: l } && l@ == line@)
            &&& !pre.has_monitor ==> forward is None
        },
        CommandEvent::StderrLine { line } => {
            &&& r matches CommandStep::Proceed { forward }
            &&& pre.has_monitor ==> (forward matches Some(m) && m matches
                CommandMonitorMessage::Stderr { line: l } && l@ == line@)
            &&& !pre.has_monitor ==> forward is None
        },
    }
}

/// The state of a freshly started supervision loop: nothing accumulated.
pub open spec fn initial_context(has_monitor: bool) -> CommandContextView {
    CommandContextView {
        has_monitor,
        result: CommandExitView {
            stdout_lines: Seq::<Seq<char>>::empty(),
            stderr_lines: Seq::<Seq<char>>::empty(),
            exit_code: None,
        },
    }
}

impl CommandContext {
    /// A fresh loop state: nothing accumulated, a monitor channel attached
    /// or not as the caller chose.
    pub fn new(has_monitor: bool) -> (r: CommandContext)
        ensures
            r@ == initial_context(has_monitor),
    {
        CommandContext { has_monitor, result: CommandExit::empty() }
    }

    /// The process exited, or its wait handle failed. Either way the loop is
    /// over: a reported status is recorded and the accumulated record is
    /// returned as ordinary data — exit failure is reported, never treated
    /// as a supervisor error — while a missing status is the distinguished
    /// `BadExit` failure.
    pub fn on_exited(&mut self, exit_result: Result<CommandExitCode, String>) -> (r: CommandStep)
        ensures
            exit_result matches Ok(code) ==> {
                &&& final(self)@ == step_state_after(old(self)@, CommandEvent::Exited { code })
                &&& step_result_matches(old(self)@, CommandEvent::Exited { code }, r)
            },
            exit_result matches Err(message) ==> {
                &&& final(self)@ == old(self)@
                &&& step_result_matches(old(self)@, CommandEvent::WaitFailed { message }, r)
            },
    {
        match exit_result {
            Ok(code) => {
                self.result.exit_code = Some(code);
                CommandStep::Finish { outcome: Ok(self.result.snapshot()), kill: false }
            },
            Err(message) => {
                CommandStep::Finish { outcome: Err(CommandError::BadExit { message }), kill: false }
            },
        }
    }

    /// Cancellation was observed: the child is to be killed and the loop
    /// reports `Cancelled`, whatever was accumulated and whatever else was
    /// ready — a caller that asked the process to stop never receives a
    /// success result.
    pub fn on_cancelled(&mut self) -> (r: CommandStep)
        ensures
            final(self)@ == old(self)@,
            step_result_matches(old(self)@, CommandEvent::Cancelled, r),
    {
        CommandStep::Finish { outcome: Err(CommandError::Cancelled), kill: true }
    }

    /// A stdout line arrived: append it to the record, in arrival order, and
    /// forward it exactly when a monitor channel is attached.
    pub fn on_stdout_line(&mut self, line: String) -> (r: CommandStep)
        ensures
            final(self)@ == step_state_after(old(self)@, CommandEvent::StdoutLine { line }),
            step_result_matches(old(self)@, CommandEvent::StdoutLine { line }, r),
    {
        self.result.stdout_lines.push(line.clone());
        proof {
            assert(self.result.stdout_lines.deep_view() =~~= old(self).result.stdout_lines.deep_view().push(line@));
        }
        if self.has_monitor {
            CommandStep::Proceed { forward: Some(CommandMonitorMessage::Stdout { line }) }
        } else {
            CommandStep::Proceed { forward: None }
        }
    }

    /// A stderr line arrived: symmetric to [`Self::on_stdout_line`].
    pub fn on_stderr_line(&mut self, line: String) -> (r: CommandStep)
        ensures
            final(self)@ == step_state_after(old(self)@, CommandEvent::StderrLine { line }),
            step_result_matches(old(self)@, CommandEvent::StderrLine { line }, r),
    {
        self.result.stderr_lines.push(line.clone());
        proof {
            assert(self.result.stderr_lines.deep_view() =~~= old(self).result.stderr_lines.deep_view().push(line@));
        }
        if self.has_monitor {
            CommandStep::Proceed { forward: Some(CommandMonitorMessage::Stderr { line }) }
        } else {
            CommandStep::Proceed { forward: None }
        }
    }

    /// One iteration of the supervision loop: dispatch on whichever event
    /// won the race. The new state and the returned instruction are pinned
    /// by [`step_state_after`] and [`step_result_matches`].
    pub fn step(&mut self, event: CommandEvent) -> (r: CommandStep)
        ensures
            final(self)@ == step_state_after(old(self)@, event),
            step_result_matches(old(self)@, event, r),
    {
        match event {
            CommandEvent::Exited { code } => self.on_exited(Ok(code)),
            CommandEvent::WaitFailed { message } => self.on_exited(Err(message)),
            CommandEvent::Cancelled => self.on_cancelled(),
            CommandEvent::StdoutLine { line } => self.on_stdout_line(line),
            CommandEvent::StderrLine { line } => self.on_stderr_line(line),
        }
    }
}

/// True when every event in the sequence is a line event on one of the two
/// streams — the shape of a run in which the process is still alive and
/// nobody has cancelled.
pub open spec fn all_line_events(events: Seq<CommandEvent>) -> bool {
    forall|i: int|
        0 <= i < events.len() ==> (events[i] is StdoutLine || events[i] is StderrLine)
}

/// The loop state after a sequence of events, each folded in by one step.
pub open spec fn state_after_events(
    pre: CommandContextView,
    events: Seq<CommandEvent>,
) -> CommandContextView
    decreases events.len(),
{
    if events.len() == 0 {
        pre
    } else {
        step_state_after(state_after_events(pre, events.drop_last()), events.last())
    }
}

/// The stdout lines carried by a sequence of events, in arrival order.
pub open spec fn stdout_lines_of(events: Seq<CommandEvent>) -> Seq<Seq<char>>
    decreases events.len(),
{
    if events.len() == 0 {
        Seq::<Seq<char>>::empty()
    } else {
        let rest = stdout_lines_of(events.drop_last());
        match events.last() {
            CommandEvent::StdoutLine { line } => rest.push(line@),
            _ => rest,
        }
    }
}

/// The stderr lines carried by a sequence of events, in arrival order.
pub open spec fn stderr_lines_of(events: Seq<CommandEvent>) -> Seq<Seq<char>>
    decreases events.len(),
{
    if events.len() == 0 {
        Seq::<Seq<char>>::empty()
    } else {
        let rest = stderr_lines_of(events.drop_last());
        match events.last() {
            CommandEvent::StderrLine { line } => rest.push(line@),
            _ => rest,
        }
    }
}

/// Line events accumulate and do nothing else: after any sequence of line
/// events, each stream of the record has grown by exactly the lines that
/// arrived on it, in arrival order, and the exit descriptor and monitor
/// attachment are untouched.
pub proof fn lemma_line_events_accumulate(pre: CommandContextView, events: Seq<CommandEvent>)
    requires
        all_line_events(events),
    ensures
        state_after_events(pre, events).has_monitor == pre.has_monitor,
        state_after_events(pre, events).result.stdout_lines == pre.result.stdout_lines
            + stdout_lines_of(events),
        state_after_events(pre, events).result.stderr_lines == pre.result.stderr_lines
            + stderr_lines_of(events),
        state_after_events(pre, events).result.exit_code == pre.result.exit_code,
    decreases events.len(),
{
    if events.len() == 0 {
        assert(pre.result.stdout_lines + stdout_lines_of(events) =~= pre.result.stdout_lines);
        assert(pre.result.stderr_lines + stderr_lines_of(events) =~= pre.result.stderr_lines);
    } else {
        let head = events.drop_last();
        assert(all_line_events(head)) by {
            assert(forall|i: int| 0 <= i < head.len() ==> head[i] == events[i]);
        }
        lemma_line_events_accumulate(pre, head);
        assert(pre.result.stdout_lines + stdout_lines_of(events) =~= state_after_events(
            pre,
            events,
        ).result.stdout_lines);
        assert(pre.result.stderr_lines + stderr_lines_of(events) =~= state_after_events(
            pre,
            events,
        ).result.stderr_lines);
    }
}

/// The terminal record is exact: a process supervised from a fresh state
/// that produces these line events and then exits with status `code` ends
/// in a step whose outcome holds exactly the stdout lines and exactly the
/// stderr lines of the run, each stream in arrival order, with the
/// descriptor `code` — and the child is not killed.
pub proof fn lemma_supervisor_exit_record(
    has_monitor: bool,
    events: Seq<CommandEvent>,
    code: CommandExitCode,
    r: CommandStep,
)
    requires
        all_line_events(events),
        step_result_matches(
            state_after_events(initial_context(has_monitor), events),
            CommandEvent::Exited { code },
            r,
        ),
    ensures
        r matches CommandStep::Finish { outcome, kill } && (!kill && (outcome matches Ok(exit) && {
            &&& exit@.stdout_lines == stdout_lines_of(events)
            &&& exit@.stderr_lines == stderr_lines_of(events)
            &&& exit@.exit_code == Some(code)
        })),
{
    lemma_line_events_accumulate(initial_context(has_monitor), events);
    assert(Seq::<Seq<char>>::empty() + stdout_lines_of(events) =~= stdout_lines_of(events));
    assert(Seq::<Seq<char>>::empty() + stderr_lines_of(events) =~= stderr_lines_of(events));
}

/// Cancellation always wins: whatever the loop state — even if an exit
/// status was concurrently available — the step for a cancellation event
/// kills the child and reports `Cancelled`, never a success result.
pub proof fn lemma_cancellation_wins(pre: CommandContextView, r: CommandStep)
    requires
        step_result_matches(pre, CommandEvent::Cancelled, r),
    ensures
        r matches CommandStep::Finish { outcome, kill } && (kill && (outcome matches Err(e)
            && e is Cancelled)),
{
}

} // verus!
