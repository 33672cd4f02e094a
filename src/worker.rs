//! The decisions of the session worker: the thread that alone owns the
//! pseudo-terminal, the shell and the screen emulator. The thread performs the
//! I/O; each function here takes what it observed and says what to do next.

use vstd::prelude::*;

verus! {

/// How long the worker waits for a command before it drains output again.
pub const WORKER_TICK_MS: u64 = 15;

/// How long the worker sleeps between two polls of an exiting child.
pub const POLL_TICK_MS: u64 = 20;

/// How long a child gets to exit after each termination signal.
pub const TERMINATION_GRACE_MS: u64 = 400;

/// How long a write that would block waits before it is tried again.
pub const WRITE_RETRY_PAUSE_MS: u64 = 5;

/// The class of an I/O error, as far as the worker tells them apart.
#[derive(Debug, Clone, Copy, PartialEq, Eq, Structural)]
pub enum IoErrorClass {
    /// Nothing can be done without blocking now.
    WouldBlock,
    /// A signal interrupted the call.
    Interrupted,
    /// `EIO`: the other side of the terminal is gone.
    InputOutput,
    /// Anything else.
    Other,
}

/// What one read from the terminal gave.
#[derive(Debug, Clone, Copy, PartialEq, Eq, Structural)]
pub enum ReadOutcome {
    /// Some bytes, this many.
    Data(usize),
    /// End of file: the read gave no bytes.
    Closed,
    /// An error.
    Failed(IoErrorClass),
}

/// What the drain loop does after one read.
#[derive(Debug, Clone, Copy, PartialEq, Eq, Structural)]
pub enum DrainStep {
    /// Feed this many bytes to the emulator, then read again.
    Feed(usize),
    /// Read again at once.
    Retry,
    /// Stop reading; `eof` tells whether the shell's side is gone.
    Finished { eof: bool },
    /// Stop reading: the terminal failed for good.
    Fatal,
}

/// The step that follows a read while draining output.
pub open spec fn drain_step_spec(outcome: ReadOutcome) -> DrainStep {
    match outcome {
        ReadOutcome::Data(n) => if n == 0 {
            DrainStep::Finished { eof: true }
        } else {
            DrainStep::Feed(n)
        },
        ReadOutcome::Closed => DrainStep::Finished { eof: true },
        ReadOutcome::Failed(IoErrorClass::InputOutput) => DrainStep::Finished { eof: true },
        ReadOutcome::Failed(IoErrorClass::WouldBlock) => DrainStep::Finished { eof: false },
        ReadOutcome::Failed(IoErrorClass::Interrupted) => DrainStep::Retry,
        ReadOutcome::Failed(IoErrorClass::Other) => DrainStep::Fatal,
    }
}

/// Decides the step after one read while draining output: bytes are fed,
/// end of file and `EIO` end the drain as the end of the shell's output,
/// "would block" ends it with nothing more to read, an interrupted read is
/// tried again, any other error is fatal.
pub fn drain_step(outcome: ReadOutcome) -> (r: DrainStep)
    ensures
        r == drain_step_spec(outcome),
{
    match outcome {
        ReadOutcome::Data(n) => if n == 0 {
            DrainStep::Finished { eof: true }
        } else {
            DrainStep::Feed(n)
        },
        ReadOutcome::Closed => DrainStep::Finished { eof: true },
        ReadOutcome::Failed(IoErrorClass::InputOutput) => DrainStep::Finished { eof: true },
        ReadOutcome::Failed(IoErrorClass::WouldBlock) => DrainStep::Finished { eof: false },
        ReadOutcome::Failed(IoErrorClass::Interrupted) => DrainStep::Retry,
        ReadOutcome::Failed(IoErrorClass::Other) => DrainStep::Fatal,
    }
}

/// What one write to the terminal gave.
#[derive(Debug, Clone, Copy, PartialEq, Eq, Structural)]
pub enum WriteOutcome {
    /// This many bytes were taken.
    Wrote(usize),
    /// An error.
    Failed(IoErrorClass),
}

/// Why writing input failed.
#[derive(Debug, Clone, Copy, PartialEq, Eq, Structural)]
pub enum WriteFailure {
    /// The terminal took no bytes.
    WriteZero,
    /// The terminal reported an error that is not transient.
    Io(IoErrorClass),
}

/// What the write loop does after one write.
#[derive(Debug, Clone, Copy, PartialEq, Eq, Structural)]
pub enum WriteStep {
    /// Write the rest, from this offset.
    Continue(usize),
    /// Pause briefly, then write the rest again from the same offset.
    PauseAndRetry,
    /// Everything was written.
    Done,
    /// Give up and report the failure to the caller.
    Fail(WriteFailure),
}

/// The step that follows a write of the bytes from `offset` on, out of `total`.
pub open spec fn write_step_spec(offset: nat, total: nat, outcome: WriteOutcome) -> WriteStep {
    match outcome {
        WriteOutcome::Wrote(n) => if n == 0 {
            WriteStep::Fail(WriteFailure::WriteZero)
        } else if offset + n == total {
            WriteStep::Done
        } else {
            WriteStep::Continue((offset + n) as usize)
        },
        WriteOutcome::Failed(c) => if c == IoErrorClass::Interrupted || c == IoErrorClass::WouldBlock {
            WriteStep::PauseAndRetry
        } else {
            WriteStep::Fail(WriteFailure::Io(c))
        },
    }
}

/// Decides the step after writing the bytes from `offset` on: progress moves
/// the offset (or ends the write when all `total` bytes are taken), a write of
/// nothing fails, an interrupted or blocked write pauses and retries, any other
/// error fails.
pub fn write_step(offset: usize, total: usize, outcome: WriteOutcome) -> (r: WriteStep)
    requires
        offset < total,
        outcome matches WriteOutcome::Wrote(n) ==> n <= total - offset,
    ensures
        r == write_step_spec(offset as nat, total as nat, outcome),
        r matches WriteStep::Continue(o) ==> offset < o < total,
{
    match outcome {
        WriteOutcome::Wrote(n) => if n == 0 {
            WriteStep::Fail(WriteFailure::WriteZero)
        } else if n == total - offset {
            WriteStep::Done
        } else {
            WriteStep::Continue(offset + n)
        },
        WriteOutcome::Failed(c) => match c {
            IoErrorClass::Interrupted => WriteStep::PauseAndRetry,
            IoErrorClass::WouldBlock => WriteStep::PauseAndRetry,
            _ => WriteStep::Fail(WriteFailure::Io(c)),
        },
    }
}

/// How far the termination of a child's process group has gone: the
/// strongest measure taken so far.
#[derive(Debug, Clone, Copy, PartialEq, Eq, Structural)]
pub enum TerminationStage {
    /// No signal sent yet.
    Unsignalled,
    /// The group was asked to terminate.
    Terminated,
    /// The group was killed.
    GroupKilled,
    /// The child itself was killed.
    ChildKilled,
}

/// A measure against a child that does not exit.
#[derive(Debug, Clone, Copy, PartialEq, Eq, Structural)]
pub enum Escalation {
    /// Ask the process group to terminate.
    TerminateGroup,
    /// Kill the process group.
    KillGroup,
    /// Kill the child process directly.
    KillChild,
}

/// The strength of a stage: each measure is stronger than the one before.
pub open spec fn stage_strength(s: TerminationStage) -> nat {
    match s {
        TerminationStage::Unsignalled => 0,
        TerminationStage::Terminated => 1,
        TerminationStage::GroupKilled => 2,
        TerminationStage::ChildKilled => 3,
    }
}

/// The stage that a measure leads to.
pub open spec fn escalation_stage(e: Escalation) -> TerminationStage {
    match e {
        Escalation::TerminateGroup => TerminationStage::Terminated,
        Escalation::KillGroup => TerminationStage::GroupKilled,
        Escalation::KillChild => TerminationStage::ChildKilled,
    }
}

/// The next measure, if any, once the wait at `stage` is over.
pub open spec fn termination_step_spec(stage: TerminationStage, exited: bool) -> Option<
    Escalation,
> {
    if exited {
        None
    } else {
        match stage {
            TerminationStage::Unsignalled => Some(Escalation::TerminateGroup),
            TerminationStage::Terminated => Some(Escalation::KillGroup),
            TerminationStage::GroupKilled => Some(Escalation::KillChild),
            TerminationStage::ChildKilled => None,
        }
    }
}

/// Decides the next measure against a child after waiting for it at `stage`:
/// nothing once it has exited; otherwise terminate the group, then kill the
/// group, then kill the child, each followed by a bounded wait; after that,
/// nothing more. Every measure is stronger than the stage it follows.
pub fn termination_step(stage: TerminationStage, exited: bool) -> (r: Option<Escalation>)
    ensures
        r == termination_step_spec(stage, exited),
        r matches Some(e) ==> stage_strength(escalation_stage(e)) == stage_strength(stage) + 1,
{
    if exited {
        None
    } else {
        match stage {
            TerminationStage::Unsignalled => Some(Escalation::TerminateGroup),
            TerminationStage::Terminated => Some(Escalation::KillGroup),
            TerminationStage::GroupKilled => Some(Escalation::KillChild),
            TerminationStage::ChildKilled => None,
        }
    }
}

/// The stage reached by taking a measure.
pub fn stage_after(e: Escalation) -> (r: TerminationStage)
    ensures
        r == escalation_stage(e),
{
    match e {
        Escalation::TerminateGroup => TerminationStage::Terminated,
        Escalation::KillGroup => TerminationStage::GroupKilled,
        Escalation::KillChild => TerminationStage::ChildKilled,
    }
}

/// How sending a signal to a process group ended.
#[derive(Debug, Clone, Copy, PartialEq, Eq, Structural)]
pub enum SignalOutcome {
    /// The signal was sent.
    Delivered,
    /// No process of the group exists any more.
    NoSuchProcess,
    /// Any other error.
    Failed,
}

/// Whether a signal did its work: a group that no longer exists counts as
/// success, since the target is already gone.
pub fn signal_succeeded(outcome: SignalOutcome) -> (r: bool)
    ensures
        r == (outcome == SignalOutcome::Delivered || outcome == SignalOutcome::NoSuchProcess),
{
    match outcome {
        SignalOutcome::Delivered => true,
        SignalOutcome::NoSuchProcess => true,
        SignalOutcome::Failed => false,
    }
}

/// What to do while waiting for a child to exit.
#[derive(Debug, Clone, Copy, PartialEq, Eq, Structural)]
pub enum PollStep {
    /// The child has exited.
    Exited,
    /// The time allowed is over and the child still runs.
    TimedOut,
    /// Sleep this many milliseconds, then poll again.
    Sleep(u64),
}

/// The step of a bounded wait for a child's exit.
pub open spec fn poll_step_spec(exited: bool, elapsed_ms: u64, timeout_ms: u64) -> PollStep {
    if exited {
        PollStep::Exited
    } else if elapsed_ms >= timeout_ms {
        PollStep::TimedOut
    } else if timeout_ms - elapsed_ms < POLL_TICK_MS {
        PollStep::Sleep((timeout_ms - elapsed_ms) as u64)
    } else {
        PollStep::Sleep(POLL_TICK_MS)
    }
}

/// Decides the step of a bounded wait for a child's exit, `elapsed_ms` after
/// it began: done when the child has exited, over when the time allowed is
/// spent, else a sleep of at most one poll tick that does not pass the end.
pub fn poll_step(exited: bool, elapsed_ms: u64, timeout_ms: u64) -> (r: PollStep)
    ensures
        r == poll_step_spec(exited, elapsed_ms, timeout_ms),
        r matches PollStep::Sleep(d) ==> 0 < d <= POLL_TICK_MS && elapsed_ms + d <= timeout_ms,
{
    if exited {
        PollStep::Exited
    } else if elapsed_ms >= timeout_ms {
        PollStep::TimedOut
    } else if timeout_ms - elapsed_ms < POLL_TICK_MS {
        PollStep::Sleep(timeout_ms - elapsed_ms)
    } else {
        PollStep::Sleep(POLL_TICK_MS)
    }
}

/// The kind of a command sent to the worker.
#[derive(Debug, Clone, Copy, PartialEq, Eq, Structural)]
pub enum CommandKind {
    /// Write bytes to the shell.
    SendInput,
    /// Report the screen.
    Snapshot,
    /// Replace the shell by a fresh one.
    Reset,
    /// Stop the worker.
    Shutdown,
}

/// What the worker observed.
#[derive(Debug, Clone, Copy, PartialEq, Eq, Structural)]
pub enum WorkerEvent {
    /// Pending output was drained; `eof` tells whether the shell's side is gone.
    OutputDrained { eof: bool },
    /// Draining output failed for good.
    OutputFailed,
    /// The child was polled; `exited` tells whether it has exited.
    ChildPolled { exited: bool },
    /// Polling the child failed.
    ChildPollFailed,
    /// A command arrived.
    Received(CommandKind),
    /// No command arrived within one tick.
    TickElapsed,
    /// Every sender of commands is gone.
    ChannelClosed,
    /// The replacement shell of a reset is running.
    ReplacementReady,
    /// The replacement shell of a reset could not be started.
    ReplacementFailed,
}

/// What the worker does next.
#[derive(Debug, Clone, Copy, PartialEq, Eq, Structural)]
pub enum WorkerAction {
    /// Go on with the loop.
    Continue,
    /// Write the command's bytes and answer with the outcome.
    WriteInput,
    /// Answer that the shell has already exited; write nothing.
    RefuseInput,
    /// Answer with the screen, after one best-effort drain if `drain_first`.
    TakeSnapshot { drain_first: bool },
    /// Start a replacement shell, keeping the current one until it runs.
    SpawnReplacement,
    /// Terminate the old shell, put the replacement in its place, answer success.
    ReplaceAndTerminateOld,
    /// Answer with the spawn error; the current shell stays as it is.
    ReportResetFailure,
    /// Answer the shutdown, then leave the loop and terminate the shell.
    AcknowledgeShutdown,
    /// Leave the loop and terminate the shell.
    Finish,
    /// Leave the loop, terminate the shell, and end with the error.
    Abort,
}

/// What the worker keeps between steps.
#[derive(Debug, Clone, Copy, PartialEq, Eq, Structural)]
pub struct WorkerState {
    /// The current shell has been seen to exit.
    pub child_exited: bool,
    /// The loop goes on.
    pub running: bool,
}

/// The worker's transition on an event.
pub open spec fn worker_step_spec(s: WorkerState, e: WorkerEvent) -> (WorkerState, WorkerAction) {
    if !s.running {
        (s, WorkerAction::Finish)
    } else {
        match e {
            WorkerEvent::OutputDrained { eof } => (
                WorkerState { child_exited: s.child_exited || eof, ..s },
                WorkerAction::Continue,
            ),
            WorkerEvent::OutputFailed => (WorkerState { running: false, ..s }, WorkerAction::Abort),
            WorkerEvent::ChildPolled { exited } => (
                WorkerState { child_exited: s.child_exited || exited, ..s },
                WorkerAction::Continue,
            ),
            WorkerEvent::ChildPollFailed => (
                WorkerState { running: false, ..s },
                WorkerAction::Abort,
            ),
            WorkerEvent::Received(CommandKind::SendInput) => if s.child_exited {
                (s, WorkerAction::RefuseInput)
            } else {
                (s, WorkerAction::WriteInput)
            },
            WorkerEvent::Received(CommandKind::Snapshot) => (
                s,
                WorkerAction::TakeSnapshot { drain_first: !s.child_exited },
            ),
            WorkerEvent::Received(CommandKind::Reset) => (s, WorkerAction::SpawnReplacement),
            WorkerEvent::Received(CommandKind::Shutdown) => (
                WorkerState { running: false, ..s },
                WorkerAction::AcknowledgeShutdown,
            ),
            WorkerEvent::TickElapsed => (s, WorkerAction::Continue),
            WorkerEvent::ChannelClosed => (WorkerState { running: false, ..s }, WorkerAction::Finish),
            WorkerEvent::ReplacementReady => (
                WorkerState { child_exited: false, ..s },
                WorkerAction::ReplaceAndTerminateOld,
            ),
            WorkerEvent::ReplacementFailed => (s, WorkerAction::ReportResetFailure),
        }
    }
}

impl WorkerState {
    /// The state right after the shell started.
    pub fn started() -> (r: Self)
        ensures
            r == (WorkerState { child_exited: false, running: true }),
    {
        WorkerState { child_exited: false, running: true }
    }

    /// Whether this iteration drains output and polls the child: only while the
    /// loop runs and the shell has not been seen to exit.
    pub fn wants_output(&self) -> (r: bool)
        ensures
            r == (self.running && !self.child_exited),
    {
        self.running && !self.child_exited
    }

    /// The worker's transition on `event`. Commands are handled one at a time:
    /// input is refused once the shell has exited; a snapshot drains first while
    /// the shell lives; a reset first starts a replacement and only when it runs
    /// terminates the old shell, so a failed spawn leaves everything as it was; a
    /// shutdown is answered and ends the loop, as does the loss of every sender;
    /// a failure to read output or to poll the child aborts. Once the loop has
    /// ended, every event finishes it.
    pub fn step(self, event: WorkerEvent) -> (r: (WorkerState, WorkerAction))
        ensures
            r == worker_step_spec(self, event),
    {
        if !self.running {
            return (self, WorkerAction::Finish);
        }
        match event {
            WorkerEvent::OutputDrained { eof } => (
                WorkerState { child_exited: self.child_exited || eof, ..self },
                WorkerAction::Continue,
            ),
            WorkerEvent::OutputFailed => (WorkerState { running: false, ..self }, WorkerAction::Abort),
            WorkerEvent::ChildPolled { exited } => (
                WorkerState { child_exited: self.child_exited || exited, ..self },
                WorkerAction::Continue,
            ),
            WorkerEvent::ChildPollFailed => (
                WorkerState { running: false, ..self },
                WorkerAction::Abort,
            ),
            WorkerEvent::Received(CommandKind::SendInput) => if self.child_exited {
                (self, WorkerAction::RefuseInput)
            } else {
                (self, WorkerAction::WriteInput)
            },
            WorkerEvent::Received(CommandKind::Snapshot) => (
                self,
                WorkerAction::TakeSnapshot { drain_first: !self.child_exited },
            ),
            WorkerEvent::Received(CommandKind::Reset) => (self, WorkerAction::SpawnReplacement),
            WorkerEvent::Received(CommandKind::Shutdown) => (
                WorkerState { running: false, ..self },
                WorkerAction::AcknowledgeShutdown,
            ),
            WorkerEvent::TickElapsed => (self, WorkerAction::Continue),
            WorkerEvent::ChannelClosed => (
                WorkerState { running: false, ..self },
                WorkerAction::Finish,
            ),
            WorkerEvent::ReplacementReady => (
                WorkerState { child_exited: false, ..self },
                WorkerAction::ReplaceAndTerminateOld,
            ),
            WorkerEvent::ReplacementFailed => (self, WorkerAction::ReportResetFailure),
        }
    }
}

/// A reset whose replacement cannot be started leaves the worker exactly as it
/// was: the old shell is never touched (only `ReplaceAndTerminateOld`, which
/// follows a running replacement, tears it down), and a snapshot asked for
/// afterwards is taken from the same shell in the same way as before the reset.
pub proof fn lemma_failed_reset_keeps_session(s: WorkerState)
    requires
        s.running,
    ensures
        worker_step_spec(s, WorkerEvent::Received(CommandKind::Reset)) == (
            s,
            WorkerAction::SpawnReplacement,
        ),
        worker_step_spec(s, WorkerEvent::ReplacementFailed) == (
            s,
            WorkerAction::ReportResetFailure,
        ),
        worker_step_spec(
            worker_step_spec(
                worker_step_spec(s, WorkerEvent::Received(CommandKind::Reset)).0,
                WorkerEvent::ReplacementFailed,
            ).0,
            WorkerEvent::Received(CommandKind::Snapshot),
        ) == worker_step_spec(s, WorkerEvent::Received(CommandKind::Snapshot)),
        forall|e: WorkerEvent|
            #![trigger worker_step_spec(s, e)]
            worker_step_spec(s, e).1 == WorkerAction::ReplaceAndTerminateOld ==> e
                == WorkerEvent::ReplacementReady,
{
}

/// Once the worker has answered a shutdown it stays stopped, and whatever
/// comes after, another shutdown included, only finishes it.
pub proof fn lemma_shutdown_stops_worker(s: WorkerState, e: WorkerEvent)
    requires
        s.running,
    ensures
        worker_step_spec(s, WorkerEvent::Received(CommandKind::Shutdown)).1
            == WorkerAction::AcknowledgeShutdown,
        !worker_step_spec(s, WorkerEvent::Received(CommandKind::Shutdown)).0.running,
        worker_step_spec(worker_step_spec(s, WorkerEvent::Received(CommandKind::Shutdown)).0, e)
            == (worker_step_spec(s, WorkerEvent::Received(CommandKind::Shutdown)).0, WorkerAction::Finish),
{
}

} // verus!
