//! What the owner of a session and the holders of its handles see: the
//! session's lifecycle and the errors a command can end in.

use vstd::prelude::*;

use crate::worker::WriteFailure;

verus! {

/// Why a command to the session failed.
#[derive(Debug, Clone, Copy, PartialEq, Eq, Structural)]
pub enum SessionError {
    /// The shell has exited, so input cannot be delivered.
    ProcessExited,
    /// The worker is not running, or dropped the reply: the session is unusable.
    WorkerUnavailable,
    /// Writing to the terminal failed.
    WriteFailed(WriteFailure),
}

/// The sentence that describes a session error.
pub open spec fn session_error_text(e: SessionError) -> Seq<char> {
    match e {
        SessionError::ProcessExited => "bash process has already exited"@,
        SessionError::WorkerUnavailable => "terminal worker is not running"@,
        SessionError::WriteFailed(WriteFailure::WriteZero) => "failed to write to PTY: write returned zero bytes"@,
        SessionError::WriteFailed(WriteFailure::Io(_)) => "failed to write to PTY"@,
    }
}

impl SessionError {
    /// A sentence that says what went wrong.
    pub fn message(&self) -> (r: String)
        ensures
            r@ == session_error_text(*self),
    {
        match self {
            SessionError::ProcessExited => String::from_str("bash process has already exited"),
            SessionError::WorkerUnavailable => String::from_str("terminal worker is not running"),
            SessionError::WriteFailed(WriteFailure::WriteZero) => String::from_str(
                "failed to write to PTY: write returned zero bytes",
            ),
            SessionError::WriteFailed(WriteFailure::Io(_)) => String::from_str(
                "failed to write to PTY",
            ),
        }
    }
}

/// The answer a caller gets for a command, from whether the command could be
/// sent to the worker and the reply, if one came back.
pub open spec fn delivery_spec<T>(sent: bool, reply: Option<Result<T, SessionError>>) -> Result<
    T,
    SessionError,
> {
    if !sent {
        Err(SessionError::WorkerUnavailable)
    } else {
        match reply {
            Some(r) => r,
            None => Err(SessionError::WorkerUnavailable),
        }
    }
}

/// The answer a caller gets for a command: the worker's reply; "worker
/// unavailable" when the command could not be sent or no reply came back.
pub fn delivery_result<T>(sent: bool, reply: Option<Result<T, SessionError>>) -> (r: Result<
    T,
    SessionError,
>)
    ensures
        r == delivery_spec(sent, reply),
{
    if !sent {
        return Err(SessionError::WorkerUnavailable);
    }
    match reply {
        Some(r) => r,
        None => Err(SessionError::WorkerUnavailable),
    }
}

/// Where a session stands, as its owner sees it.
#[derive(Debug, Clone, Copy, PartialEq, Eq, Structural)]
pub enum Lifecycle {
    /// The worker runs and takes commands.
    Running,
    /// The session was shut down.
    ShutDown,
}

/// What a call of shutdown has to do.
#[derive(Debug, Clone, Copy, PartialEq, Eq, Structural)]
pub enum ShutdownStep {
    /// Ask the worker to stop, wait a bounded time for its answer, join it.
    StopWorker,
    /// Nothing: the session is already shut down.
    AlreadyStopped,
}

/// The step that a shutdown takes from `l`.
pub open spec fn shutdown_step_spec(l: Lifecycle) -> ShutdownStep {
    if l == Lifecycle::Running {
        ShutdownStep::StopWorker
    } else {
        ShutdownStep::AlreadyStopped
    }
}

/// Whether a command is taken in `l`.
pub open spec fn acceptance_spec(l: Lifecycle) -> Result<(), SessionError> {
    if l == Lifecycle::Running {
        Ok(())
    } else {
        Err(SessionError::WorkerUnavailable)
    }
}

impl Lifecycle {
    /// Shuts the session down: the first call stops the worker, every later
    /// call does nothing.
    pub fn shutdown(&mut self) -> (r: ShutdownStep)
        ensures
            *final(self) == Lifecycle::ShutDown,
            r == shutdown_step_spec(*old(self)),
    {
        let r = if *self == Lifecycle::Running {
            ShutdownStep::StopWorker
        } else {
            ShutdownStep::AlreadyStopped
        };
        *self = Lifecycle::ShutDown;
        r
    }

    /// Whether a command is taken: while running; "worker unavailable" after
    /// the shutdown.
    pub fn accepts_commands(&self) -> (r: Result<(), SessionError>)
        ensures
            r == acceptance_spec(*self),
    {
        if *self == Lifecycle::Running {
            Ok(())
        } else {
            Err(SessionError::WorkerUnavailable)
        }
    }
}

/// Shutting down is idempotent: from any state the first shutdown leaves the
/// session shut down (see [`Lifecycle::shutdown`]); a second one then does
/// nothing; any command afterwards is answered with "worker unavailable" at
/// once, and so is a command that cannot reach the stopped worker, whatever
/// reply slot it carried.
pub proof fn lemma_shutdown_idempotent(l: Lifecycle)
    ensures
        shutdown_step_spec(Lifecycle::ShutDown) == ShutdownStep::AlreadyStopped,
        acceptance_spec(Lifecycle::ShutDown) == Err::<(), SessionError>(SessionError::WorkerUnavailable),
        l == Lifecycle::Running ==> shutdown_step_spec(l) == ShutdownStep::StopWorker,
        forall|reply: Option<Result<(), SessionError>>|
            #[trigger] delivery_spec::<()>(false, reply) == Err::<(), SessionError>(
                SessionError::WorkerUnavailable,
            ),
{
}

} // verus!
