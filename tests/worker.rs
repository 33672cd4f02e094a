use gibberish::worker::{signal_succeeded, SignalOutcome};
use gibberish::session::{delivery_result, Lifecycle, SessionError, ShutdownStep};
use gibberish::worker::{
    drain_step, poll_step, stage_after, termination_step, write_step, CommandKind, DrainStep,
    Escalation, IoErrorClass, PollStep, ReadOutcome, TerminationStage, WorkerAction,
    WorkerEvent, WorkerState, WriteFailure, WriteOutcome, WriteStep,
};

#[test]
fn drain_classifies_reads() {
    assert_eq!(drain_step(ReadOutcome::Data(5)), DrainStep::Feed(5));
    assert_eq!(drain_step(ReadOutcome::Closed), DrainStep::Finished { eof: true });
    assert_eq!(
        drain_step(ReadOutcome::Failed(IoErrorClass::InputOutput)),
        DrainStep::Finished { eof: true }
    );
    assert_eq!(
        drain_step(ReadOutcome::Failed(IoErrorClass::WouldBlock)),
        DrainStep::Finished { eof: false }
    );
    assert_eq!(drain_step(ReadOutcome::Failed(IoErrorClass::Interrupted)), DrainStep::Retry);
    assert_eq!(drain_step(ReadOutcome::Failed(IoErrorClass::Other)), DrainStep::Fatal);
}

#[test]
fn write_retries_transient_errors() {
    assert_eq!(write_step(0, 10, WriteOutcome::Wrote(4)), WriteStep::Continue(4));
    assert_eq!(write_step(4, 10, WriteOutcome::Wrote(6)), WriteStep::Done);
    assert_eq!(
        write_step(4, 10, WriteOutcome::Wrote(0)),
        WriteStep::Fail(WriteFailure::WriteZero)
    );
    assert_eq!(
        write_step(4, 10, WriteOutcome::Failed(IoErrorClass::WouldBlock)),
        WriteStep::PauseAndRetry
    );
    assert_eq!(
        write_step(4, 10, WriteOutcome::Failed(IoErrorClass::Interrupted)),
        WriteStep::PauseAndRetry
    );
    assert_eq!(
        write_step(4, 10, WriteOutcome::Failed(IoErrorClass::InputOutput)),
        WriteStep::Fail(WriteFailure::Io(IoErrorClass::InputOutput))
    );
}

#[test]
fn termination_escalates_in_order() {
    let mut stage = TerminationStage::Unsignalled;
    let mut taken = Vec::new();
    while let Some(e) = termination_step(stage, false) {
        taken.push(e);
        stage = stage_after(e);
    }
    assert_eq!(
        taken,
        vec![Escalation::TerminateGroup, Escalation::KillGroup, Escalation::KillChild]
    );
    assert_eq!(termination_step(TerminationStage::Unsignalled, true), None);
    assert_eq!(termination_step(TerminationStage::Terminated, true), None);
}

#[test]
fn poll_waits_in_bounded_ticks() {
    assert_eq!(poll_step(true, 0, 400), PollStep::Exited);
    assert_eq!(poll_step(false, 0, 0), PollStep::TimedOut);
    assert_eq!(poll_step(false, 0, 400), PollStep::Sleep(20));
    assert_eq!(poll_step(false, 390, 400), PollStep::Sleep(10));
    assert_eq!(poll_step(false, 400, 400), PollStep::TimedOut);
}

#[test]
fn worker_refuses_input_after_exit() {
    let s = WorkerState::started();
    assert!(s.wants_output());
    let (s, a) = s.step(WorkerEvent::ChildPolled { exited: true });
    assert_eq!(a, WorkerAction::Continue);
    assert!(!s.wants_output());
    let (_, a) = s.step(WorkerEvent::Received(CommandKind::SendInput));
    assert_eq!(a, WorkerAction::RefuseInput);
    let (_, a) = s.step(WorkerEvent::Received(CommandKind::Snapshot));
    assert_eq!(a, WorkerAction::TakeSnapshot { drain_first: false });
}

#[test]
fn failed_reset_keeps_the_old_shell() {
    let s = WorkerState::started();
    let (s1, a) = s.step(WorkerEvent::Received(CommandKind::Reset));
    assert_eq!(a, WorkerAction::SpawnReplacement);
    let (s2, a) = s1.step(WorkerEvent::ReplacementFailed);
    assert_eq!(a, WorkerAction::ReportResetFailure);
    assert_eq!(s2, s);
    let (_, a) = s2.step(WorkerEvent::Received(CommandKind::Snapshot));
    assert_eq!(a, WorkerAction::TakeSnapshot { drain_first: true });
}

#[test]
fn successful_reset_revives_an_exited_shell() {
    let (s, _) = WorkerState::started().step(WorkerEvent::OutputDrained { eof: true });
    assert!(s.child_exited);
    let (s, a) = s.step(WorkerEvent::ReplacementReady);
    assert_eq!(a, WorkerAction::ReplaceAndTerminateOld);
    assert!(!s.child_exited);
}

#[test]
fn shutdown_ends_the_worker() {
    let (s, a) = WorkerState::started().step(WorkerEvent::Received(CommandKind::Shutdown));
    assert_eq!(a, WorkerAction::AcknowledgeShutdown);
    assert!(!s.running);
    let (_, a) = s.step(WorkerEvent::Received(CommandKind::Shutdown));
    assert_eq!(a, WorkerAction::Finish);
    let (s, a) = WorkerState::started().step(WorkerEvent::OutputFailed);
    assert_eq!(a, WorkerAction::Abort);
    assert!(!s.running);
    let (_, a) = WorkerState::started().step(WorkerEvent::ChannelClosed);
    assert_eq!(a, WorkerAction::Finish);
}

#[test]
fn shutdown_is_idempotent() {
    let mut l = Lifecycle::Running;
    assert_eq!(l.accepts_commands(), Ok(()));
    assert_eq!(l.shutdown(), ShutdownStep::StopWorker);
    assert_eq!(l.shutdown(), ShutdownStep::AlreadyStopped);
    assert_eq!(l.accepts_commands(), Err(SessionError::WorkerUnavailable));
}

#[test]
fn delivery_maps_lost_worker_to_unavailable() {
    assert_eq!(delivery_result::<()>(false, None), Err(SessionError::WorkerUnavailable));
    assert_eq!(delivery_result::<()>(true, None), Err(SessionError::WorkerUnavailable));
    assert_eq!(delivery_result(true, Some(Ok(7))), Ok(7));
    assert_eq!(
        delivery_result::<()>(true, Some(Err(SessionError::ProcessExited))),
        Err(SessionError::ProcessExited)
    );
    assert_eq!(SessionError::WorkerUnavailable.message(), "terminal worker is not running");
}

#[test]
fn missing_process_group_counts_as_signalled() {
    assert!(signal_succeeded(SignalOutcome::Delivered));
    assert!(signal_succeeded(SignalOutcome::NoSuchProcess));
    assert!(!signal_succeeded(SignalOutcome::Failed));
}
