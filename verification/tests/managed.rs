//! Managed streaming, driven against a scripted child.

use std::time::Instant;

use epitelesis::command::prepare;
use epitelesis::io::{ErrorKind, IoError};
use epitelesis::managed::{
    settle_cancellation, startup_result, Arrival, ManagedAction, ManagedChild, ManagedEvent,
    ManagedPoll, ManagedSupervisor, Request, Startup,
};
use epitelesis::{
    CaptureCompleteness, CleanupOutcome, Command, Duration, Error, ExitStatus, GroupSignalOutcome,
    LeaderReapDisposition, ManagedOutput, StreamingCommand,
};

type Handle = ManagedChild<(), Vec<u8>, ()>;

fn bytes(text: &str) -> Vec<u8> {
    text.as_bytes().to_vec()
}

fn must<T, E: std::fmt::Debug>(result: Result<T, E>, context: &str) -> T {
    match result {
        Ok(value) => value,
        Err(error) => panic!("{context}: {error:?}"),
    }
}

fn streaming(script: &str, deadline: u64) -> StreamingCommand {
    must(
        must(
            Command::new(bytes("/bin/sh"))
                .args(vec![bytes("-c"), bytes(script)])
                .deadline(Duration::from_secs(deadline)),
            "deadline is valid",
        )
        .streaming(),
        "default captures may stream",
    )
}

fn launch(command: StreamingCommand) -> ManagedSupervisor {
    let prepared = must(
        prepare(command.into_command(), &Vec::new(), true),
        "the command is valid",
    );
    let (armed, _) = must(
        prepared.arm_at(Ok(()), &Instant::now()),
        "the deadline lies on the clock",
    );
    let (owned, supervisor) = must(armed.supervise_managed(Ok(((), 42))), "the child is spawned");
    assert!(owned.has_child());
    supervisor
}

/// A child with a descendant in its group.
struct World {
    exit: Option<(u128, i32)>,
    killed: bool,
    stubborn: bool,
    descendant_alive: bool,
    now: u128,
    request: Option<(u128, Request)>,
    log: Vec<ManagedAction>,
}

impl World {
    fn new(exit: Option<(u128, i32)>) -> Self {
        World {
            exit,
            killed: false,
            stubborn: false,
            descendant_alive: true,
            now: 0,
            request: None,
            log: Vec::new(),
        }
    }

    fn clock(&self) -> Duration {
        Duration::from_millis((self.now / 1_000_000) as u64)
    }

    fn gone(&self) -> bool {
        !self.stubborn
            && (self.killed || self.exit.is_some_and(|(at, _)| self.now >= at * 1_000_000))
    }

    fn requested(&mut self) -> Request {
        match self.request {
            Some((at, request)) if self.now >= at * 1_000_000 => {
                if request == Request::Made {
                    self.request = None;
                }
                request
            }
            _ => Request::Pending,
        }
    }

    fn perform(&mut self, action: ManagedAction) -> ManagedEvent {
        self.log.push(action);
        match action {
            ManagedAction::Begin => ManagedEvent::Begun,
            ManagedAction::ObserveLeader => ManagedEvent::LeaderObserved(Ok(self.gone())),
            ManagedAction::CheckCancel => ManagedEvent::CancelChecked(self.requested()),
            ManagedAction::AwaitCancel { timeout_nanos } => {
                let request = self.requested();
                if request == Request::Pending {
                    self.now += u128::from(timeout_nanos);
                }
                ManagedEvent::Waited(request)
            }
            ManagedAction::SignalGroup => {
                self.killed = true;
                self.descendant_alive = false;
                ManagedEvent::Signaled(GroupSignalOutcome::Sent)
            }
            ManagedAction::Reap => ManagedEvent::Reaped(Ok(ExitStatus::from_raw(
                self.exit.map_or(9, |(_, status)| status),
            ))),
            ManagedAction::HandOff => ManagedEvent::HandedOff(Ok(())),
            ManagedAction::Finish => panic!("nothing to perform"),
        }
    }

    fn supervise(&mut self, mut supervisor: ManagedSupervisor) -> Result<ManagedOutput, Error> {
        let mut action = supervisor.pending();
        for _ in 0..1_000_000 {
            if action == ManagedAction::Finish {
                return supervisor.finish(self.clock());
            }
            let event = self.perform(action);
            action = supervisor.step(event, self.clock());
        }
        panic!("supervision did not end");
    }
}

fn handle(stdout: &[u8]) -> Handle {
    ManagedChild::new(42, Some(()), Some(stdout.to_vec()), Some(()))
}

#[test]
fn managed_child_streams_and_waits() {
    let supervisor = launch(streaming("printf managed", 5));
    let mut world = World::new(Some((20, 0)));
    let mut child = handle(b"managed");
    assert_eq!(child.id(), 42);
    assert_eq!(child.poll(), ManagedPoll::Running);
    assert_eq!(child.try_wait(), None);
    let stdout = match child.take_stdout() {
        Some(stdout) => stdout,
        None => panic!("stdout is piped"),
    };
    assert!(child.take_stdout().is_none());
    child.receive_nonblocking(Arrival::Empty);
    assert!(child.expects_result());
    child.receive_nonblocking(Arrival::Result(world.supervise(supervisor)));
    assert_eq!(child.poll(), ManagedPoll::Succeeded(ExitStatus::from_raw(0)));
    assert_eq!(child.try_wait(), Some(ExitStatus::from_raw(0)));
    let output = must(child.wait(), "managed child exits");
    assert!(output.success());
    assert_eq!(stdout, b"managed");
    assert!(child.take_stdin().is_none());
    assert!(!child.cancels_on_drop());
    assert_eq!(
        output.evidence.stdout.captured.completeness,
        CaptureCompleteness::Redirected
    );
    assert_eq!(output.evidence.elapsed, Some(Duration::from_millis(20)));
}

#[test]
fn waiting_closes_retained_stdin_first() {
    let mut child = handle(b"");
    assert!(child.stdin.is_some());
    assert!(child.begin_wait());
    assert!(child.stdin.is_none());
    let supervisor = launch(streaming("cat", 5));
    child.receive_blocking(Some(World::new(Some((0, 0))).supervise(supervisor)));
    assert!(!child.begin_wait());
    assert!(must(child.wait(), "cat observes EOF").success());
    assert!(child.take_stdin().is_none());
}

#[test]
fn managed_cancel_kills_background_descendant() {
    let supervisor = launch(streaming("/bin/sleep 30 & wait", 30));
    let mut world = World::new(None);
    world.request = Some((15, Request::Made));
    let mut child = handle(b"");
    child.receive_blocking(Some(world.supervise(supervisor)));
    let evidence = must(child.cancel(), "cancel settles and reaps");
    assert!(!world.descendant_alive);
    assert_eq!(evidence.cleanup, CleanupOutcome::Complete);
    assert_eq!(evidence.signal, GroupSignalOutcome::Sent);
    assert_eq!(evidence.reap.disposition, LeaderReapDisposition::Reaped);
    assert_eq!(evidence.leader_status, Some(ExitStatus::from_raw(9)));
}

#[test]
fn managed_drop_kills_background_descendant() {
    let supervisor = launch(streaming("/bin/sleep 30 & wait", 30));
    let mut world = World::new(None);
    let child = handle(b"");
    assert!(child.cancels_on_drop());
    drop(child);
    world.request = Some((0, Request::Closed));
    let result = world.supervise(supervisor);
    assert!(matches!(result, Err(Error::Cancelled { .. })));
    assert!(!world.descendant_alive);
}

#[test]
fn managed_deadline_keeps_its_evidence() {
    let supervisor = launch(streaming("/bin/sleep 30", 1));
    let mut world = World::new(None);
    match world.supervise(supervisor) {
        Err(Error::Timeout {
            deadline, evidence, ..
        }) => {
            assert_eq!(deadline, Duration::from_secs(1));
            assert_eq!(evidence.elapsed, Some(Duration::from_secs(1)));
            assert_eq!(evidence.cleanup, CleanupOutcome::Complete);
        }
        other => panic!("expected Timeout, got {other:?}"),
    }
    let signals = world
        .log
        .iter()
        .filter(|action| **action == ManagedAction::SignalGroup)
        .count();
    assert_eq!(signals, 1);
}

#[test]
fn stubborn_leader_goes_to_the_background_reaper() {
    let supervisor = launch(streaming("/bin/sleep 30", 1));
    let mut world = World::new(None);
    world.stubborn = true;
    match world.supervise(supervisor) {
        Err(Error::Timeout { evidence, .. }) => {
            assert_eq!(
                evidence.reap.disposition,
                LeaderReapDisposition::BackgroundReaper
            );
            assert_eq!(evidence.elapsed, Some(Duration::from_secs(3)));
            match &evidence.cleanup {
                CleanupOutcome::Incomplete(facts) => {
                    assert!(facts.leader_unsettled);
                    assert!(facts.unfinished_streams.is_empty());
                }
                other => panic!("expected incomplete cleanup, got {other:?}"),
            }
        }
        other => panic!("expected Timeout, got {other:?}"),
    }
}

#[test]
fn incomplete_cancellation_is_an_error() {
    let supervisor = launch(streaming("/bin/sleep 30", 30));
    let mut world = World::new(None);
    world.stubborn = true;
    world.request = Some((0, Request::Made));
    let result = world.supervise(supervisor);
    assert!(matches!(
        settle_cancellation(result),
        Err(Error::Cancelled { .. })
    ));
}

#[test]
fn nonzero_managed_exit_is_owned_by_the_handle() {
    let supervisor = launch(streaming("exit 3", 5));
    let mut world = World::new(Some((0, 3 << 8)));
    let mut child = handle(b"");
    child.receive_nonblocking(Arrival::Result(world.supervise(supervisor)));
    assert_eq!(child.poll(), ManagedPoll::Failed);
    assert_eq!(child.try_wait(), None);
    match child.wait() {
        Err(Error::NonZeroExit { program, .. }) => assert_eq!(program, "/bin/sh"),
        other => panic!("expected NonZeroExit, got {other:?}"),
    }
    child.receive_nonblocking(Arrival::Closed);
    assert_eq!(child.poll(), ManagedPoll::Failed);
}

#[test]
fn lost_supervisor_leaves_nothing_known() {
    let mut child = handle(b"");
    child.receive_nonblocking(Arrival::Closed);
    assert_eq!(child.poll(), ManagedPoll::Failed);
    assert!(child.cancels_on_drop());
    match child.wait() {
        Err(error @ Error::SupervisionFailed { .. }) => assert_eq!(
            error.message(""),
            "failed while supervising managed child 42: managed supervisor result channel closed"
        ),
        other => panic!("expected SupervisionFailed, got {other:?}"),
    }
    match handle(b"").cancel() {
        Err(Error::SupervisionFailed { evidence, .. }) => {
            assert_eq!(evidence.cleanup, CleanupOutcome::Unknown)
        }
        other => panic!("expected SupervisionFailed, got {other:?}"),
    }
}

#[test]
fn second_wait_finds_nothing() {
    let supervisor = launch(streaming("true", 5));
    let mut child = handle(b"");
    assert!(child.begin_wait());
    child.receive_blocking(Some(World::new(Some((0, 0))).supervise(supervisor)));
    assert!(must(child.wait(), "the child ends well").success());
    child.receive_nonblocking(Arrival::Closed);
    assert!(!child.cancels_on_drop());
    assert!(child.begin_wait());
    child.receive_blocking(None);
    assert!(child.cancels_on_drop());
    assert_eq!(child.poll(), ManagedPoll::Succeeded(ExitStatus::from_raw(0)));
    assert!(matches!(
        child.wait(),
        Err(Error::SupervisionFailed { .. })
    ));
}

#[test]
fn first_result_stays() {
    let first = launch(streaming("true", 5));
    let second = launch(streaming("true", 5));
    let mut child = handle(b"");
    child.receive_nonblocking(Arrival::Result(World::new(Some((0, 0))).supervise(first)));
    child.receive_nonblocking(Arrival::Result(
        World::new(Some((0, 256))).supervise(second),
    ));
    assert_eq!(child.poll(), ManagedPoll::Succeeded(ExitStatus::from_raw(0)));
}

#[test]
fn startup_reports_are_passed_on() {
    let result = startup_result(Startup::Reported(Ok(7)), "/bin/sh".to_owned());
    assert!(matches!(result, Ok(7)));
    for (panicked, message) in [
        (true, "managed supervisor panicked before reporting startup"),
        (false, "managed supervisor exited before reporting startup"),
    ] {
        let silent: Startup<()> = Startup::Silent { panicked };
        match startup_result(silent, "/bin/sh".to_owned()) {
            Err(Error::SupervisionFailed {
                program, source, ..
            }) => {
                assert_eq!(program, "/bin/sh");
                assert_eq!(source.message, message);
                assert_eq!(source.kind, ErrorKind::Other);
            }
            other => panic!("expected SupervisionFailed, got {other:?}"),
        }
    }
}

#[test]
fn managed_spawn_failure_is_typed() {
    let prepared = must(
        prepare(streaming("true", 5).into_command(), &Vec::new(), true),
        "the command is valid",
    );
    let (armed, _) = must(
        prepared.arm(Ok(()), true),
        "the reaper stands",
    );
    let spawned: Result<((), u32), IoError> = Err(IoError::new(ErrorKind::NotFound, "missing"));
    match armed.supervise_managed(spawned) {
        Err(Error::SpawnFailed { program, source }) => {
            assert_eq!(program, "/bin/sh");
            assert_eq!(source.message, "missing");
        }
        _ => panic!("expected SpawnFailed"),
    }
}

#[test]
fn foreign_managed_events_change_nothing() {
    let mut supervisor = launch(streaming("true", 5));
    let now = Duration::from_secs(0);
    assert_eq!(
        supervisor.step(ManagedEvent::Waited(Request::Made), now),
        ManagedAction::Begin
    );
    assert_eq!(
        supervisor.step(ManagedEvent::Begun, now),
        ManagedAction::ObserveLeader
    );
    assert_eq!(
        supervisor.step(ManagedEvent::LeaderObserved(Ok(false)), now),
        ManagedAction::CheckCancel
    );
    assert_eq!(
        supervisor.step(ManagedEvent::CancelChecked(Request::Pending), now),
        ManagedAction::AwaitCancel {
            timeout_nanos: 10_000_000
        }
    );
}
