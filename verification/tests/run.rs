//! Captured invocations, driven against a scripted child.

use std::collections::VecDeque;
use std::time::Instant;

use epitelesis::command::{prepare, ProcessPlan};
use epitelesis::environment::Variable;
use epitelesis::io::{ErrorKind, IoError};
use epitelesis::launch::{Armed, Spawned};
use epitelesis::outcome::signal_group;
use epitelesis::schedule::{cleanup_allowance, cleanup_budget};
use epitelesis::supervisor::{Action, Event, Reading, Supervisor, READ_CHUNK};
use epitelesis::{
    Capability, CaptureCompleteness, CapturePolicy, CleanupOutcome, Command, Duration,
    EnvironmentPolicy, Error, ExitStatus, GroupSignalOutcome, LeaderReapDisposition, Output,
    PolicyViolation, Ready, Stdio, StreamName, DEFAULT_CAPTURE_LIMIT,
};

fn bytes(text: &str) -> Vec<u8> {
    text.as_bytes().to_vec()
}

fn must<T, E: std::fmt::Debug>(result: Result<T, E>, context: &str) -> T {
    match result {
        Ok(value) => value,
        Err(error) => panic!("{context}: {error:?}"),
    }
}

fn must_err<T, E>(result: Result<T, E>, context: &str) -> E {
    match result {
        Err(error) => error,
        Ok(_) => panic!("{context}"),
    }
}

fn bounded(program: &str) -> Command<Ready> {
    must(
        Command::new(bytes(program)).deadline(Duration::from_secs(10)),
        "fixture deadline is representable",
    )
}

const EXIT_FAILURE: i32 = 1 << 8;
const KILLED: i32 = 9;

/// What the scripted child does.
struct World {
    stdout: VecDeque<Vec<u8>>,
    stderr: VecDeque<Vec<u8>>,
    /// When the leader exits of its own accord, in milliseconds, and with which status.
    exit: Option<(u64, i32)>,
    /// Whether someone outside the group holds the pipes.
    escaped: bool,
    /// Whether someone inside the group holds the pipes.
    descendant: bool,
    killed: bool,
    now: u128,
    cancel_at: Option<u128>,
    log: Vec<Action>,
    signal: Option<IoError>,
    reap: Option<IoError>,
    handoff: Option<epitelesis::FailureEvidence>,
    spawn: Option<IoError>,
}

impl World {
    fn exiting(status: i32) -> Self {
        World {
            stdout: VecDeque::new(),
            stderr: VecDeque::new(),
            exit: Some((0, status)),
            escaped: false,
            descendant: false,
            killed: false,
            now: 0,
            cancel_at: None,
            log: Vec::new(),
            signal: None,
            reap: None,
            handoff: None,
            spawn: None,
        }
    }

    fn printing(stdout: &[u8], stderr: &[u8]) -> Self {
        let mut world = World::exiting(0);
        world.stdout = stdout.chunks(READ_CHUNK).map(<[u8]>::to_vec).collect();
        world.stderr = stderr.chunks(READ_CHUNK).map(<[u8]>::to_vec).collect();
        world
    }

    fn sleeping(stdout: &[u8]) -> Self {
        let mut world = World::printing(stdout, b"");
        world.exit = None;
        world
    }

    fn leader_gone(&self) -> bool {
        self.killed
            || self
                .exit
                .is_some_and(|(at, _)| self.now >= u128::from(at) * 1_000_000)
    }

    fn pipes_closed(&self) -> bool {
        !self.escaped && self.leader_gone() && (self.killed || !self.descendant)
    }

    fn status(&self) -> i32 {
        match self.exit {
            Some((_, status)) => status,
            None => KILLED,
        }
    }

    fn chunks(&mut self, name: StreamName) -> &mut VecDeque<Vec<u8>> {
        match name {
            StreamName::Stdout => &mut self.stdout,
            StreamName::Stderr => &mut self.stderr,
        }
    }

    fn ready(&mut self, name: StreamName) -> bool {
        !self.chunks(name).is_empty() || self.pipes_closed()
    }

    fn clock(&self) -> Duration {
        Duration::new(
            (self.now / 1_000_000_000) as u64,
            (self.now % 1_000_000_000) as u32,
        )
    }

    fn perform(&mut self, action: Action) -> Event {
        self.log.push(action);
        match action {
            Action::Begin => Event::Begun,
            Action::ObserveLeader => Event::LeaderObserved(Ok(self.leader_gone())),
            Action::Poll {
                stdout,
                stderr,
                timeout_nanos,
            } => {
                let stdout_ready = stdout && self.ready(StreamName::Stdout);
                let stderr_ready = stderr && self.ready(StreamName::Stderr);
                if !stdout_ready && !stderr_ready {
                    self.now += u128::from(timeout_nanos);
                }
                Event::Polled(Ok((stdout_ready, stderr_ready)))
            }
            Action::Read(name) => {
                let closed = self.pipes_closed();
                match self.chunks(name).pop_front() {
                    Some(chunk) => Event::ReadDone(Ok(chunk)),
                    None if closed => Event::ReadDone(Ok(Vec::new())),
                    None => Event::ReadDone(Err(IoError::new(
                        ErrorKind::WouldBlock,
                        "nothing to read",
                    ))),
                }
            }
            Action::SignalGroup => match self.signal.clone() {
                Some(error) => Event::Signaled(signal_group(Err(error))),
                None => {
                    self.killed = true;
                    Event::Signaled(signal_group(Ok(())))
                }
            },
            Action::Reap => match self.reap.clone() {
                Some(error) => Event::Reaped(Err(error)),
                None => Event::Reaped(Ok(ExitStatus::from_raw(self.status()))),
            },
            Action::HandOff => match self.handoff.clone() {
                Some(failure) => Event::HandedOff(Err(failure)),
                None => Event::HandedOff(Ok(())),
            },
            Action::Finish => panic!("nothing to perform"),
        }
    }

    fn supervise(&mut self, mut supervisor: Supervisor<(), ()>) -> Result<Output, Error> {
        supervisor.configure_pipes(Ok(()), Ok(()));
        let mut action = supervisor.pending();
        for _ in 0..1_000_000 {
            if action == Action::Finish {
                return supervisor.finish(self.clock());
            }
            let event = self.perform(action);
            let reading = Reading {
                now: self.clock(),
                cancelled: self.cancel_at.is_some_and(|at| self.now >= at),
            };
            action = supervisor.step(event, reading);
        }
        panic!("supervision did not end");
    }
}

fn piped(stdio: Stdio) -> Option<()> {
    if stdio == Stdio::Piped {
        Some(())
    } else {
        None
    }
}

fn run_as(
    command: Command<Ready>,
    parent: &Vec<Variable>,
    script: impl FnOnce(&ProcessPlan) -> World,
) -> Result<(Output, World), Error> {
    let prepared = prepare(command, parent, true)?;
    let (armed, plan) = prepared.arm_at(Ok(()), &Instant::now())?;
    let mut world = script(&plan);
    let spawned = match world.spawn.clone() {
        Some(error) => Err(error),
        None => Ok(Spawned {
            child: (),
            id: 42,
            stdout: piped(plan.stdout),
            stderr: piped(plan.stderr),
        }),
    };
    let (owned, supervisor) = armed.supervise(spawned)?;
    assert!(owned.has_child());
    assert_eq!(owned.id(), 42);
    let output = world.supervise(supervisor)?;
    Ok((output, world))
}

fn run(command: Command<Ready>, world: World) -> Result<Output, Error> {
    run_as(command, &Vec::new(), |_| world).map(|(output, _)| output)
}

/// A child that prints its environment, one variable a line.
fn env_program(plan: &ProcessPlan) -> World {
    let mut listing = Vec::new();
    for (key, value) in plan.env.entries() {
        listing.extend_from_slice(key);
        listing.push(b'=');
        listing.extend_from_slice(value);
        listing.push(b'\n');
    }
    World::printing(&listing, b"")
}

/// A child that prints the variable that its argument names.
fn printenv_program(plan: &ProcessPlan) -> World {
    for (key, value) in plan.env.entries() {
        if *key == plan.args[0] {
            return World::printing(&[value.as_slice(), b"\n"].concat(), b"");
        }
    }
    World::exiting(EXIT_FAILURE)
}

#[test]
fn deadline_overflow_is_rejected_before_spawn() {
    let error = must_err(
        Command::new(bytes("/definitely/not/spawned")).deadline(Duration::max()),
        "Duration::MAX cannot become an Instant deadline",
    );
    match error {
        Error::InvalidPolicy {
            violation: PolicyViolation::DeadlineOverflow(duration),
        } => assert_eq!(duration, Duration::max()),
        other => panic!("unexpected {other:?}"),
    }
}

#[test]
fn clean_environment_is_the_actual_default() {
    let parent = vec![(bytes("HOME"), bytes("/root")), (bytes("PATH"), bytes("/bin"))];
    let (output, _) = must(
        run_as(bounded("/usr/bin/env"), &parent, env_program),
        "env with no variables exits zero",
    );
    assert!(output.evidence.stdout.captured.is_empty());
    assert_eq!(
        output.evidence.stdout.captured.completeness,
        CaptureCompleteness::Complete
    );
}

#[test]
fn allowlist_and_inherit_have_explicit_parity() {
    let expected_path = bytes("/usr/local/bin:/usr/bin:/bin");
    let parent = vec![
        (bytes("HOME"), bytes("/root")),
        (bytes("PATH"), expected_path.clone()),
    ];
    let (allowlisted, _) = must(
        run_as(
            must(
                Command::new(bytes("/usr/bin/printenv"))
                    .arg(bytes("PATH"))
                    .environment(EnvironmentPolicy::allowlist(&vec![bytes("PATH")]))
                    .deadline(Duration::from_secs(10)),
                "deadline is valid",
            ),
            &parent,
            printenv_program,
        ),
        "allowlisted PATH is visible",
    );
    let (inherited, _) = must(
        run_as(
            must(
                must(
                    Command::new(bytes("/usr/bin/printenv"))
                        .arg(bytes("PATH"))
                        .inherit_environment("fixture compares explicit inheritance".to_owned()),
                    "reason is non-empty",
                )
                .deadline(Duration::from_secs(10)),
                "deadline is valid",
            ),
            &parent,
            printenv_program,
        ),
        "inherited PATH is visible",
    );
    assert_eq!(
        allowlisted.evidence.stdout.captured.bytes,
        [expected_path.as_slice(), b"\n"].concat()
    );
    assert_eq!(
        allowlisted.evidence.stdout.captured.bytes,
        inherited.evidence.stdout.captured.bytes
    );
}

#[test]
fn environment_operations_apply_after_policy_in_call_order() {
    let (output, _) = must(
        run_as(
            must(
                Command::new(bytes("/usr/bin/printenv"))
                    .arg(bytes("EPITELESIS_ORDER"))
                    .env(bytes("EPITELESIS_ORDER"), bytes("first"))
                    .env_remove(bytes("EPITELESIS_ORDER"))
                    .env(bytes("EPITELESIS_ORDER"), bytes("final"))
                    .deadline(Duration::from_secs(10)),
                "deadline is valid",
            ),
            &Vec::new(),
            printenv_program,
        ),
        "last set wins",
    );
    assert_eq!(output.evidence.stdout.captured.bytes, b"final\n");
}

#[test]
fn bare_program_requires_explicit_path() {
    let error = must_err(
        run(
            must(
                Command::new(bytes("true")).deadline(Duration::from_secs(1)),
                "deadline is valid",
            ),
            World::exiting(0),
        ),
        "clean environment cannot resolve a bare name",
    );
    match error {
        Error::InvalidPolicy {
            violation: PolicyViolation::BareProgramWithoutPath(program),
        } => assert_eq!(program, b"true"),
        other => panic!("unexpected {other:?}"),
    }

    must(
        run(
            must(
                Command::new(bytes("true"))
                    .env(bytes("PATH"), bytes("/usr/bin:/bin"))
                    .deadline(Duration::from_secs(1)),
                "deadline is valid",
            ),
            World::exiting(0),
        ),
        "explicit PATH permits bare lookup",
    );
}

#[test]
fn streaming_rejects_non_default_capture_policies() {
    let stdout_error = must_err(
        bounded("/bin/true")
            .capture_stdout(CapturePolicy::bounded(1))
            .streaming(),
        "custom stdout capture cannot become streaming",
    );
    assert!(matches!(
        stdout_error,
        Error::InvalidPolicy {
            violation: PolicyViolation::CapturePolicyWithStreaming(StreamName::Stdout),
        }
    ));

    let stderr_error = must_err(
        bounded("/bin/true")
            .capture_stderr(CapturePolicy::truncate(DEFAULT_CAPTURE_LIMIT))
            .streaming(),
        "custom stderr overflow behavior cannot become streaming",
    );
    assert!(matches!(
        stderr_error,
        Error::InvalidPolicy {
            violation: PolicyViolation::CapturePolicyWithStreaming(StreamName::Stderr),
        }
    ));

    let streaming = must(
        bounded("/bin/true")
            .capture_stdout(CapturePolicy::default())
            .capture_stderr(CapturePolicy::default())
            .streaming(),
        "explicit default capture policies may become streaming",
    );
    assert_eq!(streaming.into_command().program(), b"/bin/true");
}

#[test]
fn missing_program_surfaces_spawn_failure() {
    let mut world = World::exiting(0);
    world.spawn = Some(IoError {
        kind: ErrorKind::NotFound,
        message: "No such file or directory (os error 2)".to_owned(),
        raw_os_error: Some(2),
    });
    let error = must_err(
        run(
            bounded("/definitely/does/not/exist/epitelesis-test-binary"),
            world,
        ),
        "missing program cannot spawn",
    );
    assert!(matches!(error, Error::SpawnFailed { .. }));
    assert_eq!(
        error.message(""),
        "failed to spawn /definitely/does/not/exist/epitelesis-test-binary: \
         No such file or directory (os error 2)"
    );
}

#[test]
fn get_envs_reports_effective_last_call_wins_view() {
    let command = Command::new(bytes("/bin/true"))
        .env(bytes("EPITELESIS_A"), bytes("kept"))
        .env(bytes("EPITELESIS_B"), bytes("shadowed"))
        .env_remove(bytes("EPITELESIS_B"))
        .env_remove(bytes("EPITELESIS_C"))
        .env(bytes("EPITELESIS_C"), bytes("revived"));
    assert_eq!(
        command.get_envs(),
        vec![
            (bytes("EPITELESIS_A"), Some(bytes("kept"))),
            (bytes("EPITELESIS_B"), None),
            (bytes("EPITELESIS_C"), Some(bytes("revived"))),
        ]
    );
}

#[test]
fn command_debug_redacts_environment_values() {
    let command = Command::new(bytes("/bin/true")).env(bytes("TOKEN"), bytes("super-secret-value"));
    let debug = command.debug_text();
    assert!(debug.contains("TOKEN"));
    assert!(debug.contains("<redacted>"));
    assert!(!debug.contains("super-secret-value"));
}

#[test]
fn exact_stdout_and_stderr_caps_are_complete() {
    let output = must(
        run(
            must(
                Command::new(bytes("/bin/sh"))
                    .args(vec![bytes("-c"), bytes("printf 12345; printf abcde >&2")])
                    .capture_stdout(CapturePolicy::bounded(5))
                    .capture_stderr(CapturePolicy::bounded(5))
                    .deadline(Duration::from_secs(10)),
                "deadline is valid",
            ),
            World::printing(b"12345", b"abcde"),
        ),
        "exact caps are not overflow",
    );
    assert_eq!(output.evidence.stdout.captured.bytes, b"12345");
    assert_eq!(output.evidence.stderr.captured.bytes, b"abcde");
    assert_eq!(
        output.evidence.stdout.captured.completeness,
        CaptureCompleteness::Complete
    );
    assert_eq!(
        output.evidence.stderr.captured.completeness,
        CaptureCompleteness::Complete
    );
}

fn capped(script: &str, seconds: u64) -> Command<Ready> {
    must(
        Command::new(bytes("/bin/sh"))
            .args(vec![bytes("-c"), bytes(script)])
            .capture_stdout(CapturePolicy::bounded(5))
            .capture_stderr(CapturePolicy::bounded(5))
            .deadline(Duration::from_secs(seconds)),
        "deadline is valid",
    )
}

#[test]
fn cap_plus_one_fails_closed_on_each_stream_with_bounded_peer_bytes() {
    for (script, stdout, stderr, expected_stream) in [
        (
            "printf 123456; printf peer >&2",
            "123456",
            "peer",
            StreamName::Stdout,
        ),
        (
            "printf peer; printf 123456 >&2",
            "peer",
            "123456",
            StreamName::Stderr,
        ),
    ] {
        let error = must_err(
            run(
                capped(script, 10),
                World::printing(stdout.as_bytes(), stderr.as_bytes()),
            ),
            "cap plus one must fail closed",
        );
        match error {
            Error::CaptureLimitExceeded {
                stream,
                limit,
                evidence,
                ..
            } => {
                assert_eq!(stream, expected_stream);
                assert_eq!(limit, 5);
                assert!(evidence.stdout.captured.len() <= 5);
                assert!(evidence.stderr.captured.len() <= 5);
            }
            other => panic!("expected CaptureLimitExceeded, got {other:?}"),
        }
    }
}

#[test]
fn fast_exit_cap_plus_one_stress_never_returns_success() {
    for (script, stdout, stderr, expected) in [
        (
            "printf 123456; printf peer >&2",
            "123456",
            "peer",
            StreamName::Stdout,
        ),
        (
            "printf peer; printf 123456 >&2",
            "peer",
            "123456",
            StreamName::Stderr,
        ),
    ] {
        for delay in 0..64 {
            let mut world = World::printing(stdout.as_bytes(), stderr.as_bytes());
            world.exit = Some((delay, 0));
            let result = run(capped(script, 2), world);
            match result {
                Err(Error::CaptureLimitExceeded { stream, .. }) => assert_eq!(stream, expected),
                other => panic!("expected CaptureLimitExceeded, got {other:?}"),
            }
        }
    }
}

#[test]
fn simultaneous_overflow_is_stdout_first_and_both_buffers_remain_bounded() {
    let error = must_err(
        run(
            capped("printf 123456; printf abcdef >&2", 10),
            World::printing(b"123456", b"abcdef"),
        ),
        "both streams overflow",
    );
    match error {
        Error::CaptureLimitExceeded {
            stream, evidence, ..
        } => {
            assert_eq!(stream, StreamName::Stdout);
            assert_eq!(evidence.stdout.captured.len(), 5);
            assert_eq!(evidence.stderr.captured.len(), 5);
        }
        other => panic!("expected CaptureLimitExceeded, got {other:?}"),
    }
}

#[test]
fn truncation_drains_high_volume_output_and_counts_every_discard() {
    const TOTAL: usize = 1024 * 1024;
    const LIMIT: usize = 4096;
    let output = must(
        run(
            must(
                Command::new(bytes("/usr/bin/head"))
                    .args(vec![bytes("-c"), bytes("1048576"), bytes("/dev/zero")])
                    .capture_stdout(CapturePolicy::truncate(LIMIT))
                    .deadline(Duration::from_secs(10)),
                "deadline is valid",
            ),
            World::printing(&vec![0_u8; TOTAL], b""),
        ),
        "truncate mode drains without failing",
    );
    assert_eq!(output.evidence.stdout.captured.len(), LIMIT);
    assert_eq!(
        output.evidence.stdout.captured.completeness,
        CaptureCompleteness::Truncated {
            discarded: (TOTAL - LIMIT) as u64
        }
    );
}

#[test]
fn redirected_stream_is_distinct_from_captured_empty() {
    let output = must(
        run(
            must(
                Command::new(bytes("/bin/true"))
                    .stdout(Stdio::Null)
                    .deadline(Duration::from_secs(10)),
                "deadline is valid",
            ),
            World::exiting(0),
        ),
        "true exits zero",
    );
    assert_eq!(
        output.evidence.stdout.captured.completeness,
        CaptureCompleteness::Redirected
    );
    assert_eq!(
        output.evidence.stderr.captured.completeness,
        CaptureCompleteness::Complete
    );
}

#[test]
fn timeout_retains_partial_capture_and_secondary_evidence() {
    let error = must_err(
        run(
            must(
                Command::new(bytes("/bin/sh"))
                    .args(vec![bytes("-c"), bytes("printf ready; exec /bin/sleep 30")])
                    .deadline(Duration::from_millis(500)),
                "deadline is valid",
            ),
            World::sleeping(b"ready"),
        ),
        "sleep exceeds deadline",
    );
    assert_eq!(error.message(""), "/bin/sh timed out after 500ms");
    match error {
        Error::Timeout {
            evidence, deadline, ..
        } => {
            assert_eq!(evidence.stdout.captured.bytes, b"ready");
            assert!(matches!(&evidence.cleanup, CleanupOutcome::Complete));
            assert_eq!(deadline, Duration::from_millis(500));
            assert_eq!(evidence.elapsed, Some(Duration::from_millis(500)));
            assert_eq!(evidence.leader_status, Some(ExitStatus::from_raw(KILLED)));
            assert_eq!(evidence.signal, GroupSignalOutcome::Sent);
        }
        other => panic!("expected Timeout, got {other:?}"),
    }
}

#[test]
fn sync_timeout_kills_background_descendant_holding_pipes() {
    let configured_deadline = Duration::from_secs(1);
    let mut world = World::sleeping(b"");
    world.descendant = true;
    let error = must_err(
        run(
            must(
                Command::new(bytes("/bin/sh"))
                    .args(vec![bytes("-c"), bytes("/bin/sleep 30 & wait")])
                    .deadline(configured_deadline),
                "deadline is valid",
            ),
            world,
        ),
        "background descendant exceeds deadline",
    );
    let elapsed = match error {
        Error::Timeout { evidence, .. } => match evidence.elapsed {
            Some(elapsed) => elapsed,
            None => panic!("elapsed evidence is known"),
        },
        other => panic!("expected Timeout, got {other:?}"),
    };
    assert!(elapsed.at_least(configured_deadline));
    let latest = match configured_deadline.checked_add(cleanup_allowance()) {
        Some(latest) => latest,
        None => panic!("the sum is representable"),
    };
    assert!(latest.at_least(elapsed));
}

#[test]
fn output_preserves_nonzero_payload_without_clone() {
    let result = run(bounded("/bin/false"), World::exiting(EXIT_FAILURE));
    match &result {
        Err(error) => assert_eq!(
            error.message("exit status: 1"),
            "/bin/false exited with non-zero status exit status: 1"
        ),
        Ok(_) => panic!("a non-zero exit is an error"),
    }
    let output = must(
        epitelesis::sync::output(result),
        "output preserves nonzero status",
    );
    assert!(!output.success());
    assert!(!output.status().success());
    assert_eq!(output.status().into_raw(), EXIT_FAILURE);

    let status = must(
        epitelesis::sync::status(run(bounded("/bin/false"), World::exiting(EXIT_FAILURE))),
        "status preserves nonzero status",
    );
    assert_eq!(status.into_raw(), EXIT_FAILURE);
}

#[test]
fn escaped_session_surfaces_truthful_cleanup_incomplete() {
    let leader_lifetime = Duration::from_secs(1);
    let mut world = World::exiting(0);
    world.exit = Some((1_000, 0));
    world.escaped = true;
    let error = must_err(
        run(
            must(
                Command::new(bytes("/bin/sh"))
                    .args(vec![
                        bytes("-c"),
                        bytes("/usr/bin/setsid /bin/sleep 30 & exec /bin/sleep 1"),
                    ])
                    .deadline(Duration::from_secs(10)),
                "deadline is valid",
            ),
            world,
        ),
        "escaped process retains both capture pipes",
    );
    let elapsed = match error {
        Error::CleanupIncomplete {
            evidence: lifecycle,
            ..
        } => {
            let cleanup = match &lifecycle.cleanup {
                CleanupOutcome::Incomplete(cleanup) => cleanup,
                other => panic!("expected incomplete cleanup evidence, got {other:?}"),
            };
            assert_eq!(
                cleanup.unfinished_streams,
                vec![StreamName::Stdout, StreamName::Stderr]
            );
            assert!(!cleanup.leader_unsettled);
            assert_eq!(cleanup.cleanup_budget, cleanup_budget());
            assert_eq!(
                lifecycle.stdout.captured.completeness,
                CaptureCompleteness::Incomplete { discarded: 0 }
            );
            match lifecycle.elapsed {
                Some(elapsed) => elapsed,
                None => panic!("elapsed evidence is known"),
            }
        }
        other => panic!("expected CleanupIncomplete, got {other:?}"),
    };
    assert!(elapsed.at_least(leader_lifetime));
    assert_eq!(elapsed, Duration::from_secs(3));
    assert!(Duration::from_millis(1_000 + 2_100).at_least(elapsed));
}

#[test]
fn unsupported_backend_is_rejected_before_spawn() {
    let command = match Command::new(bytes("definitely-not-created"))
        .deadline(Duration::from_secs(1))
    {
        Ok(command) => command,
        Err(error) => panic!("fixture deadline failed: {error:?}"),
    };
    match prepare(command, &Vec::new(), false) {
        Err(Error::UnsupportedCapability {
            capability: Capability::OwnedProcessGroup,
        }) => {}
        other => panic!(
            "backend did not return typed unsupported capability: {:?}",
            other.err()
        ),
    }
}

#[test]
fn group_is_signaled_once_and_before_the_reap() {
    let command = bounded("/bin/true");
    let (output, world) = must(
        run_as(command, &Vec::new(), |_| World::printing(b"out", b"err")),
        "true exits zero",
    );
    assert!(output.success());
    assert_eq!(output.stdout_str(), Ok("out"));
    assert_eq!(output.stderr_str(), Ok("err"));
    let signals = world
        .log
        .iter()
        .filter(|action| **action == Action::SignalGroup)
        .count();
    assert_eq!(signals, 1);
    let signal = world.log.iter().position(|a| *a == Action::SignalGroup);
    let reap = world.log.iter().position(|a| *a == Action::Reap);
    assert!(signal < reap);
    assert_eq!(
        output.evidence.reap.disposition,
        LeaderReapDisposition::Reaped
    );
}

#[test]
fn cancellation_wins_over_the_deadline() {
    let mut world = World::sleeping(b"");
    world.cancel_at = Some(0);
    let error = must_err(
        run(
            must(
                Command::new(bytes("/bin/sleep")).deadline(Duration::from_secs(0)),
                "deadline is valid",
            ),
            world,
        ),
        "a cancelled run fails",
    );
    assert!(matches!(error, Error::Cancelled { .. }));
    assert_eq!(error.message(""), "/bin/sleep was cancelled");
}

#[test]
fn absent_group_counts_as_gone() {
    let mut world = World::exiting(0);
    world.signal = Some(IoError {
        kind: ErrorKind::Uncategorized,
        message: "No such process (os error 3)".to_owned(),
        raw_os_error: Some(rustix::io::Errno::SRCH.raw_os_error()),
    });
    let output = must(run(bounded("/bin/true"), world), "true exits zero");
    assert_eq!(output.evidence.signal, GroupSignalOutcome::AlreadyGone);
}

#[test]
fn failed_signal_is_a_lifecycle_failure() {
    let mut world = World::exiting(0);
    world.signal = Some(IoError {
        kind: ErrorKind::PermissionDenied,
        message: "Operation not permitted (os error 1)".to_owned(),
        raw_os_error: Some(1),
    });
    let error = must_err(run(bounded("/bin/true"), world), "the signal failed");
    match error {
        Error::LifecycleFailed { evidence, .. } => match &evidence.signal {
            GroupSignalOutcome::Failed(failure) => {
                assert_eq!(failure.operation, "signal process group");
                assert_eq!(failure.kind, ErrorKind::PermissionDenied);
            }
            other => panic!("expected a failed signal, got {other:?}"),
        },
        other => panic!("expected LifecycleFailed, got {other:?}"),
    }
}

#[test]
fn failed_reap_hands_the_leader_over() {
    let mut world = World::exiting(0);
    world.reap = Some(IoError::new(ErrorKind::Other, "wait failed"));
    let error = must_err(run(bounded("/bin/true"), world), "the reap failed");
    match error {
        Error::CleanupIncomplete { evidence, .. } => {
            assert_eq!(
                evidence.reap.disposition,
                LeaderReapDisposition::BackgroundReaper
            );
            assert_eq!(evidence.reap.failures.len(), 1);
            assert_eq!(evidence.reap.failures[0].operation, "reap process leader");
            assert_eq!(evidence.leader_status, None);
            match &evidence.cleanup {
                CleanupOutcome::Incomplete(facts) => assert!(facts.leader_unsettled),
                other => panic!("expected incomplete cleanup, got {other:?}"),
            }
        }
        other => panic!("expected CleanupIncomplete, got {other:?}"),
    }
}

#[test]
fn unreadable_pipe_is_a_capture_failure() {
    let prepared = must(
        prepare(bounded("/bin/true"), &Vec::new(), true),
        "the command is valid",
    );
    let (armed, _) = must(
        prepared.arm(Ok(()), true),
        "the reaper stands",
    );
    let (_, mut supervisor) = must(
        armed.supervise(Ok(Spawned {
            child: (),
            id: 7,
            stdout: Some(()),
            stderr: Some(()),
        })),
        "the child is spawned",
    );
    supervisor.configure_pipes(
        Err(IoError::new(ErrorKind::PermissionDenied, "fcntl failed")),
        Ok(()),
    );
    let mut world = World::printing(b"lost", b"peer");
    let mut action = supervisor.pending();
    while action != Action::Finish {
        let event = world.perform(action);
        action = supervisor.step(
            event,
            Reading {
                now: world.clock(),
                cancelled: false,
            },
        );
    }
    match supervisor.finish(world.clock()) {
        Err(Error::CaptureFailed { evidence, .. }) => {
            assert_eq!(evidence.first_capture_failure(), Some(StreamName::Stdout));
            assert_eq!(evidence.stderr.captured.bytes, b"peer");
        }
        other => panic!("expected CaptureFailed, got {other:?}"),
    }
}

#[test]
fn missing_reaper_prevents_the_spawn() {
    let prepared = must(
        prepare(bounded("/bin/true"), &Vec::new(), true),
        "the command is valid",
    );
    let result: Result<(Armed<()>, ProcessPlan), Error> =
        prepared.arm(Err(IoError::other("no threads left")), true);
    match result {
        Err(error @ Error::ReaperStartFailed { .. }) => assert_eq!(
            error.message(""),
            "failed to start the background reaper for /bin/true: no threads left"
        ),
        _ => panic!("expected ReaperStartFailed"),
    }
}

#[test]
fn unrepresentable_deadline_prevents_the_spawn() {
    let prepared = must(
        prepare(bounded("/bin/true"), &Vec::new(), true),
        "the command is valid",
    );
    let result: Result<(Armed<()>, ProcessPlan), Error> = prepared.arm(Ok(()), false);
    match result {
        Err(Error::InvalidPolicy {
            violation: PolicyViolation::DeadlineOverflow(duration),
        }) => assert_eq!(duration, Duration::from_secs(10)),
        _ => panic!("expected InvalidPolicy"),
    }
}

#[test]
fn clock_decides_on_long_deadlines() {
    let started = Instant::now();
    let longest = epitelesis::ExecutionPolicy::Deadline(Duration::max());
    assert!(matches!(
        longest.deadline(&started),
        Err(Error::InvalidPolicy { .. })
    ));
    let prepared = must(
        prepare(bounded("/bin/true"), &Vec::new(), true),
        "the command is valid",
    );
    assert!(prepared.arm_at(Ok(()), &started).is_ok());
}

#[test]
fn foreign_events_change_nothing() {
    let prepared = must(
        prepare(bounded("/bin/true"), &Vec::new(), true),
        "the command is valid",
    );
    let (armed, _) = must(
        prepared.arm(Ok(()), true),
        "the reaper stands",
    );
    let (_, mut supervisor) = must(
        armed.supervise(Ok(Spawned {
            child: (),
            id: 7,
            stdout: Some(()),
            stderr: Some(()),
        })),
        "the child is spawned",
    );
    let reading = Reading {
        now: Duration::from_secs(0),
        cancelled: false,
    };
    assert_eq!(
        supervisor.step(Event::Signaled(signal_group(Ok(()))), reading),
        Action::Begin
    );
    assert_eq!(
        supervisor.step(Event::Begun, reading),
        Action::ObserveLeader
    );
    assert_eq!(
        supervisor.step(Event::LeaderObserved(Ok(false)), reading),
        Action::Poll {
            stdout: true,
            stderr: true,
            timeout_nanos: 10_000_000,
        }
    );
}

#[test]
fn reads_alternate_and_yield_after_eight_chunks() {
    let mut world = World::exiting(0);
    for _ in 0..12 {
        world.stdout.push_back(b"o".to_vec());
        world.stderr.push_back(b"e".to_vec());
    }
    world.exit = Some((50, 0));
    let (output, world) = must(
        run_as(bounded("/bin/true"), &Vec::new(), |_| world),
        "true exits zero",
    );
    assert_eq!(output.evidence.stdout.captured.len(), 12);
    assert_eq!(output.evidence.stderr.captured.len(), 12);
    let reads: Vec<StreamName> = world
        .log
        .iter()
        .filter_map(|action| match action {
            Action::Read(name) => Some(*name),
            _ => None,
        })
        .collect();
    let stdout_turn = vec![StreamName::Stdout; 8];
    let stderr_turn = vec![StreamName::Stderr; 8];
    assert_eq!(&reads[0..8], stdout_turn.as_slice());
    assert_eq!(&reads[8..16], stderr_turn.as_slice());
    assert_eq!(reads[16], StreamName::Stderr);
}

#[test]
fn interrupted_waits_are_repeated() {
    let mut world = World::exiting(0);
    let prepared = must(
        prepare(bounded("/bin/true"), &Vec::new(), true),
        "the command is valid",
    );
    let (armed, _) = must(
        prepared.arm(Ok(()), true),
        "the reaper stands",
    );
    let (_, mut supervisor) = must(
        armed.supervise(Ok(Spawned {
            child: (),
            id: 7,
            stdout: Some(()),
            stderr: Some(()),
        })),
        "the child is spawned",
    );
    let reading = Reading {
        now: Duration::from_secs(0),
        cancelled: false,
    };
    supervisor.step(Event::Begun, reading);
    supervisor.step(
        Event::LeaderObserved(Err(IoError::new(ErrorKind::Interrupted, "interrupted"))),
        reading,
    );
    let again = supervisor.step(
        Event::Polled(Err(IoError::new(ErrorKind::Interrupted, "interrupted"))),
        reading,
    );
    assert_eq!(again, Action::ObserveLeader);
    let signal = supervisor.step(
        Event::LeaderObserved(Err(IoError::new(ErrorKind::Other, "waitid failed"))),
        reading,
    );
    assert_eq!(signal, Action::SignalGroup);
    let mut action = signal;
    while action != Action::Finish {
        let event = world.perform(action);
        world.now += 100_000_000;
        action = supervisor.step(
            event,
            Reading {
                now: world.clock(),
                cancelled: false,
            },
        );
    }
    match supervisor.finish(world.clock()) {
        Err(Error::SupervisionFailed {
            source, evidence, ..
        }) => {
            assert_eq!(source.message, "waitid failed");
            assert_eq!(
                evidence.reap.disposition,
                LeaderReapDisposition::BackgroundReaper
            );
        }
        other => panic!("expected SupervisionFailed, got {other:?}"),
    }
}
