//! The pieces of supervision one by one.

use epitelesis::capture::CaptureStream;
use epitelesis::error::CaptureFailure;
use epitelesis::io::{ErrorKind, IoError};
use epitelesis::outcome::{
    choose_primary, classify, classify_exit, classify_managed, judge_signal, redirected_report,
    settlement_triggered, signal_group, unknown_evidence, Observations, Primary,
};
use epitelesis::process::{Handoff, OwnedChild};
use epitelesis::schedule::{
    cleanup_allowance, cleanup_budget, cleanup_deadline, deadline_elapsed, poll_timeout,
    wait_quantum,
};
use epitelesis::{
    CaptureCompleteness, CapturePolicy, CaptureReport, CapturedStream, CleanupIncompleteEvidence,
    CleanupOutcome, Duration, Error, ExitStatus, FailureEvidence, GroupSignalOutcome,
    LeaderReapDisposition, LeaderReapOutcome, LifecycleEvidence, SecondaryErrors, StreamName,
};

fn success() -> ExitStatus {
    ExitStatus::from_raw(0)
}

fn fixture_evidence(
    stdout_failure: Option<CaptureFailure>,
    stderr_failure: Option<CaptureFailure>,
) -> Box<LifecycleEvidence> {
    Box::new(LifecycleEvidence {
        leader_status: Some(success()),
        elapsed: Some(Duration::from_millis(1)),
        signal: GroupSignalOutcome::Sent,
        reap: LeaderReapOutcome {
            disposition: LeaderReapDisposition::Reaped,
            failures: Vec::new(),
        },
        stdout: CaptureReport {
            stream: StreamName::Stdout,
            captured: if stdout_failure.is_some() {
                CapturedStream::incomplete(b"out".to_vec(), 0)
            } else {
                CapturedStream::settled(b"out".to_vec(), 0)
            },
            failure: stdout_failure,
        },
        stderr: CaptureReport {
            stream: StreamName::Stderr,
            captured: if stderr_failure.is_some() {
                CapturedStream::incomplete(b"err".to_vec(), 0)
            } else {
                CapturedStream::settled(b"err".to_vec(), 0)
            },
            failure: stderr_failure,
        },
        cleanup: CleanupOutcome::Complete,
    })
}

#[test]
fn primary_precedence_is_stable() {
    let mut observations = Observations {
        cancelled: true,
        deadline_elapsed: true,
        leader_waitable: true,
        observe_error: Some(IoError::other("observe")),
        reap_failures: Vec::new(),
    };
    assert!(matches!(
        choose_primary(&mut observations, Some(7), Some(9)),
        Primary::Limit {
            stream: StreamName::Stdout,
            limit: 7
        }
    ));
    assert!(matches!(
        choose_primary(&mut observations, None, Some(9)),
        Primary::Limit {
            stream: StreamName::Stderr,
            limit: 9
        }
    ));
    assert!(matches!(
        choose_primary(&mut observations, None, None),
        Primary::Cancelled
    ));
    observations.cancelled = false;
    assert!(matches!(
        choose_primary(&mut observations, None, None),
        Primary::Deadline
    ));
    observations.deadline_elapsed = false;
    match choose_primary(&mut observations, None, None) {
        Primary::Supervision(error) => assert_eq!(error.message, "observe"),
        other => panic!("expected the failure to observe, got {other:?}"),
    }
    assert!(matches!(
        choose_primary(&mut observations, None, None),
        Primary::Exit
    ));
}

#[test]
fn settlement_matrix_uses_classification_and_keeps_peer_bytes() {
    let outcomes = [
        None,
        Some(CaptureFailure::Read {
            kind: ErrorKind::Other,
            message: "fixture".to_owned(),
        }),
        Some(CaptureFailure::Allocation),
    ];
    for stdout_failure in &outcomes {
        for stderr_failure in &outcomes {
            let evidence = fixture_evidence(stdout_failure.clone(), stderr_failure.clone());
            let result = classify(
                Primary::Exit,
                "fixture".to_owned(),
                Some(Duration::from_secs(1)),
                evidence,
            );
            if stdout_failure.is_none() && stderr_failure.is_none() {
                let output = match result {
                    Ok(output) => output,
                    Err(error) => panic!("success matrix cell failed: {error:?}"),
                };
                assert_eq!(output.evidence.stdout.captured.bytes, b"out");
                assert_eq!(output.evidence.stderr.captured.bytes, b"err");
            } else {
                let evidence = match result {
                    Err(Error::CaptureFailed { evidence, .. }) => evidence,
                    other => panic!("capture matrix cell misclassified: {other:?}"),
                };
                assert_eq!(evidence.stdout.stream, StreamName::Stdout);
                assert_eq!(evidence.stderr.stream, StreamName::Stderr);
                assert_eq!(evidence.stdout.captured.bytes, b"out");
                assert_eq!(evidence.stderr.captured.bytes, b"err");
                let expected_first = if stdout_failure.is_some() {
                    StreamName::Stdout
                } else {
                    StreamName::Stderr
                };
                assert_eq!(evidence.first_capture_failure(), Some(expected_first));
            }
        }
    }
}

#[test]
fn unbounded_read_failure_triggers_cleanup_with_incomplete_peer() {
    let policy = match CapturePolicy::unbounded("fault-injection fixture".to_owned()) {
        Ok(policy) => policy,
        Err(error) => panic!("unbounded fixture policy failed: {error:?}"),
    };
    let mut stdout = CaptureStream::new(StreamName::Stdout, Some(()), &policy);
    let mut stderr = CaptureStream::new(StreamName::Stderr, Some(()), &CapturePolicy::bounded(8));
    assert!(!stdout.accept(Err(IoError::other("injected read failure"))));
    assert!(!stderr.accept(Err(IoError::new(ErrorKind::WouldBlock, "nothing to read"))));

    assert!(stdout.failed());
    assert!(!stderr.terminal());
    assert!(settlement_triggered(
        &Observations::default(),
        false,
        stdout.failed()
    ));
    let stdout = stdout.into_report();
    let stderr = stderr.into_report();
    assert!(stdout.failure.is_some());
    assert!(matches!(
        stdout.captured.completeness,
        CaptureCompleteness::Incomplete { .. }
    ));
    assert!(matches!(
        stderr.captured.completeness,
        CaptureCompleteness::Incomplete { .. }
    ));
}

#[test]
fn nothing_seen_does_not_end_supervision() {
    assert!(!settlement_triggered(&Observations::default(), false, false));
    assert!(settlement_triggered(&Observations::default(), true, false));
}

#[test]
fn failed_captures_do_not_hide_stronger_outcomes() {
    let failure = || Some(CaptureFailure::Allocation);
    let result = classify(
        Primary::Cancelled,
        "fixture".to_owned(),
        None,
        fixture_evidence(failure(), None),
    );
    assert!(matches!(result, Err(Error::Cancelled { .. })));
    let result = classify(
        Primary::Deadline,
        "fixture".to_owned(),
        Some(Duration::from_secs(1)),
        fixture_evidence(failure(), None),
    );
    assert!(matches!(result, Err(Error::Timeout { .. })));
    let result = classify(
        Primary::Limit {
            stream: StreamName::Stderr,
            limit: 3,
        },
        "fixture".to_owned(),
        None,
        fixture_evidence(failure(), None),
    );
    match result {
        Err(error @ Error::CaptureLimitExceeded { .. }) => assert_eq!(
            error.message(""),
            "fixture exceeded the Stderr capture limit of 3 bytes"
        ),
        other => panic!("expected CaptureLimitExceeded, got {other:?}"),
    }
    let result = classify(
        Primary::Supervision(IoError::other("observe")),
        "fixture".to_owned(),
        None,
        fixture_evidence(None, failure()),
    );
    match result {
        Err(error @ Error::CaptureFailed { .. }) => {
            assert_eq!(error.message(""), "capture failed while executing fixture")
        }
        other => panic!("expected CaptureFailed, got {other:?}"),
    }
}

fn supervision_message(result: Result<(ExitStatus, Box<LifecycleEvidence>), Error>) -> String {
    match result {
        Err(Error::SupervisionFailed { source, .. }) => source.message,
        _ => panic!("expected SupervisionFailed"),
    }
}

#[test]
fn exits_are_judged_by_their_evidence() {
    let mut evidence = fixture_evidence(None, None);
    evidence.cleanup = CleanupOutcome::Incomplete(CleanupIncompleteEvidence {
        unfinished_streams: vec![StreamName::Stderr],
        leader_unsettled: false,
        cleanup_budget: cleanup_budget(),
    });
    match classify_exit("fixture".to_owned(), evidence) {
        Err(error @ Error::CleanupIncomplete { .. }) => assert_eq!(
            error.message(""),
            "cleanup incomplete while executing fixture"
        ),
        _ => panic!("expected CleanupIncomplete"),
    }

    let mut evidence = fixture_evidence(None, None);
    evidence.cleanup = CleanupOutcome::Unknown;
    assert_eq!(
        supervision_message(classify_exit("fixture".to_owned(), evidence)),
        "cleanup outcome was not recovered"
    );

    let mut evidence = fixture_evidence(None, None);
    evidence.signal = GroupSignalOutcome::Unknown;
    assert_eq!(
        supervision_message(classify_exit("fixture".to_owned(), evidence)),
        "signal or reap outcome was not recovered"
    );

    let mut evidence = fixture_evidence(None, None);
    evidence.reap.disposition = LeaderReapDisposition::Unreaped;
    match classify_exit("fixture".to_owned(), evidence) {
        Err(error @ Error::LifecycleFailed { .. }) => assert_eq!(
            error.message(""),
            "lifecycle settlement failed while executing fixture"
        ),
        _ => panic!("expected LifecycleFailed"),
    }

    let mut evidence = fixture_evidence(None, None);
    evidence.leader_status = None;
    assert_eq!(
        supervision_message(classify_exit("fixture".to_owned(), evidence)),
        "process leader had no reaped status"
    );

    let mut evidence = fixture_evidence(None, None);
    evidence.leader_status = Some(ExitStatus::from_raw(256));
    assert!(matches!(
        classify_exit("fixture".to_owned(), evidence),
        Err(Error::NonZeroExit { .. })
    ));

    match classify_exit("fixture".to_owned(), fixture_evidence(None, None)) {
        Ok((status, _)) => assert!(status.success()),
        Err(error) => panic!("a settled exit is a success, got {error:?}"),
    }
}

#[test]
fn terminal_errors_own_their_evidence() {
    for primary in [
        Primary::Limit {
            stream: StreamName::Stdout,
            limit: 1,
        },
        Primary::Cancelled,
        Primary::Deadline,
        Primary::CaptureFailure,
        Primary::Supervision(IoError::other("observe")),
    ] {
        let result = classify(
            primary,
            "fixture".to_owned(),
            Some(Duration::from_secs(1)),
            fixture_evidence(None, None),
        );
        match result {
            Err(error) => match error.evidence() {
                Some(evidence) => assert_eq!(evidence.stdout.captured.bytes, b"out"),
                None => panic!("{error:?} lost its evidence"),
            },
            Ok(_) => panic!("the outcome is a failure"),
        }
    }
    let unsupported = Error::UnsupportedCapability {
        capability: epitelesis::Capability::OwnedProcessGroup,
    };
    assert!(unsupported.evidence().is_none());
}

#[test]
fn deadline_without_configuration_is_a_supervision_failure() {
    let result = classify(
        Primary::Deadline,
        "fixture".to_owned(),
        None,
        fixture_evidence(None, None),
    );
    match result {
        Err(error @ Error::SupervisionFailed { .. }) => assert_eq!(
            error.message(""),
            "failed while supervising fixture: deadline elapsed without a configured deadline"
        ),
        other => panic!("expected SupervisionFailed, got {other:?}"),
    }
}

#[test]
fn managed_results_follow_the_same_classes() {
    let result = classify_managed(
        Primary::Limit {
            stream: StreamName::Stdout,
            limit: 1,
        },
        "fixture".to_owned(),
        None,
        fixture_evidence(None, None),
    );
    assert!(matches!(result, Err(Error::CaptureFailed { .. })));
    let result = classify_managed(
        Primary::Exit,
        "fixture".to_owned(),
        None,
        fixture_evidence(None, None),
    );
    match result {
        Ok(output) => {
            assert!(output.success());
            assert_eq!(output.status(), success());
        }
        Err(error) => panic!("a settled exit is a success, got {error:?}"),
    }
}

#[test]
fn signals_are_judged_by_their_code() {
    assert_eq!(signal_group(Ok(())), GroupSignalOutcome::Sent);
    let gone = IoError {
        kind: ErrorKind::Uncategorized,
        message: "No such process".to_owned(),
        raw_os_error: Some(rustix::io::Errno::SRCH.raw_os_error()),
    };
    let denied = IoError {
        kind: ErrorKind::PermissionDenied,
        message: "Operation not permitted".to_owned(),
        raw_os_error: Some(rustix::io::Errno::PERM.raw_os_error()),
    };
    assert!(matches!(
        signal_group(Err(denied)),
        GroupSignalOutcome::Failed(_)
    ));
    assert_eq!(
        judge_signal(Err(gone.clone()), rustix::io::Errno::SRCH.raw_os_error()),
        GroupSignalOutcome::AlreadyGone
    );
    assert!(matches!(
        judge_signal(Err(gone.clone()), 77),
        GroupSignalOutcome::Failed(_)
    ));
    assert_eq!(signal_group(Err(gone)), GroupSignalOutcome::AlreadyGone);
    assert_eq!(
        signal_group(Err(IoError::other("broken"))),
        GroupSignalOutcome::Failed(FailureEvidence {
            operation: "signal process group",
            kind: ErrorKind::Other,
            message: "broken".to_owned(),
        })
    );
}

#[test]
fn bounded_capture_is_a_prefix_however_the_stream_is_cut() {
    let text = b"the quick brown fox jumps over the lazy dog";
    for limit in [0_usize, 1, 7, text.len() - 1, text.len(), text.len() + 1] {
        for size in [1_usize, 2, 5, 13, 64] {
            for policy in [CapturePolicy::bounded(limit), CapturePolicy::truncate(limit)] {
                let fails = matches!(
                    policy,
                    CapturePolicy::Bounded {
                        overflow: epitelesis::OverflowBehavior::FailClosed,
                        ..
                    }
                );
                let mut stream = CaptureStream::new(StreamName::Stdout, Some(()), &policy);
                for chunk in text.chunks(size) {
                    assert!(stream.accept(Ok(chunk.to_vec())));
                }
                assert_eq!(
                    stream.overflow(),
                    if fails && text.len() > limit {
                        Some(limit)
                    } else {
                        None
                    }
                );
                assert!(!stream.accept(Ok(Vec::new())));
                assert!(stream.terminal());
                let report = stream.into_report();
                let kept = text.len().min(limit);
                assert_eq!(report.captured.bytes, &text[..kept]);
                assert_eq!(
                    report.captured.completeness,
                    if text.len() > limit {
                        CaptureCompleteness::Truncated {
                            discarded: (text.len() - limit) as u64,
                        }
                    } else {
                        CaptureCompleteness::Complete
                    }
                );
            }
        }
    }
}

#[test]
fn missing_memory_ends_the_capture() {
    let mut stream = CaptureStream::new(StreamName::Stderr, Some(()), &CapturePolicy::bounded(4));
    stream.retain_reserved(b"ab", true);
    stream.retain_reserved(b"cdef", false);
    assert!(stream.failed());
    assert!(!stream.is_open());
    assert_eq!(stream.overflow(), Some(4));
    let report = stream.into_report();
    assert_eq!(report.failure, Some(CaptureFailure::Allocation));
    assert_eq!(report.captured.bytes, b"ab");
    assert_eq!(
        report.captured.completeness,
        CaptureCompleteness::Incomplete { discarded: 4 }
    );
}

#[test]
fn nothing_to_retain_needs_no_memory() {
    let mut stream = CaptureStream::new(StreamName::Stdout, Some(()), &CapturePolicy::bounded(2));
    assert!(stream.reserve_read(&Err(IoError::other("broken"))));
    assert!(stream.reserve_read(&Ok(Vec::new())));
    stream.retain(b"ab");
    assert!(stream.reserve_for(b"cdef"));
    assert!(stream.reserve_read(&Ok(b"cdef".to_vec())));
    stream.retain(b"cdef");
    assert!(!stream.failed());
    assert_eq!(stream.overflow(), Some(2));
}

#[test]
fn unbounded_capture_keeps_everything() {
    let policy = match CapturePolicy::unbounded("fixture".to_owned()) {
        Ok(policy) => policy,
        Err(error) => panic!("the reason is not empty: {error:?}"),
    };
    assert!(policy.is_unbounded());
    let mut stream = CaptureStream::new(StreamName::Stdout, Some(()), &policy);
    for _ in 0..100 {
        stream.retain(&[7; 1000]);
    }
    assert!(!stream.accept(Ok(Vec::new())));
    let report = stream.into_report();
    assert_eq!(report.captured.bytes, vec![7; 100_000]);
    assert_eq!(report.captured.completeness, CaptureCompleteness::Complete);
}

#[test]
fn first_capture_failure_counts() {
    let mut stream = CaptureStream::new(StreamName::Stdout, Some(()), &CapturePolicy::default());
    stream.record_failure(IoError::other("first"));
    stream.record_failure(IoError::other("second"));
    assert_eq!(
        stream.into_report().failure,
        Some(CaptureFailure::Read {
            kind: ErrorKind::Other,
            message: "first".to_owned(),
        })
    );
}

#[test]
fn interrupted_reads_go_on() {
    let mut stream = CaptureStream::new(StreamName::Stdout, Some(()), &CapturePolicy::default());
    assert!(stream.accept(Err(IoError::new(ErrorKind::Interrupted, "again"))));
    assert!(!stream.accept(Err(IoError::new(ErrorKind::WouldBlock, "later"))));
    assert!(!stream.terminal());
}

#[test]
fn waits_keep_to_quantum_deadline_and_cleanup() {
    let at = Duration::from_millis;
    assert_eq!(wait_quantum(None, None, at(5)), at(10));
    assert_eq!(wait_quantum(Some(at(8)), None, at(5)), at(3));
    assert_eq!(wait_quantum(Some(at(8)), None, at(9)), at(0));
    assert_eq!(wait_quantum(Some(at(8)), Some(at(6)), at(5)), at(1));
    assert_eq!(wait_quantum(None, Some(at(60)), at(5)), at(10));
    assert_eq!(poll_timeout(Some(at(8)), None, at(5)), 3_000_000);
    assert_eq!(cleanup_deadline(at(5)), at(2_005));
    assert_eq!(cleanup_deadline(Duration::max()), Duration::max());
    assert_eq!(cleanup_budget(), Duration::from_secs(2));
    assert_eq!(cleanup_allowance(), at(2_100));
    assert!(deadline_elapsed(Some(at(5)), at(5)));
    assert!(!deadline_elapsed(Some(at(5)), at(4)));
    assert!(!deadline_elapsed(None, at(5)));
}

#[test]
fn durations_match_the_standard_ones() {
    let own = Duration::new(3, 141_592_653);
    let standard = std::time::Duration::new(3, 141_592_653);
    assert_eq!(own.as_nanos(), standard.as_nanos());
    assert_eq!(own.as_millis(), standard.as_millis());
    assert_eq!(own.as_secs(), standard.as_secs());
    assert_eq!(own.subsec_nanos(), standard.subsec_nanos());
    assert_eq!(
        Duration::max().as_nanos(),
        std::time::Duration::MAX.as_nanos()
    );
    assert_eq!(epitelesis::time::duration_millis(own), 3_141);
    assert_eq!(
        epitelesis::time::duration_millis(Duration::max()),
        u64::MAX
    );
    assert_eq!(
        epitelesis::text::debug_duration_text(own),
        format!("{standard:?}")
    );
}

#[test]
fn owned_child_is_reaped_or_handed_over() {
    let mut owned = OwnedChild::new("child", 42, "reaper");
    assert_eq!(owned.id(), 42);
    assert_eq!(owned.leader_waitable(Ok(false)), Ok(false));
    assert_eq!(
        owned.reap_waitable(Err(IoError::other("wait failed"))),
        Err(IoError::other("wait failed"))
    );
    assert!(owned.has_child());
    assert_eq!(owned.reap_waitable(Ok(success())), Ok(success()));
    assert!(!owned.has_child());
    assert_eq!(owned.id(), 0);
    assert_eq!(owned.leader_waitable(Ok(false)), Ok(true));
    assert_eq!(
        owned.reap_waitable(Ok(success())),
        Err(IoError::other("process leader was already reaped"))
    );
    assert!(matches!(owned.begin_handoff(), Handoff::Nothing));

    let mut owned = OwnedChild::new("child", 42, "reaper");
    match owned.begin_handoff() {
        Handoff::Send { child, reaper } => {
            assert_eq!(child, "child");
            assert_eq!(reaper, "reaper");
        }
        _ => panic!("the child has to be sent"),
    }
    assert!(!owned.has_child());
    match owned.finish_handoff(Err("child")) {
        Err(failure) => {
            assert_eq!(failure.operation, "transfer child to background reaper");
            assert_eq!(failure.kind, ErrorKind::BrokenPipe);
            assert_eq!(
                failure.message,
                "background reaper stopped before ownership transfer"
            );
        }
        Ok(()) => panic!("the transfer failed"),
    }
    assert!(owned.has_child());
    match owned.begin_handoff() {
        Handoff::Unavailable(failure) => {
            assert_eq!(failure.message, "fallback reaper was unavailable");
            assert_eq!(failure.kind, ErrorKind::Other);
        }
        _ => panic!("the reaper is used up"),
    }
    assert!(owned.has_child());
    assert_eq!(owned.finish_handoff(Ok(())), Ok(()));
}

#[test]
fn unknown_evidence_knows_nothing() {
    let evidence = unknown_evidence();
    assert_eq!(evidence.leader_status, None);
    assert_eq!(evidence.elapsed, None);
    assert_eq!(evidence.signal, GroupSignalOutcome::Unknown);
    assert_eq!(evidence.reap.disposition, LeaderReapDisposition::Unknown);
    assert_eq!(evidence.cleanup, CleanupOutcome::Unknown);
    assert_eq!(
        evidence.stdout.captured.completeness,
        CaptureCompleteness::Unknown
    );
    assert_eq!(
        redirected_report(StreamName::Stderr).captured.completeness,
        CaptureCompleteness::Redirected
    );
    let secondary = SecondaryErrors::default();
    assert!(secondary.signal.is_none() && secondary.cleanup.is_none());
}

#[test]
fn lost_workers_leave_nothing_known() {
    match epitelesis::sync::joined(Err("task 1 panicked".to_owned())) {
        Err(error @ Error::SupervisionFailed { .. }) => assert_eq!(
            error.message(""),
            "failed while supervising asynchronous supervisor: task 1 panicked"
        ),
        other => panic!("expected SupervisionFailed, got {other:?}"),
    }
    let found = classify(
        Primary::Exit,
        "fixture".to_owned(),
        None,
        fixture_evidence(None, None),
    );
    assert!(epitelesis::sync::joined(Ok(found)).is_ok());
}

#[test]
fn retained_bytes_read_as_text_where_they_are_text() {
    let stream = CapturedStream::settled("καλημέρα".as_bytes().to_vec(), 0);
    assert_eq!(stream.as_str(), Ok("καλημέρα"));
    for broken in [&b"ab\xffcd"[..], &b"ab\xe2\x82"[..], &b"\xed\xa0\x80"[..]] {
        let stream = CapturedStream::incomplete(broken.to_vec(), 0);
        let standard = match std::str::from_utf8(broken) {
            Err(error) => error,
            Ok(_) => panic!("the fixture is not text"),
        };
        match stream.as_str() {
            Err(error) => {
                assert_eq!(error.valid_up_to, standard.valid_up_to());
                assert_eq!(error.error_len, standard.error_len());
            }
            Ok(_) => panic!("the fixture is not text"),
        }
    }
}
