//! Which outcome wins an invocation, and what the caller is told.

use vstd::prelude::*;

use crate::error::{Error, FailureEvidence};
#[allow(unused_imports)]
use crate::io::is_absent_code;
use crate::io::{no_such_process_code, ErrorKind, IoError};
use crate::output::{
    CaptureCompleteness, CaptureReport, CapturedStream, CleanupOutcome, ExitStatus,
    GroupSignalOutcome, LeaderReapDisposition, LeaderReapOutcome, LifecycleEvidence, ManagedOutput,
    Output, StreamName,
};
use crate::time::Duration;

verus! {

/// What the supervisor has seen so far.
pub struct Observations {
    /// Whether cancellation was requested.
    pub cancelled: bool,
    /// Whether the deadline has passed.
    pub deadline_elapsed: bool,
    /// Whether the leader has exited and can be reaped without waiting.
    pub leader_waitable: bool,
    /// The first failure to observe the leader or the pipes.
    pub observe_error: Option<IoError>,
    /// Failures while settling the leader, in order.
    pub reap_failures: Vec<FailureEvidence>,
}

/// What [`Observations`] stands for.
#[verifier::ext_equal]
pub struct Seen {
    /// Whether cancellation was requested.
    pub cancelled: bool,
    /// Whether the deadline has passed.
    pub deadline_elapsed: bool,
    /// Whether the leader has exited and can be reaped without waiting.
    pub leader_waitable: bool,
    /// The first failure to observe the leader or the pipes.
    pub observe_error: Option<IoError>,
    /// Failures while settling the leader, in order.
    pub reap_failures: Seq<FailureEvidence>,
}

impl View for Observations {
    type V = Seen;

    open spec fn view(&self) -> Seen {
        Seen {
            cancelled: self.cancelled,
            deadline_elapsed: self.deadline_elapsed,
            leader_waitable: self.leader_waitable,
            observe_error: self.observe_error,
            reap_failures: self.reap_failures@,
        }
    }
}

impl Seen {
    /// Nothing seen.
    pub open spec fn nothing() -> Self {
        Seen {
            cancelled: false,
            deadline_elapsed: false,
            leader_waitable: false,
            observe_error: None,
            reap_failures: Seq::empty(),
        }
    }

    /// Whether the leader still has to be looked at.
    pub open spec fn leader_in_question(self, has_child: bool) -> bool {
        !self.leader_waitable && self.observe_error is None && has_child
    }

    /// After a failure to observe: the first one counts.
    pub open spec fn failing(self, error: IoError) -> Self {
        Seen {
            observe_error: if self.observe_error is Some {
                self.observe_error
            } else {
                Some(error)
            },
            ..self
        }
    }

    /// After a look at the leader; an interrupted look says nothing.
    pub open spec fn looked(self, leader: Result<bool, IoError>) -> Self {
        match leader {
            Ok(waitable) => Seen { leader_waitable: waitable, ..self },
            Err(error) => if error.kind == ErrorKind::Interrupted {
                self
            } else {
                Seen { observe_error: Some(error), ..self }
            },
        }
    }

    /// Whether supervision is over and cleanup has to start.
    pub open spec fn settles(self, overflow: bool, capture_failed: bool) -> bool {
        overflow || self.cancelled || self.deadline_elapsed || capture_failed || self.observe_error
            is Some || self.leader_waitable
    }

    /// The outcome that wins: a crossed limit, stdout first, before cancellation, the
    /// deadline, a failure to observe, and the leader's exit.
    pub open spec fn primary(
        self,
        stdout_overflow: Option<usize>,
        stderr_overflow: Option<usize>,
    ) -> Primary {
        if stdout_overflow is Some {
            Primary::Limit { stream: StreamName::Stdout, limit: stdout_overflow->0 }
        } else if stderr_overflow is Some {
            Primary::Limit { stream: StreamName::Stderr, limit: stderr_overflow->0 }
        } else if self.cancelled {
            Primary::Cancelled
        } else if self.deadline_elapsed {
            Primary::Deadline
        } else if self.observe_error is Some {
            Primary::Supervision(self.observe_error->0)
        } else {
            Primary::Exit
        }
    }
}

impl Default for Observations {
    fn default() -> (observations: Self)
        ensures
            observations@ == Seen::nothing(),
    {
        Observations {
            cancelled: false,
            deadline_elapsed: false,
            leader_waitable: false,
            observe_error: None,
            reap_failures: Vec::new(),
        }
    }
}

impl Observations {
    /// Whether the leader still has to be looked at.
    pub fn leader_in_question(&self, has_child: bool) -> (asked: bool)
        ensures
            asked == self@.leader_in_question(has_child),
    {
        !self.leader_waitable && self.observe_error.is_none() && has_child
    }

    /// Takes note of a failure to observe; the first one counts.
    pub fn record_error(&mut self, error: IoError)
        ensures
            final(self)@ == old(self)@.failing(error),
    {
        if self.observe_error.is_none() {
            self.observe_error = Some(error);
        }
    }

    /// Takes note of what a look at the leader showed.
    pub fn observe_leader(&mut self, leader: Result<bool, IoError>)
        ensures
            final(self)@ == old(self)@.looked(leader),
    {
        match leader {
            Ok(waitable) => {
                self.leader_waitable = waitable;
            },
            Err(error) => {
                if !error.is_interrupted() {
                    self.observe_error = Some(error);
                }
            },
        }
    }
}

/// The outcome that won an invocation.
#[derive(Debug)]
pub enum Primary {
    /// A fail-closed stream crossed its limit.
    Limit {
        /// The stream.
        stream: StreamName,
        /// Its limit.
        limit: usize,
    },
    /// Cancellation.
    Cancelled,
    /// The deadline.
    Deadline,
    /// A capture failure.
    CaptureFailure,
    /// A failure to observe the child.
    Supervision(IoError),
    /// The leader's exit.
    Exit,
}

/// Whether supervision is over and cleanup has to start.
pub fn settlement_triggered(observations: &Observations, overflow: bool, capture_failed: bool) -> (
triggered: bool)
    ensures
        triggered == observations@.settles(overflow, capture_failed),
{
    overflow || observations.cancelled || observations.deadline_elapsed || capture_failed
        || observations.observe_error.is_some() || observations.leader_waitable
}

/// Chooses the outcome that wins. A failure to observe that wins is taken out of the
/// observations.
pub fn choose_primary(
    observations: &mut Observations,
    stdout_overflow: Option<usize>,
    stderr_overflow: Option<usize>,
) -> (primary: Primary)
    ensures
        primary == old(observations)@.primary(stdout_overflow, stderr_overflow),
        final(observations)@ == (Seen {
            observe_error: if primary is Supervision {
                None
            } else {
                old(observations)@.observe_error
            },
            ..old(observations)@
        }),
{
    if let Some(limit) = stdout_overflow {
        return Primary::Limit { stream: StreamName::Stdout, limit };
    }
    if let Some(limit) = stderr_overflow {
        return Primary::Limit { stream: StreamName::Stderr, limit };
    }
    if observations.cancelled {
        return Primary::Cancelled;
    }
    if observations.deadline_elapsed {
        return Primary::Deadline;
    }
    match observations.observe_error.take() {
        Some(error) => Primary::Supervision(error),
        None => Primary::Exit,
    }
}

/// What the evidence says about an invocation that nothing but the leader's exit ended.
pub enum ExitClass {
    /// An obligation outlived the cleanup budget.
    CleanupIncomplete,
    /// Whether cleanup was complete is not known.
    CleanupUnknown,
    /// What became of the signal or the reap is not known.
    SettlementUnknown,
    /// Signaling or reaping failed.
    LifecycleFailed,
    /// The leader exited with code zero.
    Success(ExitStatus),
    /// The leader ended otherwise.
    NonZero,
    /// The leader's status is missing.
    NoStatus,
}

/// What the evidence says about an invocation that nothing but the leader's exit ended.
pub open spec fn exit_class(evidence: LifecycleEvidence) -> ExitClass {
    if evidence.cleanup is Incomplete {
        ExitClass::CleanupIncomplete
    } else if evidence.cleanup is Unknown {
        ExitClass::CleanupUnknown
    } else if evidence.signal is Unknown || evidence.reap.disposition
        == LeaderReapDisposition::Unknown {
        ExitClass::SettlementUnknown
    } else if evidence.signal is Failed || evidence.reap.failures@.len() > 0
        || evidence.reap.disposition == LeaderReapDisposition::Unreaped {
        ExitClass::LifecycleFailed
    } else {
        match evidence.leader_status {
            Some(status) => if status.word() == 0 {
                ExitClass::Success(status)
            } else {
                ExitClass::NonZero
            },
            None => ExitClass::NoStatus,
        }
    }
}

/// Whether `error` reports, with this text, a failure of the supervision itself.
pub open spec fn supervision_failed(
    error: Error,
    program: String,
    message: Seq<char>,
    evidence: Box<LifecycleEvidence>,
) -> bool {
    error matches Error::SupervisionFailed { program: named, source, evidence: kept } && named
        == program && kept == evidence && source.is_made_of(ErrorKind::Other, message)
}

/// Whether `error` is what the caller is told of an exit of this class.
pub open spec fn is_exit_error(
    class: ExitClass,
    program: String,
    evidence: Box<LifecycleEvidence>,
    error: Error,
) -> bool {
    match class {
        ExitClass::CleanupIncomplete => error == (Error::CleanupIncomplete { program, evidence }),
        ExitClass::CleanupUnknown => supervision_failed(
            error,
            program,
            "cleanup outcome was not recovered"@,
            evidence,
        ),
        ExitClass::SettlementUnknown => supervision_failed(
            error,
            program,
            "signal or reap outcome was not recovered"@,
            evidence,
        ),
        ExitClass::LifecycleFailed => error == (Error::LifecycleFailed { program, evidence }),
        ExitClass::Success(_) => false,
        ExitClass::NonZero => error == (Error::NonZeroExit { program, evidence }),
        ExitClass::NoStatus => supervision_failed(
            error,
            program,
            "process leader had no reaped status"@,
            evidence,
        ),
    }
}

/// The outcome that wins once the evidence is in: a capture failure comes after a crossed
/// limit, cancellation and the deadline, but before the rest.
pub open spec fn with_capture_failures(primary: Primary, evidence: LifecycleEvidence) -> Primary {
    if evidence.spec_first_capture_failure() is Some {
        match primary {
            Primary::CaptureFailure => Primary::CaptureFailure,
            Primary::Supervision(_) => Primary::CaptureFailure,
            Primary::Exit => Primary::CaptureFailure,
            _ => primary,
        }
    } else {
        primary
    }
}

/// Whether `error` is what the caller of a captured run is told of the outcome `primary`.
pub open spec fn is_run_error(
    primary: Primary,
    program: String,
    deadline: Option<Duration>,
    evidence: Box<LifecycleEvidence>,
    error: Error,
) -> bool {
    match primary {
        Primary::Limit { stream, limit } => error == (Error::CaptureLimitExceeded {
            program,
            stream,
            limit,
            evidence,
        }),
        Primary::Cancelled => error == (Error::Cancelled { program, evidence }),
        Primary::Deadline => match deadline {
            Some(configured) => error == (Error::Timeout {
                program,
                deadline: configured,
                evidence,
            }),
            None => supervision_failed(
                error,
                program,
                "deadline elapsed without a configured deadline"@,
                evidence,
            ),
        },
        Primary::CaptureFailure => error == (Error::CaptureFailed { program, evidence }),
        Primary::Supervision(source) => error == (Error::SupervisionFailed {
            program,
            source,
            evidence,
        }),
        Primary::Exit => is_exit_error(exit_class(*evidence), program, evidence, error),
    }
}

/// Whether `result` is what the caller of a captured run is told.
pub open spec fn is_run_result(
    primary: Primary,
    program: String,
    deadline: Option<Duration>,
    evidence: Box<LifecycleEvidence>,
    result: Result<Output, Error>,
) -> bool {
    let winner = with_capture_failures(primary, *evidence);
    match result {
        Ok(output) => winner is Exit && exit_class(*evidence) == ExitClass::Success(output.status)
            && output.evidence == evidence,
        Err(error) => is_run_error(winner, program, deadline, evidence, error),
    }
}

/// Whether `result` is what the owner of a managed child is told. There is no supervisor
/// capture here that could cross a limit, so a limit reads as a capture failure.
pub open spec fn is_managed_result(
    primary: Primary,
    program: String,
    deadline: Option<Duration>,
    evidence: Box<LifecycleEvidence>,
    result: Result<ManagedOutput, Error>,
) -> bool {
    let winner = if primary is Limit {
        Primary::CaptureFailure
    } else {
        primary
    };
    match result {
        Ok(output) => winner is Exit && exit_class(*evidence) == ExitClass::Success(output.status)
            && output.evidence == evidence,
        Err(error) => is_run_error(winner, program, deadline, evidence, error),
    }
}

/// No terminal result of a captured run loses its evidence: the output or the error owns it.
pub proof fn law_run_results_own_their_evidence(
    primary: Primary,
    program: String,
    deadline: Option<Duration>,
    evidence: Box<LifecycleEvidence>,
    result: Result<Output, Error>,
)
    requires
        is_run_result(primary, program, deadline, evidence, result),
    ensures
        match result {
            Ok(output) => output.evidence == evidence,
            Err(error) => error.spec_evidence() == Some(evidence),
        },
{
}

/// No terminal result of a managed child loses its evidence.
pub proof fn law_managed_results_own_their_evidence(
    primary: Primary,
    program: String,
    deadline: Option<Duration>,
    evidence: Box<LifecycleEvidence>,
    result: Result<ManagedOutput, Error>,
)
    requires
        is_managed_result(primary, program, deadline, evidence, result),
    ensures
        match result {
            Ok(output) => output.evidence == evidence,
            Err(error) => error.spec_evidence() == Some(evidence),
        },
{
}

/// A crossed limit, cancellation and the deadline are reported as such, whatever else went
/// wrong; a capture failure is reported before a failure to observe and before any exit.
pub proof fn law_primary_outcomes_are_reported(
    seen: Seen,
    stdout_overflow: Option<usize>,
    stderr_overflow: Option<usize>,
    program: String,
    configured: Duration,
    evidence: Box<LifecycleEvidence>,
    result: Result<Output, Error>,
)
    requires
        is_run_result(
            seen.primary(stdout_overflow, stderr_overflow),
            program,
            Some(configured),
            evidence,
            result,
        ),
    ensures
        stdout_overflow matches Some(limit) ==> result == Err::<Output, Error>(
            Error::CaptureLimitExceeded { program, stream: StreamName::Stdout, limit, evidence },
        ),
        stdout_overflow is None ==> (stderr_overflow matches Some(limit) ==> result == Err::<
            Output,
            Error,
        >(Error::CaptureLimitExceeded { program, stream: StreamName::Stderr, limit, evidence })),
        stdout_overflow is None && stderr_overflow is None && seen.cancelled ==> result == Err::<
            Output,
            Error,
        >(Error::Cancelled { program, evidence }),
        stdout_overflow is None && stderr_overflow is None && !seen.cancelled
            && seen.deadline_elapsed ==> result == Err::<Output, Error>(
            Error::Timeout { program, deadline: configured, evidence },
        ),
        stdout_overflow is None && stderr_overflow is None && !seen.cancelled
            && !seen.deadline_elapsed && evidence.spec_first_capture_failure() is Some ==> result
            == Err::<Output, Error>(Error::CaptureFailed { program, evidence }),
{
}

/// What the caller of a captured run is told follows from what was seen and from the evidence:
/// a crossed limit, stdout's first, before cancellation, that before the deadline, that before
/// a failed capture, that before a failure to observe, and that before the leader's exit. An
/// exit succeeds exactly where cleanup was complete, the group was signaled or gone, the leader
/// was reaped or handed over without failures, and its status word is zero.
pub proof fn law_run_results_follow_from_the_facts(
    seen: Seen,
    stdout_overflow: Option<usize>,
    stderr_overflow: Option<usize>,
    program: String,
    deadline: Option<Duration>,
    evidence: Box<LifecycleEvidence>,
    result: Result<Output, Error>,
)
    requires
        is_run_result(seen.primary(stdout_overflow, stderr_overflow), program, deadline, evidence, result),
    ensures
        ({
            let crossed = stdout_overflow is Some || stderr_overflow is Some;
            let failed = evidence.stdout.failure is Some || evidence.stderr.failure is Some;
            let exited = !crossed && !seen.cancelled && !seen.deadline_elapsed && !failed
                && seen.observe_error is None;
            let known = !(evidence.signal is Unknown) && evidence.reap.disposition
                != LeaderReapDisposition::Unknown;
            let troubled = evidence.signal is Failed || evidence.reap.failures@.len() > 0
                || evidence.reap.disposition == LeaderReapDisposition::Unreaped;
            let clean = evidence.cleanup is Complete && known && !troubled;
            &&& stdout_overflow matches Some(limit) ==> result == Err::<Output, Error>(
                Error::CaptureLimitExceeded {
                    program,
                    stream: StreamName::Stdout,
                    limit,
                    evidence,
                },
            )
            &&& stdout_overflow is None ==> (stderr_overflow matches Some(limit) ==> result == Err::<
                Output,
                Error,
            >(
                Error::CaptureLimitExceeded {
                    program,
                    stream: StreamName::Stderr,
                    limit,
                    evidence,
                },
            ))
            &&& !crossed && seen.cancelled ==> result == Err::<Output, Error>(
                Error::Cancelled { program, evidence },
            )
            &&& !crossed && !seen.cancelled && seen.deadline_elapsed ==> (deadline matches Some(
                configured,
            ) ==> result == Err::<Output, Error>(
                Error::Timeout { program, deadline: configured, evidence },
            ))
            &&& !crossed && !seen.cancelled && !seen.deadline_elapsed && failed ==> result == Err::<
                Output,
                Error,
            >(Error::CaptureFailed { program, evidence })
            &&& !crossed && !seen.cancelled && !seen.deadline_elapsed && !failed && seen.observe_error is Some
                ==> result == Err::<Output, Error>(
                Error::SupervisionFailed { program, source: seen.observe_error->0, evidence },
            )
            &&& exited && evidence.cleanup is Incomplete ==> result == Err::<Output, Error>(
                Error::CleanupIncomplete { program, evidence },
            )
            &&& exited && evidence.cleanup is Complete && known && troubled ==> result == Err::<
                Output,
                Error,
            >(Error::LifecycleFailed { program, evidence })
            &&& exited && clean ==> (evidence.leader_status matches Some(status) ==> if status.word()
                == 0 {
                result == Ok::<Output, Error>(Output { evidence, status })
            } else {
                result == Err::<Output, Error>(Error::NonZeroExit { program, evidence })
            })
            &&& result matches Ok(output) ==> exited && clean && evidence.leader_status == Some(
                output.status,
            ) && output.status.word() == 0 && output.evidence == evidence
            &&& exited && (evidence.cleanup is Unknown || (evidence.cleanup is Complete && !known)
                || (clean && evidence.leader_status is None)) ==> (result matches Err(
                Error::SupervisionFailed { program: named, evidence: kept, .. },
            ) && named == program && kept == evidence)
        }),
{
}

/// What the owner of a managed child is told follows from what was seen and from the evidence:
/// cancellation before the deadline, the deadline before a failure to observe, and that before
/// the leader's exit. An exit succeeds exactly where cleanup was complete, the group was
/// signaled or gone, the leader was reaped or handed over without failures, and its status word
/// is zero.
pub proof fn law_managed_results_follow_from_the_facts(
    seen: Seen,
    program: String,
    deadline: Option<Duration>,
    evidence: Box<LifecycleEvidence>,
    result: Result<ManagedOutput, Error>,
)
    requires
        is_managed_result(seen.primary(None, None), program, deadline, evidence, result),
    ensures
        ({
            let exited = !seen.cancelled && !seen.deadline_elapsed && seen.observe_error is None;
            let known = !(evidence.signal is Unknown) && evidence.reap.disposition
                != LeaderReapDisposition::Unknown;
            let troubled = evidence.signal is Failed || evidence.reap.failures@.len() > 0
                || evidence.reap.disposition == LeaderReapDisposition::Unreaped;
            let clean = evidence.cleanup is Complete && known && !troubled;
            &&& seen.cancelled ==> result == Err::<ManagedOutput, Error>(
                Error::Cancelled { program, evidence },
            )
            &&& !seen.cancelled && seen.deadline_elapsed ==> (deadline matches Some(
                configured,
            ) ==> result == Err::<ManagedOutput, Error>(
                Error::Timeout { program, deadline: configured, evidence },
            ))
            &&& !seen.cancelled && !seen.deadline_elapsed && seen.observe_error is Some
                ==> result == Err::<ManagedOutput, Error>(
                Error::SupervisionFailed { program, source: seen.observe_error->0, evidence },
            )
            &&& exited && evidence.cleanup is Incomplete ==> result == Err::<ManagedOutput, Error>(
                Error::CleanupIncomplete { program, evidence },
            )
            &&& exited && evidence.cleanup is Complete && known && troubled ==> result == Err::<
                ManagedOutput,
                Error,
            >(Error::LifecycleFailed { program, evidence })
            &&& exited && clean ==> (evidence.leader_status matches Some(status) ==> if status.word()
                == 0 {
                result == Ok::<ManagedOutput, Error>(ManagedOutput { evidence, status })
            } else {
                result == Err::<ManagedOutput, Error>(Error::NonZeroExit { program, evidence })
            })
            &&& result matches Ok(output) ==> exited && clean && evidence.leader_status == Some(
                output.status,
            ) && output.status.word() == 0 && output.evidence == evidence
            &&& exited && (evidence.cleanup is Unknown || (evidence.cleanup is Complete && !known)
                || (clean && evidence.leader_status is None)) ==> (result matches Err(
                Error::SupervisionFailed { program: named, evidence: kept, .. },
            ) && named == program && kept == evidence)
        }),
{
}

fn deadline_error(
    program: String,
    deadline: Option<Duration>,
    evidence: Box<LifecycleEvidence>,
) -> (error: Error)
    ensures
        is_run_error(Primary::Deadline, program, deadline, evidence, error),
{
    match deadline {
        Some(configured) => Error::Timeout { program, deadline: configured, evidence },
        None => Error::SupervisionFailed {
            program,
            source: IoError::other("deadline elapsed without a configured deadline"),
            evidence,
        },
    }
}

/// Tells the caller of a captured run what became of it.
pub fn classify(
    primary: Primary,
    program: String,
    deadline: Option<Duration>,
    evidence: Box<LifecycleEvidence>,
) -> (result: Result<Output, Error>)
    ensures
        is_run_result(primary, program, deadline, evidence, result),
{
    let mut primary = primary;
    if evidence.stdout.failure.is_some() || evidence.stderr.failure.is_some() {
        primary = match primary {
            Primary::Limit { stream, limit } => Primary::Limit { stream, limit },
            Primary::Cancelled => Primary::Cancelled,
            Primary::Deadline => Primary::Deadline,
            Primary::CaptureFailure => Primary::CaptureFailure,
            Primary::Supervision(_) => Primary::CaptureFailure,
            Primary::Exit => Primary::CaptureFailure,
        };
    }
    match primary {
        Primary::Limit { stream, limit } => Err(
            Error::CaptureLimitExceeded { program, stream, limit, evidence },
        ),
        Primary::Cancelled => Err(Error::Cancelled { program, evidence }),
        Primary::Deadline => Err(deadline_error(program, deadline, evidence)),
        Primary::CaptureFailure => Err(Error::CaptureFailed { program, evidence }),
        Primary::Supervision(source) => Err(
            Error::SupervisionFailed { program, source, evidence },
        ),
        Primary::Exit => match classify_exit(program, evidence) {
            Ok((status, evidence)) => Ok(Output::new(status, evidence)),
            Err(error) => Err(error),
        },
    }
}

/// Tells the owner of a managed child what became of it.
pub fn classify_managed(
    primary: Primary,
    program: String,
    deadline: Option<Duration>,
    evidence: Box<LifecycleEvidence>,
) -> (result: Result<ManagedOutput, Error>)
    ensures
        is_managed_result(primary, program, deadline, evidence, result),
{
    match primary {
        Primary::Limit { .. } => Err(Error::CaptureFailed { program, evidence }),
        Primary::CaptureFailure => Err(Error::CaptureFailed { program, evidence }),
        Primary::Cancelled => Err(Error::Cancelled { program, evidence }),
        Primary::Deadline => Err(deadline_error(program, deadline, evidence)),
        Primary::Supervision(source) => Err(
            Error::SupervisionFailed { program, source, evidence },
        ),
        Primary::Exit => match classify_exit(program, evidence) {
            Ok((status, evidence)) => Ok(ManagedOutput::new(status, evidence)),
            Err(error) => Err(error),
        },
    }
}

/// Judges an invocation that nothing but the leader's exit ended: it succeeds only if every
/// obligation was settled and the leader exited with code zero.
pub fn classify_exit(program: String, evidence: Box<LifecycleEvidence>) -> (result: Result<
    (ExitStatus, Box<LifecycleEvidence>),
    Error,
>)
    ensures
        match result {
            Ok((status, kept)) => exit_class(*evidence) == ExitClass::Success(status) && kept
                == evidence,
            Err(error) => is_exit_error(exit_class(*evidence), program, evidence, error),
        },
{
    match &evidence.cleanup {
        CleanupOutcome::Incomplete(_) => {
            return Err(Error::CleanupIncomplete { program, evidence });
        },
        CleanupOutcome::Unknown => {
            return Err(
                Error::SupervisionFailed {
                    program,
                    source: IoError::other("cleanup outcome was not recovered"),
                    evidence,
                },
            );
        },
        CleanupOutcome::Complete => {},
    }
    let signal_unknown = match &evidence.signal {
        GroupSignalOutcome::Unknown => true,
        _ => false,
    };
    if signal_unknown || evidence.reap.disposition == LeaderReapDisposition::Unknown {
        return Err(
            Error::SupervisionFailed {
                program,
                source: IoError::other("signal or reap outcome was not recovered"),
                evidence,
            },
        );
    }
    let signal_failed = match &evidence.signal {
        GroupSignalOutcome::Failed(_) => true,
        _ => false,
    };
    if signal_failed || evidence.reap.failures.len() > 0 || evidence.reap.disposition
        == LeaderReapDisposition::Unreaped {
        return Err(Error::LifecycleFailed { program, evidence });
    }
    match evidence.leader_status {
        Some(status) => {
            if status.success() {
                Ok((status, evidence))
            } else {
                Err(Error::NonZeroExit { program, evidence })
            }
        },
        None => Err(
            Error::SupervisionFailed {
                program,
                source: IoError::other("process leader had no reaped status"),
                evidence,
            },
        ),
    }
}

/// Whether `report` reports an unread stream.
pub open spec fn is_empty_report(
    report: CaptureReport,
    stream: StreamName,
    completeness: CaptureCompleteness,
) -> bool {
    &&& report.stream == stream
    &&& report.captured.bytes@ == Seq::<u8>::empty()
    &&& report.captured.completeness == completeness
    &&& report.failure is None
}

/// Reports a stream that the supervisor does not read.
pub fn redirected_report(stream: StreamName) -> (report: CaptureReport)
    ensures
        is_empty_report(report, stream, CaptureCompleteness::Redirected),
{
    CaptureReport { stream, captured: CapturedStream::redirected(), failure: None }
}

/// Reports a stream whose evidence could not be recovered.
pub fn unknown_report(stream: StreamName) -> (report: CaptureReport)
    ensures
        is_empty_report(report, stream, CaptureCompleteness::Unknown),
{
    CaptureReport { stream, captured: CapturedStream::unknown(), failure: None }
}

/// Whether nothing is known of an invocation.
pub open spec fn is_unknown_evidence(evidence: LifecycleEvidence) -> bool {
    &&& evidence.leader_status is None
    &&& evidence.elapsed is None
    &&& evidence.signal == GroupSignalOutcome::Unknown
    &&& evidence.reap.disposition == LeaderReapDisposition::Unknown
    &&& evidence.reap.failures@.len() == 0
    &&& is_empty_report(evidence.stdout, StreamName::Stdout, CaptureCompleteness::Unknown)
    &&& is_empty_report(evidence.stderr, StreamName::Stderr, CaptureCompleteness::Unknown)
    &&& evidence.cleanup == CleanupOutcome::Unknown
}

/// Evidence of an invocation of which nothing could be recovered.
pub fn unknown_evidence() -> (evidence: Box<LifecycleEvidence>)
    ensures
        is_unknown_evidence(*evidence),
{
    Box::new(
        LifecycleEvidence {
            leader_status: None,
            elapsed: None,
            signal: GroupSignalOutcome::Unknown,
            reap: LeaderReapOutcome {
                disposition: LeaderReapDisposition::Unknown,
                failures: Vec::new(),
            },
            stdout: unknown_report(StreamName::Stdout),
            stderr: unknown_report(StreamName::Stderr),
            cleanup: CleanupOutcome::Unknown,
        },
    )
}

/// What a signal attempt amounts to, where `absent` is the code with which the platform
/// reports a process group as absent: an absent group needs no signal.
pub open spec fn signal_outcome(attempt: Result<(), IoError>, absent: i32) -> GroupSignalOutcome {
    match attempt {
        Ok(_) => GroupSignalOutcome::Sent,
        Err(error) => if error.raw_os_error == Some(absent) {
            GroupSignalOutcome::AlreadyGone
        } else {
            GroupSignalOutcome::Failed(
                FailureEvidence {
                    operation: "signal process group",
                    kind: error.kind,
                    message: error.message,
                },
            )
        },
    }
}

/// What is made of an attempt to signal the group: it was sent where the attempt succeeded, the
/// group was gone where it failed with the code of an absent group, and any other failure is
/// kept with its category and its text.
pub proof fn law_signal_attempts_are_judged_by_their_code(
    attempt: Result<(), IoError>,
    absent: i32,
)
    ensures
        attempt is Ok <==> signal_outcome(attempt, absent) is Sent,
        attempt matches Err(error) ==> (error.raw_os_error == Some(absent) <==> signal_outcome(
            attempt,
            absent,
        ) is AlreadyGone),
        attempt matches Err(error) ==> (error.raw_os_error != Some(absent) <==> (signal_outcome(
            attempt,
            absent,
        ) matches GroupSignalOutcome::Failed(failure) && failure.kind == error.kind
            && failure.message == error.message && failure.operation == "signal process group")),
{
}

/// Judges an attempt to signal the process group, given the code with which the platform
/// reports a group as absent.
pub fn judge_signal(attempt: Result<(), IoError>, absent: i32) -> (outcome: GroupSignalOutcome)
    ensures
        outcome == signal_outcome(attempt, absent),
{
    match attempt {
        Ok(_) => GroupSignalOutcome::Sent,
        Err(error) => {
            let gone = match error.raw_os_error {
                Some(code) => code == absent,
                None => false,
            };
            if gone {
                GroupSignalOutcome::AlreadyGone
            } else {
                GroupSignalOutcome::Failed(FailureEvidence::from_io("signal process group", error))
            }
        },
    }
}

/// Judges an attempt to signal the process group.
///
/// The code with which a group is reported as absent is the platform's.
pub fn signal_group(attempt: Result<(), IoError>) -> (outcome: GroupSignalOutcome)
    ensures
        exists|absent: i32| outcome == #[trigger] signal_outcome(attempt, absent),
        exists|absent: i32|
            #[trigger] is_absent_code(absent) && outcome == signal_outcome(attempt, absent),
        !(outcome is Unknown),
{
    let absent: i32 = no_such_process_code();
    assert(is_absent_code(absent));
    judge_signal(attempt, absent)
}

} // verus!
