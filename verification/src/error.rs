//! Typed errors and secondary cleanup evidence.

use vstd::prelude::*;

use crate::io::{ErrorKind, IoError};
use crate::output::{CapturedStream, LifecycleEvidence, StreamName};
use crate::capture::usize_to_u64;
use crate::policy::PolicyViolation;
use crate::text::{debug_duration_text, decimal_text};
#[allow(unused_imports)]
use crate::text::{decimal_digits, duration_debug_text};
use crate::time::Duration;

verus! {

/// Capability required for the crate's lifecycle guarantee.
#[derive(Clone, Copy, Debug, PartialEq, Eq, Structural)]
#[non_exhaustive]
pub enum Capability {
    /// A child-led process group owned through signal, settlement, and reap.
    OwnedProcessGroup,
}

/// Stable, owned representation of a secondary operating-system failure.
#[derive(Clone, Debug, PartialEq, Eq)]
pub struct FailureEvidence {
    /// Cleanup or lifecycle operation that failed.
    pub operation: &'static str,
    /// Portable error category.
    pub kind: ErrorKind,
    /// Operating-system error text.
    pub message: String,
}

impl FailureEvidence {
    /// Keeps what evidence needs of a failed operation.
    pub fn from_io(operation: &'static str, error: IoError) -> (evidence: Self)
        ensures
            evidence == (FailureEvidence { operation, kind: error.kind, message: error.message }),
    {
        FailureEvidence { operation, kind: error.kind, message: error.message }
    }
}

/// Failure of one stream's capture.
#[derive(Clone, Debug, PartialEq, Eq)]
#[non_exhaustive]
pub enum CaptureFailure {
    /// Reading the pipe returned an I/O error.
    Read {
        /// Portable error category.
        kind: ErrorKind,
        /// I/O error text.
        message: String,
    },
    /// Memory for the bytes to retain could not be reserved.
    Allocation,
}

/// Failure reported by a capture worker.
#[derive(Clone, Debug, PartialEq, Eq)]
#[non_exhaustive]
pub enum CaptureWorkerFailure {
    /// Reading the pipe returned an I/O error.
    Read {
        /// Portable error category.
        kind: ErrorKind,
        /// I/O error text.
        message: String,
    },
    /// The worker panicked; the panic was contained and typed.
    Panicked,
}

/// Deterministic report for one capture worker.
#[derive(Debug, PartialEq, Eq)]
pub struct CaptureReport {
    /// Stream this report describes.
    pub stream: StreamName,
    /// Prefix and completeness evidence retained before completion or failure.
    pub captured: CapturedStream,
    /// Worker failure, or `None` when capture completed normally.
    pub failure: Option<CaptureWorkerFailure>,
}

/// Evidence that bounded cleanup could not settle every obligation.
#[derive(Clone, Debug, PartialEq, Eq)]
pub struct CleanupIncompleteEvidence {
    /// Streams whose pipe never reached a terminal state.
    pub unfinished_streams: Vec<StreamName>,
    /// Whether the leader had not been reaped.
    pub leader_unsettled: bool,
    /// Shared cleanup budget that elapsed.
    pub cleanup_budget: Duration,
}

/// Secondary failures retained without replacing the primary outcome.
#[derive(Debug)]
pub struct SecondaryErrors {
    /// Failure while signaling the owned process group.
    pub signal: Option<FailureEvidence>,
    /// Failure while reaping the leader.
    pub reap: Option<FailureEvidence>,
    /// Stdout worker report when it failed.
    pub stdout_capture: Option<CaptureWorkerFailure>,
    /// Stderr worker report when it failed.
    pub stderr_capture: Option<CaptureWorkerFailure>,
    /// Evidence that an escaped pipe owner defeated bounded cleanup.
    pub cleanup: Option<CleanupIncompleteEvidence>,
}

impl Default for SecondaryErrors {
    fn default() -> (errors: Self)
        ensures
            errors == (SecondaryErrors {
                signal: None,
                reap: None,
                stdout_capture: None,
                stderr_capture: None,
                cleanup: None,
            }),
    {
        SecondaryErrors {
            signal: None,
            reap: None,
            stdout_capture: None,
            stderr_capture: None,
            cleanup: None,
        }
    }
}

/// Errors produced by an invocation.
#[derive(Debug)]
#[non_exhaustive]
pub enum Error {
    /// A policy was invalid before process creation.
    InvalidPolicy {
        /// Specific invalid policy fact.
        violation: PolicyViolation,
    },
    /// The current backend cannot provide owned process-group containment.
    UnsupportedCapability {
        /// Capability that was required before spawn.
        capability: Capability,
    },
    /// The background reaper could not be started.
    ReaperStartFailed {
        /// Display form of the program.
        program: String,
        /// Underlying failure.
        source: IoError,
    },
    /// The managed supervisor could not be started.
    SupervisorStartFailed {
        /// Display form of the program.
        program: String,
        /// Underlying failure.
        source: IoError,
    },
    /// The kernel refused to create the child.
    SpawnFailed {
        /// Display form of the program.
        program: String,
        /// Underlying spawn failure.
        source: IoError,
    },
    /// The leader exited non-zero; this variant owns the sole evidence payload.
    NonZeroExit {
        /// Display form of the program.
        program: String,
        /// Evidence with the leader's status.
        evidence: Box<LifecycleEvidence>,
    },
    /// The declared deadline won the serialized outcome race.
    Timeout {
        /// Display form of the program.
        program: String,
        /// Declared lifetime.
        deadline: Duration,
        /// Evidence retained until cleanup settled.
        evidence: Box<LifecycleEvidence>,
    },
    /// A fail-closed capture limit won the serialized outcome race.
    CaptureLimitExceeded {
        /// Display form of the program.
        program: String,
        /// Stream whose limit was exceeded first by deterministic precedence.
        stream: StreamName,
        /// Declared byte bound.
        limit: usize,
        /// Evidence retained until cleanup settled.
        evidence: Box<LifecycleEvidence>,
    },
    /// Explicit cancellation won the serialized outcome race.
    Cancelled {
        /// Display form of the program.
        program: String,
        /// Evidence retained until cleanup settled.
        evidence: Box<LifecycleEvidence>,
    },
    /// The capture of one or both streams failed.
    CaptureFailed {
        /// Display form of the program.
        program: String,
        /// Evidence retained until cleanup settled.
        evidence: Box<LifecycleEvidence>,
    },
    /// The supervisor could not observe or wait for the child leader.
    SupervisionFailed {
        /// Display form of the program.
        program: String,
        /// Underlying observation failure.
        source: IoError,
        /// Evidence retained until cleanup settled.
        evidence: Box<LifecycleEvidence>,
    },
    /// An obligation outlived the shared cleanup bound.
    CleanupIncomplete {
        /// Display form of the program.
        program: String,
        /// Evidence with the unsettled facts.
        evidence: Box<LifecycleEvidence>,
    },
    /// Signaling the group or reaping the leader failed.
    LifecycleFailed {
        /// Display form of the program.
        program: String,
        /// Evidence with the failures.
        evidence: Box<LifecycleEvidence>,
    },
}

/// Every error from after the spawn owns evidence, and every one from before owns none.
pub proof fn law_only_errors_after_the_spawn_own_evidence(error: Error)
    ensures
        error.spec_evidence() is None <==> error is InvalidPolicy || error is UnsupportedCapability
            || error is ReaperStartFailed || error is SupervisorStartFailed || error is SpawnFailed,
        error matches Error::NonZeroExit { evidence, .. } ==> error.spec_evidence() == Some(
            evidence,
        ),
        error matches Error::Timeout { evidence, .. } ==> error.spec_evidence() == Some(evidence),
        error matches Error::CaptureLimitExceeded { evidence, .. } ==> error.spec_evidence()
            == Some(evidence),
        error matches Error::Cancelled { evidence, .. } ==> error.spec_evidence() == Some(evidence),
        error matches Error::CaptureFailed { evidence, .. } ==> error.spec_evidence() == Some(
            evidence,
        ),
        error matches Error::SupervisionFailed { evidence, .. } ==> error.spec_evidence() == Some(
            evidence,
        ),
        error matches Error::CleanupIncomplete { evidence, .. } ==> error.spec_evidence() == Some(
            evidence,
        ),
        error matches Error::LifecycleFailed { evidence, .. } ==> error.spec_evidence() == Some(
            evidence,
        ),
{
}

/// Every sentence names the program, where there is one, and what went wrong with it.
pub proof fn law_sentences_name_the_program_and_the_cause(error: Error, status: Seq<char>)
    ensures
        error matches Error::InvalidPolicy { violation } ==> error.sentence(status)
            == "invalid invocation policy: "@ + violation.sentence(),
        error matches Error::ReaperStartFailed { program, source } ==> error.sentence(status)
            == "failed to start the background reaper for "@ + program@ + ": "@ + source.message@,
        error matches Error::SupervisorStartFailed { program, source } ==> error.sentence(status)
            == "failed to start the managed supervisor for "@ + program@ + ": "@ + source.message@,
        error matches Error::SpawnFailed { program, source } ==> error.sentence(status)
            == "failed to spawn "@ + program@ + ": "@ + source.message@,
        error matches Error::NonZeroExit { program, .. } ==> error.sentence(status)
            == program@ + " exited with non-zero status "@ + status,
        error matches Error::Timeout { program, deadline, .. } ==> error.sentence(status)
            == program@ + " timed out after "@ + duration_debug_text(deadline.nanos()),
        error matches Error::CaptureLimitExceeded { program, stream, limit, .. } ==> error.sentence(
            status,
        ) == program@ + " exceeded the "@ + (if stream == StreamName::Stdout {
            "Stdout"@
        } else {
            "Stderr"@
        }) + " capture limit of "@ + decimal_digits(limit as nat) + " bytes"@,
        error matches Error::Cancelled { program, .. } ==> error.sentence(status)
            == program@ + " was cancelled"@,
        error matches Error::CaptureFailed { program, .. } ==> error.sentence(status)
            == "capture failed while executing "@ + program@,
        error matches Error::SupervisionFailed { program, source, .. } ==> error.sentence(status)
            == "failed while supervising "@ + program@ + ": "@ + source.message@,
        error matches Error::CleanupIncomplete { program, .. } ==> error.sentence(status)
            == "cleanup incomplete while executing "@ + program@,
        error matches Error::LifecycleFailed { program, .. } ==> error.sentence(status)
            == "lifecycle settlement failed while executing "@ + program@,
{
}

impl Error {
    /// The evidence that a post-spawn error owns.
    pub open spec fn spec_evidence(self) -> Option<Box<LifecycleEvidence>> {
        match self {
            Error::NonZeroExit { evidence, .. } => Some(evidence),
            Error::Timeout { evidence, .. } => Some(evidence),
            Error::CaptureLimitExceeded { evidence, .. } => Some(evidence),
            Error::Cancelled { evidence, .. } => Some(evidence),
            Error::CaptureFailed { evidence, .. } => Some(evidence),
            Error::SupervisionFailed { evidence, .. } => Some(evidence),
            Error::CleanupIncomplete { evidence, .. } => Some(evidence),
            Error::LifecycleFailed { evidence, .. } => Some(evidence),
            _ => None,
        }
    }

    /// Borrows the evidence that a post-spawn error owns.
    #[must_use]
    pub fn evidence(&self) -> (evidence: Option<&Box<LifecycleEvidence>>)
        ensures
            match evidence {
                Some(owned) => self.spec_evidence() == Some(*owned),
                None => self.spec_evidence() is None,
            },
    {
        match self {
            Error::NonZeroExit { evidence, .. } => Some(evidence),
            Error::Timeout { evidence, .. } => Some(evidence),
            Error::CaptureLimitExceeded { evidence, .. } => Some(evidence),
            Error::Cancelled { evidence, .. } => Some(evidence),
            Error::CaptureFailed { evidence, .. } => Some(evidence),
            Error::SupervisionFailed { evidence, .. } => Some(evidence),
            Error::CleanupIncomplete { evidence, .. } => Some(evidence),
            Error::LifecycleFailed { evidence, .. } => Some(evidence),
            _ => None,
        }
    }

    /// The sentence that reports the error. `status` is the rendered status of a non-zero
    /// exit.
    pub open spec fn sentence(self, status: Seq<char>) -> Seq<char> {
        match self {
            Error::InvalidPolicy { violation } => "invalid invocation policy: "@
                + violation.sentence(),
            Error::UnsupportedCapability { capability } => match capability {
                Capability::OwnedProcessGroup => "unsupported invocation capability: OwnedProcessGroup"@,
            },
            Error::ReaperStartFailed { program, source } =>
                "failed to start the background reaper for "@ + program@ + ": "@ + source.message@,
            Error::SupervisorStartFailed { program, source } =>
                "failed to start the managed supervisor for "@ + program@ + ": "@ + source.message@,
            Error::SpawnFailed { program, source } => "failed to spawn "@ + program@ + ": "@
                + source.message@,
            Error::NonZeroExit { program, evidence: _ } => program@
                + " exited with non-zero status "@ + status,
            Error::Timeout { program, deadline, evidence: _ } => program@ + " timed out after "@
                + duration_debug_text(deadline.nanos()),
            Error::CaptureLimitExceeded { program, stream, limit, evidence: _ } => program@
                + " exceeded the "@ + stream.spec_name() + " capture limit of "@
                + decimal_digits(limit as nat) + " bytes"@,
            Error::Cancelled { program, evidence: _ } => program@ + " was cancelled"@,
            Error::CaptureFailed { program, evidence: _ } => "capture failed while executing "@
                + program@,
            Error::SupervisionFailed { program, source, evidence: _ } =>
                "failed while supervising "@ + program@ + ": "@ + source.message@,
            Error::CleanupIncomplete { program, evidence: _ } =>
                "cleanup incomplete while executing "@ + program@,
            Error::LifecycleFailed { program, evidence: _ } =>
                "lifecycle settlement failed while executing "@ + program@,
        }
    }

    /// Renders the sentence that reports the error. `status` is the rendered status, which
    /// only a non-zero exit uses.
    #[must_use]
    pub fn message(&self, status: &str) -> (sentence: String)
        ensures
            sentence@ == self.sentence(status@),
    {
        match self {
            Error::InvalidPolicy { violation } => "invalid invocation policy: ".to_owned().concat(
                violation.message().as_str(),
            ),
            Error::UnsupportedCapability { capability } => match capability {
                Capability::OwnedProcessGroup => "unsupported invocation capability: OwnedProcessGroup".to_owned(),
            },
            Error::ReaperStartFailed { program, source } =>
                "failed to start the background reaper for ".to_owned().concat(
                program.as_str(),
            ).concat(": ").concat(source.message.as_str()),
            Error::SupervisorStartFailed { program, source } =>
                "failed to start the managed supervisor for ".to_owned().concat(
                program.as_str(),
            ).concat(": ").concat(source.message.as_str()),
            Error::SpawnFailed { program, source } => "failed to spawn ".to_owned().concat(
                program.as_str(),
            ).concat(": ").concat(source.message.as_str()),
            Error::NonZeroExit { program, .. } => program.clone().concat(
                " exited with non-zero status ",
            ).concat(status),
            Error::Timeout { program, deadline, .. } => program.clone().concat(
                " timed out after ",
            ).concat(debug_duration_text(*deadline).as_str()),
            Error::CaptureLimitExceeded { program, stream, limit, .. } => program.clone().concat(
                " exceeded the ",
            ).concat(stream.name()).concat(" capture limit of ").concat(
                decimal_text(usize_to_u64(*limit)).as_str(),
            ).concat(" bytes"),
            Error::Cancelled { program, .. } => program.clone().concat(" was cancelled"),
            Error::CaptureFailed { program, .. } => "capture failed while executing ".to_owned().concat(
                program.as_str(),
            ),
            Error::SupervisionFailed { program, source, .. } =>
                "failed while supervising ".to_owned().concat(program.as_str()).concat(": ").concat(
                source.message.as_str(),
            ),
            Error::CleanupIncomplete { program, .. } =>
                "cleanup incomplete while executing ".to_owned().concat(program.as_str()),
            Error::LifecycleFailed { program, .. } =>
                "lifecycle settlement failed while executing ".to_owned().concat(program.as_str()),
        }
    }
}

} // verus!
