//! Captured output and aggregate lifecycle evidence.

use vstd::prelude::*;
#[allow(unused_imports)]
use vstd::utf8::{decode_utf8, valid_utf8};

use crate::error::{CaptureFailure, CleanupIncompleteEvidence, FailureEvidence};
use crate::text::from_utf8;
#[allow(unused_imports)]
use crate::text::{can_become_valid, is_longest_valid_prefix, utf8_error_len};
use crate::time::Duration;

verus! {

/// How a process leader ended: the status word that the kernel hands to `wait`.
#[derive(Clone, Copy, Debug, PartialEq, Eq, Structural)]
pub struct ExitStatus {
    raw: i32,
}

impl ExitStatus {
    /// The kernel's status word.
    pub closed spec fn word(self) -> i32 {
        self.raw
    }

    /// Wraps the kernel's status word.
    pub fn from_raw(raw: i32) -> (status: Self)
        ensures
            status.word() == raw,
    {
        ExitStatus { raw }
    }

    /// The kernel's status word.
    #[must_use]
    pub fn into_raw(self) -> (raw: i32)
        ensures
            raw == self.word(),
    {
        self.raw
    }

    /// Whether the leader exited of its own accord with code zero, which is the status word
    /// zero: a signal leaves its number in the low bits, a failure its code above them.
    #[must_use]
    pub fn success(self) -> (success: bool)
        ensures
            success == (self.word() == 0),
    {
        self.raw == 0
    }
}

/// Result of the required process-group signal attempt.
#[derive(Clone, Debug, PartialEq, Eq)]
#[non_exhaustive]
pub enum GroupSignalOutcome {
    /// The kernel accepted the signal for the process group.
    Sent,
    /// The group was already absent when signaling was attempted.
    AlreadyGone,
    /// Signaling failed for another reason.
    Failed(FailureEvidence),
    /// A supervisor adapter failed before the outcome could be recovered.
    Unknown,
}

/// Final ownership disposition of the leader reap obligation.
#[derive(Clone, Copy, Debug, PartialEq, Eq, Structural)]
#[non_exhaustive]
pub enum LeaderReapDisposition {
    /// The serialized supervisor reaped the waitable leader.
    Reaped,
    /// The cleanup deadline transferred the child to the named reaper.
    BackgroundReaper,
    /// No reaper had been established when the evidence was recorded.
    Unreaped,
    /// A supervisor adapter failed before the disposition could be recovered.
    Unknown,
}

/// Typed reap disposition plus every failure encountered while settling it.
#[derive(Clone, Debug, PartialEq, Eq)]
pub struct LeaderReapOutcome {
    /// Final owner of the reap obligation.
    pub disposition: LeaderReapDisposition,
    /// Wait or background-reaper failures in observation order.
    pub failures: Vec<FailureEvidence>,
}

/// Identifies one standard output stream.
#[derive(Clone, Copy, Debug, PartialEq, Eq, Structural)]
pub enum StreamName {
    /// Standard output.
    Stdout,
    /// Standard error.
    Stderr,
}

impl StreamName {
    /// The name as text.
    pub open spec fn spec_name(self) -> Seq<char> {
        match self {
            StreamName::Stdout => "Stdout"@,
            StreamName::Stderr => "Stderr"@,
        }
    }

    /// The name as text.
    #[must_use]
    pub fn name(self) -> (name: &'static str)
        ensures
            name@ == self.spec_name(),
    {
        match self {
            StreamName::Stdout => "Stdout",
            StreamName::Stderr => "Stderr",
        }
    }
}

/// Whether a captured byte prefix represents the complete stream.
#[derive(Clone, Copy, Debug, PartialEq, Eq, Structural)]
#[non_exhaustive]
pub enum CaptureCompleteness {
    /// The pipe reached EOF and every byte was retained.
    Complete,
    /// The pipe reached EOF but bytes after the retained prefix were drained.
    Truncated {
        /// Number of drained but unretained bytes.
        discarded: u64,
    },
    /// EOF was not observed before a read failure or the cleanup deadline.
    Incomplete {
        /// Number of bytes known to have been drained but not retained.
        discarded: u64,
    },
    /// The stream was not connected to the supervisor capture pipe.
    Redirected,
    /// An adapter failed before the stream evidence could be recovered.
    Unknown,
}

/// Why retained bytes are not text.
#[derive(Clone, Copy, Debug, PartialEq, Eq, Structural)]
pub struct Utf8Error {
    /// Length of the longest prefix that is valid UTF-8.
    pub valid_up_to: usize,
    /// Length of the malformed sequence after that prefix, or `None` where the bytes end in
    /// the middle of a character.
    pub error_len: Option<usize>,
}

/// Bytes retained from one stream together with their completeness state.
#[derive(Debug, PartialEq, Eq)]
pub struct CapturedStream {
    /// Bounded prefix retained by the supervisor.
    pub bytes: Vec<u8>,
    /// Whether the bytes are complete, truncated, incomplete, redirected, or unknown.
    pub completeness: CaptureCompleteness,
}

impl CapturedStream {
    /// The completeness of a stream that reached EOF after `discarded` unretained bytes.
    pub open spec fn settled_completeness(discarded: u64) -> CaptureCompleteness {
        if discarded == 0 {
            CaptureCompleteness::Complete
        } else {
            CaptureCompleteness::Truncated { discarded }
        }
    }

    /// Evidence of a stream that reached EOF.
    pub fn settled(bytes: Vec<u8>, discarded: u64) -> (captured: Self)
        ensures
            captured.bytes == bytes,
            captured.completeness == Self::settled_completeness(discarded),
    {
        let completeness = if discarded == 0 {
            CaptureCompleteness::Complete
        } else {
            CaptureCompleteness::Truncated { discarded }
        };
        CapturedStream { bytes, completeness }
    }

    /// Evidence of a stream that did not reach EOF.
    pub fn incomplete(bytes: Vec<u8>, discarded: u64) -> (captured: Self)
        ensures
            captured == (CapturedStream {
                bytes,
                completeness: CaptureCompleteness::Incomplete { discarded },
            }),
    {
        CapturedStream { bytes, completeness: CaptureCompleteness::Incomplete { discarded } }
    }

    /// Evidence of a stream that the supervisor does not read.
    pub fn redirected() -> (captured: Self)
        ensures
            captured.bytes@ == Seq::<u8>::empty(),
            captured.completeness == CaptureCompleteness::Redirected,
    {
        CapturedStream { bytes: Vec::new(), completeness: CaptureCompleteness::Redirected }
    }

    /// Evidence that could not be recovered.
    pub fn unknown() -> (captured: Self)
        ensures
            captured.bytes@ == Seq::<u8>::empty(),
            captured.completeness == CaptureCompleteness::Unknown,
    {
        CapturedStream { bytes: Vec::new(), completeness: CaptureCompleteness::Unknown }
    }

    /// Whether `result` is what reading `bytes` as UTF-8 gives.
    pub open spec fn reads_as(bytes: Seq<u8>, result: Result<&str, Utf8Error>) -> bool {
        match result {
            Ok(text) => valid_utf8(bytes) && text@ == decode_utf8(bytes),
            Err(error) => {
                &&& !valid_utf8(bytes)
                &&& is_longest_valid_prefix(bytes, error.valid_up_to as int)
                &&& error.error_len == utf8_error_len(bytes)
                &&& error.error_len is None <==> can_become_valid(bytes)
                &&& error.error_len matches Some(length) ==> 0 < length && error.valid_up_to
                    + length <= bytes.len()
            },
        }
    }

    /// Views retained bytes as UTF-8.
    pub fn as_str(&self) -> (result: Result<&str, Utf8Error>)
        ensures
            Self::reads_as(self.bytes@, result),
    {
        match from_utf8(self.bytes.as_slice()) {
            Ok(text) => Ok(text),
            Err((valid_up_to, error_len)) => Err(Utf8Error { valid_up_to, error_len }),
        }
    }

    /// Returns the number of retained bytes.
    #[must_use]
    pub fn len(&self) -> (len: usize)
        ensures
            len == self.bytes@.len(),
    {
        self.bytes.len()
    }

    /// Returns whether the retained prefix is empty.
    #[must_use]
    pub fn is_empty(&self) -> (empty: bool)
        ensures
            empty == (self.bytes@.len() == 0),
    {
        self.bytes.len() == 0
    }
}

/// Deterministic report for one capture stream.
#[derive(Debug, PartialEq, Eq)]
pub struct CaptureReport {
    /// Stream this report describes.
    pub stream: StreamName,
    /// Prefix and completeness evidence retained by the supervisor.
    pub captured: CapturedStream,
    /// Specific recovered capture failure, if one is available.
    ///
    /// `None` does not assert success when `captured.completeness` is
    /// [`CaptureCompleteness::Unknown`].
    pub failure: Option<CaptureFailure>,
}

/// Whether cleanup was proved complete, incomplete, or could not be recovered.
#[derive(Clone, Debug, PartialEq, Eq)]
#[non_exhaustive]
pub enum CleanupOutcome {
    /// The serialized supervisor settled every owned cleanup obligation.
    Complete,
    /// The cleanup deadline expired with the attached unsettled facts.
    Incomplete(CleanupIncompleteEvidence),
    /// An adapter failed before cleanup evidence could be recovered.
    Unknown,
}

/// Facts retained by every post-spawn terminal result.
#[derive(Debug)]
pub struct LifecycleEvidence {
    /// Leader status when a non-reaping observation made reap safe and reap succeeded.
    pub leader_status: Option<ExitStatus>,
    /// Actual elapsed time from the shared pre-spawn instant, when recoverable.
    pub elapsed: Option<Duration>,
    /// Actual result of signaling the owned process group.
    pub signal: GroupSignalOutcome,
    /// Actual leader reap disposition and failures.
    pub reap: LeaderReapOutcome,
    /// Stdout report, always ordered before stderr.
    pub stdout: CaptureReport,
    /// Stderr report, always ordered after stdout.
    pub stderr: CaptureReport,
    /// Recovered cleanup outcome.
    pub cleanup: CleanupOutcome,
}

impl LifecycleEvidence {
    /// The first stream with a capture failure, stdout before stderr.
    pub open spec fn spec_first_capture_failure(self) -> Option<StreamName> {
        if self.stdout.failure is Some {
            Some(StreamName::Stdout)
        } else if self.stderr.failure is Some {
            Some(StreamName::Stderr)
        } else {
            None
        }
    }

    /// Returns the first capture failure using stable stdout-before-stderr order.
    #[must_use]
    pub fn first_capture_failure(&self) -> (stream: Option<StreamName>)
        ensures
            stream == self.spec_first_capture_failure(),
    {
        if self.stdout.failure.is_some() {
            Some(StreamName::Stdout)
        } else if self.stderr.failure.is_some() {
            Some(StreamName::Stderr)
        } else {
            None
        }
    }
}

/// The first capture failure is stdout's, where stdout has one, and otherwise stderr's.
pub proof fn law_capture_failures_come_stdout_first(evidence: LifecycleEvidence)
    ensures
        evidence.stdout.failure is Some ==> evidence.spec_first_capture_failure() == Some(
            StreamName::Stdout,
        ),
        evidence.stdout.failure is None && evidence.stderr.failure is Some
            ==> evidence.spec_first_capture_failure() == Some(StreamName::Stderr),
        evidence.stdout.failure is None && evidence.stderr.failure is None
            ==> evidence.spec_first_capture_failure() is None,
{
}

/// Bytes read as text exactly where they are UTF-8, and then as that text; otherwise the error
/// says how long the longest part at their start is that does.
pub proof fn law_captured_bytes_read_as_utf8(bytes: Seq<u8>, result: Result<&str, Utf8Error>)
    requires
        CapturedStream::reads_as(bytes, result),
    ensures
        result is Ok <==> valid_utf8(bytes),
        result matches Ok(text) ==> text@ == decode_utf8(bytes),
        result matches Err(error) ==> error.valid_up_to < bytes.len() && valid_utf8(
            bytes.take(error.valid_up_to as int),
        ) && (forall|longer: int|
            error.valid_up_to < longer <= bytes.len() ==> !valid_utf8(
                #[trigger] bytes.take(longer),
            )),
        result matches Err(error) ==> (error.error_len is None <==> exists|more: Seq<u8>|
            #[trigger] valid_utf8(bytes + more)),
{
    if result is Err {
        assert(bytes.take(bytes.len() as int) =~= bytes);
    }
}

/// Result of a completed subprocess invocation with a required leader status.
///
/// The aggregate is boxed so moving a result does not move its potentially large capture
/// buffers inline.
#[derive(Debug)]
pub struct Output {
    /// Aggregate post-spawn lifecycle evidence.
    pub evidence: Box<LifecycleEvidence>,
    /// Required leader status.
    pub status: ExitStatus,
}

/// Successful terminal result for explicit managed streaming.
#[derive(Debug)]
pub struct ManagedOutput {
    /// Aggregate post-spawn lifecycle evidence; stream reports are redirected because byte
    /// ownership belongs to the caller.
    pub evidence: Box<LifecycleEvidence>,
    /// Required leader status.
    pub status: ExitStatus,
}

impl ManagedOutput {
    /// Joins a leader status with the evidence around it.
    pub fn new(status: ExitStatus, evidence: Box<LifecycleEvidence>) -> (output: Self)
        ensures
            output == (ManagedOutput { evidence, status }),
    {
        ManagedOutput { evidence, status }
    }

    /// Returns the required leader status.
    #[must_use]
    pub fn status(&self) -> (status: ExitStatus)
        ensures
            status == self.status,
    {
        self.status
    }

    /// Whether the leader exited successfully.
    #[must_use]
    pub fn success(&self) -> (success: bool)
        ensures
            success == (self.status.word() == 0),
    {
        self.status.success()
    }
}

impl Output {
    /// Joins a leader status with the evidence around it.
    pub fn new(status: ExitStatus, evidence: Box<LifecycleEvidence>) -> (output: Self)
        ensures
            output == (Output { evidence, status }),
    {
        Output { evidence, status }
    }

    /// Views retained stdout as UTF-8.
    pub fn stdout_str(&self) -> (result: Result<&str, Utf8Error>)
        ensures
            CapturedStream::reads_as(self.evidence.stdout.captured.bytes@, result),
    {
        self.evidence.stdout.captured.as_str()
    }

    /// Views retained stderr as UTF-8.
    pub fn stderr_str(&self) -> (result: Result<&str, Utf8Error>)
        ensures
            CapturedStream::reads_as(self.evidence.stderr.captured.bytes@, result),
    {
        self.evidence.stderr.captured.as_str()
    }

    /// Returns the required leader status.
    #[must_use]
    pub fn status(&self) -> (status: ExitStatus)
        ensures
            status == self.status,
    {
        self.status
    }

    /// Whether the leader exited successfully.
    #[must_use]
    pub fn success(&self) -> (success: bool)
        ensures
            success == (self.status.word() == 0),
    {
        self.status.success()
    }
}

} // verus!
