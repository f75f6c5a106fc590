//! What the synchronous and asynchronous runners make of a supervised run.

use vstd::prelude::*;

use crate::error::Error;
use crate::io::IoError;
#[allow(unused_imports)]
use crate::outcome::{is_run_result, is_unknown_evidence, Primary};
use crate::outcome::unknown_evidence;
#[allow(unused_imports)]
use crate::output::LifecycleEvidence;
use crate::output::{ExitStatus, Output};
#[allow(unused_imports)]
use crate::time::Duration;

verus! {

/// A run whose non-zero exits count as results: the evidence that the error owned moves
/// into the output.
pub open spec fn preserved(run: Result<Output, Error>) -> Result<Output, Error> {
    match run {
        Ok(output) => Ok(output),
        Err(error) => match error {
            Error::NonZeroExit { evidence, .. } => match evidence.leader_status {
                Some(status) => Ok(Output { evidence, status }),
                None => Err(error),
            },
            _ => Err(error),
        },
    }
}

/// Preserves the captured output of non-zero exits.
pub fn output(run: Result<Output, Error>) -> (result: Result<Output, Error>)
    ensures
        result == preserved(run),
{
    match run {
        Ok(output) => Ok(output),
        Err(Error::NonZeroExit { program, evidence }) => match evidence.leader_status {
            Some(status) => Ok(Output::new(status, evidence)),
            None => Err(Error::NonZeroExit { program, evidence }),
        },
        Err(error) => Err(error),
    }
}

/// Preserves non-zero statuses as successful results.
pub fn status(run: Result<Output, Error>) -> (result: Result<ExitStatus, Error>)
    ensures
        result == match preserved(run) {
            Ok(output) => Ok::<ExitStatus, Error>(output.status),
            Err(error) => Err::<ExitStatus, Error>(error),
        },
{
    match output(run) {
        Ok(output) => Ok(output.status),
        Err(error) => Err(error),
    }
}

/// A run that ended with a non-zero status and nothing else is a result: its status and all
/// of its evidence are preserved.
pub proof fn law_nonzero_exits_are_preserved(
    primary: Primary,
    program: String,
    deadline: Option<Duration>,
    evidence: Box<LifecycleEvidence>,
    run: Result<Output, Error>,
)
    requires
        is_run_result(primary, program, deadline, evidence, run),
        run matches Err(Error::NonZeroExit { .. }),
    ensures
        preserved(run) matches Ok(output) && output.evidence == evidence && evidence.leader_status
            == Some(output.status) && output.status.word() != 0,
{
}

/// Nothing but a non-zero exit becomes a result: a success stays as it is, and so does every
/// other error, be it a timeout, a cancellation, a crossed limit, a failure of the capture, the
/// supervision, the cleanup or the lifecycle, or one from before the child was spawned. Of a
/// non-zero exit the status and all of the evidence are kept, and without a status it stays an
/// error.
pub proof fn law_only_nonzero_exits_become_results(run: Result<Output, Error>)
    ensures
        run is Ok ==> preserved(run) == run,
        run matches Err(error) ==> (!(error is NonZeroExit) ==> preserved(run) == run),
        run matches Err(Error::NonZeroExit { evidence, .. }) ==> (match evidence.leader_status {
            Some(status) => preserved(run) matches Ok(output) && output.status == status
                && output.evidence == evidence,
            None => preserved(run) == run,
        }),
        preserved(run) is Err ==> preserved(run) == run,
        preserved(preserved(run)) == preserved(run),
{
}

/// The caller of an asynchronous run is told exactly what its worker found; where the worker
/// was lost, an error that claims nothing of the child.
pub proof fn law_lost_workers_leave_nothing_known(
    worker: Result<Result<Output, Error>, String>,
    result: Result<Output, Error>,
)
    requires
        is_joined(worker, result),
    ensures
        worker matches Ok(found) ==> result == found,
        worker matches Err(message) ==> (result matches Err(
            Error::SupervisionFailed { program, source, evidence },
        ) && program@ == "asynchronous supervisor"@ && source.message@ == message@ && source.kind
            == crate::io::ErrorKind::Other && evidence.leader_status is None && evidence.elapsed
            is None && evidence.signal is Unknown && evidence.cleanup is Unknown
            && evidence.reap.disposition == crate::output::LeaderReapDisposition::Unknown
            && evidence.stdout.captured.completeness is Unknown
            && evidence.stderr.captured.completeness is Unknown),
{
}

/// Whether `result` is what the caller of an asynchronous run is told: what the worker
/// found, or, where the worker was lost for the reason given, that nothing is known.
pub open spec fn is_joined(
    worker: Result<Result<Output, Error>, String>,
    result: Result<Output, Error>,
) -> bool {
    match worker {
        Ok(found) => result == found,
        Err(message) => {
            &&& result matches Err(error)
            &&& error matches Error::SupervisionFailed { program, source, evidence }
            &&& program@ == "asynchronous supervisor"@
            &&& source.is_made_of(crate::io::ErrorKind::Other, message@)
            &&& is_unknown_evidence(*evidence)
        },
    }
}

/// Tells the caller of an asynchronous run what its worker found.
pub fn joined(worker: Result<Result<Output, Error>, String>) -> (result: Result<Output, Error>)
    ensures
        is_joined(worker, result),
{
    match worker {
        Ok(found) => found,
        Err(message) => Err(
            Error::SupervisionFailed {
                program: "asynchronous supervisor".to_owned(),
                source: IoError::other(message.as_str()),
                evidence: unknown_evidence(),
            },
        ),
    }
}

} // verus!
