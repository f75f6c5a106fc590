//! A typed subprocess lifecycle boundary.
//!
//! Execution policy is explicit before a command can run, and structured evidence is what
//! is left after its supervisor has finished cleanup:
//!
//! - [`command`] builds a [`Command`], which is not runnable before it declares a deadline
//!   or an intentional unbounded lifetime, and works out what is spawned for it;
//! - [`launch`] says what has to be in place before the child is spawned;
//! - [`supervisor`] and [`managed`] are the state machines that own the child from then on.
//!   Each names one operation at a time, and a driver performs it and reports its outcome;
//! - [`capture`] bounds what is retained of an output stream;
//! - [`outcome`] decides which outcome wins and what the caller is told;
//! - [`description`] says what builder calls make of a command, in whatever order they come;
//! - [`debug`] says what logs show of a command, which is no environment value;
//! - [`output`] and [`error`] hold the evidence;
//! - [`lifecycle`] and [`managed_lifecycle`] prove what holds of whole invocations.

pub mod bytes;
pub mod capture;
pub mod command;
pub mod debug;
pub mod description;
pub mod environment;
pub mod error;
pub mod io;
pub mod launch;
pub mod lifecycle;
pub mod managed;
pub mod managed_lifecycle;
pub mod outcome;
pub mod output;
pub mod path;
pub mod policy;
pub mod process;
pub mod schedule;
pub mod supervisor;
pub mod sync;
pub mod text;
pub mod time;

pub use crate::command::{Command, Stdio, StreamingCommand};
pub use crate::error::{
    Capability, CaptureFailure, CaptureWorkerFailure, CleanupIncompleteEvidence, Error,
    FailureEvidence, SecondaryErrors,
};
pub use crate::managed::{ManagedChild, ManagedPoll};
pub use crate::output::{
    CaptureCompleteness, CaptureReport, CapturedStream, CleanupOutcome, ExitStatus,
    GroupSignalOutcome, LeaderReapDisposition, LeaderReapOutcome, LifecycleEvidence, ManagedOutput,
    Output, StreamName,
};
pub use crate::policy::{
    CapturePolicy, Draft, EnvironmentPolicy, ExecutionPolicy, NonEmptyReason, OverflowBehavior,
    PolicyViolation, Ready, DEFAULT_CAPTURE_LIMIT,
};
pub use crate::time::Duration;
