//! What has to be in place before a child is spawned, and who owns it afterwards.

use vstd::prelude::*;

#[allow(unused_imports)]
use crate::capture::StreamState;
#[allow(unused_imports)]
use crate::command::Preparation;
use crate::command::{PreparedCommand, ProcessPlan};
use crate::error::Error;
use crate::io::IoError;
use crate::managed::ManagedSupervisor;
#[allow(unused_imports)]
use crate::managed::ManagedState;
use crate::output::StreamName;
use crate::policy::{CapturePolicy, ExecutionPolicy};
#[allow(unused_imports)]
use crate::policy::PolicyViolation;
use crate::process::OwnedChild;
use crate::supervisor::Supervisor;
#[allow(unused_imports)]
use crate::supervisor::State;
#[allow(unused_imports)]
use crate::time::clock_answered;
use crate::time::{representable_after, Duration};

verus! {

/// An invocation whose fallback reaper stands and whose deadline lies on the clock: only
/// such an invocation may spawn its child.
pub struct Armed<Reaper> {
    program: String,
    deadline: Option<Duration>,
    stdout_capture: CapturePolicy,
    stderr_capture: CapturePolicy,
    reaper: Reaper,
}

/// What an [`Armed`] invocation stands for.
pub struct Terms<Reaper> {
    /// Display form of the program.
    pub program: String,
    /// The configured deadline, if bounded, which counts from the start.
    pub deadline: Option<Duration>,
    /// Stdout capture policy.
    pub stdout_capture: CapturePolicy,
    /// Stderr capture policy.
    pub stderr_capture: CapturePolicy,
    /// The way to the background reaper.
    pub reaper: Reaper,
}

/// A spawned child.
pub struct Spawned<Child, Stdout, Stderr> {
    /// The child.
    pub child: Child,
    /// Its process identifier, which is its group's too.
    pub id: u32,
    /// The read end of its stdout, if it is piped to the supervisor.
    pub stdout: Option<Stdout>,
    /// The read end of its stderr, if it is piped to the supervisor.
    pub stderr: Option<Stderr>,
}

/// Whether `result` is what becomes of an invocation before its child is spawned: without a
/// reaper or a deadline on the clock it fails, and there is nothing to spawn; otherwise what
/// to spawn comes with the armed invocation.
pub open spec fn is_arming<Reaper>(
    prepared: Preparation,
    reaper: Result<Reaper, IoError>,
    representable: bool,
    result: Result<(Armed<Reaper>, ProcessPlan), Error>,
) -> bool {
    match reaper {
        Err(source) => result == Err::<(Armed<Reaper>, ProcessPlan), Error>(
            Error::ReaperStartFailed { program: prepared.program, source },
        ),
        Ok(established) => match prepared.execution.placed(representable) {
            Err(error) => result == Err::<(Armed<Reaper>, ProcessPlan), Error>(error),
            Ok(deadline) => result matches Ok((armed, plan)) && plan == prepared.process && armed@
                == (Terms {
                program: prepared.program,
                deadline,
                stdout_capture: prepared.stdout_capture,
                stderr_capture: prepared.stderr_capture,
                reaper: established,
            }),
        },
    }
}

/// The fallback reaper and the deadline stand before anything can be spawned: what to spawn is
/// handed out exactly where the reaper was started and the clock can represent the deadline,
/// together with the armed invocation that owns that reaper. Otherwise the invocation ends in
/// the error that names what was missing, the reaper first.
pub proof fn law_plans_come_with_armed_invocations<Reaper>(
    prepared: Preparation,
    reaper: Result<Reaper, IoError>,
    representable: bool,
    result: Result<(Armed<Reaper>, ProcessPlan), Error>,
)
    requires
        is_arming(prepared, reaper, representable, result),
    ensures
        result is Ok <==> reaper is Ok && (representable || prepared.execution is Unbounded),
        result matches Ok((armed, plan)) ==> reaper == Ok::<Reaper, IoError>(armed@.reaper) && plan
            == prepared.process && armed@.deadline == prepared.execution.spec_duration(),
        reaper matches Err(source) ==> result == Err::<(Armed<Reaper>, ProcessPlan), Error>(
            Error::ReaperStartFailed { program: prepared.program, source },
        ),
        reaper is Ok && !representable ==> (prepared.execution matches ExecutionPolicy::Deadline(
            duration,
        ) ==> result == Err::<(Armed<Reaper>, ProcessPlan), Error>(
            Error::InvalidPolicy { violation: PolicyViolation::DeadlineOverflow(duration) },
        )),
{
}

impl PreparedCommand {
    /// Readies the invocation, given whether the background reaper could be started and
    /// whether the clock can represent the deadline, and hands out what to spawn for it.
    pub fn arm<Reaper>(self, reaper: Result<Reaper, IoError>, representable: bool) -> (result:
        Result<(Armed<Reaper>, ProcessPlan), Error>)
        ensures
            is_arming(self@, reaper, representable, result),
    {
        let prepared = self.into_preparation();
        match reaper {
            Err(source) => Err(Error::ReaperStartFailed { program: prepared.program, source }),
            Ok(reaper) => match prepared.execution.place_deadline(representable) {
                Err(error) => Err(error),
                Ok(deadline) => Ok(
                    (
                        Armed {
                            program: prepared.program,
                            deadline,
                            stdout_capture: prepared.stdout_capture,
                            stderr_capture: prepared.stderr_capture,
                            reaper,
                        },
                        prepared.process,
                    ),
                ),
            },
        }
    }

    /// Readies the invocation that started at `started` and hands out what to spawn for it.
    ///
    /// Whether the clock can represent a deadline is the machine's affair.
    pub fn arm_at<Reaper>(
        self,
        reaper: Result<Reaper, IoError>,
        started: &std::time::Instant,
    ) -> (result: Result<(Armed<Reaper>, ProcessPlan), Error>)
        ensures
            exists|representable: bool| #[trigger]
                is_arming(self@, reaper, representable, result),
            self@.execution.spec_duration() matches Some(duration) ==> (duration.nanos() == 0
                ==> is_arming(self@, reaper, true, result)),
            self@.execution matches ExecutionPolicy::Deadline(duration) ==> exists|reachable: bool|
                #[trigger]
                clock_answered(*started, duration, reachable) && is_arming(
                    self@,
                    reaper,
                    reachable,
                    result,
                ),
    {
        let representable = match self.execution_policy() {
            ExecutionPolicy::Deadline(duration) => representable_after(started, *duration),
            ExecutionPolicy::Unbounded(_) => true,
        };
        self.arm(reaper, representable)
    }
}

impl<Reaper> View for Armed<Reaper> {
    type V = Terms<Reaper>;

    closed spec fn view(&self) -> Terms<Reaper> {
        Terms {
            program: self.program,
            deadline: self.deadline,
            stdout_capture: self.stdout_capture,
            stderr_capture: self.stderr_capture,
            reaper: self.reaper,
        }
    }
}

impl<Reaper> Armed<Reaper> {
    /// Takes ownership of the spawned child and starts the supervision of a captured run.
    pub fn supervise<Child, Stdout, Stderr>(
        self,
        spawned: Result<Spawned<Child, Stdout, Stderr>, IoError>,
    ) -> (result: Result<(OwnedChild<Child, Reaper>, Supervisor<Stdout, Stderr>), Error>)
        ensures
            match spawned {
                Err(source) => result == Err::<
                    (OwnedChild<Child, Reaper>, Supervisor<Stdout, Stderr>),
                    Error,
                >(Error::SpawnFailed { program: self@.program, source }),
                Ok(spawned) => {
                    &&& result matches Ok((owned, supervisor))
                    &&& owned == (OwnedChild {
                        child: Some(spawned.child),
                        group: spawned.id,
                        reaper: Some(self@.reaper),
                    })
                    &&& supervisor.stdout.pipe == spawned.stdout
                    &&& supervisor.stderr.pipe == spawned.stderr
                    &&& supervisor@ == State::initial(
                        self@.program,
                        self@.deadline,
                        StreamState::fresh(
                            StreamName::Stdout,
                            spawned.stdout is Some,
                            self@.stdout_capture,
                        ),
                        StreamState::fresh(
                            StreamName::Stderr,
                            spawned.stderr is Some,
                            self@.stderr_capture,
                        ),
                    )
                    &&& supervisor@.lawful()
                },
            },
    {
        match spawned {
            Err(source) => Err(Error::SpawnFailed { program: self.program, source }),
            Ok(spawned) => {
                let owned = OwnedChild::new(spawned.child, spawned.id, self.reaper);
                let supervisor = Supervisor::new(
                    self.program,
                    self.deadline,
                    spawned.stdout,
                    spawned.stderr,
                    &self.stdout_capture,
                    &self.stderr_capture,
                );
                Ok((owned, supervisor))
            },
        }
    }

    /// Takes ownership of the spawned child and starts the supervision of managed streaming.
    pub fn supervise_managed<Child>(self, spawned: Result<(Child, u32), IoError>) -> (result:
        Result<(OwnedChild<Child, Reaper>, ManagedSupervisor), Error>)
        ensures
            match spawned {
                Err(source) => result == Err::<
                    (OwnedChild<Child, Reaper>, ManagedSupervisor),
                    Error,
                >(Error::SpawnFailed { program: self@.program, source }),
                Ok((child, id)) => {
                    &&& result matches Ok((owned, supervisor))
                    &&& owned == (OwnedChild {
                        child: Some(child),
                        group: id,
                        reaper: Some(self@.reaper),
                    })
                    &&& supervisor@ == ManagedState::initial(self@.program, self@.deadline)
                    &&& supervisor@.lawful()
                },
            },
    {
        match spawned {
            Err(source) => Err(Error::SpawnFailed { program: self.program, source }),
            Ok((child, id)) => {
                let owned = OwnedChild::new(child, id, self.reaper);
                Ok((owned, ManagedSupervisor::new(self.program, self.deadline)))
            },
        }
    }
}

} // verus!
