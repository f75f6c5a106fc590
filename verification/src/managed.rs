//! Managed streaming: the state machine that supervises a child whose bytes the caller owns,
//! and the handle that the caller holds.

use vstd::prelude::*;

use crate::error::{CleanupIncompleteEvidence, Error, FailureEvidence};
use crate::io::IoError;
#[allow(unused_imports)]
use crate::io::ErrorKind;
#[allow(unused_imports)]
use crate::managed_lifecycle::law_lawful_managed_states_stay_lawful;
use crate::outcome::{
    choose_primary, classify_managed, redirected_report, settlement_triggered,
    unknown_evidence, Observations,
};
#[allow(unused_imports)]
use crate::outcome::{
    is_empty_report, is_managed_result, is_unknown_evidence, supervision_failed,
    Primary, Seen,
};
#[allow(unused_imports)]
use crate::output::CaptureCompleteness;
use crate::output::{
    CleanupOutcome, ExitStatus, GroupSignalOutcome, LeaderReapDisposition, LeaderReapOutcome,
    LifecycleEvidence, ManagedOutput, StreamName,
};
use crate::schedule::{cleanup_budget, cleanup_deadline, deadline_elapsed, poll_timeout};
#[allow(unused_imports)]
use crate::schedule::{budget_nanos, cleanup_end, has_elapsed, moment, wait_nanos};
use crate::text::decimal_text;
#[allow(unused_imports)]
use crate::text::decimal_digits;
use crate::time::Duration;

verus! {

/// What the way on which cancellation is requested holds.
#[derive(Clone, Copy, Debug, PartialEq, Eq, Structural)]
pub enum Request {
    /// A request.
    Made,
    /// Nothing.
    Pending,
    /// Nothing any more: the handle is gone.
    Closed,
}

impl Request {
    /// Whether this asks for cancellation: a handle that is gone asks for it too.
    pub open spec fn cancels(self) -> bool {
        !(self is Pending)
    }
}

/// Whether cancellation is asked for.
pub fn cancellation_received(request: Request) -> (cancelled: bool)
    ensures
        cancelled == request.cancels(),
{
    match request {
        Request::Made => true,
        Request::Closed => true,
        Request::Pending => false,
    }
}

/// One operation that the driver of a managed child has to perform.
#[derive(Clone, Copy, Debug, PartialEq, Eq, Structural)]
pub enum ManagedAction {
    /// Nothing but a first reading of the clock.
    Begin,
    /// Look, without reaping, whether the leader has exited.
    ObserveLeader,
    /// Look whether cancellation is requested.
    CheckCancel,
    /// Wait for a cancellation request.
    AwaitCancel {
        /// Longest wait in nanoseconds, below one second.
        timeout_nanos: u32,
    },
    /// Kill the process group.
    SignalGroup,
    /// Reap the leader, which has exited.
    Reap,
    /// Hand the leader over to the background reaper.
    HandOff,
    /// Take the result.
    Finish,
}

/// What an operation on a managed child gave.
pub enum ManagedEvent {
    /// Answers [`ManagedAction::Begin`].
    Begun,
    /// Answers [`ManagedAction::ObserveLeader`]: whether the leader has exited.
    LeaderObserved(Result<bool, IoError>),
    /// Answers [`ManagedAction::CheckCancel`].
    CancelChecked(Request),
    /// Answers [`ManagedAction::AwaitCancel`].
    Waited(Request),
    /// Answers [`ManagedAction::SignalGroup`]: what
    /// [`signal_group`](crate::outcome::signal_group) makes of the attempt.
    Signaled(GroupSignalOutcome),
    /// Answers [`ManagedAction::Reap`].
    Reaped(Result<ExitStatus, IoError>),
    /// Answers [`ManagedAction::HandOff`].
    HandedOff(Result<(), FailureEvidence>),
}

impl ManagedEvent {
    /// Whether the event answers the action.
    pub open spec fn answers(self, action: ManagedAction) -> bool {
        match self {
            ManagedEvent::Begun => action is Begin,
            ManagedEvent::LeaderObserved(_) => action is ObserveLeader,
            ManagedEvent::CancelChecked(_) => action is CheckCancel,
            ManagedEvent::Waited(_) => action is AwaitCancel,
            ManagedEvent::Signaled(_) => action is SignalGroup,
            ManagedEvent::Reaped(_) => action is Reap,
            ManagedEvent::HandedOff(_) => action is HandOff,
        }
    }
}

/// The supervisor of one managed child.
pub struct ManagedSupervisor {
    /// Display form of the program.
    pub program: String,
    /// The configured deadline, if bounded, which counts from the start.
    pub deadline: Option<Duration>,
    /// What has been seen so far.
    pub observations: Observations,
    /// When cleanup has to be over, once it has started.
    pub cleanup_deadline: Option<Duration>,
    /// What became of the signal, once it was attempted.
    pub signal: Option<GroupSignalOutcome>,
    /// The leader's status, once reaped.
    pub status: Option<ExitStatus>,
    /// What became of the reap obligation.
    pub disposition: LeaderReapDisposition,
    /// Whether the leader is still owned.
    pub has_child: bool,
    /// Whether cleanup ended before the leader was reaped.
    pub leader_unsettled: bool,
    /// The operation being waited for.
    pub pending: ManagedAction,
}

/// What a [`ManagedSupervisor`] stands for.
#[verifier::ext_equal]
pub struct ManagedState {
    /// Display form of the program.
    pub program: String,
    /// The configured deadline, if bounded, which counts from the start.
    pub deadline: Option<Duration>,
    /// What has been seen so far.
    pub seen: Seen,
    /// When cleanup has to be over, once it has started, in nanoseconds since the start.
    pub cleanup_deadline: Option<nat>,
    /// What became of the signal, once it was attempted.
    pub signal: Option<GroupSignalOutcome>,
    /// The leader's status, once reaped.
    pub status: Option<ExitStatus>,
    /// What became of the reap obligation.
    pub disposition: LeaderReapDisposition,
    /// Whether the leader is still owned.
    pub has_child: bool,
    /// Whether cleanup ended before the leader was reaped.
    pub leader_unsettled: bool,
    /// The operation being waited for.
    pub pending: ManagedAction,
}

impl ManagedState {
    /// A supervisor that has just taken over a spawned child.
    pub open spec fn initial(
        program: String,
        deadline: Option<Duration>,
    ) -> Self {
        ManagedState {
            program,
            deadline,
            seen: Seen::nothing(),
            cleanup_deadline: None,
            signal: None,
            status: None,
            disposition: LeaderReapDisposition::Unreaped,
            has_child: true,
            leader_unsettled: false,
            pending: ManagedAction::Begin,
        }
    }

    /// The state that waits for `action`.
    pub open spec fn asking(self, action: ManagedAction) -> Self {
        ManagedState { pending: action, ..self }
    }

    /// Takes note of a look for cancellation.
    pub open spec fn requested(self, request: Request) -> Self {
        ManagedState {
            seen: Seen { cancelled: self.seen.cancelled || request.cancels(), ..self.seen },
            ..self
        }
    }

    /// Waits for cancellation, not beyond the given instants.
    pub open spec fn awaiting(
        self,
        deadline: Option<nat>,
        cleanup: Option<nat>,
        now: nat,
    ) -> Self {
        self.asking(
            ManagedAction::AwaitCancel { timeout_nanos: wait_nanos(deadline, cleanup, now) as u32 },
        )
    }

    /// A new round: while supervising, a look at the leader and at the requests; in
    /// cleanup, a look at the leader unless it is gone or the budget is spent.
    pub open spec fn round(self, now: Duration) -> Self {
        match self.cleanup_deadline {
            None => if self.seen.leader_in_question(self.has_child) {
                self.asking(ManagedAction::ObserveLeader)
            } else {
                self.asking(ManagedAction::CheckCancel)
            },
            Some(end) => if !self.has_child || now.nanos() >= end {
                self.settled()
            } else if self.seen.leader_in_question(self.has_child) {
                self.asking(ManagedAction::ObserveLeader)
            } else {
                self.looked_at(now)
            },
        }
    }

    /// After the look at the leader: supervision looks at the requests; cleanup reaps a
    /// leader that has exited and waits for another.
    pub open spec fn looked_at(self, now: Duration) -> Self {
        match self.cleanup_deadline {
            None => self.asking(ManagedAction::CheckCancel),
            Some(_) => if self.seen.leader_waitable {
                self.asking(ManagedAction::Reap)
            } else {
                self.awaiting(None, self.cleanup_deadline, now.nanos())
            },
        }
    }

    /// After the look at the requests: supervision goes on or ends with the signal.
    pub open spec fn judged(self, now: Duration) -> Self {
        let timed = ManagedState {
            seen: Seen { deadline_elapsed: has_elapsed(self.deadline, now), ..self.seen },
            ..self
        };
        if timed.seen.settles(false, false) {
            (ManagedState {
                cleanup_deadline: Some(cleanup_end(now.nanos())),
                ..timed
            }).asking(ManagedAction::SignalGroup)
        } else {
            timed.awaiting(moment(self.deadline), None, now.nanos())
        }
    }

    /// Cleanup is over; a leader that is left goes to the background reaper.
    pub open spec fn settled(self) -> Self {
        (ManagedState { leader_unsettled: self.has_child, ..self }).asking(
            if self.has_child {
                ManagedAction::HandOff
            } else {
                ManagedAction::Finish
            },
        )
    }

    /// With one more failure to settle the leader.
    pub open spec fn with_reap_failure(self, failure: FailureEvidence) -> Self {
        ManagedState {
            seen: Seen { reap_failures: self.seen.reap_failures.push(failure), ..self.seen },
            ..self
        }
    }

    /// After an event. One that does not answer the pending action changes nothing.
    pub open spec fn after(self, event: ManagedEvent, now: Duration) -> Self {
        if !event.answers(self.pending) {
            self
        } else {
            match event {
                ManagedEvent::Begun => self.round(now),
                ManagedEvent::LeaderObserved(leader) => (ManagedState {
                    seen: self.seen.looked(leader),
                    ..self
                }).looked_at(now),
                ManagedEvent::CancelChecked(request) => self.requested(request).judged(now),
                ManagedEvent::Waited(request) => self.requested(request).round(now),
                ManagedEvent::Signaled(outcome) => (ManagedState {
                    signal: Some(outcome),
                    ..self
                }).round(now),
                ManagedEvent::Reaped(Ok(status)) => (ManagedState {
                    status: Some(status),
                    disposition: LeaderReapDisposition::Reaped,
                    has_child: false,
                    ..self
                }).round(now),
                ManagedEvent::Reaped(Err(error)) => self.with_reap_failure(
                    FailureEvidence {
                        operation: "reap process leader",
                        kind: error.kind,
                        message: error.message,
                    },
                ).settled(),
                ManagedEvent::HandedOff(Ok(_)) => (ManagedState {
                    disposition: LeaderReapDisposition::BackgroundReaper,
                    has_child: false,
                    ..self
                }).asking(ManagedAction::Finish),
                ManagedEvent::HandedOff(Err(failure)) => self.with_reap_failure(failure).asking(
                    ManagedAction::Finish,
                ),
            }
        }
    }

    /// Whether `cleanup` says what was left unsettled.
    pub open spec fn cleaned_up(self, cleanup: CleanupOutcome) -> bool {
        if self.leader_unsettled {
            cleanup matches CleanupOutcome::Incomplete(facts) && facts.unfinished_streams@
                == Seq::<StreamName>::empty() && facts.leader_unsettled
                && facts.cleanup_budget.nanos() == budget_nanos()
        } else {
            cleanup == CleanupOutcome::Complete
        }
    }

    /// Whether `evidence` is this child's. Its streams are redirected: the caller owns the
    /// bytes.
    pub open spec fn evidenced_by(self, evidence: LifecycleEvidence, elapsed: Duration) -> bool {
        &&& evidence.leader_status == self.status
        &&& evidence.elapsed == Some(elapsed)
        &&& evidence.signal == match self.signal {
            Some(outcome) => outcome,
            None => GroupSignalOutcome::Unknown,
        }
        &&& evidence.reap.disposition == self.disposition
        &&& evidence.reap.failures@ == self.seen.reap_failures
        &&& is_empty_report(evidence.stdout, StreamName::Stdout, CaptureCompleteness::Redirected)
        &&& is_empty_report(evidence.stderr, StreamName::Stderr, CaptureCompleteness::Redirected)
        &&& self.cleaned_up(evidence.cleanup)
    }

    /// The outcome that won.
    pub open spec fn primary(self) -> Primary {
        self.seen.primary(None, None)
    }
}

impl View for ManagedSupervisor {
    type V = ManagedState;

    open spec fn view(&self) -> ManagedState {
        ManagedState {
            program: self.program,
            deadline: self.deadline,
            seen: self.observations@,
            cleanup_deadline: moment(self.cleanup_deadline),
            signal: self.signal,
            status: self.status,
            disposition: self.disposition,
            has_child: self.has_child,
            leader_unsettled: self.leader_unsettled,
            pending: self.pending,
        }
    }
}

impl ManagedSupervisor {
    /// Takes over a spawned child.
    pub(crate) fn new(
        program: String,
        deadline: Option<Duration>,
    ) -> (supervisor: Self)
        ensures
            supervisor@ == ManagedState::initial(program, deadline),
    {
        ManagedSupervisor {
            program,
            deadline,
            observations: Observations::default(),
            cleanup_deadline: None,
            signal: None,
            status: None,
            disposition: LeaderReapDisposition::Unreaped,
            has_child: true,
            leader_unsettled: false,
            pending: ManagedAction::Begin,
        }
    }

    /// The operation being waited for.
    #[must_use]
    pub fn pending(&self) -> (action: ManagedAction)
        ensures
            action == self@.pending,
    {
        self.pending
    }

    fn ask(&mut self, action: ManagedAction)
        ensures
            final(self)@ == old(self)@.asking(action),
    {
        self.pending = action;
    }

    fn take_request(&mut self, request: Request)
        ensures
            final(self)@ == old(self)@.requested(request),
    {
        self.observations.cancelled = self.observations.cancelled || cancellation_received(request);
    }

    fn await_request(&mut self, deadline: Option<Duration>, cleanup: Option<Duration>, now: Duration)
        ensures
            final(self)@ == old(self)@.awaiting(
                moment(deadline),
                moment(cleanup),
                now.nanos(),
            ),
    {
        let timeout_nanos: u32 = poll_timeout(deadline, cleanup, now);
        self.ask(ManagedAction::AwaitCancel { timeout_nanos });
    }

    fn begin_round(&mut self, now: Duration)
        ensures
            final(self)@ == old(self)@.round(now),
    {
        match self.cleanup_deadline {
            None => {
                if self.observations.leader_in_question(self.has_child) {
                    self.ask(ManagedAction::ObserveLeader);
                } else {
                    self.ask(ManagedAction::CheckCancel);
                }
            },
            Some(end) => {
                if !self.has_child || now.at_least(end) {
                    self.settle();
                } else if self.observations.leader_in_question(self.has_child) {
                    self.ask(ManagedAction::ObserveLeader);
                } else {
                    self.after_look(now);
                }
            },
        }
    }

    fn after_look(&mut self, now: Duration)
        ensures
            final(self)@ == old(self)@.looked_at(now),
    {
        if self.cleanup_deadline.is_none() {
            self.ask(ManagedAction::CheckCancel);
        } else if self.observations.leader_waitable {
            self.ask(ManagedAction::Reap);
        } else {
            self.await_request(None, self.cleanup_deadline, now);
        }
    }

    fn judge(&mut self, now: Duration)
        ensures
            final(self)@ == old(self)@.judged(now),
    {
        self.observations.deadline_elapsed = deadline_elapsed(self.deadline, now);
        if settlement_triggered(&self.observations, false, false) {
            let end = cleanup_deadline(now);
            self.cleanup_deadline = Some(end);
            self.ask(ManagedAction::SignalGroup);
        } else {
            self.await_request(self.deadline, None, now);
        }
    }

    fn settle(&mut self)
        ensures
            final(self)@ == old(self)@.settled(),
    {
        self.leader_unsettled = self.has_child;
        if self.has_child {
            self.ask(ManagedAction::HandOff);
        } else {
            self.ask(ManagedAction::Finish);
        }
    }

    fn reap_failed(&mut self, failure: FailureEvidence)
        ensures
            final(self)@ == old(self)@.with_reap_failure(failure),
    {
        self.observations.reap_failures.push(failure);
    }

    /// Takes in an event and returns the next operation. An event that does not answer the
    /// pending operation changes nothing.
    pub fn step(&mut self, event: ManagedEvent, now: Duration) -> (action: ManagedAction)
        ensures
            final(self)@ == old(self)@.after(event, now),
            old(self)@.lawful() ==> final(self)@.lawful(),
            action == final(self)@.pending,
    {
        proof {
            if self@.lawful() {
                law_lawful_managed_states_stay_lawful(self@, event, now);
            }
        }
        match (self.pending, event) {
            (ManagedAction::Begin, ManagedEvent::Begun) => {
                self.begin_round(now);
            },
            (ManagedAction::ObserveLeader, ManagedEvent::LeaderObserved(leader)) => {
                self.observations.observe_leader(leader);
                self.after_look(now);
            },
            (ManagedAction::CheckCancel, ManagedEvent::CancelChecked(request)) => {
                self.take_request(request);
                self.judge(now);
            },
            (ManagedAction::AwaitCancel { .. }, ManagedEvent::Waited(request)) => {
                self.take_request(request);
                self.begin_round(now);
            },
            (ManagedAction::SignalGroup, ManagedEvent::Signaled(outcome)) => {
                self.signal = Some(outcome);
                self.begin_round(now);
            },
            (ManagedAction::Reap, ManagedEvent::Reaped(Ok(status))) => {
                self.status = Some(status);
                self.disposition = LeaderReapDisposition::Reaped;
                self.has_child = false;
                self.begin_round(now);
            },
            (ManagedAction::Reap, ManagedEvent::Reaped(Err(error))) => {
                self.reap_failed(FailureEvidence::from_io("reap process leader", error));
                self.settle();
            },
            (ManagedAction::HandOff, ManagedEvent::HandedOff(Ok(_))) => {
                self.disposition = LeaderReapDisposition::BackgroundReaper;
                self.has_child = false;
                self.ask(ManagedAction::Finish);
            },
            (ManagedAction::HandOff, ManagedEvent::HandedOff(Err(failure))) => {
                self.reap_failed(failure);
                self.ask(ManagedAction::Finish);
            },
            _ => {},
        }
        self.pending
    }

    /// Tells the owner what became of the child.
    pub fn finish(self, elapsed: Duration) -> (result: Result<ManagedOutput, Error>)
        ensures
            exists|evidence: Box<LifecycleEvidence>|
                self@.evidenced_by(*evidence, elapsed) && #[trigger] is_managed_result(
                    self@.primary(),
                    self.program,
                    self.deadline,
                    evidence,
                    result,
                ),
    {
        let ghost state = self@;
        let cleanup = if self.leader_unsettled {
            CleanupOutcome::Incomplete(
                CleanupIncompleteEvidence {
                    unfinished_streams: Vec::new(),
                    leader_unsettled: true,
                    cleanup_budget: cleanup_budget(),
                },
            )
        } else {
            CleanupOutcome::Complete
        };
        let mut observations = self.observations;
        let primary = choose_primary(&mut observations, None, None);
        let signal = match self.signal {
            Some(outcome) => outcome,
            None => GroupSignalOutcome::Unknown,
        };
        let evidence = Box::new(
            LifecycleEvidence {
                leader_status: self.status,
                elapsed: Some(elapsed),
                signal,
                reap: LeaderReapOutcome {
                    disposition: self.disposition,
                    failures: observations.reap_failures,
                },
                stdout: redirected_report(StreamName::Stdout),
                stderr: redirected_report(StreamName::Stderr),
                cleanup,
            },
        );
        assert(state.evidenced_by(*evidence, elapsed));
        classify_managed(primary, self.program, self.deadline, evidence)
    }
}

/// What the supervisor of a managed child reported before it went on.
pub enum Startup<T> {
    /// It started the child, or failed to.
    Reported(Result<T, Error>),
    /// It ended without a report.
    Silent {
        /// Whether it panicked.
        panicked: bool,
    },
}

/// Whether `result` is what the caller is told of the startup.
pub open spec fn is_startup_result<T>(
    startup: Startup<T>,
    program: String,
    result: Result<T, Error>,
) -> bool {
    match startup {
        Startup::Reported(report) => result == report,
        Startup::Silent { panicked } => {
            &&& result matches Err(error)
            &&& error.spec_evidence() matches Some(evidence)
            &&& is_unknown_evidence(*evidence)
            &&& supervision_failed(
                error,
                program,
                if panicked {
                    "managed supervisor panicked before reporting startup"@
                } else {
                    "managed supervisor exited before reporting startup"@
                },
                evidence,
            )
        },
    }
}

/// Tells the caller whether the child was started.
pub fn startup_result<T>(startup: Startup<T>, program: String) -> (result: Result<T, Error>)
    ensures
        is_startup_result(startup, program, result),
{
    match startup {
        Startup::Reported(report) => report,
        Startup::Silent { panicked } => {
            let source = if panicked {
                IoError::other("managed supervisor panicked before reporting startup")
            } else {
                IoError::other("managed supervisor exited before reporting startup")
            };
            Err(Error::SupervisionFailed { program, source, evidence: unknown_evidence() })
        },
    }
}

/// What a look at the way on which the result arrives showed.
pub enum Arrival {
    /// The result.
    Result(Result<ManagedOutput, Error>),
    /// Nothing yet.
    Empty,
    /// Nothing, and nothing will come: the supervisor is gone.
    Closed,
}

/// How a managed child stands.
#[derive(Clone, Copy, Debug, PartialEq, Eq, Structural)]
pub enum ManagedPoll {
    /// The supervisor has not reported its result.
    Running,
    /// The child ended well.
    Succeeded(ExitStatus),
    /// The child ended otherwise; the error stays with the handle.
    Failed,
}

/// A streaming child whose deadline, cancellation, group cleanup, and reap are owned by a
/// background supervisor rather than caller polling.
#[must_use]
pub struct ManagedChild<Stdin, Stdout, Stderr> {
    /// The leader's process identifier.
    pub id: u32,
    /// The write end of stdin, until it is taken.
    pub stdin: Option<Stdin>,
    /// The read end of stdout, until it is taken.
    pub stdout: Option<Stdout>,
    /// The read end of stderr, until it is taken.
    pub stderr: Option<Stderr>,
    /// The supervisor's result, once it has arrived and until it is taken.
    pub result: Option<Result<ManagedOutput, Error>>,
    /// Whether the supervisor's result has arrived, and no later wait found the supervisor gone.
    pub settled: bool,
    /// How the child stands, as far as results have arrived.
    pub standing: ManagedPoll,
}

/// Whether `error` tells that the supervisor is gone without a result.
pub open spec fn is_lost_result(id: u32, error: Error) -> bool {
    &&& error.spec_evidence() matches Some(evidence)
    &&& is_unknown_evidence(*evidence)
    &&& error matches Error::SupervisionFailed { program, source, evidence: _ }
    &&& program@ == "managed child "@ + decimal_digits(id as nat)
    &&& source.is_made_of(ErrorKind::Other, "managed supervisor result channel closed"@)
}

/// What a finished cancellation amounts to. Evidence is handed out only where cleanup was
/// complete; a result that beat the cancellation is complete too.
pub open spec fn cancelled_evidence(result: Result<ManagedOutput, Error>) -> Result<
    Box<LifecycleEvidence>,
    Error,
> {
    match result {
        Ok(output) => Ok(output.evidence),
        Err(error) => match error {
            Error::Cancelled { evidence, .. } => if evidence.cleanup is Complete {
                Ok(evidence)
            } else {
                Err(error)
            },
            _ => Err(error),
        },
    }
}

/// Judges a finished cancellation.
pub fn settle_cancellation(result: Result<ManagedOutput, Error>) -> (settled: Result<
    Box<LifecycleEvidence>,
    Error,
>)
    ensures
        settled == cancelled_evidence(result),
{
    match result {
        Ok(output) => Ok(output.evidence),
        Err(Error::Cancelled { program, evidence }) => {
            let complete = match &evidence.cleanup {
                CleanupOutcome::Complete => true,
                _ => false,
            };
            if complete {
                Ok(evidence)
            } else {
                Err(Error::Cancelled { program, evidence })
            }
        },
        Err(error) => Err(error),
    }
}

impl<Stdin, Stdout, Stderr> ManagedChild<Stdin, Stdout, Stderr> {
    /// The handle of a child that was just started.
    pub fn new(
        id: u32,
        stdin: Option<Stdin>,
        stdout: Option<Stdout>,
        stderr: Option<Stderr>,
    ) -> (child: Self)
        ensures
            child == (ManagedChild {
                id,
                stdin,
                stdout,
                stderr,
                result: None,
                settled: false,
                standing: ManagedPoll::Running,
            }),
    {
        ManagedChild {
            id,
            stdin,
            stdout,
            stderr,
            result: None,
            settled: false,
            standing: ManagedPoll::Running,
        }
    }

    /// Returns the process leader identifier.
    #[must_use]
    pub fn id(&self) -> (id: u32)
        ensures
            id == self.id,
    {
        self.id
    }

    /// Takes the streaming stdin handle at most once.
    pub fn take_stdin(&mut self) -> (stdin: Option<Stdin>)
        ensures
            stdin == old(self).stdin,
            *final(self) == (ManagedChild { stdin: None, ..*old(self) }),
    {
        self.stdin.take()
    }

    /// Takes the streaming stdout handle at most once.
    pub fn take_stdout(&mut self) -> (stdout: Option<Stdout>)
        ensures
            stdout == old(self).stdout,
            *final(self) == (ManagedChild { stdout: None, ..*old(self) }),
    {
        self.stdout.take()
    }

    /// Takes the streaming stderr handle at most once.
    pub fn take_stderr(&mut self) -> (stderr: Option<Stderr>)
        ensures
            stderr == old(self).stderr,
            *final(self) == (ManagedChild { stderr: None, ..*old(self) }),
    {
        self.stderr.take()
    }

    /// Whether the supervisor's result still has to be received.
    pub fn expects_result(&self) -> (expects: bool)
        ensures
            expects == (self.result is None),
    {
        self.result.is_none()
    }

    /// Closes the stdin that the handle retained, which has to happen before the result is
    /// waited for: a child that reads its stdin would not end otherwise. Returns whether
    /// there is a result to wait for.
    pub fn begin_wait(&mut self) -> (expects: bool)
        ensures
            *final(self) == (ManagedChild { stdin: None, ..*old(self) }),
            expects == (old(self).result is None),
    {
        self.stdin = None;
        self.result.is_none()
    }

    /// The handle after a look, without waiting, at the way on which the result arrives.
    pub open spec fn received(self, arrival: Arrival) -> Self {
        if self.result is Some {
            self
        } else {
            match arrival {
                Arrival::Result(result) => ManagedChild {
                    result: Some(result),
                    settled: true,
                    standing: match result {
                        Ok(output) => ManagedPoll::Succeeded(output.status),
                        Err(_) => ManagedPoll::Failed,
                    },
                    ..self
                },
                Arrival::Empty => self,
                Arrival::Closed => if self.standing is Running {
                    ManagedChild { standing: ManagedPoll::Failed, ..self }
                } else {
                    self
                },
            }
        }
    }

    /// The handle after a wait for the result, which brought none where the supervisor is gone:
    /// then the child is not settled, even if an earlier result was handed out.
    pub open spec fn waited(self, arrived: Option<Result<ManagedOutput, Error>>) -> Self {
        if self.result is Some {
            self
        } else {
            match arrived {
                Some(result) => self.received(Arrival::Result(result)),
                None => ManagedChild { settled: false, ..self.received(Arrival::Closed) },
            }
        }
    }

    /// Takes in what a look, without waiting, at the way on which the result arrives showed; a
    /// result that is already here stays.
    pub fn receive_nonblocking(&mut self, arrival: Arrival)
        ensures
            *final(self) == old(self).received(arrival),
    {
        if self.result.is_none() {
            match arrival {
                Arrival::Result(result) => {
                    self.standing = match &result {
                        Ok(output) => ManagedPoll::Succeeded(output.status),
                        Err(_) => ManagedPoll::Failed,
                    };
                    self.result = Some(result);
                    self.settled = true;
                },
                Arrival::Empty => {},
                Arrival::Closed => {
                    if self.standing == ManagedPoll::Running {
                        self.standing = ManagedPoll::Failed;
                    }
                },
            }
        }
    }

    /// Takes in what a wait for the result brought; a result that is already here stays.
    pub fn receive_blocking(&mut self, arrived: Option<Result<ManagedOutput, Error>>)
        ensures
            *final(self) == old(self).waited(arrived),
    {
        if self.result.is_none() {
            match arrived {
                Some(result) => self.receive_nonblocking(Arrival::Result(result)),
                None => {
                    self.receive_nonblocking(Arrival::Closed);
                    self.settled = false;
                },
            }
        }
    }

    /// Hands out the supervisor's terminal result, which [`ManagedChild::begin_wait`] and
    /// [`ManagedChild::receive_blocking`] brought. No stdin is retained afterwards.
    ///
    /// Without a result the supervisor is gone, and nothing is known of the child.
    pub fn wait(&mut self) -> (result: Result<ManagedOutput, Error>)
        ensures
            *final(self) == (ManagedChild { stdin: None, result: None, ..*old(self) }),
            match old(self).result {
                Some(arrived) => result == arrived,
                None => result matches Err(error) && is_lost_result(old(self).id, error),
            },
    {
        self.stdin = None;
        match self.result.take() {
            Some(result) => result,
            None => {
                let program = "managed child ".to_owned().concat(decimal_text(self.id as u64).as_str());
                Err(
                    Error::SupervisionFailed {
                        program,
                        source: IoError::other("managed supervisor result channel closed"),
                        evidence: unknown_evidence(),
                    },
                )
            },
        }
    }

    /// Tells running, successful, and failed children apart without blocking. A supervisor
    /// that is gone without a result leaves a failed child.
    #[must_use]
    pub fn poll(&self) -> (poll: ManagedPoll)
        ensures
            poll == self.standing,
    {
        self.standing
    }

    /// Returns a successful terminal status without weakening supervision.
    ///
    /// A terminal error remains owned by the handle and is returned by
    /// [`ManagedChild::wait`] or [`ManagedChild::cancel`].
    #[must_use]
    pub fn try_wait(&self) -> (status: Option<ExitStatus>)
        ensures
            status == match self.result {
                Some(Ok(output)) => Some(output.status),
                _ => None,
            },
    {
        match &self.result {
            Some(Ok(output)) => Some(output.status),
            _ => None,
        }
    }

    /// Hands out what the cancellation amounts to, once the request was sent and the
    /// supervisor's result was received.
    pub fn cancel(&mut self) -> (settled: Result<Box<LifecycleEvidence>, Error>)
        ensures
            *final(self) == (ManagedChild { stdin: None, result: None, ..*old(self) }),
            match old(self).result {
                Some(arrived) => settled == cancelled_evidence(arrived),
                None => settled matches Err(error) && is_lost_result(old(self).id, error),
            },
    {
        settle_cancellation(self.wait())
    }

    /// Whether dropping the handle has to request cancellation: a settled child needs none.
    #[must_use]
    pub fn cancels_on_drop(&self) -> (cancels: bool)
        ensures
            cancels == !self.settled,
    {
        !self.settled
    }
}

/// What is told of a child whose supervisor is gone without a result: its number, that the way
/// on which the result arrives was closed, and nothing else.
pub proof fn law_lost_results_tell_nothing(id: u32, error: Error)
    requires
        is_lost_result(id, error),
    ensures
        error matches Error::SupervisionFailed { program, source, evidence } && program@
            == "managed child "@ + decimal_digits(id as nat) && source.kind == ErrorKind::Other
            && source.message@ == "managed supervisor result channel closed"@
            && evidence.leader_status is None && evidence.elapsed is None && evidence.signal
            is Unknown && evidence.cleanup is Unknown && evidence.reap.disposition
            == LeaderReapDisposition::Unknown && evidence.stdout.captured.completeness is Unknown
            && evidence.stderr.captured.completeness is Unknown,
{
}

/// `poll` tells the three states of a child apart, whatever kind of result arrives: a child
/// whose result has arrived is not running, it succeeded exactly where the result is a success,
/// with that very status, and failed exactly where the result is an error of any kind. A child
/// whose supervisor is gone without a result failed. Nothing else changes how it stands, and a
/// result that is here stays.
pub proof fn law_results_decide_how_a_child_stands<Stdin, Stdout, Stderr>(
    child: ManagedChild<Stdin, Stdout, Stderr>,
    arrival: Arrival,
)
    ensures
        ({
            let after = child.received(arrival);
            &&& child.result is Some ==> after == child
            &&& child.result is None ==> match arrival {
                Arrival::Result(result) => {
                    &&& after.result == Some(result)
                    &&& after.settled
                    &&& !(after.standing is Running)
                    &&& after.standing is Failed <==> result is Err
                    &&& result matches Ok(output) ==> after.standing == ManagedPoll::Succeeded(
                        output.status,
                    )
                },
                Arrival::Empty => after == child,
                Arrival::Closed => {
                    &&& after.result is None && after.settled == child.settled
                    &&& child.standing is Running ==> after.standing is Failed
                    &&& !(child.standing is Running) ==> after.standing == child.standing
                },
            }
            &&& after.id == child.id && after.stdin == child.stdin && after.stdout == child.stdout
                && after.stderr == child.stderr
        }),
{
}

/// A wait brings what a look brings, and a wait that finds the supervisor gone leaves the child
/// unsettled, so that dropping its handle requests cancellation.
pub proof fn law_waits_settle_a_child<Stdin, Stdout, Stderr>(
    child: ManagedChild<Stdin, Stdout, Stderr>,
    arrived: Option<Result<ManagedOutput, Error>>,
)
    ensures
        ({
            let after = child.waited(arrived);
            &&& child.result is Some ==> after == child
            &&& child.result is None ==> {
                &&& after.result == arrived
                &&& after.settled == (arrived is Some)
                &&& arrived matches Some(result) ==> after == child.received(
                    Arrival::Result(result),
                )
                &&& arrived is None && child.standing is Running ==> after.standing is Failed
                &&& arrived is None && !(child.standing is Running) ==> after.standing
                    == child.standing
            }
            &&& after.id == child.id && after.stdin == child.stdin && after.stdout == child.stdout
                && after.stderr == child.stderr
        }),
{
}

/// A cancellation hands out the evidence exactly where the child was cancelled with complete
/// cleanup, or its result beat the cancellation; every other result is the error that it was,
/// and no evidence is lost.
pub proof fn law_cancellations_hand_out_complete_evidence(result: Result<ManagedOutput, Error>)
    ensures
        result matches Ok(output) ==> cancelled_evidence(result) == Ok::<
            Box<LifecycleEvidence>,
            Error,
        >(output.evidence),
        result matches Err(Error::Cancelled { evidence, .. }) ==> (evidence.cleanup is Complete
            ==> cancelled_evidence(result) == Ok::<Box<LifecycleEvidence>, Error>(evidence)),
        result matches Err(error) ==> (!(error is Cancelled) || !(
        error->Cancelled_evidence.cleanup is Complete) ==> cancelled_evidence(result) == Err::<
            Box<LifecycleEvidence>,
            Error,
        >(error)),
{
}

/// What the supervisor reported of the start is passed on; where it reported nothing, an error
/// that claims nothing of the child says whether the supervisor panicked.
pub proof fn law_startup_reports_are_passed_on<T>(
    startup: Startup<T>,
    program: String,
    result: Result<T, Error>,
)
    requires
        is_startup_result(startup, program, result),
    ensures
        startup matches Startup::Reported(report) ==> result == report,
        startup matches Startup::Silent { panicked } ==> (result matches Err(
            Error::SupervisionFailed { program: named, source, evidence },
        ) && named == program && source.kind == ErrorKind::Other && source.message@ == (
        if panicked {
            "managed supervisor panicked before reporting startup"@
        } else {
            "managed supervisor exited before reporting startup"@
        }) && evidence.leader_status is None && evidence.elapsed is None && evidence.signal
            is Unknown && evidence.cleanup is Unknown && evidence.reap.disposition
            == LeaderReapDisposition::Unknown),
{
}

/// From the moment at which a wait begins, before its result arrives, and until the result is
/// handed out, the handle holds no stdin that could keep the child from ending; what arrives
/// is what the wait hands out, and only where nothing arrives does dropping the handle request
/// cancellation.
pub proof fn law_stdin_is_closed_before_the_wait<Stdin, Stdout, Stderr>(
    child: ManagedChild<Stdin, Stdout, Stderr>,
    waiting: ManagedChild<Stdin, Stdout, Stderr>,
    arrived: Option<Result<ManagedOutput, Error>>,
)
    requires
        waiting == (ManagedChild { stdin: None, ..child }),
    ensures
        waiting.stdin is None,
        waiting.waited(arrived).stdin is None,
        waiting.waited(arrived) == (ManagedChild { stdin: None, ..child.waited(arrived) }),
        child.result is None ==> waiting.waited(arrived).result == arrived && waiting.waited(
            arrived,
        ).settled == (arrived is Some),
        child.result is Some ==> waiting.waited(arrived) == waiting,
{
}

} // verus!
