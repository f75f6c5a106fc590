//! The state machine that supervises one captured invocation from spawn to final evidence.
//!
//! The machine decides and a driver acts: each [`Action`] names one operation on the child,
//! its pipes or its process group, and the [`Event`] that answers it carries the result.

use vstd::prelude::*;

use crate::capture::CaptureStream;
#[allow(unused_imports)]
use crate::capture::{read_continues, StreamState};
use crate::error::{CleanupIncompleteEvidence, Error, FailureEvidence};
use crate::io::{ErrorKind, IoError};
#[allow(unused_imports)]
use crate::lifecycle::law_lawful_states_stay_lawful;
use crate::outcome::{
    choose_primary, classify, settlement_triggered, Observations,
};
#[allow(unused_imports)]
use crate::outcome::{is_run_result, Primary, Seen};
use crate::output::{
    CleanupOutcome, ExitStatus, GroupSignalOutcome, LeaderReapDisposition, LeaderReapOutcome,
    LifecycleEvidence, Output, StreamName,
};
use crate::policy::CapturePolicy;
use crate::schedule::{cleanup_budget, cleanup_deadline, deadline_elapsed, poll_timeout};
#[allow(unused_imports)]
use crate::schedule::{budget_nanos, cleanup_end, has_elapsed, moment, wait_nanos};
use crate::time::Duration;

verus! {

/// Most chunks read from one stream before the other has its turn.
pub const CHUNKS_PER_STREAM_TURN: usize = 8;

/// Most bytes asked for in one read.
pub const READ_CHUNK: usize = 8 * 1024;

/// What the driver reads off the world whenever it reports an event.
#[derive(Clone, Copy, Debug, PartialEq, Eq, Structural)]
pub struct Reading {
    /// Time since the invocation started.
    pub now: Duration,
    /// Whether cancellation has been requested.
    pub cancelled: bool,
}

/// One operation that the driver has to perform.
#[derive(Clone, Copy, Debug, PartialEq, Eq, Structural)]
pub enum Action {
    /// Nothing but a first reading.
    Begin,
    /// Look, without reaping, whether the leader has exited.
    ObserveLeader,
    /// Wait for the open pipes, or just wait where there are none.
    Poll {
        /// Whether stdout's pipe is waited for.
        stdout: bool,
        /// Whether stderr's pipe is waited for.
        stderr: bool,
        /// Longest wait in nanoseconds, below one second.
        timeout_nanos: u32,
    },
    /// Read one chunk.
    Read(StreamName),
    /// Kill the process group.
    SignalGroup,
    /// Reap the leader, which has exited.
    Reap,
    /// Hand the leader over to the background reaper.
    HandOff,
    /// Take the result.
    Finish,
}

/// What an operation gave.
pub enum Event {
    /// Answers [`Action::Begin`].
    Begun,
    /// Answers [`Action::ObserveLeader`]: whether the leader has exited.
    LeaderObserved(Result<bool, IoError>),
    /// Answers [`Action::Poll`]: whether stdout and stderr have something to read.
    Polled(Result<(bool, bool), IoError>),
    /// Answers [`Action::Read`]: the chunk, which is empty at the end of the stream.
    ReadDone(Result<Vec<u8>, IoError>),
    /// Answers [`Action::SignalGroup`]: what
    /// [`signal_group`](crate::outcome::signal_group) makes of the attempt.
    Signaled(GroupSignalOutcome),
    /// Answers [`Action::Reap`].
    Reaped(Result<ExitStatus, IoError>),
    /// Answers [`Action::HandOff`].
    HandedOff(Result<(), FailureEvidence>),
}

impl Event {
    /// Whether the event answers the action.
    pub open spec fn answers(self, action: Action) -> bool {
        match self {
            Event::Begun => action is Begin,
            Event::LeaderObserved(_) => action is ObserveLeader,
            Event::Polled(_) => action is Poll,
            Event::ReadDone(_) => action is Read,
            Event::Signaled(_) => action is SignalGroup,
            Event::Reaped(_) => action is Reap,
            Event::HandedOff(_) => action is HandOff,
        }
    }
}

/// The supervisor of one captured invocation.
pub struct Supervisor<Stdout, Stderr> {
    /// Display form of the program.
    pub program: String,
    /// The configured deadline, if bounded, which counts from the start.
    pub deadline: Option<Duration>,
    /// Capture of stdout.
    pub stdout: CaptureStream<Stdout>,
    /// Capture of stderr.
    pub stderr: CaptureStream<Stderr>,
    /// Whether stdout has the first turn in the next round of reads.
    pub stdout_first: bool,
    /// Chunks that the stream being read may still deliver in this turn.
    pub chunks_left: usize,
    /// The stream whose turn comes after the one being read.
    pub next_stream: Option<StreamName>,
    /// What has been seen so far.
    pub observations: Observations,
    /// When cleanup has to be over, once it has started.
    pub cleanup_deadline: Option<Duration>,
    /// What became of the signal, once it was attempted.
    pub signal: Option<GroupSignalOutcome>,
    /// The leader's status, once reaped.
    pub status: Option<ExitStatus>,
    /// What became of the reap obligation.
    pub disposition: LeaderReapDisposition,
    /// Whether the leader is still owned.
    pub has_child: bool,
    /// Whether cleanup ended before the leader was reaped.
    pub leader_unsettled: bool,
    /// The operation being waited for.
    pub pending: Action,
}

/// What a [`Supervisor`] stands for.
#[verifier::ext_equal]
pub struct State {
    /// Display form of the program.
    pub program: String,
    /// The configured deadline, if bounded, which counts from the start.
    pub deadline: Option<Duration>,
    /// Capture of stdout.
    pub stdout: StreamState,
    /// Capture of stderr.
    pub stderr: StreamState,
    /// Whether stdout has the first turn in the next round of reads.
    pub stdout_first: bool,
    /// Chunks that the stream being read may still deliver in this turn.
    pub chunks_left: usize,
    /// The stream whose turn comes after the one being read.
    pub next_stream: Option<StreamName>,
    /// What has been seen so far.
    pub seen: Seen,
    /// When cleanup has to be over, once it has started, in nanoseconds since the start.
    pub cleanup_deadline: Option<nat>,
    /// What became of the signal, once it was attempted.
    pub signal: Option<GroupSignalOutcome>,
    /// The leader's status, once reaped.
    pub status: Option<ExitStatus>,
    /// What became of the reap obligation.
    pub disposition: LeaderReapDisposition,
    /// Whether the leader is still owned.
    pub has_child: bool,
    /// Whether cleanup ended before the leader was reaped.
    pub leader_unsettled: bool,
    /// The operation being waited for.
    pub pending: Action,
}

impl State {
    /// A supervisor that has just taken over a spawned child.
    pub open spec fn initial(
        program: String,
        deadline: Option<Duration>,
        stdout: StreamState,
        stderr: StreamState,
    ) -> Self {
        State {
            program,
            deadline,
            stdout,
            stderr,
            stdout_first: true,
            chunks_left: 0,
            next_stream: None,
            seen: Seen::nothing(),
            cleanup_deadline: None,
            signal: None,
            status: None,
            disposition: LeaderReapDisposition::Unreaped,
            has_child: true,
            leader_unsettled: false,
            pending: Action::Begin,
        }
    }

    /// The state that waits for `action`.
    pub open spec fn asking(self, action: Action) -> Self {
        State { pending: action, ..self }
    }

    /// One of the streams.
    pub open spec fn stream(self, name: StreamName) -> StreamState {
        match name {
            StreamName::Stdout => self.stdout,
            StreamName::Stderr => self.stderr,
        }
    }

    /// With one of the streams replaced.
    pub open spec fn with_stream(self, name: StreamName, stream: StreamState) -> Self {
        match name {
            StreamName::Stdout => State { stdout: stream, ..self },
            StreamName::Stderr => State { stderr: stream, ..self },
        }
    }

    /// Takes note of cancellation and of the deadline.
    pub open spec fn informed(self, reading: Reading) -> Self {
        State {
            seen: Seen {
                cancelled: self.seen.cancelled || reading.cancelled,
                deadline_elapsed: has_elapsed(self.deadline, reading.now),
                ..self.seen
            },
            ..self
        }
    }

    /// Waits for the open pipes, not beyond the given instants.
    pub open spec fn polling(
        self,
        deadline: Option<nat>,
        cleanup: Option<nat>,
        now: nat,
    ) -> Self {
        self.asking(
            Action::Poll {
                stdout: self.stdout.open,
                stderr: self.stderr.open,
                timeout_nanos: wait_nanos(deadline, cleanup, now) as u32,
            },
        )
    }

    /// Whether supervision is over and cleanup has to start.
    pub open spec fn settles(self) -> bool {
        self.seen.settles(
            self.stdout.overflow is Some || self.stderr.overflow is Some,
            self.stdout.failure is Some || self.stderr.failure is Some,
        )
    }

    /// A new round: while supervising, a look at the leader; in cleanup, the same unless
    /// the budget is spent.
    #[verifier::opaque]
    pub open spec fn round(self, reading: Reading) -> Self {
        match self.cleanup_deadline {
            None => if self.seen.leader_in_question(self.has_child) {
                self.asking(Action::ObserveLeader)
            } else {
                self.judged(reading)
            },
            Some(end) => if reading.now.nanos() >= end {
                self.settled()
            } else {
                let informed = self.informed(reading);
                if informed.seen.leader_in_question(informed.has_child) {
                    informed.asking(Action::ObserveLeader)
                } else {
                    informed.judged(reading)
                }
            },
        }
    }

    /// After the look at the leader: supervision goes on or ends with the signal; cleanup
    /// reaps a leader that has exited.
    #[verifier::opaque]
    pub open spec fn judged(self, reading: Reading) -> Self {
        match self.cleanup_deadline {
            None => {
                let informed = self.informed(reading);
                if informed.settles() {
                    (State {
                        cleanup_deadline: Some(cleanup_end(reading.now.nanos())),
                        ..informed
                    }).asking(Action::SignalGroup)
                } else {
                    informed.polling(moment(self.deadline), None, reading.now.nanos())
                }
            },
            Some(_) => if self.seen.leader_waitable && self.has_child {
                self.asking(Action::Reap)
            } else {
                self.drained(reading)
            },
        }
    }

    /// After the reap: cleanup is over once the leader is gone and both streams are
    /// terminal.
    #[verifier::opaque]
    pub open spec fn drained(self, reading: Reading) -> Self {
        if !self.has_child && self.stdout.terminal() && self.stderr.terminal() {
            self.settled()
        } else {
            self.polling(None, self.cleanup_deadline, reading.now.nanos())
        }
    }

    /// Cleanup is over; a leader that is left goes to the background reaper.
    pub open spec fn settled(self) -> Self {
        (State { leader_unsettled: self.has_child, ..self }).asking(
            if self.has_child {
                Action::HandOff
            } else {
                Action::Finish
            },
        )
    }

    /// The stream that comes first in this round of reads.
    pub open spec fn first_stream(self) -> StreamName {
        if self.stdout_first {
            StreamName::Stdout
        } else {
            StreamName::Stderr
        }
    }

    /// The stream that comes second in this round of reads.
    pub open spec fn second_stream(self) -> StreamName {
        if self.stdout_first {
            StreamName::Stderr
        } else {
            StreamName::Stdout
        }
    }

    /// Starts a stream's turn, or a new round where the stream has nothing to read.
    #[verifier::opaque]
    pub open spec fn turn(self, stream: Option<StreamName>, reading: Reading) -> Self {
        match stream {
            Some(name) => if self.stream(name).open {
                (State { chunks_left: CHUNKS_PER_STREAM_TURN, next_stream: None, ..self }).asking(
                    Action::Read(name),
                )
            } else {
                (State { next_stream: None, ..self }).round(reading)
            },
            None => self.round(reading),
        }
    }

    /// A fair round of reads: each ready stream has one turn, and the stream that goes
    /// first now goes second in the next round.
    #[verifier::opaque]
    pub open spec fn pumped(self, stdout_ready: bool, stderr_ready: bool, reading: Reading) -> Self {
        let first = self.first_stream();
        let second = self.second_stream();
        let first_ready = if self.stdout_first {
            stdout_ready
        } else {
            stderr_ready
        };
        let second_ready = if self.stdout_first {
            stderr_ready
        } else {
            stdout_ready
        };
        let after = if second_ready {
            Some(second)
        } else {
            None
        };
        let flipped = State { stdout_first: !self.stdout_first, ..self };
        if first_ready && self.stream(first).open {
            (State { chunks_left: CHUNKS_PER_STREAM_TURN, next_stream: after, ..flipped }).asking(
                Action::Read(first),
            )
        } else {
            flipped.turn(after, reading)
        }
    }

    /// After one read of the stream `name`.
    #[verifier::opaque]
    pub open spec fn read(
        self,
        name: StreamName,
        read: Result<Vec<u8>, IoError>,
        reserved: bool,
        reading: Reading,
    ) -> Self {
        let updated = self.with_stream(name, self.stream(name).reading(read, reserved));
        let left = if self.chunks_left > 0 {
            (self.chunks_left - 1) as usize
        } else {
            0
        };
        let counted = State { chunks_left: left, ..updated };
        if read_continues(read) && counted.stream(name).open && left > 0 {
            counted.asking(Action::Read(name))
        } else {
            counted.turn(self.next_stream, reading)
        }
    }

    /// After an event. `reserved` says whether memory for a chunk that was read could be
    /// had. An event that does not answer the pending action changes nothing.
    ///
    /// The transition and the parts that it goes through are opaque, which keeps proofs
    /// about whole runs small; a proof about one step reveals those that the step goes
    /// through.
    #[verifier::opaque]
    pub open spec fn after(self, event: Event, reading: Reading, reserved: bool) -> Self {
        if !event.answers(self.pending) {
            self
        } else {
            match event {
                Event::Begun => self.round(reading),
                Event::LeaderObserved(leader) => (State {
                    seen: self.seen.looked(leader),
                    ..self
                }).judged(reading),
                Event::Polled(Ok(ready)) => self.pumped(ready.0, ready.1, reading),
                Event::Polled(Err(error)) => if error.kind == ErrorKind::Interrupted {
                    self.round(reading)
                } else {
                    (State { seen: self.seen.failing(error), ..self }).round(reading)
                },
                Event::ReadDone(read) => self.read(self.pending->Read_0, read, reserved, reading),
                Event::Signaled(outcome) => (State {
                    signal: Some(outcome),
                    ..self
                }).round(reading),
                Event::Reaped(Ok(status)) => (State {
                    status: Some(status),
                    disposition: LeaderReapDisposition::Reaped,
                    has_child: false,
                    ..self
                }).drained(reading),
                Event::Reaped(Err(error)) => self.with_reap_failure(
                    FailureEvidence {
                        operation: "reap process leader",
                        kind: error.kind,
                        message: error.message,
                    },
                ).settled(),
                Event::HandedOff(Ok(_)) => (State {
                    disposition: LeaderReapDisposition::BackgroundReaper,
                    has_child: false,
                    ..self
                }).asking(Action::Finish),
                Event::HandedOff(Err(failure)) => self.with_reap_failure(failure).asking(
                    Action::Finish,
                ),
            }
        }
    }

    /// Whether `granted` says whether there was memory for what the event brought, which only
    /// a read needs.
    pub open spec fn input_granted(self, event: Event, granted: bool) -> bool {
        match (self.pending, event) {
            (Action::Read(name), Event::ReadDone(read)) => self.stream(name).read_granted(
                read,
                granted,
            ),
            _ => granted,
        }
    }

    /// With one more failure to settle the leader.
    pub open spec fn with_reap_failure(self, failure: FailureEvidence) -> Self {
        State {
            seen: Seen { reap_failures: self.seen.reap_failures.push(failure), ..self.seen },
            ..self
        }
    }

    /// The streams that are not terminal, stdout first.
    pub open spec fn unfinished(self) -> Seq<StreamName> {
        (if self.stdout.terminal() {
            Seq::<StreamName>::empty()
        } else {
            seq![StreamName::Stdout]
        }) + (if self.stderr.terminal() {
            Seq::<StreamName>::empty()
        } else {
            seq![StreamName::Stderr]
        })
    }

    /// Whether `cleanup` says what was left unsettled.
    pub open spec fn cleaned_up(self, cleanup: CleanupOutcome) -> bool {
        if self.leader_unsettled || self.unfinished().len() > 0 {
            cleanup matches CleanupOutcome::Incomplete(facts) && facts.unfinished_streams@
                == self.unfinished() && facts.leader_unsettled == self.leader_unsettled
                && facts.cleanup_budget.nanos() == budget_nanos()
        } else {
            cleanup == CleanupOutcome::Complete
        }
    }

    /// Whether `evidence` is this invocation's.
    pub open spec fn evidenced_by(self, evidence: LifecycleEvidence, elapsed: Duration) -> bool {
        &&& evidence.leader_status == self.status
        &&& evidence.elapsed == Some(elapsed)
        &&& evidence.signal == match self.signal {
            Some(outcome) => outcome,
            None => GroupSignalOutcome::Unknown,
        }
        &&& evidence.reap.disposition == self.disposition
        &&& evidence.reap.failures@ == self.seen.reap_failures
        &&& self.stdout.reported_by(evidence.stdout)
        &&& self.stderr.reported_by(evidence.stderr)
        &&& self.cleaned_up(evidence.cleanup)
    }

    /// The outcome that won.
    pub open spec fn primary(self) -> Primary {
        self.seen.primary(self.stdout.overflow, self.stderr.overflow)
    }
}

impl<Stdout, Stderr> View for Supervisor<Stdout, Stderr> {
    type V = State;

    open spec fn view(&self) -> State {
        State {
            program: self.program,
            deadline: self.deadline,
            stdout: self.stdout@,
            stderr: self.stderr@,
            stdout_first: self.stdout_first,
            chunks_left: self.chunks_left,
            next_stream: self.next_stream,
            seen: self.observations@,
            cleanup_deadline: moment(self.cleanup_deadline),
            signal: self.signal,
            status: self.status,
            disposition: self.disposition,
            has_child: self.has_child,
            leader_unsettled: self.leader_unsettled,
            pending: self.pending,
        }
    }
}

impl<Stdout, Stderr> Supervisor<Stdout, Stderr> {
    /// Whether the pipes are the ones that `before` held.
    pub open spec fn same_pipes(self, before: Self) -> bool {
        &&& self.stdout.pipe == before.stdout.pipe
        &&& self.stderr.pipe == before.stderr.pipe
    }

    /// Whether each pipe is the one that `before` held, or closed.
    pub open spec fn no_other_pipes(self, before: Self) -> bool {
        &&& self.stdout.pipe == before.stdout.pipe || self.stdout.pipe is None
        &&& self.stderr.pipe == before.stderr.pipe || self.stderr.pipe is None
    }

    /// Takes over a spawned child. A stream without a pipe counts as redirected.
    pub(crate) fn new(
        program: String,
        deadline: Option<Duration>,
        stdout: Option<Stdout>,
        stderr: Option<Stderr>,
        stdout_capture: &CapturePolicy,
        stderr_capture: &CapturePolicy,
    ) -> (supervisor: Self)
        ensures
            supervisor.stdout.pipe == stdout,
            supervisor.stderr.pipe == stderr,
            supervisor@ == State::initial(
                program,
                deadline,
                StreamState::fresh(StreamName::Stdout, stdout is Some, *stdout_capture),
                StreamState::fresh(StreamName::Stderr, stderr is Some, *stderr_capture),
            ),
    {
        Supervisor {
            program,
            deadline,
            stdout: CaptureStream::new(StreamName::Stdout, stdout, stdout_capture),
            stderr: CaptureStream::new(StreamName::Stderr, stderr, stderr_capture),
            stdout_first: true,
            chunks_left: 0,
            next_stream: None,
            observations: Observations::default(),
            cleanup_deadline: None,
            signal: None,
            status: None,
            disposition: LeaderReapDisposition::Unreaped,
            has_child: true,
            leader_unsettled: false,
            pending: Action::Begin,
        }
    }

    /// The operation being waited for.
    #[must_use]
    pub fn pending(&self) -> (action: Action)
        ensures
            action == self@.pending,
    {
        self.pending
    }

    fn ask(&mut self, action: Action)
        ensures
            final(self)@ == old(self)@.asking(action),
            final(self).same_pipes(*old(self)),
    {
        self.pending = action;
    }

    fn inform(&mut self, reading: Reading)
        ensures
            final(self)@ == old(self)@.informed(reading),
            final(self).same_pipes(*old(self)),
    {
        self.observations.cancelled = self.observations.cancelled || reading.cancelled;
        self.observations.deadline_elapsed = deadline_elapsed(self.deadline, reading.now);
    }

    fn poll(&mut self, deadline: Option<Duration>, cleanup: Option<Duration>, now: Duration)
        ensures
            final(self)@ == old(self)@.polling(
                moment(deadline),
                moment(cleanup),
                now.nanos(),
            ),
            final(self).same_pipes(*old(self)),
    {
        let timeout_nanos: u32 = poll_timeout(deadline, cleanup, now);
        let stdout = self.stdout.is_open();
        let stderr = self.stderr.is_open();
        self.pending = Action::Poll { stdout, stderr, timeout_nanos };
    }

    fn begin_round(&mut self, reading: Reading)
        ensures
            final(self)@ == old(self)@.round(reading),
            final(self).same_pipes(*old(self)),
    {
        proof {
            reveal(State::round);
        }
        match self.cleanup_deadline {
            None => {},
            Some(end) => {
                if reading.now.at_least(end) {
                    self.settle();
                    return;
                }
                self.inform(reading);
            },
        }
        if self.observations.leader_in_question(self.has_child) {
            self.ask(Action::ObserveLeader);
        } else {
            self.judge(reading);
        }
    }

    fn judge(&mut self, reading: Reading)
        ensures
            final(self)@ == old(self)@.judged(reading),
            final(self).same_pipes(*old(self)),
    {
        proof {
            reveal(State::judged);
        }
        match self.cleanup_deadline {
            None => {
                self.inform(reading);
                let overflow = self.stdout.overflow().is_some() || self.stderr.overflow().is_some();
                let capture_failed = self.stdout.failed() || self.stderr.failed();
                if settlement_triggered(&self.observations, overflow, capture_failed) {
                    let end = cleanup_deadline(reading.now);
                    self.cleanup_deadline = Some(end);
                    self.ask(Action::SignalGroup);
                } else {
                    self.poll(self.deadline, None, reading.now);
                }
            },
            Some(_) => {
                if self.observations.leader_waitable && self.has_child {
                    self.ask(Action::Reap);
                } else {
                    self.drain(reading);
                }
            },
        }
    }

    fn drain(&mut self, reading: Reading)
        ensures
            final(self)@ == old(self)@.drained(reading),
            final(self).same_pipes(*old(self)),
    {
        proof {
            reveal(State::drained);
        }
        if !self.has_child && self.stdout.terminal() && self.stderr.terminal() {
            self.settle();
        } else {
            self.poll(None, self.cleanup_deadline, reading.now);
        }
    }

    fn settle(&mut self)
        ensures
            final(self)@ == old(self)@.settled(),
            final(self).same_pipes(*old(self)),
    {
        self.leader_unsettled = self.has_child;
        if self.has_child {
            self.ask(Action::HandOff);
        } else {
            self.ask(Action::Finish);
        }
    }

    fn stream_is_open(&self, name: StreamName) -> (open: bool)
        ensures
            open == self@.stream(name).open,
    {
        match name {
            StreamName::Stdout => self.stdout.is_open(),
            StreamName::Stderr => self.stderr.is_open(),
        }
    }

    fn begin_turn(&mut self, stream: Option<StreamName>, reading: Reading)
        ensures
            final(self)@ == old(self)@.turn(stream, reading),
            final(self).same_pipes(*old(self)),
    {
        proof {
            reveal(State::turn);
        }
        match stream {
            Some(name) => {
                self.next_stream = None;
                if self.stream_is_open(name) {
                    self.chunks_left = CHUNKS_PER_STREAM_TURN;
                    self.ask(Action::Read(name));
                } else {
                    self.begin_round(reading);
                }
            },
            None => {
                self.begin_round(reading);
            },
        }
    }

    fn pump_fair(&mut self, stdout_ready: bool, stderr_ready: bool, reading: Reading)
        ensures
            final(self)@ == old(self)@.pumped(stdout_ready, stderr_ready, reading),
            final(self).same_pipes(*old(self)),
    {
        proof {
            reveal(State::pumped);
        }
        let (first, first_ready, second, second_ready) = if self.stdout_first {
            (StreamName::Stdout, stdout_ready, StreamName::Stderr, stderr_ready)
        } else {
            (StreamName::Stderr, stderr_ready, StreamName::Stdout, stdout_ready)
        };
        self.stdout_first = !self.stdout_first;
        let after = if second_ready {
            Some(second)
        } else {
            None
        };
        if first_ready && self.stream_is_open(first) {
            self.chunks_left = CHUNKS_PER_STREAM_TURN;
            self.next_stream = after;
            self.ask(Action::Read(first));
        } else {
            self.begin_turn(after, reading);
        }
    }

    fn take_read(
        &mut self,
        name: StreamName,
        read: Result<Vec<u8>, IoError>,
        reserved: bool,
        reading: Reading,
    )
        ensures
            final(self)@ == old(self)@.read(name, read, reserved, reading),
            final(self).no_other_pipes(*old(self)),
    {
        proof {
            reveal(State::read);
        }
        let goes_on = match name {
            StreamName::Stdout => self.stdout.accept_reserved(read, reserved),
            StreamName::Stderr => self.stderr.accept_reserved(read, reserved),
        };
        if self.chunks_left > 0 {
            self.chunks_left = self.chunks_left - 1;
        }
        if goes_on && self.chunks_left > 0 {
            self.ask(Action::Read(name));
        } else {
            self.begin_turn(self.next_stream, reading);
        }
    }

    fn reap_failed(&mut self, failure: FailureEvidence)
        ensures
            final(self)@ == old(self)@.with_reap_failure(failure),
            final(self).same_pipes(*old(self)),
    {
        self.observations.reap_failures.push(failure);
    }

    /// Takes in an event, given whether memory for a chunk that was read could be had, and
    /// returns the next operation. An event that does not answer the pending operation
    /// changes nothing.
    pub fn advance(&mut self, event: Event, reading: Reading, reserved: bool) -> (action: Action)
        ensures
            final(self)@ == old(self)@.after(event, reading, reserved),
            final(self).no_other_pipes(*old(self)),
            !(event is ReadDone) ==> final(self).same_pipes(*old(self)),
            old(self)@.lawful() ==> final(self)@.lawful(),
            action == final(self)@.pending,
    {
        proof {
            if self@.lawful() {
                law_lawful_states_stay_lawful(self@, event, reading, reserved);
            }
            reveal(State::after);
        }
        match (self.pending, event) {
            (Action::Begin, Event::Begun) => {
                self.begin_round(reading);
            },
            (Action::ObserveLeader, Event::LeaderObserved(leader)) => {
                self.observations.observe_leader(leader);
                self.judge(reading);
            },
            (Action::Poll { .. }, Event::Polled(Ok((stdout_ready, stderr_ready)))) => {
                self.pump_fair(stdout_ready, stderr_ready, reading);
            },
            (Action::Poll { .. }, Event::Polled(Err(error))) => {
                if !error.is_interrupted() {
                    self.observations.record_error(error);
                }
                self.begin_round(reading);
            },
            (Action::Read(name), Event::ReadDone(read)) => {
                self.take_read(name, read, reserved, reading);
            },
            (Action::SignalGroup, Event::Signaled(outcome)) => {
                self.signal = Some(outcome);
                self.begin_round(reading);
            },
            (Action::Reap, Event::Reaped(Ok(status))) => {
                self.status = Some(status);
                self.disposition = LeaderReapDisposition::Reaped;
                self.has_child = false;
                self.drain(reading);
            },
            (Action::Reap, Event::Reaped(Err(error))) => {
                self.reap_failed(FailureEvidence::from_io("reap process leader", error));
                self.settle();
            },
            (Action::HandOff, Event::HandedOff(Ok(_))) => {
                self.disposition = LeaderReapDisposition::BackgroundReaper;
                self.has_child = false;
                self.ask(Action::Finish);
            },
            (Action::HandOff, Event::HandedOff(Err(failure))) => {
                self.reap_failed(failure);
                self.ask(Action::Finish);
            },
            _ => {},
        }
        self.pending
    }

    /// Takes in an event and returns the next operation.
    ///
    /// Whether memory for a chunk can be had is the machine's affair; the state is one of
    /// the two that follow.
    pub fn step(&mut self, event: Event, reading: Reading) -> (action: Action)
        ensures
            final(self)@ == old(self)@.after(event, reading, true) || final(self)@ == old(
                self,
            )@.after(event, reading, false),
            !(event is ReadDone) ==> final(self)@ == old(self)@.after(event, reading, true),
            (old(self)@.pending matches Action::Read(name) && event matches Event::ReadDone(read)
                && !old(self)@.stream(name).needs_memory(read)) ==> final(self)@ == old(
                self,
            )@.after(event, reading, true),
            exists|reserved: bool|
                #[trigger] old(self)@.input_granted(event, reserved) && final(self)@ == old(
                    self,
                )@.after(event, reading, reserved),
            final(self).no_other_pipes(*old(self)),
            !(event is ReadDone) ==> final(self).same_pipes(*old(self)),
            old(self)@.lawful() ==> final(self)@.lawful(),
            action == final(self)@.pending,
    {
        proof {
            reveal(State::after);
        }
        let ghost before = self@;
        let mut reserved = true;
        if let Event::ReadDone(read) = &event {
            if let Action::Read(name) = self.pending {
                reserved = match name {
                    StreamName::Stdout => self.stdout.reserve_read(read),
                    StreamName::Stderr => self.stderr.reserve_read(read),
                };
            }
        }
        assert(before.input_granted(event, reserved));
        self.advance(event, reading, reserved)
    }

    /// Takes note of whether the pipes could be made non-blocking.
    pub fn configure_pipes(&mut self, stdout: Result<(), IoError>, stderr: Result<(), IoError>)
        ensures
            final(self)@ == (State {
                stdout: old(self)@.stdout.configured(stdout),
                stderr: old(self)@.stderr.configured(stderr),
                ..old(self)@
            }),
            final(self).no_other_pipes(*old(self)),
            old(self)@.lawful() && old(self)@.pending is Begin ==> final(self)@.lawful(),
    {
        self.stdout.make_nonblocking(stdout);
        self.stderr.make_nonblocking(stderr);
    }

    /// Tells the caller what became of the invocation.
    pub fn finish(self, elapsed: Duration) -> (result: Result<Output, Error>)
        ensures
            exists|evidence: Box<LifecycleEvidence>|
                self@.evidenced_by(*evidence, elapsed) && #[trigger] is_run_result(
                    self@.primary(),
                    self.program,
                    self.deadline,
                    evidence,
                    result,
                ),
    {
        let ghost state = self@;
        let mut unfinished_streams: Vec<StreamName> = Vec::new();
        if !self.stdout.terminal() {
            unfinished_streams.push(StreamName::Stdout);
        }
        if !self.stderr.terminal() {
            unfinished_streams.push(StreamName::Stderr);
        }
        assert(unfinished_streams@ =~= state.unfinished());
        let cleanup = if self.leader_unsettled || unfinished_streams.len() > 0 {
            CleanupOutcome::Incomplete(
                CleanupIncompleteEvidence {
                    unfinished_streams,
                    leader_unsettled: self.leader_unsettled,
                    cleanup_budget: cleanup_budget(),
                },
            )
        } else {
            CleanupOutcome::Complete
        };
        let stdout_overflow = self.stdout.overflow();
        let stderr_overflow = self.stderr.overflow();
        let mut observations = self.observations;
        let primary = choose_primary(&mut observations, stdout_overflow, stderr_overflow);
        let signal = match self.signal {
            Some(outcome) => outcome,
            None => GroupSignalOutcome::Unknown,
        };
        let evidence = Box::new(
            LifecycleEvidence {
                leader_status: self.status,
                elapsed: Some(elapsed),
                signal,
                reap: LeaderReapOutcome {
                    disposition: self.disposition,
                    failures: observations.reap_failures,
                },
                stdout: self.stdout.into_report(),
                stderr: self.stderr.into_report(),
                cleanup,
            },
        );
        assert(state.evidenced_by(*evidence, elapsed));
        classify(primary, self.program, self.deadline, evidence)
    }
}

} // verus!
