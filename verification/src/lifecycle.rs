//! Laws of the captured supervision: what every state keeps, and what holds of whole runs.

use vstd::prelude::*;

use crate::capture::{
    bytes_of, law_accounted_streams_retain_the_prefix, law_reports_are_faithful, law_reads_are_accounted_for,
    law_reads_keep_the_bound, read_continues, saturated, StreamState,
};
use crate::error::{Error, FailureEvidence};
use crate::io::{ErrorKind, IoError};
use crate::outcome::{is_run_result, law_run_results_follow_from_the_facts, Seen};
use crate::output::{
    CaptureCompleteness, CleanupOutcome, ExitStatus, GroupSignalOutcome, LeaderReapDisposition,
    LifecycleEvidence, Output, StreamName,
};
use crate::policy::{CapturePolicy, OverflowBehavior};
use crate::schedule::{
    budget_nanos, cleanup_end, has_elapsed, left_until, moment, quantum_nanos, wait_nanos,
    CLEANUP_ALLOWANCE_MILLIS,
};
use crate::supervisor::{Action, Event, Reading, State, CHUNKS_PER_STREAM_TURN, READ_CHUNK};
use crate::time::{Duration, MAX_NANOS, NANOS_PER_MILLI};

verus! {

/// One input of the machine: an event, the reading taken with it, and whether memory for a
/// chunk that was read could be had.
pub struct Input {
    /// The event.
    pub event: Event,
    /// The reading taken with it.
    pub reading: Reading,
    /// Whether memory for a chunk could be had.
    pub reserved: bool,
}

impl State {
    /// The state after a sequence of inputs.
    pub open spec fn run(self, inputs: Seq<Input>) -> Self
        decreases inputs.len(),
    {
        if inputs.len() == 0 {
            self
        } else {
            let input = inputs.last();
            self.run(inputs.drop_last()).after(input.event, input.reading, input.reserved)
        }
    }

    /// What holds of the pending operation.
    pub open spec fn pending_is_due(self) -> bool {
        match self.pending {
            Action::Begin => self.cleanup_deadline is None,
            Action::ObserveLeader => self.has_child && !self.seen.leader_waitable
                && self.seen.observe_error is None,
            Action::Poll { stdout, stderr, timeout_nanos } => stdout == self.stdout.open && stderr
                == self.stderr.open && timeout_nanos <= quantum_nanos(),
            Action::Read(name) => self.stream(name).open && 1 <= self.chunks_left
                && self.next_stream != Some(name),
            Action::SignalGroup => self.cleanup_deadline is Some && self.settles(),
            Action::Reap => self.cleanup_deadline is Some && self.has_child
                && self.seen.leader_waitable,
            Action::HandOff => self.cleanup_deadline is Some && self.has_child
                && self.leader_unsettled,
            Action::Finish => self.cleanup_deadline is Some,
        }
    }

    /// What every state of a supervised invocation keeps to.
    pub open spec fn lawful(self) -> bool {
        &&& self.stdout.well_formed() && self.stdout.name == StreamName::Stdout
        &&& self.stderr.well_formed() && self.stderr.name == StreamName::Stderr
        &&& self.chunks_left <= CHUNKS_PER_STREAM_TURN
        &&& self.seen.deadline_elapsed ==> self.deadline is Some && self.cleanup_deadline is Some
        // The group is signaled once, when cleanup starts.
        &&& self.signal is Some <==> self.cleanup_deadline is Some && !(self.pending is SignalGroup)
        // The leader is reaped, handed over or still owned.
        &&& self.status is Some <==> self.disposition == LeaderReapDisposition::Reaped
        &&& self.disposition != LeaderReapDisposition::Unknown
        &&& self.has_child <==> self.disposition == LeaderReapDisposition::Unreaped
        &&& self.status is Some ==> self.seen.leader_waitable && self.signal is Some
        &&& self.disposition == LeaderReapDisposition::BackgroundReaper ==> self.leader_unsettled
            && self.pending is Finish
        &&& self.disposition == LeaderReapDisposition::Unreaped && self.pending is Finish
            ==> self.seen.reap_failures.len() > 0 && self.leader_unsettled
        // Nothing is left over where cleanup ended.
        &&& self.leader_unsettled ==> self.pending is HandOff || self.pending is Finish
        &&& self.leader_unsettled ==> !(self.disposition == LeaderReapDisposition::Reaped)
        &&& self.seen.reap_failures.len() > 0 ==> self.leader_unsettled
        &&& self.pending_is_due()
    }
}

/// A spawned child starts out lawfully, also where a pipe could not be made non-blocking.
pub proof fn law_initial_state_is_lawful(
    program: String,
    deadline: Option<Duration>,
    stdout_open: bool,
    stderr_open: bool,
    stdout_capture: CapturePolicy,
    stderr_capture: CapturePolicy,
    stdout_configured: Result<(), IoError>,
    stderr_configured: Result<(), IoError>,
)
    ensures
        State::initial(
            program,
            deadline,
            StreamState::fresh(StreamName::Stdout, stdout_open, stdout_capture).configured(
                stdout_configured,
            ),
            StreamState::fresh(StreamName::Stderr, stderr_open, stderr_capture).configured(
                stderr_configured,
            ),
        ).lawful(),
{
}

/// A spawned child starts out with nothing seen, nothing signaled and the leader owned; its
/// streams are those that it was spawned with, stdout first, and its turns have eight chunks of
/// eight kibibytes.
pub proof fn law_supervision_starts_from_nothing(
    program: String,
    deadline: Option<Duration>,
    stdout: StreamState,
    stderr: StreamState,
)
    ensures
        ({
            let s = State::initial(program, deadline, stdout, stderr);
            &&& s.program == program && s.deadline == deadline
            &&& s.stdout == stdout && s.stderr == stderr && s.stdout_first
            &&& !s.seen.cancelled && !s.seen.deadline_elapsed && !s.seen.leader_waitable
            &&& s.seen.observe_error is None && s.seen.reap_failures.len() == 0
            &&& s.cleanup_deadline is None && s.signal is None && s.status is None
            &&& s.has_child && s.disposition == LeaderReapDisposition::Unreaped
            &&& !s.leader_unsettled && s.pending is Begin
        }),
        CHUNKS_PER_STREAM_TURN == 8,
        READ_CHUNK == 8192,
{
}

/// What holds between two operations, once the answer to the last one is taken in.
spec fn steady(s: State) -> bool {
    &&& s.stdout.well_formed() && s.stdout.name == StreamName::Stdout
    &&& s.stderr.well_formed() && s.stderr.name == StreamName::Stderr
    &&& s.chunks_left <= CHUNKS_PER_STREAM_TURN
    &&& s.seen.deadline_elapsed ==> s.deadline is Some && s.cleanup_deadline is Some
    &&& s.signal is Some <==> s.cleanup_deadline is Some
    &&& s.status is Some <==> s.disposition == LeaderReapDisposition::Reaped
    &&& s.has_child <==> s.disposition == LeaderReapDisposition::Unreaped
    &&& s.disposition == LeaderReapDisposition::Reaped || s.disposition
        == LeaderReapDisposition::Unreaped
    &&& s.status is Some ==> s.seen.leader_waitable && s.signal is Some
    &&& !s.leader_unsettled
    &&& s.seen.reap_failures.len() > 0 ==> s.has_child
}

proof fn lemma_settled(s: State)
    requires
        steady(s),
        s.cleanup_deadline is Some,
    ensures
        s.settled().lawful(),
{
}

proof fn lemma_polling(
    s: State,
    deadline: Option<nat>,
    cleanup: Option<nat>,
    now: nat,
)
    requires
        steady(s),
        s.seen.reap_failures.len() == 0,
    ensures
        s.polling(deadline, cleanup, now).lawful(),
{
}

proof fn lemma_drained(s: State, reading: Reading)
    requires
        steady(s),
        s.seen.reap_failures.len() == 0,
        s.cleanup_deadline is Some,
    ensures
        s.drained(reading).lawful(),
{
    reveal(State::drained);
    lemma_settled(s);
    lemma_polling(s, None, s.cleanup_deadline, reading.now.nanos());
}

proof fn lemma_judged(s: State, reading: Reading)
    requires
        steady(s),
        s.seen.reap_failures.len() == 0,
    ensures
        s.judged(reading).lawful(),
{
    reveal(State::judged);
    if s.cleanup_deadline is Some {
        lemma_drained(s, reading);
    } else if !s.informed(reading).settles() {
        lemma_polling(
            s.informed(reading),
            moment(s.deadline),
            None,
            reading.now.nanos(),
        );
    }
}

proof fn lemma_round(s: State, reading: Reading)
    requires
        steady(s),
        s.seen.reap_failures.len() == 0,
    ensures
        s.round(reading).lawful(),
{
    reveal(State::round);
    lemma_judged(s, reading);
    if s.cleanup_deadline is Some {
        lemma_settled(s);
        lemma_judged(s.informed(reading), reading);
    }
}

proof fn lemma_turn(s: State, stream: Option<StreamName>, reading: Reading)
    requires
        steady(s),
        s.seen.reap_failures.len() == 0,
    ensures
        s.turn(stream, reading).lawful(),
{
    reveal(State::turn);
    lemma_round(s, reading);
    lemma_round(State { next_stream: None, ..s }, reading);
}

proof fn lemma_pumped(s: State, stdout_ready: bool, stderr_ready: bool, reading: Reading)
    requires
        steady(s),
        s.seen.reap_failures.len() == 0,
    ensures
        s.pumped(stdout_ready, stderr_ready, reading).lawful(),
{
    reveal(State::pumped);
    let flipped = State { stdout_first: !s.stdout_first, ..s };
    lemma_turn(flipped, Some(s.second_stream()), reading);
    lemma_turn(flipped, None, reading);
}

proof fn lemma_read(
    s: State,
    name: StreamName,
    read: Result<Vec<u8>, IoError>,
    reserved: bool,
    reading: Reading,
)
    requires
        steady(s),
        s.seen.reap_failures.len() == 0,
        s.stream(name).open,
        s.next_stream != Some(name),
    ensures
        s.read(name, read, reserved, reading).lawful(),
{
    reveal(State::read);
    law_reads_keep_the_bound(s.stream(name), read, reserved);
    let updated = s.with_stream(name, s.stream(name).reading(read, reserved));
    let left = if s.chunks_left > 0 {
        (s.chunks_left - 1) as usize
    } else {
        0
    };
    lemma_turn(State { chunks_left: left, ..updated }, s.next_stream, reading);
}

/// Every input keeps a lawful state lawful.
pub proof fn law_lawful_states_stay_lawful(s: State, event: Event, reading: Reading, reserved: bool)
    requires
        s.lawful(),
    ensures
        s.after(event, reading, reserved).lawful(),
{
    reveal(State::after);
    if event.answers(s.pending) {
        match event {
            Event::Begun => lemma_round(s, reading),
            Event::LeaderObserved(leader) => lemma_judged(
                State { seen: s.seen.looked(leader), ..s },
                reading,
            ),
            Event::Polled(Ok(ready)) => lemma_pumped(s, ready.0, ready.1, reading),
            Event::Polled(Err(error)) => {
                lemma_round(s, reading);
                lemma_round(State { seen: s.seen.failing(error), ..s }, reading);
            },
            Event::ReadDone(read) => lemma_read(s, s.pending->Read_0, read, reserved, reading),
            Event::Signaled(outcome) => lemma_round(
                State { signal: Some(outcome), ..s },
                reading,
            ),
            Event::Reaped(Ok(status)) => lemma_drained(
                State {
                    status: Some(status),
                    disposition: LeaderReapDisposition::Reaped,
                    has_child: false,
                    ..s
                },
                reading,
            ),
            Event::Reaped(Err(error)) => lemma_settled(
                s.with_reap_failure(
                    FailureEvidence {
                        operation: "reap process leader",
                        kind: error.kind,
                        message: error.message,
                    },
                ),
            ),
            Event::HandedOff(_) => {},
        }
    }
}

/// Whatever happens to a supervised invocation, its states are lawful.
pub proof fn law_runs_are_lawful(s: State, inputs: Seq<Input>)
    requires
        s.lawful(),
    ensures
        s.run(inputs).lawful(),
    decreases inputs.len(),
{
    if inputs.len() > 0 {
        law_runs_are_lawful(s, inputs.drop_last());
        let input = inputs.last();
        law_lawful_states_stay_lawful(
            s.run(inputs.drop_last()),
            input.event,
            input.reading,
            input.reserved,
        );
    }
}

/// Whether `t` keeps everything of `s` that only an answer can change.
spec fn same_facts(s: State, t: State) -> bool {
    &&& t.program == s.program
    &&& t.deadline == s.deadline
    &&& t.stdout == s.stdout
    &&& t.stderr == s.stderr
    &&& t.stdout_first == s.stdout_first
    &&& t.signal == s.signal
    &&& t.status == s.status
    &&& t.disposition == s.disposition
    &&& t.has_child == s.has_child
    &&& t.seen.leader_waitable == s.seen.leader_waitable
    &&& t.seen.observe_error == s.seen.observe_error
    &&& t.seen.reap_failures == s.seen.reap_failures
    &&& s.seen.cancelled ==> t.seen.cancelled
}

/// Whether the wait that `t` asks for, if it asks for one, ends in time.
spec fn waits_in_time(t: State, now: nat) -> bool {
    t.pending matches Action::Poll { timeout_nanos, .. } ==> {
        &&& timeout_nanos <= quantum_nanos()
        &&& t.cleanup_deadline is None ==> (t.deadline matches Some(end) ==> timeout_nanos
            <= left_until(end.nanos(), now))
        &&& t.cleanup_deadline matches Some(end) ==> timeout_nanos <= left_until(end, now)
    }
}

/// Whether there is a reason to stop: a limit was crossed, a capture failed, the leader or the
/// pipes could not be observed, the leader has exited, cancellation was requested, or the
/// deadline has passed.
pub open spec fn has_to_stop(s: State, reading: Reading) -> bool {
    s.settles() || has_elapsed(s.deadline, reading.now) || reading.cancelled
}

/// Whether `t` is where the routing from `s` may lead.
spec fn routed(s: State, t: State, reading: Reading) -> bool {
    &&& same_facts(s, t)
    &&& waits_in_time(t, reading.now.nanos())
    &&& match s.cleanup_deadline {
        Some(_) => t.cleanup_deadline == s.cleanup_deadline && !(t.pending is SignalGroup),
        None => t.cleanup_deadline is Some <==> t.pending is SignalGroup,
    }
    &&& s.cleanup_deadline is None && t.cleanup_deadline is Some ==> t.cleanup_deadline == Some(
        cleanup_end(reading.now.nanos()),
    )
    &&& t.seen.deadline_elapsed ==> s.seen.deadline_elapsed || has_elapsed(s.deadline, reading.now)
    &&& t.seen.cancelled ==> s.seen.cancelled || reading.cancelled
    &&& !(t.pending is Begin)
}

proof fn lemma_judged_routes(s: State, reading: Reading)
    ensures
        routed(s, s.judged(reading), reading),
        !(s.judged(reading).pending is Read),
        s.cleanup_deadline is None && !s.seen.deadline_elapsed && has_to_stop(s, reading) ==> s.judged(
            reading,
        ).pending is SignalGroup,
        s.cleanup_deadline is Some ==> match s.judged(reading).pending {
            Action::Reap => s.seen.leader_waitable && s.has_child,
            Action::Poll { .. } => true,
            Action::HandOff => true,
            Action::Finish => true,
            _ => false,
        },
{
    reveal(State::judged);
    reveal(State::drained);
}

proof fn lemma_round_routes(s: State, reading: Reading)
    ensures
        routed(s, s.round(reading), reading),
        !(s.round(reading).pending is Read),
        s.cleanup_deadline is None && !s.seen.deadline_elapsed && has_to_stop(s, reading) ==> s.round(
            reading,
        ).pending is SignalGroup || s.round(reading).pending is ObserveLeader,
        s.cleanup_deadline matches Some(end) && reading.now.nanos() >= end ==> s.round(
            reading,
        ).pending is HandOff || s.round(reading).pending is Finish,
{
    reveal(State::round);
    lemma_judged_routes(s, reading);
    lemma_judged_routes(s.informed(reading), reading);
}

proof fn lemma_turn_routes(s: State, stream: Option<StreamName>, reading: Reading)
    ensures
        routed(s, s.turn(stream, reading), reading),
        s.turn(stream, reading).pending matches Action::Read(name) ==> stream == Some(name)
            && s.turn(stream, reading).chunks_left == CHUNKS_PER_STREAM_TURN && s.turn(
            stream,
            reading,
        ).next_stream is None,
        !(s.turn(stream, reading).pending is Read) && s.cleanup_deadline is None
            && !s.seen.deadline_elapsed && has_to_stop(s, reading) ==> s.turn(
            stream,
            reading,
        ).pending is SignalGroup || s.turn(stream, reading).pending is ObserveLeader,
        !(s.turn(stream, reading).pending is Read) && (s.cleanup_deadline matches Some(end)
            && reading.now.nanos() >= end) ==> s.turn(stream, reading).pending is HandOff
            || s.turn(stream, reading).pending is Finish,
{
    reveal(State::turn);
    lemma_round_routes(s, reading);
    lemma_round_routes(State { next_stream: None, ..s }, reading);
}

/// What an answer changes before the routing goes on from there.
spec fn answered(s: State, event: Event, reserved: bool) -> State {
    match event {
        Event::LeaderObserved(leader) => State { seen: s.seen.looked(leader), ..s },
        Event::Polled(Ok(_)) => State { stdout_first: !s.stdout_first, ..s },
        Event::Polled(Err(error)) => if error.kind == ErrorKind::Interrupted {
            s
        } else {
            State { seen: s.seen.failing(error), ..s }
        },
        Event::ReadDone(read) => State {
            chunks_left: if s.chunks_left > 0 {
                (s.chunks_left - 1) as usize
            } else {
                0
            },
            ..s.with_stream(s.pending->Read_0, s.stream(s.pending->Read_0).reading(read, reserved))
        },
        Event::Signaled(outcome) => State { signal: Some(outcome), ..s },
        Event::Reaped(Ok(status)) => State {
            status: Some(status),
            disposition: LeaderReapDisposition::Reaped,
            has_child: false,
            ..s
        },
        Event::Reaped(Err(error)) => s.with_reap_failure(
            FailureEvidence {
                operation: "reap process leader",
                kind: error.kind,
                message: error.message,
            },
        ),
        Event::HandedOff(Ok(_)) => State {
            disposition: LeaderReapDisposition::BackgroundReaper,
            has_child: false,
            ..s
        },
        Event::HandedOff(Err(failure)) => s.with_reap_failure(failure),
        _ => s,
    }
}

proof fn lemma_unanswered(s: State, event: Event, reading: Reading, reserved: bool)
    requires
        !event.answers(s.pending),
    ensures
        s.after(event, reading, reserved) == s,
{
    reveal(State::after);
}

proof fn lemma_pumped_routes(s: State, stdout_ready: bool, stderr_ready: bool, reading: Reading)
    ensures
        routed(
            State { stdout_first: !s.stdout_first, ..s },
            s.pumped(stdout_ready, stderr_ready, reading),
            reading,
        ),
{
    reveal(State::pumped);
    let t = State { stdout_first: !s.stdout_first, ..s };
    lemma_turn_routes(t, Some(s.second_stream()), reading);
    lemma_turn_routes(t, None, reading);
}

proof fn lemma_read_routes(
    s: State,
    read: Result<Vec<u8>, IoError>,
    reading: Reading,
    reserved: bool,
)
    requires
        s.pending is Read,
    ensures
        routed(
            answered(s, Event::ReadDone(read), reserved),
            s.read(s.pending->Read_0, read, reserved, reading),
            reading,
        ),
{
    reveal(State::read);
    let t = answered(s, Event::ReadDone(read), reserved);
    let name = s.pending->Read_0;
    lemma_turn_routes(t, s.next_stream, reading);
    assert(s.read(name, read, reserved, reading) == t.asking(Action::Read(name)) || s.read(
        name,
        read,
        reserved,
        reading,
    ) == t.turn(s.next_stream, reading));
}

proof fn lemma_settling_routes(s: State, event: Event, reading: Reading, reserved: bool)
    requires
        s.cleanup_deadline is Some,
        event is Reaped || event is HandedOff,
        event.answers(s.pending),
    ensures
        routed(answered(s, event, reserved), s.after(event, reading, reserved), reading),
{
    reveal(State::drained);
    reveal(State::after);
}

/// Every answered operation changes what its answer says and then routes on from there.
proof fn lemma_after_routes(s: State, event: Event, reading: Reading, reserved: bool)
    requires
        s.pending is SignalGroup || s.pending is Reap || s.pending is HandOff
            ==> s.cleanup_deadline is Some,
        event.answers(s.pending),
    ensures
        routed(answered(s, event, reserved), s.after(event, reading, reserved), reading),
{
    let t = answered(s, event, reserved);
    let after = s.after(event, reading, reserved);
    match event {
        Event::LeaderObserved(_) => {
            assert(after == t.judged(reading)) by {
                reveal(State::after);
            }
            lemma_judged_routes(t, reading);
        },
        Event::Polled(Ok(ready)) => {
            assert(after == s.pumped(ready.0, ready.1, reading)) by {
                reveal(State::after);
            }
            lemma_pumped_routes(s, ready.0, ready.1, reading);
        },
        Event::ReadDone(read) => {
            assert(after == s.read(s.pending->Read_0, read, reserved, reading)) by {
                reveal(State::after);
            }
            lemma_read_routes(s, read, reading, reserved);
        },
        Event::Reaped(_) => lemma_settling_routes(s, event, reading, reserved),
        Event::HandedOff(_) => lemma_settling_routes(s, event, reading, reserved),
        _ => {
            assert(after == t.round(reading)) by {
                reveal(State::after);
            }
            lemma_round_routes(t, reading);
        },
    }
}

/// Every answer is recorded as it was given, and nothing else is: the status is the one that was
/// reaped, the signal's outcome the one that was reported, the failures those that occurred,
/// and each stream takes in its own reads alone. Cancellation and the deadline are noted only
/// where a reading shows them, and what does not answer the pending operation changes nothing.
pub proof fn law_steps_record_what_happened(
    s: State,
    event: Event,
    reading: Reading,
    reserved: bool,
)
    requires
        s.lawful(),
    ensures
        ({
            let after = s.after(event, reading, reserved);
            &&& !event.answers(s.pending) ==> after == s
            &&& event.answers(s.pending) ==> {
                &&& after.program == s.program && after.deadline == s.deadline
                &&& after.status == match event {
                    Event::Reaped(Ok(status)) => Some(status),
                    _ => s.status,
                }
                &&& after.signal == match event {
                    Event::Signaled(outcome) => Some(outcome),
                    _ => s.signal,
                }
                &&& after.disposition == match event {
                    Event::Reaped(Ok(_)) => LeaderReapDisposition::Reaped,
                    Event::HandedOff(Ok(_)) => LeaderReapDisposition::BackgroundReaper,
                    _ => s.disposition,
                }
                &&& after.has_child == match event {
                    Event::Reaped(Ok(_)) => false,
                    Event::HandedOff(Ok(_)) => false,
                    _ => s.has_child,
                }
                &&& after.seen.leader_waitable == match event {
                    Event::LeaderObserved(Ok(waitable)) => waitable,
                    _ => s.seen.leader_waitable,
                }
                &&& after.seen.observe_error == match event {
                    Event::LeaderObserved(Err(error)) => if error.kind == ErrorKind::Interrupted {
                        s.seen.observe_error
                    } else {
                        Some(error)
                    },
                    Event::Polled(Err(error)) => if error.kind == ErrorKind::Interrupted
                        || s.seen.observe_error is Some {
                        s.seen.observe_error
                    } else {
                        Some(error)
                    },
                    _ => s.seen.observe_error,
                }
                &&& after.seen.reap_failures == match event {
                    Event::Reaped(Err(error)) => s.seen.reap_failures.push(
                        FailureEvidence {
                            operation: "reap process leader",
                            kind: error.kind,
                            message: error.message,
                        },
                    ),
                    Event::HandedOff(Err(failure)) => s.seen.reap_failures.push(failure),
                    _ => s.seen.reap_failures,
                }
                &&& after.stdout == match event {
                    Event::ReadDone(read) => if s.pending == Action::Read(StreamName::Stdout) {
                        s.stdout.reading(read, reserved)
                    } else {
                        s.stdout
                    },
                    _ => s.stdout,
                }
                &&& after.stderr == match event {
                    Event::ReadDone(read) => if s.pending == Action::Read(StreamName::Stderr) {
                        s.stderr.reading(read, reserved)
                    } else {
                        s.stderr
                    },
                    _ => s.stderr,
                }
                &&& s.seen.cancelled ==> after.seen.cancelled
                &&& after.seen.cancelled ==> s.seen.cancelled || reading.cancelled
                &&& after.seen.deadline_elapsed && !s.seen.deadline_elapsed ==> (
                s.deadline matches Some(end) && reading.now.nanos() >= end.nanos())
            }
        }),
{
    if event.answers(s.pending) {
        lemma_after_routes(s, event, reading, reserved);
    } else {
        lemma_unanswered(s, event, reading, reserved);
    }
}

/// Where the routing from `s`, which holds the answer already, may lead.
spec fn goes(s: State, t: State, reading: Reading, looked: bool) -> bool {
    &&& s.cleanup_deadline is None ==> match t.pending {
        Action::SignalGroup => has_to_stop(s, reading),
        Action::ObserveLeader => true,
        Action::Poll { .. } => !has_to_stop(
            State { seen: Seen { deadline_elapsed: false, ..s.seen }, ..s },
            reading,
        ),
        Action::Read(name) => s.stream(name).open,
        _ => false,
    }
    &&& s.cleanup_deadline matches Some(end) ==> match t.pending {
        Action::ObserveLeader => reading.now.nanos() < end,
        Action::Poll { .. } => s.has_child || !s.stdout.terminal() || !s.stderr.terminal(),
        Action::Read(name) => s.stream(name).open,
        Action::Reap => s.has_child && s.seen.leader_waitable,
        Action::HandOff => s.has_child && reading.now.nanos() >= end,
        Action::Finish => !s.has_child && (reading.now.nanos() >= end || (s.stdout.terminal()
            && s.stderr.terminal())),
        _ => false,
    }
    &&& t.pending is ObserveLeader ==> s.has_child && !s.seen.leader_waitable
        && s.seen.observe_error is None
    &&& t.pending is Poll ==> looked || !s.has_child || s.seen.leader_waitable
        || s.seen.observe_error is Some
    &&& t.pending is Poll && s.cleanup_deadline is Some ==> !s.has_child || !s.seen.leader_waitable
    &&& t.pending matches Action::Poll { timeout_nanos, .. } ==> timeout_nanos == wait_nanos(
        if s.cleanup_deadline is None {
            moment(s.deadline)
        } else {
            None
        },
        s.cleanup_deadline,
        reading.now.nanos(),
    )
    &&& ({
        let noted = match s.cleanup_deadline {
            None => t.pending is SignalGroup || t.pending is Poll,
            Some(end) => !looked && reading.now.nanos() < end && !(t.pending is Read),
        };
        &&& t.seen.cancelled == (s.seen.cancelled || (noted && reading.cancelled))
        &&& t.seen.deadline_elapsed == if noted {
            has_elapsed(s.deadline, reading.now)
        } else {
            s.seen.deadline_elapsed
        }
    })
}

proof fn lemma_judged_goes(s: State, reading: Reading)
    ensures
        goes(s, s.judged(reading), reading, true),
        s.seen.leader_waitable && s.has_child ==> if s.cleanup_deadline is None {
            s.judged(reading).pending is SignalGroup
        } else {
            s.judged(reading).pending is Reap
        },
{
    reveal(State::judged);
    reveal(State::drained);
}

proof fn lemma_round_goes(s: State, reading: Reading)
    ensures
        goes(s, s.round(reading), reading, false),
{
    reveal(State::round);
    let t = s.round(reading);
    match s.cleanup_deadline {
        None => {
            if !s.seen.leader_in_question(s.has_child) {
                lemma_judged_goes(s, reading);
            }
        },
        Some(end) => {
            if reading.now.nanos() < end {
                let informed = s.informed(reading);
                assert(informed.cleanup_deadline == s.cleanup_deadline);
                if !informed.seen.leader_in_question(informed.has_child) {
                    lemma_judged_goes(informed, reading);
                    lemma_judged_routes(informed, reading);
                    assert(t == informed.judged(reading));
                    assert(!(t.pending is Read));
                }
            }
        },
    }
}

proof fn lemma_turn_goes(s: State, stream: Option<StreamName>, reading: Reading)
    ensures
        goes(s, s.turn(stream, reading), reading, false),
{
    reveal(State::turn);
    lemma_round_goes(s, reading);
    lemma_round_goes(State { next_stream: None, ..s }, reading);
}

proof fn lemma_after_goes(s: State, event: Event, reading: Reading, reserved: bool)
    requires
        s.lawful(),
        event.answers(s.pending),
        !(event is Reaped) && !(event is HandedOff),
    ensures
        goes(
            answered(s, event, reserved),
            s.after(event, reading, reserved),
            reading,
            event is LeaderObserved,
        ),
{
    let t = answered(s, event, reserved);
    reveal(State::after);
    match event {
        Event::LeaderObserved(_) => lemma_judged_goes(t, reading),
        Event::Polled(Ok(_)) => {
            reveal(State::pumped);
            lemma_turn_goes(t, Some(s.second_stream()), reading);
            lemma_turn_goes(t, None, reading);
        },
        Event::ReadDone(_) => {
            reveal(State::read);
            lemma_turn_goes(t, s.next_stream, reading);
        },
        _ => lemma_round_goes(t, reading),
    }
}

/// When cancellation and the deadline are noted: while supervising, whenever it is decided
/// whether to go on or to stop; in cleanup, at the start of every round until the time is over.
/// What is noted is what the reading says, and at no other time is anything noted.
pub proof fn law_readings_are_noted_when_it_counts(
    s: State,
    event: Event,
    reading: Reading,
    reserved: bool,
)
    requires
        s.lawful(),
        event.answers(s.pending),
    ensures
        ({
            let after = s.after(event, reading, reserved);
            let settling = event is LeaderObserved || event is Reaped || event is HandedOff;
            let noted = match s.cleanup_deadline {
                None => after.pending is SignalGroup || after.pending is Poll,
                Some(end) => !settling && reading.now.nanos() < end && !(after.pending is Read),
            };
            &&& after.seen.cancelled == (s.seen.cancelled || (noted && reading.cancelled))
            &&& after.seen.deadline_elapsed == if noted {
                s.deadline matches Some(end) && reading.now.nanos() >= end.nanos()
            } else {
                s.seen.deadline_elapsed
            }
        }),
{
    if event is Reaped || event is HandedOff {
        reveal(State::after);
        reveal(State::drained);
    } else {
        lemma_after_goes(s, event, reading, reserved);
    }
}

/// Supervision stops only for a reason, and cleanup is not cut short.
///
/// The group is signaled only where a limit was crossed, a capture failed, the leader or the
/// pipes could not be observed, the leader has exited, cancellation was requested or the
/// deadline has passed, and cleanup then has two seconds. Nothing is waited for before the
/// leader was looked at. A leader that was seen to have exited is signaled for or, in cleanup,
/// reaped at once. Only a leader that could not be reaped, or is left when the two seconds are
/// over, is handed over, and supervision is finished only once the leader is gone and both
/// pipes are closed, unless the time is over or the leader could not be settled.
pub proof fn law_supervision_stops_for_a_reason_and_cleans_up(
    s: State,
    event: Event,
    reading: Reading,
    reserved: bool,
)
    requires
        s.lawful(),
        event.answers(s.pending),
    ensures
        ({
            let after = s.after(event, reading, reserved);
            let now = reading.now.nanos();
            let spent = s.cleanup_deadline is Some && now >= s.cleanup_deadline->0;
            &&& s.cleanup_deadline is None ==> match after.pending {
                Action::SignalGroup => {
                    &&& after.cleanup_deadline == Some(
                        if now + 2_000_000_000 <= MAX_NANOS {
                            now + 2_000_000_000
                        } else {
                            now
                        },
                    )
                    &&& {
                        ||| after.stdout.overflow is Some || after.stderr.overflow is Some
                        ||| after.stdout.failure is Some || after.stderr.failure is Some
                        ||| after.seen.observe_error is Some || after.seen.leader_waitable
                        ||| s.seen.cancelled || reading.cancelled
                        ||| s.deadline matches Some(end) && now >= end.nanos()
                    }
                },
                Action::ObserveLeader => after.cleanup_deadline is None,
                Action::Poll { .. } => after.cleanup_deadline is None && event is LeaderObserved
                    && !after.seen.leader_waitable && after.seen.observe_error is None
                    && !reading.cancelled && !s.seen.cancelled && (s.deadline matches Some(end)
                    ==> now < end.nanos()) && after.stdout.overflow is None
                    && after.stderr.overflow is None && after.stdout.failure is None
                    && after.stderr.failure is None,
                Action::Read(name) => after.cleanup_deadline is None && after.stream(name).open,
                _ => false,
            }
            &&& s.cleanup_deadline is Some ==> after.cleanup_deadline == s.cleanup_deadline
                && match after.pending {
                Action::ObserveLeader => !spent,
                Action::Poll { .. } => after.has_child || after.stdout.open || after.stderr.open,
                Action::Read(name) => after.stream(name).open,
                Action::Reap => after.has_child && after.seen.leader_waitable,
                Action::HandOff => after.has_child && (spent || event is Reaped),
                Action::Finish => event is HandedOff || (!after.has_child && (spent || (
                !after.stdout.open && !after.stderr.open))),
                _ => false,
            }
            &&& event matches Event::LeaderObserved(Ok(true)) ==> if s.cleanup_deadline is None {
                after.pending is SignalGroup
            } else {
                after.pending is Reap
            }
            &&& event matches Event::Reaped(Ok(_)) ==> (after.pending is Finish <==> !s.stdout.open
                && !s.stderr.open)
            &&& event matches Event::Reaped(Err(_)) ==> after.pending is HandOff
            &&& event is HandedOff ==> after.pending is Finish
            &&& after.pending is Poll && after.has_child && !after.seen.leader_waitable
                && after.seen.observe_error is None ==> event is LeaderObserved
            &&& after.pending matches Action::Poll { stdout, stderr, timeout_nanos } ==> {
                &&& stdout == after.stdout.open && stderr == after.stderr.open
                &&& s.cleanup_deadline is None ==> timeout_nanos == wait_nanos(
                    moment(s.deadline),
                    None,
                    now,
                )
                &&& s.cleanup_deadline is Some ==> timeout_nanos == wait_nanos(
                    None,
                    s.cleanup_deadline,
                    now,
                )
            }
        }),
{
    let t = answered(s, event, reserved);
    law_lawful_states_stay_lawful(s, event, reading, reserved);
    lemma_after_routes(s, event, reading, reserved);
    if event is Reaped || event is HandedOff {
        reveal(State::after);
        reveal(State::drained);
    } else {
        lemma_after_goes(s, event, reading, reserved);
        if let Event::LeaderObserved(_) = event {
            reveal(State::after);
            lemma_judged_goes(t, reading);
        }
    }
}

/// The leader is reaped, handed over or given up only after its group was signaled, and it
/// is reaped only once it was seen to have exited.
pub proof fn law_group_is_signaled_before_the_leader_is_settled(s: State)
    requires
        s.lawful(),
    ensures
        s.pending is Reap ==> s.signal is Some && s.seen.leader_waitable && s.has_child,
        s.pending is HandOff || s.pending is Finish ==> s.signal is Some,
        s.status is Some ==> s.signal is Some && s.seen.leader_waitable,
{
}

/// The group is signaled once: what became of the signal stays, and no second one is asked
/// for.
pub proof fn law_group_is_signaled_once(s: State, inputs: Seq<Input>)
    requires
        s.lawful(),
        s.signal is Some,
    ensures
        s.run(inputs).signal == s.signal,
        !(s.run(inputs).pending is SignalGroup),
    decreases inputs.len(),
{
    if inputs.len() > 0 {
        let front = inputs.drop_last();
        let input = inputs.last();
        law_group_is_signaled_once(s, front);
        law_runs_are_lawful(s, front);
        let last = s.run(front);
        if input.event.answers(last.pending) {
            lemma_after_routes(last, input.event, input.reading, input.reserved);
        } else {
            lemma_unanswered(last, input.event, input.reading, input.reserved);
        }
    }
}

/// What became of the signal is known: where every attempt is judged, as
/// [`signal_group`](crate::outcome::signal_group) judges it, no run records an unknown outcome,
/// and the evidence of a finished one tells whether the signal was sent, the group was gone, or
/// the attempt failed.
pub proof fn law_signal_outcome_is_known(
    s: State,
    inputs: Seq<Input>,
    elapsed: Duration,
    evidence: LifecycleEvidence,
)
    requires
        s.lawful(),
        s.signal != Some(GroupSignalOutcome::Unknown),
        forall|i: int|
            0 <= i < inputs.len() ==> (#[trigger] inputs[i]).event != Event::Signaled(
                GroupSignalOutcome::Unknown,
            ),
    ensures
        s.run(inputs).signal != Some(GroupSignalOutcome::Unknown),
        s.run(inputs).pending is Finish && s.run(inputs).evidenced_by(evidence, elapsed)
            ==> evidence.signal != GroupSignalOutcome::Unknown && s.run(inputs).signal == Some(
            evidence.signal,
        ),
    decreases inputs.len(),
{
    law_runs_are_lawful(s, inputs);
    if inputs.len() > 0 {
        let front = inputs.drop_last();
        let input = inputs.last();
        assert(inputs[inputs.len() - 1].event != Event::Signaled(GroupSignalOutcome::Unknown));
        assert forall|i: int| 0 <= i < front.len() implies (#[trigger] front[i]).event
            != Event::Signaled(GroupSignalOutcome::Unknown) by {
            assert(inputs[i].event != Event::Signaled(GroupSignalOutcome::Unknown));
        }
        law_signal_outcome_is_known(s, front, elapsed, evidence);
        law_runs_are_lawful(s, front);
        let last = s.run(front);
        if input.event.answers(last.pending) {
            lemma_after_routes(last, input.event, input.reading, input.reserved);
        } else {
            lemma_unanswered(last, input.event, input.reading, input.reserved);
        }
    }
}

/// How often the inputs signal the group.
pub open spec fn signals(s: State, inputs: Seq<Input>) -> nat
    decreases inputs.len(),
{
    if inputs.len() == 0 {
        0
    } else {
        signals(s, inputs.drop_last()) + if s.run(inputs.drop_last()).pending is SignalGroup
            && inputs.last().event is Signaled {
            1nat
        } else {
            0
        }
    }
}

/// How often the inputs reap the leader.
pub open spec fn reaps(s: State, inputs: Seq<Input>) -> nat
    decreases inputs.len(),
{
    if inputs.len() == 0 {
        0
    } else {
        reaps(s, inputs.drop_last()) + if s.run(inputs.drop_last()).pending is Reap && (
        inputs.last().event matches Event::Reaped(Ok(_))) {
            1nat
        } else {
            0
        }
    }
}

/// In a whole run the group is signaled at most once and the leader reaped at most once, the
/// leader never before the group; a run that is finished signaled the group.
pub proof fn law_runs_signal_once_and_reap_once(s: State, inputs: Seq<Input>)
    requires
        s.lawful(),
        s.signal is None,
        s.status is None,
    ensures
        signals(s, inputs) == if s.run(inputs).signal is Some {
            1nat
        } else {
            0
        },
        reaps(s, inputs) == if s.run(inputs).status is Some {
            1nat
        } else {
            0
        },
        reaps(s, inputs) <= signals(s, inputs),
        s.run(inputs).pending is Finish ==> signals(s, inputs) == 1,
    decreases inputs.len(),
{
    law_runs_are_lawful(s, inputs);
    if inputs.len() > 0 {
        let front = inputs.drop_last();
        let input = inputs.last();
        law_runs_signal_once_and_reap_once(s, front);
        law_runs_are_lawful(s, front);
        let last = s.run(front);
        if input.event.answers(last.pending) {
            lemma_after_routes(last, input.event, input.reading, input.reserved);
        } else {
            lemma_unanswered(last, input.event, input.reading, input.reserved);
        }
    }
}

/// How many operations are left at most, once the cleanup budget is spent.
pub open spec fn cleanup_operations_left(s: State) -> nat {
    match s.pending {
        Action::Finish => 0,
        Action::HandOff => 1,
        Action::SignalGroup => 2,
        Action::Read(_) => 1 + s.chunks_left as nat + if s.next_stream is Some {
            CHUNKS_PER_STREAM_TURN as nat
        } else {
            0
        },
        Action::Poll { .. } => 2 + 2 * CHUNKS_PER_STREAM_TURN as nat,
        Action::Reap => 3 + 2 * CHUNKS_PER_STREAM_TURN as nat,
        Action::ObserveLeader => 4 + 2 * CHUNKS_PER_STREAM_TURN as nat,
        Action::Begin => 5 + 2 * CHUNKS_PER_STREAM_TURN as nat,
    }
}

/// Cleanup ends: once its budget is spent, every answered operation leaves fewer to come,
/// of which there are twenty at most, whatever the child and its descendants do.
pub proof fn law_cleanup_ends_with_its_budget(
    s: State,
    event: Event,
    reading: Reading,
    reserved: bool,
)
    requires
        s.lawful(),
        s.cleanup_deadline matches Some(end) && reading.now.nanos() >= end,
        event.answers(s.pending),
    ensures
        cleanup_operations_left(s.after(event, reading, reserved)) < cleanup_operations_left(s),
        cleanup_operations_left(s) <= 20,
{
    reveal(State::after);
    let t = answered(s, event, reserved);
    match event {
        Event::LeaderObserved(_) => lemma_judged_routes(t, reading),
        Event::Polled(Ok(_)) => {
            reveal(State::pumped);
            lemma_turn_routes(t, Some(s.second_stream()), reading);
            lemma_turn_routes(t, None, reading);
        },
        Event::Polled(Err(_)) => lemma_round_routes(t, reading),
        Event::ReadDone(_) => {
            reveal(State::read);
            lemma_turn_routes(t, s.next_stream, reading);
        },
        Event::Signaled(_) => lemma_round_routes(t, reading),
        Event::Reaped(_) => {
            reveal(State::drained);
        },
        _ => {},
    }
}

/// How many operations are left at most before the group is signaled, once a reason to stop
/// is known to every reading.
pub open spec fn operations_left_before_signal(s: State) -> nat {
    match s.pending {
        Action::ObserveLeader => 1,
        Action::Begin => 2,
        Action::Read(_) => 1 + s.chunks_left as nat + if s.next_stream is Some {
            CHUNKS_PER_STREAM_TURN as nat
        } else {
            0
        },
        _ => 2 + 2 * CHUNKS_PER_STREAM_TURN as nat,
    }
}

/// Every reason to stop leads to the signal: once there is one, every answered operation either
/// brings the signal, with the cleanup budget counting from then on, or leaves fewer operations
/// before it, of which there are eighteen at most. A reason that was seen stays.
pub proof fn law_reasons_to_stop_lead_to_the_signal(
    s: State,
    event: Event,
    reading: Reading,
    reserved: bool,
)
    requires
        s.lawful(),
        s.cleanup_deadline is None,
        has_to_stop(s, reading),
        event.answers(s.pending),
    ensures
        ({
            let after = s.after(event, reading, reserved);
            if after.cleanup_deadline is Some {
                after.pending is SignalGroup && after.cleanup_deadline == Some(
                    cleanup_end(reading.now.nanos()),
                )
            } else {
                operations_left_before_signal(after) < operations_left_before_signal(s)
            }
        }),
        operations_left_before_signal(s) <= 18,
        s.settles() ==> s.after(event, reading, reserved).settles(),
{
    reveal(State::after);
    let t = answered(s, event, reserved);
    match event {
        Event::Begun => lemma_round_routes(t, reading),
        Event::LeaderObserved(_) => lemma_judged_routes(t, reading),
        Event::Polled(Ok(_)) => {
            reveal(State::pumped);
            lemma_turn_routes(t, Some(s.second_stream()), reading);
            lemma_turn_routes(t, None, reading);
        },
        Event::Polled(Err(_)) => lemma_round_routes(t, reading),
        Event::ReadDone(_) => {
            reveal(State::read);
            lemma_turn_routes(t, s.next_stream, reading);
        },
        _ => {},
    }
}

/// No wait is longer than one quantum, and none goes beyond the deadline while supervising
/// nor beyond the end of cleanup.
pub proof fn law_waits_end_in_time(s: State, event: Event, reading: Reading, reserved: bool)
    requires
        s.lawful(),
        event.answers(s.pending),
    ensures
        s.after(event, reading, reserved).pending matches Action::Poll { timeout_nanos, .. } ==> {
            let after = s.after(event, reading, reserved);
            let now = reading.now.nanos();
            &&& timeout_nanos <= quantum_nanos()
            &&& after.cleanup_deadline is None ==> (after.deadline matches Some(end)
                ==> timeout_nanos <= left_until(end.nanos(), now))
            &&& after.cleanup_deadline matches Some(end) ==> timeout_nanos <= left_until(end, now)
        },
{
    lemma_after_routes(s, event, reading, reserved);
}

/// Reads are fair: the stream that has the first turn alternates from round to round; a
/// stream that is ready and open has its turn, also behind the other; and a turn is eight
/// chunks at most.
pub proof fn law_reads_are_fair(s: State, stdout_ready: bool, stderr_ready: bool, reading: Reading)
    requires
        s.lawful(),
        s.pending is Poll,
    ensures
        ({
            let after = s.after(Event::Polled(Ok((stdout_ready, stderr_ready))), reading, true);
            let (first, second) = (s.first_stream(), s.second_stream());
            let first_reads = s.stream(first).open && if first is Stdout {
                stdout_ready
            } else {
                stderr_ready
            };
            let second_ready = if second is Stdout {
                stdout_ready
            } else {
                stderr_ready
            };
            &&& after.stdout_first == !s.stdout_first
            &&& first_reads ==> after.pending == Action::Read(first) && (second_ready
                <==> after.next_stream == Some(second))
            &&& !first_reads && second_ready && s.stream(second).open ==> after.pending
                == Action::Read(second)
            &&& after.pending is Read ==> after.chunks_left == CHUNKS_PER_STREAM_TURN
            &&& !stdout_ready ==> after.pending != Action::Read(StreamName::Stdout) && (
            after.pending is Read ==> after.next_stream != Some(StreamName::Stdout))
            &&& !stderr_ready ==> after.pending != Action::Read(StreamName::Stderr) && (
            after.pending is Read ==> after.next_stream != Some(StreamName::Stderr))
            &&& after.stdout == s.stdout && after.stderr == s.stderr
        }),
{
    reveal(State::after);
    reveal(State::pumped);
    let t = State { stdout_first: !s.stdout_first, ..s };
    lemma_turn_routes(t, Some(s.second_stream()), reading);
    lemma_turn_routes(t, None, reading);
    reveal(State::turn);
}

/// Who has the first turn changes only when a round of reads starts, and every chunk that
/// is read counts: the turn goes on with one chunk less, or it is over and the turn of the
/// stream that waits behind it comes next.
pub proof fn law_turns_are_counted(s: State, event: Event, reading: Reading, reserved: bool)
    requires
        s.lawful(),
    ensures
        ({
            let after = s.after(event, reading, reserved);
            &&& !(event matches Event::Polled(Ok(_))) ==> after.stdout_first == s.stdout_first
            &&& (event is ReadDone && s.pending is Read && after.pending is Read) ==> {
                ||| after.pending == s.pending && after.chunks_left == s.chunks_left - 1
                    && after.next_stream == s.next_stream
                ||| s.next_stream == Some(after.pending->Read_0) && after.next_stream is None
            }
        }),
{
    if event.answers(s.pending) {
        lemma_after_routes(s, event, reading, reserved);
        if let Event::ReadDone(_) = event {
            reveal(State::after);
            reveal(State::read);
            lemma_turn_routes(answered(s, event, reserved), s.next_stream, reading);
        }
    } else {
        lemma_unanswered(s, event, reading, reserved);
    }
}

/// The stream after the reads of one turn.
pub open spec fn after_reads(stream: StreamState, reads: Seq<Input>) -> StreamState
    decreases reads.len(),
{
    if reads.len() == 0 {
        stream
    } else {
        match reads.last().event {
            Event::ReadDone(read) => after_reads(stream, reads.drop_last()).reading(
                read,
                reads.last().reserved,
            ),
            _ => after_reads(stream, reads.drop_last()),
        }
    }
}

/// A turn is one pump of the stream whose turn it is: its reads are taken in one after the
/// other, up to the first that ends the stream, fails or would block, and no more than the
/// turn has chunks; the other stream is left alone. Then the stream that waits behind has
/// its own turn, if it is open, and otherwise the round of reads is over.
pub proof fn law_turns_pump_one_stream(
    s: State,
    name: StreamName,
    other: StreamName,
    reads: Seq<Input>,
)
    requires
        s.lawful(),
        s.pending == Action::Read(name),
        other != name,
        forall|i: int|
            0 <= i < reads.len() ==> (#[trigger] reads[i]).event is ReadDone && s.run(
                reads.take(i),
            ).pending == Action::Read(name),
    ensures
        ({
            let after = s.run(reads);
            &&& after.stream(name) == after_reads(s.stream(name), reads)
            &&& after.stream(other) == s.stream(other)
            &&& reads.len() <= s.chunks_left
            &&& reads.len() > 0 ==> (after.pending == Action::Read(name) <==> read_continues(
                reads.last().event->ReadDone_0,
            ) && after.stream(name).open && reads.len() < s.chunks_left)
            &&& after.pending == Action::Read(name) ==> after.chunks_left == s.chunks_left
                - reads.len() && after.next_stream == s.next_stream
            &&& after.pending != Action::Read(name) ==> if s.next_stream is Some && s.stream(
                other,
            ).open {
                after.pending == Action::Read(other) && after.chunks_left == CHUNKS_PER_STREAM_TURN
                    && after.next_stream is None
            } else {
                !(after.pending is Read)
            }
        }),
    decreases reads.len(),
{
    if reads.len() > 0 {
        let front = reads.drop_last();
        let input = reads.last();
        assert(reads[reads.len() - 1].event is ReadDone);
        assert(reads.take(reads.len() - 1) =~= front);
        assert forall|i: int| 0 <= i < front.len() implies (#[trigger] front[i]).event is ReadDone
            && s.run(front.take(i)).pending == Action::Read(name) by {
            assert(reads[i].event is ReadDone);
            assert(front.take(i) =~= reads.take(i));
        }
        law_turns_pump_one_stream(s, name, other, front);
        law_runs_are_lawful(s, front);
        let last = s.run(front);
        lemma_read_in_turn(last, name, other, input);
    }
}

proof fn lemma_read_in_turn(s: State, name: StreamName, other: StreamName, input: Input)
    requires
        s.lawful(),
        s.pending == Action::Read(name),
        other != name,
        input.event is ReadDone,
    ensures
        ({
            let after = s.after(input.event, input.reading, input.reserved);
            let read = input.event->ReadDone_0;
            &&& after.stream(name) == s.stream(name).reading(read, input.reserved)
            &&& after.stream(other) == s.stream(other)
            &&& after.pending == Action::Read(name) <==> read_continues(read) && after.stream(
                name,
            ).open && s.chunks_left > 1
            &&& after.pending == Action::Read(name) ==> after.chunks_left == s.chunks_left - 1
                && after.next_stream == s.next_stream
            &&& after.pending != Action::Read(name) ==> if s.next_stream is Some && s.stream(
                other,
            ).open {
                after.pending == Action::Read(other) && after.chunks_left == CHUNKS_PER_STREAM_TURN
                    && after.next_stream is None
            } else {
                !(after.pending is Read)
            }
        }),
{
    reveal(State::after);
    reveal(State::read);
    let t = answered(s, input.event, input.reserved);
    lemma_turn_routes(t, s.next_stream, input.reading);
    reveal(State::turn);
    lemma_round_routes(t, input.reading);
    lemma_round_routes(State { next_stream: None, ..t }, input.reading);
}

/// Success means that nothing stopped the invocation and that every obligation was settled:
/// the group was signaled or gone, the leader reaped with status zero and without failures,
/// and both streams, where they were captured, read to their end.
pub proof fn law_success_settles_every_obligation(
    s: State,
    elapsed: Duration,
    evidence: Box<LifecycleEvidence>,
    output: Output,
)
    requires
        s.lawful(),
        s.evidenced_by(*evidence, elapsed),
        is_run_result(s.primary(), s.program, s.deadline, evidence, Ok(output)),
    ensures
        output.evidence == evidence,
        output.status.word() == 0,
        evidence.leader_status == Some(output.status),
        evidence.reap.disposition == LeaderReapDisposition::Reaped,
        evidence.reap.failures@.len() == 0,
        evidence.signal == GroupSignalOutcome::Sent || evidence.signal
            == GroupSignalOutcome::AlreadyGone,
        evidence.cleanup == CleanupOutcome::Complete,
        !s.seen.cancelled && !s.seen.deadline_elapsed && s.seen.observe_error is None,
        s.stdout.overflow is None && s.stderr.overflow is None,
        s.stdout.eof || s.stdout.redirected,
        s.stderr.eof || s.stderr.redirected,
        !(evidence.stdout.captured.completeness is Incomplete),
        !(evidence.stderr.captured.completeness is Incomplete),
{
}

/// A fail-closed stream that lost a byte never ends in success, however fast the child
/// exits.
pub proof fn law_lost_bytes_fail_closed(
    s: State,
    elapsed: Duration,
    evidence: Box<LifecycleEvidence>,
    result: Result<Output, Error>,
    stream: StreamName,
    limit: usize,
)
    requires
        s.lawful(),
        s.evidenced_by(*evidence, elapsed),
        is_run_result(s.primary(), s.program, s.deadline, evidence, result),
        s.stream(stream).bound == Some((limit, OverflowBehavior::FailClosed)),
        s.stream(stream).discarded > 0,
    ensures
        result is Err,
        evidence.stdout.failure is None && evidence.stderr.failure is None ==> (result matches Err(
            Error::CaptureLimitExceeded { stream: reported, limit: crossed, .. },
        ) && s.stream(reported).overflow == Some(crossed)),
{
}

/// The evidence of a finished invocation tells what happened to it: the status that was reaped,
/// the time that passed, what became of the signal and of the leader, the failures on the way,
/// and what was retained of the streams. Cleanup was complete exactly where the leader was
/// reaped and neither pipe is open; otherwise the facts name the streams whose pipes are open,
/// stdout first, and no others.
pub proof fn law_evidence_tells_what_happened(
    s: State,
    elapsed: Duration,
    evidence: LifecycleEvidence,
)
    requires
        s.lawful(),
        s.pending is Finish,
        s.evidenced_by(evidence, elapsed),
    ensures
        evidence.leader_status == s.status,
        evidence.elapsed == Some(elapsed),
        s.signal == Some(evidence.signal),
        evidence.reap.disposition == s.disposition,
        evidence.reap.failures@ == s.seen.reap_failures,
        evidence.stdout.stream == StreamName::Stdout && evidence.stderr.stream
            == StreamName::Stderr,
        evidence.stdout.captured.bytes@ == s.stdout.kept && evidence.stderr.captured.bytes@
            == s.stderr.kept,
        evidence.stdout.failure == s.stdout.failure && evidence.stderr.failure == s.stderr.failure,
        evidence.cleanup is Complete <==> s.status is Some && !s.stdout.open && !s.stderr.open,
        !(evidence.cleanup is Unknown),
        evidence.cleanup matches CleanupOutcome::Incomplete(facts) ==> {
            &&& facts.leader_unsettled == (s.status is None)
            &&& facts.cleanup_budget.nanos() == 2_000_000_000
            &&& s.stdout.open && s.stderr.open ==> facts.unfinished_streams@ == seq![
                StreamName::Stdout,
                StreamName::Stderr,
            ]
            &&& s.stdout.open && !s.stderr.open ==> facts.unfinished_streams@ == seq![
                StreamName::Stdout,
            ]
            &&& !s.stdout.open && s.stderr.open ==> facts.unfinished_streams@ == seq![
                StreamName::Stderr,
            ]
            &&& !s.stdout.open && !s.stderr.open ==> facts.unfinished_streams@ == Seq::<
                StreamName,
            >::empty()
        },
{
    law_reports_are_faithful(s.stdout, evidence.stdout);
    law_reports_are_faithful(s.stderr, evidence.stderr);
    if s.stdout.open && s.stderr.open {
        assert(s.unfinished() =~= seq![StreamName::Stdout, StreamName::Stderr]);
    } else if s.stdout.open {
        assert(s.unfinished() =~= seq![StreamName::Stdout]);
    } else if s.stderr.open {
        assert(s.unfinished() =~= seq![StreamName::Stderr]);
    } else {
        assert(s.unfinished() =~= Seq::<StreamName>::empty());
    }
}

/// An invocation of which nothing is left over succeeds: where it was neither cancelled nor late,
/// crossed no limit, could be observed and captured, each stream ended or was redirected, and
/// the leader was reaped with status word zero after its group was signaled or gone, every
/// result that the caller may be told is that success, with complete cleanup.
pub proof fn law_settled_invocations_succeed(
    s: State,
    status: ExitStatus,
    elapsed: Duration,
    evidence: Box<LifecycleEvidence>,
    result: Result<Output, Error>,
)
    requires
        s.lawful(),
        s.pending is Finish,
        !s.seen.cancelled && !s.seen.deadline_elapsed && s.seen.observe_error is None,
        s.stdout.overflow is None && s.stderr.overflow is None,
        s.stdout.eof || s.stdout.redirected,
        s.stderr.eof || s.stderr.redirected,
        s.stdout.failure is None && s.stderr.failure is None,
        s.status == Some(status) && status.word() == 0,
        s.seen.reap_failures.len() == 0,
        s.signal == Some(GroupSignalOutcome::Sent) || s.signal == Some(
            GroupSignalOutcome::AlreadyGone,
        ),
        s.evidenced_by(*evidence, elapsed),
        is_run_result(s.primary(), s.program, s.deadline, evidence, result),
    ensures
        result == Ok::<Output, Error>(Output { evidence, status }),
        evidence.cleanup == CleanupOutcome::Complete,
        evidence.leader_status == Some(status) && evidence.elapsed == Some(elapsed),
        s.stdout.redirected ==> evidence.stdout.captured.completeness is Redirected,
        s.stderr.redirected ==> evidence.stderr.captured.completeness is Redirected,
{
    law_evidence_tells_what_happened(s, elapsed, *evidence);
}

/// What the caller of a finished invocation is told: that stdout crossed its limit, or else that
/// stderr did, or else that the invocation was cancelled, or that its deadline passed, or that
/// a capture failed, or that the child could not be observed; only an invocation of which none
/// of this holds is judged by its exit, and succeeds or not by how it was settled.
pub proof fn law_finished_invocations_are_reported(
    s: State,
    elapsed: Duration,
    evidence: Box<LifecycleEvidence>,
    result: Result<Output, Error>,
)
    requires
        s.lawful(),
        s.pending is Finish,
        s.evidenced_by(*evidence, elapsed),
        is_run_result(s.primary(), s.program, s.deadline, evidence, result),
    ensures
        ({
            let crossed = s.stdout.overflow is Some || s.stderr.overflow is Some;
            let failed = s.stdout.failure is Some || s.stderr.failure is Some;
            let stopped = crossed || s.seen.cancelled || s.seen.deadline_elapsed;
            let exited = !stopped && !failed && s.seen.observe_error is None;
            let open = s.stdout.open || s.stderr.open;
            &&& s.stdout.overflow matches Some(limit) ==> result == Err::<Output, Error>(
                Error::CaptureLimitExceeded {
                    program: s.program,
                    stream: StreamName::Stdout,
                    limit,
                    evidence,
                },
            )
            &&& s.stdout.overflow is None ==> (s.stderr.overflow matches Some(limit) ==> result
                == Err::<Output, Error>(
                Error::CaptureLimitExceeded {
                    program: s.program,
                    stream: StreamName::Stderr,
                    limit,
                    evidence,
                },
            ))
            &&& !crossed && s.seen.cancelled ==> result == Err::<Output, Error>(
                Error::Cancelled { program: s.program, evidence },
            )
            &&& !crossed && !s.seen.cancelled && s.seen.deadline_elapsed ==> (
            s.deadline matches Some(configured) && result == Err::<Output, Error>(
                Error::Timeout { program: s.program, deadline: configured, evidence },
            ))
            &&& !stopped && failed ==> result == Err::<Output, Error>(
                Error::CaptureFailed { program: s.program, evidence },
            )
            &&& !stopped && !failed ==> (s.seen.observe_error matches Some(source) ==> result
                == Err::<Output, Error>(
                Error::SupervisionFailed { program: s.program, source, evidence },
            ))
            &&& exited && (s.status is None || open) ==> result == Err::<Output, Error>(
                Error::CleanupIncomplete { program: s.program, evidence },
            )
            &&& exited && s.status is Some && !open ==> match s.signal {
                Some(GroupSignalOutcome::Failed(_)) => result == Err::<Output, Error>(
                    Error::LifecycleFailed { program: s.program, evidence },
                ),
                Some(GroupSignalOutcome::Unknown) => result matches Err(
                    Error::SupervisionFailed { .. },
                ),
                _ => if s.status->0.word() == 0 {
                    result == Ok::<Output, Error>(Output { evidence, status: s.status->0 })
                } else {
                    result == Err::<Output, Error>(
                        Error::NonZeroExit { program: s.program, evidence },
                    )
                },
            }
        }),
{
    law_evidence_tells_what_happened(s, elapsed, *evidence);
    law_run_results_follow_from_the_facts(
        s.seen,
        s.stdout.overflow,
        s.stderr.overflow,
        s.program,
        s.deadline,
        evidence,
        result,
    );
}

/// A timeout keeps the configured deadline and the actual time that passed, and an
/// invocation without a deadline never times out.
pub proof fn law_timeouts_keep_deadline_and_elapsed(
    s: State,
    elapsed: Duration,
    evidence: Box<LifecycleEvidence>,
    result: Result<Output, Error>,
)
    requires
        s.lawful(),
        s.evidenced_by(*evidence, elapsed),
        is_run_result(s.primary(), s.program, s.deadline, evidence, result),
    ensures
        s.primary() is Deadline ==> (s.deadline matches Some(configured) && result == Err::<
            Output,
            Error,
        >(Error::Timeout { program: s.program, deadline: configured, evidence })
            && evidence.elapsed == Some(elapsed)),
        s.deadline is None ==> !(result matches Err(Error::Timeout { .. })),
{
}

/// A timeout is never early: where the deadline is seen to have elapsed, it had elapsed by
/// the time that the evidence gives as elapsed.
pub proof fn law_timeouts_are_not_early(s: State, inputs: Seq<Input>, elapsed: Duration)
    requires
        s.lawful(),
        !s.seen.deadline_elapsed,
        forall|i: int|
            0 <= i < inputs.len() ==> (#[trigger] inputs[i]).reading.now.nanos() <= elapsed.nanos(),
    ensures
        s.run(inputs).seen.deadline_elapsed ==> (s.deadline matches Some(deadline)
            && deadline.nanos() <= elapsed.nanos()),
        s.run(inputs).primary() is Deadline ==> (s.deadline matches Some(deadline)
            && deadline.nanos() <= elapsed.nanos()),
        s.run(inputs).deadline == s.deadline,
    decreases inputs.len(),
{
    if inputs.len() > 0 {
        let front = inputs.drop_last();
        let input = inputs.last();
        assert(inputs[inputs.len() - 1].reading.now.nanos() <= elapsed.nanos());
        assert forall|i: int| 0 <= i < front.len() implies (#[trigger] front[i]).reading.now.nanos()
            <= elapsed.nanos() by {
            assert(inputs[i].reading.now.nanos() <= elapsed.nanos());
        }
        law_timeouts_are_not_early(s, front, elapsed);
        law_runs_are_lawful(s, front);
        let last = s.run(front);
        if input.event.answers(last.pending) {
            lemma_after_routes(last, input.event, input.reading, input.reserved);
        } else {
            lemma_unanswered(last, input.event, input.reading, input.reserved);
        }
    }
}

/// How long the pending operation is asked to wait, in nanoseconds.
pub open spec fn asked_wait(s: State) -> nat {
    match s.pending {
        Action::Poll { timeout_nanos, .. } => timeout_nanos as nat,
        _ => 0,
    }
}

/// The time of the last input, or the start where there is none.
pub open spec fn last_reading(inputs: Seq<Input>) -> nat {
    if inputs.len() == 0 {
        0
    } else {
        inputs.last().reading.now.nanos()
    }
}

/// Whether the inputs are those of a driver that answers every operation and takes at most
/// `slack` nanoseconds for it beyond the wait that was asked for.
pub open spec fn prompt(s: State, inputs: Seq<Input>, slack: nat) -> bool
    decreases inputs.len(),
{
    inputs.len() > 0 ==> {
        let front = inputs.drop_last();
        let before = s.run(front);
        &&& prompt(s, front, slack)
        &&& inputs.last().event.answers(before.pending)
        &&& last_reading(front) <= last_reading(inputs) <= last_reading(front) + asked_wait(before)
            + slack
    }
}

/// How late an invocation with a deadline may be at `now`.
spec fn timely(s: State, now: nat, deadline: nat, slack: nat) -> bool {
    &&& waits_in_time(s, now)
    &&& match s.cleanup_deadline {
        None => now >= deadline ==> now + operations_left_before_signal(s) * slack <= deadline + 19
            * slack,
        Some(end) => end <= deadline + 19 * slack + budget_nanos() && (now >= end ==> now
            + cleanup_operations_left(s) * slack <= end + 20 * slack),
    }
}

/// More operations take more slack.
pub proof fn lemma_slack(few: nat, many: nat, slack: nat)
    by (nonlinear_arith)
    requires
        few <= many,
    ensures
        few * slack <= many * slack,
{
}

/// One operation more takes one slack more.
pub proof fn lemma_slack_step(few: nat, many: nat, slack: nat)
    by (nonlinear_arith)
    requires
        few < many,
    ensures
        few * slack + slack <= many * slack,
{
}

proof fn lemma_step_is_timely(
    s: State,
    now: nat,
    event: Event,
    reading: Reading,
    reserved: bool,
    slack: nat,
)
    requires
        s.lawful(),
        s.deadline is Some,
        timely(s, now, s.deadline->0.nanos(), slack),
        event.answers(s.pending),
        now <= reading.now.nanos() <= now + asked_wait(s) + slack,
    ensures
        timely(
            s.after(event, reading, reserved),
            reading.now.nanos(),
            s.deadline->0.nanos(),
            slack,
        ),
{
    let after = s.after(event, reading, reserved);
    let later = reading.now.nanos();
    let deadline = s.deadline->0.nanos();
    lemma_after_routes(s, event, reading, reserved);
    law_lawful_states_stay_lawful(s, event, reading, reserved);
    let left = operations_left_before_signal(after);
    let rest = cleanup_operations_left(after);
    if s.cleanup_deadline is None {
        if later >= deadline {
            law_reasons_to_stop_lead_to_the_signal(s, event, reading, reserved);
            if after.cleanup_deadline is None {
                if now >= deadline {
                    lemma_slack_step(left, operations_left_before_signal(s), slack);
                } else {
                    lemma_slack(left, 18, slack);
                }
            } else {
                lemma_slack(1, operations_left_before_signal(s), slack);
            }
        }
        if after.cleanup_deadline is Some {
            lemma_slack(rest, 20, slack);
        }
    } else if later >= s.cleanup_deadline->0 {
        law_cleanup_ends_with_its_budget(s, event, reading, reserved);
        if now >= s.cleanup_deadline->0 {
            lemma_slack_step(rest, cleanup_operations_left(s), slack);
        } else {
            lemma_slack(rest, 19, slack);
        }
    }
}

proof fn lemma_runs_are_timely(s: State, inputs: Seq<Input>, slack: nat)
    requires
        s.lawful(),
        s.pending is Begin,
        s.deadline is Some,
        prompt(s, inputs, slack),
    ensures
        timely(s.run(inputs), last_reading(inputs), s.deadline->0.nanos(), slack),
        s.run(inputs).deadline == s.deadline,
    decreases inputs.len(),
{
    if inputs.len() == 0 {
        lemma_slack(operations_left_before_signal(s), 19, slack);
    } else {
        let front = inputs.drop_last();
        let input = inputs.last();
        lemma_runs_are_timely(s, front, slack);
        law_runs_are_lawful(s, front);
        let last = s.run(front);
        lemma_step_is_timely(
            last,
            last_reading(front),
            input.event,
            input.reading,
            input.reserved,
            slack,
        );
        lemma_after_routes(last, input.event, input.reading, input.reserved);
    }
}

/// An invocation with a deadline is over in time, whatever the child and its descendants do:
/// where no operation takes more than `slack` beyond the wait that it was asked for, the
/// invocation ends at most the cleanup budget and forty times that after its deadline.
/// With two and a half milliseconds for an operation, that is the allowance that a caller
/// may see.
pub proof fn law_invocations_end_in_time(
    s: State,
    inputs: Seq<Input>,
    slack: nat,
    elapsed: Duration,
)
    requires
        s.lawful(),
        s.pending is Begin,
        s.deadline is Some,
        prompt(s, inputs, slack),
        s.run(inputs).pending is Finish,
        elapsed.nanos() <= last_reading(inputs) + slack,
    ensures
        elapsed.nanos() <= s.deadline->0.nanos() + budget_nanos() + 40 * slack,
        slack <= 2_500_000 ==> elapsed.nanos() <= s.deadline->0.nanos() + CLEANUP_ALLOWANCE_MILLIS
            * NANOS_PER_MILLI,
{
    lemma_runs_are_timely(s, inputs, slack);
    law_runs_are_lawful(s, inputs);
}

proof fn lemma_readings_ascend(s: State, inputs: Seq<Input>, slack: nat, i: int)
    requires
        prompt(s, inputs, slack),
        0 <= i < inputs.len(),
    ensures
        inputs[i].reading.now.nanos() <= last_reading(inputs),
    decreases inputs.len(),
{
    if i < inputs.len() - 1 {
        lemma_readings_ascend(s, inputs.drop_last(), slack, i);
    }
}

/// A timeout comes on time: it keeps the configured deadline, and the time that its evidence
/// gives as elapsed lies between the deadline and the end of the allowance that a caller may
/// see, where no operation takes more than two and a half milliseconds beyond the wait that it was
/// asked for.
pub proof fn law_timeouts_are_on_time(
    s: State,
    inputs: Seq<Input>,
    slack: nat,
    elapsed: Duration,
    evidence: Box<LifecycleEvidence>,
    result: Result<Output, Error>,
)
    requires
        s.lawful(),
        s.pending is Begin,
        prompt(s, inputs, slack),
        slack <= 2_500_000,
        s.run(inputs).pending is Finish,
        last_reading(inputs) <= elapsed.nanos() <= last_reading(inputs) + slack,
        s.run(inputs).evidenced_by(*evidence, elapsed),
        is_run_result(
            s.run(inputs).primary(),
            s.run(inputs).program,
            s.run(inputs).deadline,
            evidence,
            result,
        ),
        result matches Err(Error::Timeout { .. }),
    ensures
        s.deadline matches Some(configured) && result == Err::<Output, Error>(
            Error::Timeout { program: s.run(inputs).program, deadline: configured, evidence },
        ) && evidence.elapsed == Some(elapsed) && configured.nanos() <= elapsed.nanos()
            && elapsed.nanos() <= configured.nanos() + CLEANUP_ALLOWANCE_MILLIS * NANOS_PER_MILLI,
{
    law_runs_are_lawful(s, inputs);
    assert forall|i: int| 0 <= i < inputs.len() implies (#[trigger] inputs[i]).reading.now.nanos()
        <= elapsed.nanos() by {
        lemma_readings_ascend(s, inputs, slack, i);
    }
    law_timeouts_are_not_early(s, inputs, elapsed);
    law_invocations_end_in_time(s, inputs, slack, elapsed);
}

/// The bytes that were retained stay: no later input takes any of them back, and the limits
/// hold to the end.
pub proof fn law_retained_bytes_stay(s: State, inputs: Seq<Input>, stream: StreamName)
    requires
        s.lawful(),
    ensures
        s.stream(stream).kept.is_prefix_of(s.run(inputs).stream(stream).kept),
        s.run(inputs).stream(stream).bound == s.stream(stream).bound,
        s.stream(stream).bound matches Some((limit, _)) ==> s.run(inputs).stream(stream).kept.len()
            <= limit,
        s.stream(stream).overflow is Some ==> s.run(inputs).stream(stream).overflow == s.stream(
            stream,
        ).overflow,
        s.stream(stream).failure is Some ==> s.run(inputs).stream(stream).failure == s.stream(
            stream,
        ).failure,
        s.seen.cancelled ==> s.run(inputs).seen.cancelled,
    decreases inputs.len(),
{
    law_runs_are_lawful(s, inputs);
    if inputs.len() > 0 {
        let front = inputs.drop_last();
        let input = inputs.last();
        law_retained_bytes_stay(s, front, stream);
        law_runs_are_lawful(s, front);
        lemma_input_keeps_bytes(
            s.run(front),
            input.event,
            input.reading,
            input.reserved,
            stream,
        );
    }
}

proof fn lemma_input_keeps_bytes(
    s: State,
    event: Event,
    reading: Reading,
    reserved: bool,
    stream: StreamName,
)
    requires
        s.lawful(),
    ensures
        s.stream(stream).kept.is_prefix_of(s.after(event, reading, reserved).stream(stream).kept),
        s.after(event, reading, reserved).stream(stream).bound == s.stream(stream).bound,
        s.stream(stream).overflow is Some ==> s.after(event, reading, reserved).stream(
            stream,
        ).overflow == s.stream(stream).overflow,
        s.stream(stream).failure is Some ==> s.after(event, reading, reserved).stream(
            stream,
        ).failure == s.stream(stream).failure,
        s.seen.cancelled ==> s.after(event, reading, reserved).seen.cancelled,
{
    if event.answers(s.pending) {
        lemma_after_routes(s, event, reading, reserved);
    } else {
        lemma_unanswered(s, event, reading, reserved);
    }
}

/// The bytes that the inputs read from a stream, in order.
pub open spec fn bytes_read(s: State, inputs: Seq<Input>, stream: StreamName) -> Seq<u8>
    decreases inputs.len(),
{
    if inputs.len() == 0 {
        Seq::empty()
    } else {
        let before = bytes_read(s, inputs.drop_last(), stream);
        match inputs.last().event {
            Event::ReadDone(read) => if s.run(inputs.drop_last()).pending == Action::Read(stream) {
                before + bytes_of(read)
            } else {
                before
            },
            _ => before,
        }
    }
}

/// Whatever happens to an invocation, each of its streams accounts for every byte that was
/// read from its pipe.
pub proof fn law_streams_account_for_what_was_read(s: State, inputs: Seq<Input>, stream: StreamName)
    requires
        s.lawful(),
        s.stream(stream).accounts_for(Seq::empty()),
    ensures
        s.run(inputs).stream(stream).accounts_for(bytes_read(s, inputs, stream)),
    decreases inputs.len(),
{
    if inputs.len() > 0 {
        let front = inputs.drop_last();
        let input = inputs.last();
        law_streams_account_for_what_was_read(s, front, stream);
        law_runs_are_lawful(s, front);
        let last = s.run(front);
        if input.event.answers(last.pending) {
            lemma_after_routes(last, input.event, input.reading, input.reserved);
            if let Event::ReadDone(read) = input.event {
                if last.pending == Action::Read(stream) {
                    law_reads_are_accounted_for(
                        last.stream(stream),
                        bytes_read(s, front, stream),
                        read,
                        input.reserved,
                    );
                }
            }
        } else {
            lemma_unanswered(last, input.event, input.reading, input.reserved);
        }
    }
}

/// A run that succeeds hands out, of each stream that it captured to its end, the bytes that
/// were read: all of them where the stream is complete, and the first of them up to the
/// limit where it is truncated.
pub proof fn law_successful_output_is_what_was_read(
    s: State,
    inputs: Seq<Input>,
    elapsed: Duration,
    evidence: Box<LifecycleEvidence>,
    output: Output,
    stream: StreamName,
)
    requires
        s.lawful(),
        s.stream(stream).accounts_for(Seq::empty()),
        s.run(inputs).evidenced_by(*evidence, elapsed),
        is_run_result(
            s.run(inputs).primary(),
            s.program,
            s.deadline,
            evidence,
            Ok(output),
        ),
    ensures
        ({
            let captured = match stream {
                StreamName::Stdout => output.evidence.stdout.captured,
                StreamName::Stderr => output.evidence.stderr.captured,
            };
            let bytes = bytes_read(s, inputs, stream);
            &&& captured.completeness is Complete ==> captured.bytes@ == bytes
            &&& captured.completeness matches CaptureCompleteness::Truncated { discarded } ==> {
                &&& captured.bytes@ == bytes.take(captured.bytes@.len() as int)
                &&& discarded == saturated(0, (bytes.len() - captured.bytes@.len()) as nat)
            }
        }),
{
    law_streams_account_for_what_was_read(s, inputs, stream);
    law_runs_are_lawful(s, inputs);
    let captured = s.run(inputs).stream(stream);
    law_accounted_streams_retain_the_prefix(captured, bytes_read(s, inputs, stream));
    assert(captured.kept =~= bytes_read(s, inputs, stream).take(captured.kept.len() as int));
}

} // verus!
