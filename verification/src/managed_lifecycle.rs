//! Laws of managed supervision: what every state keeps, and what holds of whole runs.

use vstd::prelude::*;

use crate::error::{Error, FailureEvidence};
use crate::io::ErrorKind;
use crate::lifecycle::{lemma_slack, lemma_slack_step};
use crate::managed::{ManagedAction, ManagedEvent, ManagedState};
use crate::outcome::{is_managed_result, law_managed_results_follow_from_the_facts};
use crate::output::{
    CleanupOutcome, ExitStatus, GroupSignalOutcome, LeaderReapDisposition, LifecycleEvidence,
    ManagedOutput, StreamName,
};
use crate::schedule::{
    budget_nanos, cleanup_end, has_elapsed, left_until, moment, quantum_nanos, wait_nanos,
    CLEANUP_ALLOWANCE_MILLIS,
};
use crate::time::{Duration, MAX_NANOS, NANOS_PER_MILLI};

verus! {

/// One input of the machine: an event and the time at which it was reported.
pub struct ManagedInput {
    /// The event.
    pub event: ManagedEvent,
    /// Time since the child was started.
    pub now: Duration,
}

impl ManagedState {
    /// The state after a sequence of inputs.
    pub open spec fn run(self, inputs: Seq<ManagedInput>) -> Self
        decreases inputs.len(),
    {
        if inputs.len() == 0 {
            self
        } else {
            self.run(inputs.drop_last()).after(inputs.last().event, inputs.last().now)
        }
    }

    /// What holds of the pending operation.
    pub open spec fn pending_is_due(self) -> bool {
        match self.pending {
            ManagedAction::Begin => self.cleanup_deadline is None,
            ManagedAction::ObserveLeader => self.has_child && !self.seen.leader_waitable
                && self.seen.observe_error is None,
            ManagedAction::CheckCancel => self.cleanup_deadline is None,
            ManagedAction::AwaitCancel { timeout_nanos } => timeout_nanos <= quantum_nanos()
                && self.has_child && !self.seen.leader_waitable,
            ManagedAction::SignalGroup => self.cleanup_deadline is Some && self.seen.settles(
                false,
                false,
            ),
            ManagedAction::Reap => self.cleanup_deadline is Some && self.has_child
                && self.seen.leader_waitable,
            ManagedAction::HandOff => self.cleanup_deadline is Some && self.has_child
                && self.leader_unsettled,
            ManagedAction::Finish => self.cleanup_deadline is Some,
        }
    }

    /// What every state of a managed child keeps to.
    pub open spec fn lawful(self) -> bool {
        &&& self.seen.deadline_elapsed ==> self.deadline is Some && self.cleanup_deadline is Some
        // The group is signaled once, when cleanup starts.
        &&& self.signal is Some <==> self.cleanup_deadline is Some && !(self.pending is SignalGroup)
        // The leader is reaped, handed over or still owned.
        &&& self.status is Some <==> self.disposition == LeaderReapDisposition::Reaped
        &&& self.disposition != LeaderReapDisposition::Unknown
        &&& self.has_child <==> self.disposition == LeaderReapDisposition::Unreaped
        &&& self.status is Some ==> self.seen.leader_waitable && self.signal is Some
        &&& self.disposition == LeaderReapDisposition::BackgroundReaper ==> self.leader_unsettled
            && self.pending is Finish
        &&& self.pending is Finish ==> (self.leader_unsettled <==> self.disposition
            != LeaderReapDisposition::Reaped)
        &&& self.leader_unsettled ==> self.pending is HandOff || self.pending is Finish
        &&& self.seen.reap_failures.len() > 0 ==> self.leader_unsettled
        &&& self.pending_is_due()
    }
}

/// A started child starts out lawfully.
pub proof fn law_initial_managed_state_is_lawful(program: String, deadline: Option<Duration>)
    ensures
        ManagedState::initial(program, deadline).lawful(),
{
}

/// A started child starts out with nothing seen, nothing signaled and the leader owned.
pub proof fn law_managed_supervision_starts_from_nothing(
    program: String,
    deadline: Option<Duration>,
)
    ensures
        ({
            let s = ManagedState::initial(program, deadline);
            &&& s.program == program && s.deadline == deadline
            &&& !s.seen.cancelled && !s.seen.deadline_elapsed && !s.seen.leader_waitable
            &&& s.seen.observe_error is None && s.seen.reap_failures.len() == 0
            &&& s.cleanup_deadline is None && s.signal is None && s.status is None
            &&& s.has_child && s.disposition == LeaderReapDisposition::Unreaped
            &&& !s.leader_unsettled && s.pending is Begin
        }),
{
}

/// Every input keeps a lawful state lawful.
pub proof fn law_lawful_managed_states_stay_lawful(
    s: ManagedState,
    event: ManagedEvent,
    now: Duration,
)
    requires
        s.lawful(),
    ensures
        s.after(event, now).lawful(),
{
}

/// Whatever happens to a managed child, its states are lawful.
pub proof fn law_managed_runs_are_lawful(s: ManagedState, inputs: Seq<ManagedInput>)
    requires
        s.lawful(),
    ensures
        s.run(inputs).lawful(),
    decreases inputs.len(),
{
    if inputs.len() > 0 {
        law_managed_runs_are_lawful(s, inputs.drop_last());
        law_lawful_managed_states_stay_lawful(
            s.run(inputs.drop_last()),
            inputs.last().event,
            inputs.last().now,
        );
    }
}

/// Every answer is recorded as it was given, and nothing else is: the status is the one that was
/// reaped, the signal's outcome the one that was reported, and the failures those that
/// occurred. Cancellation is noted only where it was requested or the handle is gone, the
/// deadline only where it has passed, and what does not answer the pending operation changes
/// nothing.
pub proof fn law_managed_steps_record_what_happened(
    s: ManagedState,
    event: ManagedEvent,
    now: Duration,
)
    requires
        s.lawful(),
    ensures
        ({
            let after = s.after(event, now);
            &&& !event.answers(s.pending) ==> after == s
            &&& event.answers(s.pending) ==> {
                &&& after.program == s.program && after.deadline == s.deadline
                &&& after.status == match event {
                    ManagedEvent::Reaped(Ok(status)) => Some(status),
                    _ => s.status,
                }
                &&& after.signal == match event {
                    ManagedEvent::Signaled(outcome) => Some(outcome),
                    _ => s.signal,
                }
                &&& after.disposition == match event {
                    ManagedEvent::Reaped(Ok(_)) => LeaderReapDisposition::Reaped,
                    ManagedEvent::HandedOff(Ok(_)) => LeaderReapDisposition::BackgroundReaper,
                    _ => s.disposition,
                }
                &&& after.has_child == match event {
                    ManagedEvent::Reaped(Ok(_)) => false,
                    ManagedEvent::HandedOff(Ok(_)) => false,
                    _ => s.has_child,
                }
                &&& after.seen.leader_waitable == match event {
                    ManagedEvent::LeaderObserved(Ok(waitable)) => waitable,
                    _ => s.seen.leader_waitable,
                }
                &&& after.seen.observe_error == match event {
                    ManagedEvent::LeaderObserved(Err(error)) => if error.kind
                        == ErrorKind::Interrupted {
                        s.seen.observe_error
                    } else {
                        Some(error)
                    },
                    _ => s.seen.observe_error,
                }
                &&& after.seen.reap_failures == match event {
                    ManagedEvent::Reaped(Err(error)) => s.seen.reap_failures.push(
                        FailureEvidence {
                            operation: "reap process leader",
                            kind: error.kind,
                            message: error.message,
                        },
                    ),
                    ManagedEvent::HandedOff(Err(failure)) => s.seen.reap_failures.push(failure),
                    _ => s.seen.reap_failures,
                }
                &&& after.seen.cancelled == match event {
                    ManagedEvent::CancelChecked(request) => s.seen.cancelled || !(request
                        is Pending),
                    ManagedEvent::Waited(request) => s.seen.cancelled || !(request is Pending),
                    _ => s.seen.cancelled,
                }
                &&& after.seen.deadline_elapsed == if event is CancelChecked {
                    s.deadline matches Some(end) && now.nanos() >= end.nanos()
                } else {
                    s.seen.deadline_elapsed
                }
            }
        }),
{
}

/// Supervision stops only for a reason, and cleanup is not cut short.
///
/// The group is signaled only where the leader could not be observed or has exited, cancellation
/// was requested or the deadline has passed, and cleanup then has two seconds. Nothing is
/// waited for before the leader and the requests were looked at. In cleanup, a leader that was
/// seen to have exited is reaped at once. Only a leader that could not be reaped, or is left
/// when the two seconds are over, is handed over, and supervision is finished only once the
/// leader is gone or could not be settled.
pub proof fn law_managed_supervision_stops_for_a_reason_and_cleans_up(
    s: ManagedState,
    event: ManagedEvent,
    now: Duration,
)
    requires
        s.lawful(),
        event.answers(s.pending),
    ensures
        ({
            let after = s.after(event, now);
            let spent = s.cleanup_deadline is Some && now.nanos() >= s.cleanup_deadline->0;
            &&& s.cleanup_deadline is None ==> match after.pending {
                ManagedAction::SignalGroup => {
                    &&& event is CancelChecked
                    &&& after.cleanup_deadline == Some(
                        if now.nanos() + 2_000_000_000 <= MAX_NANOS {
                            now.nanos() + 2_000_000_000
                        } else {
                            now.nanos()
                        },
                    )
                    &&& {
                        ||| after.seen.observe_error is Some || after.seen.leader_waitable
                        ||| after.seen.cancelled
                        ||| s.deadline matches Some(end) && now.nanos() >= end.nanos()
                    }
                },
                ManagedAction::ObserveLeader => after.cleanup_deadline is None,
                ManagedAction::CheckCancel => after.cleanup_deadline is None && (event
                    is LeaderObserved || s.seen.leader_waitable || s.seen.observe_error is Some),
                ManagedAction::AwaitCancel { .. } => after.cleanup_deadline is None && event
                    is CancelChecked && !after.seen.leader_waitable && after.seen.observe_error
                    is None && !after.seen.cancelled && (s.deadline matches Some(end) ==> now.nanos()
                    < end.nanos()),
                _ => false,
            }
            &&& s.cleanup_deadline is Some ==> after.cleanup_deadline == s.cleanup_deadline
                && match after.pending {
                ManagedAction::ObserveLeader => !spent,
                ManagedAction::AwaitCancel { .. } => after.has_child
                    && !after.seen.leader_waitable && (event is LeaderObserved
                    || after.seen.observe_error is Some),
                ManagedAction::Reap => after.has_child && after.seen.leader_waitable,
                ManagedAction::HandOff => after.has_child && (spent || event is Reaped),
                ManagedAction::Finish => event is HandedOff || !after.has_child,
                _ => false,
            }
            &&& event matches ManagedEvent::LeaderObserved(Ok(true)) ==> if s.cleanup_deadline
                is None {
                after.pending is CheckCancel
            } else {
                after.pending is Reap
            }
            &&& event is CancelChecked && s.seen.leader_waitable ==> after.pending is SignalGroup
            &&& after.pending matches ManagedAction::AwaitCancel { timeout_nanos } ==> {
                &&& s.cleanup_deadline is None ==> timeout_nanos == wait_nanos(
                    moment(s.deadline),
                    None,
                    now.nanos(),
                )
                &&& s.cleanup_deadline is Some ==> timeout_nanos == wait_nanos(
                    None,
                    s.cleanup_deadline,
                    now.nanos(),
                )
            }
            &&& event matches ManagedEvent::Reaped(Ok(_)) ==> after.pending is Finish
            &&& event matches ManagedEvent::Reaped(Err(_)) ==> after.pending is HandOff
            &&& event is HandedOff ==> after.pending is Finish
        }),
{
}

/// The leader is reaped, handed over or given up only after its group was signaled, and it
/// is reaped only once it was seen to have exited.
pub proof fn law_managed_group_is_signaled_before_the_leader_is_settled(s: ManagedState)
    requires
        s.lawful(),
    ensures
        s.pending is Reap ==> s.signal is Some && s.seen.leader_waitable && s.has_child,
        s.pending is HandOff || s.pending is Finish ==> s.signal is Some,
        s.status is Some ==> s.signal is Some && s.seen.leader_waitable,
{
}

/// The group is signaled once: what became of the signal stays, and no second one is asked
/// for.
pub proof fn law_managed_group_is_signaled_once(s: ManagedState, inputs: Seq<ManagedInput>)
    requires
        s.lawful(),
        s.signal is Some,
    ensures
        s.run(inputs).signal == s.signal,
        !(s.run(inputs).pending is SignalGroup),
    decreases inputs.len(),
{
    if inputs.len() > 0 {
        law_managed_group_is_signaled_once(s, inputs.drop_last());
        law_managed_runs_are_lawful(s, inputs.drop_last());
    }
}

/// What became of the signal is known: where every attempt is judged, as
/// [`signal_group`](crate::outcome::signal_group) judges it, no run records an unknown outcome,
/// and the evidence of a finished one tells whether the signal was sent, the group was gone, or
/// the attempt failed.
pub proof fn law_managed_signal_outcome_is_known(
    s: ManagedState,
    inputs: Seq<ManagedInput>,
    elapsed: Duration,
    evidence: LifecycleEvidence,
)
    requires
        s.lawful(),
        s.signal != Some(GroupSignalOutcome::Unknown),
        forall|i: int|
            0 <= i < inputs.len() ==> (#[trigger] inputs[i]).event != ManagedEvent::Signaled(
                GroupSignalOutcome::Unknown,
            ),
    ensures
        s.run(inputs).signal != Some(GroupSignalOutcome::Unknown),
        s.run(inputs).pending is Finish && s.run(inputs).evidenced_by(evidence, elapsed)
            ==> evidence.signal != GroupSignalOutcome::Unknown && s.run(inputs).signal == Some(
            evidence.signal,
        ),
    decreases inputs.len(),
{
    law_managed_runs_are_lawful(s, inputs);
    if inputs.len() > 0 {
        let front = inputs.drop_last();
        assert(inputs[inputs.len() - 1].event != ManagedEvent::Signaled(
            GroupSignalOutcome::Unknown,
        ));
        assert forall|i: int| 0 <= i < front.len() implies (#[trigger] front[i]).event
            != ManagedEvent::Signaled(GroupSignalOutcome::Unknown) by {
            assert(inputs[i].event != ManagedEvent::Signaled(GroupSignalOutcome::Unknown));
        }
        law_managed_signal_outcome_is_known(s, front, elapsed, evidence);
        law_managed_runs_are_lawful(s, front);
    }
}

/// How often the inputs signal the group.
pub open spec fn managed_signals(s: ManagedState, inputs: Seq<ManagedInput>) -> nat
    decreases inputs.len(),
{
    if inputs.len() == 0 {
        0
    } else {
        managed_signals(s, inputs.drop_last()) + if s.run(inputs.drop_last()).pending is SignalGroup
            && inputs.last().event is Signaled {
            1nat
        } else {
            0
        }
    }
}

/// How often the inputs reap the leader.
pub open spec fn managed_reaps(s: ManagedState, inputs: Seq<ManagedInput>) -> nat
    decreases inputs.len(),
{
    if inputs.len() == 0 {
        0
    } else {
        managed_reaps(s, inputs.drop_last()) + if s.run(inputs.drop_last()).pending is Reap && (
        inputs.last().event matches ManagedEvent::Reaped(Ok(_))) {
            1nat
        } else {
            0
        }
    }
}

/// In a whole run the group is signaled at most once and the leader reaped at most once, the
/// leader never before the group; a run that is finished signaled the group.
pub proof fn law_managed_runs_signal_once_and_reap_once(
    s: ManagedState,
    inputs: Seq<ManagedInput>,
)
    requires
        s.lawful(),
        s.signal is None,
        s.status is None,
    ensures
        managed_signals(s, inputs) == if s.run(inputs).signal is Some {
            1nat
        } else {
            0
        },
        managed_reaps(s, inputs) == if s.run(inputs).status is Some {
            1nat
        } else {
            0
        },
        managed_reaps(s, inputs) <= managed_signals(s, inputs),
        s.run(inputs).pending is Finish ==> managed_signals(s, inputs) == 1,
    decreases inputs.len(),
{
    law_managed_runs_are_lawful(s, inputs);
    if inputs.len() > 0 {
        law_managed_runs_signal_once_and_reap_once(s, inputs.drop_last());
        law_managed_runs_are_lawful(s, inputs.drop_last());
    }
}

/// How many operations are left at most, once the cleanup budget is spent.
pub open spec fn managed_operations_left(s: ManagedState) -> nat {
    match s.pending {
        ManagedAction::Finish => 0,
        ManagedAction::HandOff => 1,
        ManagedAction::ObserveLeader => 3,
        _ => 2,
    }
}

/// Cleanup ends: once its budget is spent, every answered operation leaves fewer to come,
/// of which there are three at most, whatever the child and its descendants do.
pub proof fn law_managed_cleanup_ends_with_its_budget(
    s: ManagedState,
    event: ManagedEvent,
    now: Duration,
)
    requires
        s.lawful(),
        s.cleanup_deadline matches Some(end) && now.nanos() >= end,
        event.answers(s.pending),
    ensures
        managed_operations_left(s.after(event, now)) < managed_operations_left(s),
        managed_operations_left(s) <= 3,
{
}

/// How many operations are left at most before the group is signaled, once a reason to stop
/// is known.
pub open spec fn managed_operations_before_signal(s: ManagedState) -> nat {
    match s.pending {
        ManagedAction::CheckCancel => 1,
        ManagedAction::ObserveLeader => 2,
        _ => 3,
    }
}

/// Every reason to stop leads to the signal, be it the deadline, cancellation, a failure to
/// observe the leader, or its exit: once there is one, every answered operation either brings
/// the signal, with the cleanup budget counting from then on, or leaves fewer operations before
/// it, of which there are three at most. A reason that was seen stays.
pub proof fn law_managed_reasons_to_stop_lead_to_the_signal(
    s: ManagedState,
    event: ManagedEvent,
    now: Duration,
)
    requires
        s.lawful(),
        s.cleanup_deadline is None,
        s.seen.settles(false, false) || has_elapsed(s.deadline, now),
        event.answers(s.pending),
    ensures
        if s.after(event, now).cleanup_deadline is Some {
            s.after(event, now).pending is SignalGroup && s.after(event, now).cleanup_deadline
                == Some(cleanup_end(now.nanos()))
        } else {
            managed_operations_before_signal(s.after(event, now))
                < managed_operations_before_signal(s)
        },
        managed_operations_before_signal(s) <= 3,
        s.seen.settles(false, false) ==> s.after(event, now).seen.settles(false, false),
{
}

/// A cancellation request is never forgotten, and the handle's end is one.
pub proof fn law_managed_cancellation_is_kept(
    s: ManagedState,
    event: ManagedEvent,
    now: Duration,
)
    requires
        s.lawful(),
    ensures
        s.seen.cancelled ==> s.after(event, now).seen.cancelled,
        event.answers(s.pending) && (event matches ManagedEvent::Waited(request)
            && request.cancels()) ==> s.after(event, now).seen.cancelled,
        event.answers(s.pending) && (event matches ManagedEvent::CancelChecked(request)
            && request.cancels()) ==> s.after(event, now).seen.cancelled && s.after(
            event,
            now,
        ).pending is SignalGroup,
{
}

/// No wait is longer than one quantum, and none goes beyond the deadline while supervising
/// nor beyond the end of cleanup.
pub proof fn law_managed_waits_end_in_time(s: ManagedState, event: ManagedEvent, now: Duration)
    requires
        s.lawful(),
        event.answers(s.pending),
    ensures
        s.after(event, now).pending matches ManagedAction::AwaitCancel { timeout_nanos } ==> {
            let after = s.after(event, now);
            &&& timeout_nanos <= quantum_nanos()
            &&& after.cleanup_deadline is None ==> (after.deadline matches Some(end)
                ==> timeout_nanos <= left_until(end.nanos(), now.nanos()))
            &&& after.cleanup_deadline matches Some(end) ==> timeout_nanos <= left_until(
                end,
                now.nanos(),
            )
        },
{
}

/// Success means that nothing stopped the child and that every obligation was settled: the
/// group was signaled or gone, and the leader reaped with status zero and without failures.
pub proof fn law_managed_success_settles_every_obligation(
    s: ManagedState,
    elapsed: Duration,
    evidence: Box<LifecycleEvidence>,
    output: ManagedOutput,
)
    requires
        s.lawful(),
        s.evidenced_by(*evidence, elapsed),
        is_managed_result(s.primary(), s.program, s.deadline, evidence, Ok(output)),
    ensures
        output.evidence == evidence,
        output.status.word() == 0,
        evidence.leader_status == Some(output.status),
        evidence.reap.disposition == LeaderReapDisposition::Reaped,
        evidence.reap.failures@.len() == 0,
        evidence.signal == GroupSignalOutcome::Sent || evidence.signal
            == GroupSignalOutcome::AlreadyGone,
        evidence.cleanup == CleanupOutcome::Complete,
        !s.seen.cancelled && !s.seen.deadline_elapsed && s.seen.observe_error is None,
{
}

/// The evidence of a finished child tells what happened to it: the status that was reaped, the
/// time that passed, what became of the signal and of the leader, and the failures on the way.
/// Its streams are redirected and empty. Cleanup was complete exactly where the leader was
/// reaped.
pub proof fn law_managed_evidence_tells_what_happened(
    s: ManagedState,
    elapsed: Duration,
    evidence: LifecycleEvidence,
)
    requires
        s.lawful(),
        s.pending is Finish,
        s.evidenced_by(evidence, elapsed),
    ensures
        evidence.leader_status == s.status,
        evidence.elapsed == Some(elapsed),
        s.signal == Some(evidence.signal),
        evidence.reap.disposition == s.disposition,
        evidence.reap.failures@ == s.seen.reap_failures,
        evidence.stdout.stream == StreamName::Stdout && evidence.stderr.stream
            == StreamName::Stderr,
        evidence.stdout.captured.completeness is Redirected && evidence.stdout.captured.bytes@.len()
            == 0 && evidence.stdout.failure is None,
        evidence.stderr.captured.completeness is Redirected && evidence.stderr.captured.bytes@.len()
            == 0 && evidence.stderr.failure is None,
        evidence.cleanup is Complete <==> s.status is Some,
        s.status is None ==> (evidence.cleanup matches CleanupOutcome::Incomplete(facts)
            && facts.leader_unsettled && facts.unfinished_streams@.len() == 0
            && facts.cleanup_budget.nanos() == 2_000_000_000),
{
}

/// A child of which nothing is left over succeeds: where it was neither cancelled nor late, could
/// be observed, and was reaped with status word zero after its group was signaled or gone,
/// every result that its owner may be told is that success, with complete cleanup.
pub proof fn law_settled_managed_children_succeed(
    s: ManagedState,
    status: ExitStatus,
    elapsed: Duration,
    evidence: Box<LifecycleEvidence>,
    result: Result<ManagedOutput, Error>,
)
    requires
        s.lawful(),
        s.pending is Finish,
        !s.seen.cancelled && !s.seen.deadline_elapsed && s.seen.observe_error is None,
        s.status == Some(status) && status.word() == 0,
        s.seen.reap_failures.len() == 0,
        s.signal == Some(GroupSignalOutcome::Sent) || s.signal == Some(
            GroupSignalOutcome::AlreadyGone,
        ),
        s.evidenced_by(*evidence, elapsed),
        is_managed_result(s.primary(), s.program, s.deadline, evidence, result),
    ensures
        result == Ok::<ManagedOutput, Error>(ManagedOutput { evidence, status }),
        evidence.cleanup == CleanupOutcome::Complete,
        evidence.leader_status == Some(status) && evidence.elapsed == Some(elapsed),
{
    law_managed_evidence_tells_what_happened(s, elapsed, *evidence);
}

/// What the owner of a finished child is told: that it was cancelled, or else that its deadline
/// passed, or that it could not be observed; only a child of which none of this holds is judged
/// by its exit, and succeeds or not by how it was settled.
pub proof fn law_finished_children_are_reported(
    s: ManagedState,
    elapsed: Duration,
    evidence: Box<LifecycleEvidence>,
    result: Result<ManagedOutput, Error>,
)
    requires
        s.lawful(),
        s.pending is Finish,
        s.evidenced_by(*evidence, elapsed),
        is_managed_result(s.primary(), s.program, s.deadline, evidence, result),
    ensures
        ({
            let stopped = s.seen.cancelled || s.seen.deadline_elapsed;
            let exited = !stopped && s.seen.observe_error is None;
            &&& s.seen.cancelled ==> result == Err::<ManagedOutput, Error>(
                Error::Cancelled { program: s.program, evidence },
            )
            &&& !s.seen.cancelled && s.seen.deadline_elapsed ==> (s.deadline matches Some(
                configured,
            ) && result == Err::<ManagedOutput, Error>(
                Error::Timeout { program: s.program, deadline: configured, evidence },
            ))
            &&& !stopped ==> (s.seen.observe_error matches Some(source) ==> result == Err::<
                ManagedOutput,
                Error,
            >(Error::SupervisionFailed { program: s.program, source, evidence }))
            &&& exited && s.status is None ==> result == Err::<ManagedOutput, Error>(
                Error::CleanupIncomplete { program: s.program, evidence },
            )
            &&& exited && s.status is Some ==> match s.signal {
                Some(GroupSignalOutcome::Failed(_)) => result == Err::<ManagedOutput, Error>(
                    Error::LifecycleFailed { program: s.program, evidence },
                ),
                Some(GroupSignalOutcome::Unknown) => result matches Err(
                    Error::SupervisionFailed { .. },
                ),
                _ => if s.status->0.word() == 0 {
                    result == Ok::<ManagedOutput, Error>(
                        ManagedOutput { evidence, status: s.status->0 },
                    )
                } else {
                    result == Err::<ManagedOutput, Error>(
                        Error::NonZeroExit { program: s.program, evidence },
                    )
                },
            }
        }),
{
    law_managed_evidence_tells_what_happened(s, elapsed, *evidence);
    law_managed_results_follow_from_the_facts(s.seen, s.program, s.deadline, evidence, result);
}

/// A timeout keeps the configured deadline and the actual time that passed, and a child
/// without a deadline never times out.
pub proof fn law_managed_timeouts_keep_deadline_and_elapsed(
    s: ManagedState,
    elapsed: Duration,
    evidence: Box<LifecycleEvidence>,
    result: Result<ManagedOutput, Error>,
)
    requires
        s.lawful(),
        s.evidenced_by(*evidence, elapsed),
        is_managed_result(s.primary(), s.program, s.deadline, evidence, result),
    ensures
        s.primary() is Deadline ==> (s.deadline matches Some(configured) && result == Err::<
            ManagedOutput,
            Error,
        >(Error::Timeout { program: s.program, deadline: configured, evidence })
            && evidence.elapsed == Some(elapsed)),
        s.deadline is None ==> !(result matches Err(Error::Timeout { .. })),
{
}

/// A timeout is never early: where the deadline is seen to have elapsed, it had elapsed by
/// the time that the evidence gives as elapsed.
pub proof fn law_managed_timeouts_are_not_early(
    s: ManagedState,
    inputs: Seq<ManagedInput>,
    elapsed: Duration,
)
    requires
        s.lawful(),
        !s.seen.deadline_elapsed,
        forall|i: int|
            0 <= i < inputs.len() ==> (#[trigger] inputs[i]).now.nanos() <= elapsed.nanos(),
    ensures
        s.run(inputs).seen.deadline_elapsed ==> (s.deadline matches Some(deadline)
            && deadline.nanos() <= elapsed.nanos()),
        s.run(inputs).primary() is Deadline ==> (s.deadline matches Some(deadline)
            && deadline.nanos() <= elapsed.nanos()),
        s.run(inputs).deadline == s.deadline,
    decreases inputs.len(),
{
    if inputs.len() > 0 {
        let front = inputs.drop_last();
        assert(inputs[inputs.len() - 1].now.nanos() <= elapsed.nanos());
        assert forall|i: int| 0 <= i < front.len() implies (#[trigger] front[i]).now.nanos()
            <= elapsed.nanos() by {
            assert(inputs[i].now.nanos() <= elapsed.nanos());
        }
        law_managed_timeouts_are_not_early(s, front, elapsed);
        law_managed_runs_are_lawful(s, front);
    }
}

/// How long the pending operation is asked to wait, in nanoseconds.
pub open spec fn managed_asked_wait(s: ManagedState) -> nat {
    match s.pending {
        ManagedAction::AwaitCancel { timeout_nanos } => timeout_nanos as nat,
        _ => 0,
    }
}

/// The time of the last input, or the start where there is none.
pub open spec fn last_managed_reading(inputs: Seq<ManagedInput>) -> nat {
    if inputs.len() == 0 {
        0
    } else {
        inputs.last().now.nanos()
    }
}

/// Whether the inputs are those of a driver that answers every operation and takes at most
/// `slack` nanoseconds for it beyond the wait that was asked for.
pub open spec fn managed_prompt(s: ManagedState, inputs: Seq<ManagedInput>, slack: nat) -> bool
    decreases inputs.len(),
{
    inputs.len() > 0 ==> {
        let front = inputs.drop_last();
        let before = s.run(front);
        &&& managed_prompt(s, front, slack)
        &&& inputs.last().event.answers(before.pending)
        &&& last_managed_reading(front) <= last_managed_reading(inputs) <= last_managed_reading(
            front,
        ) + managed_asked_wait(before) + slack
    }
}

/// How late a child with a deadline may be at `now`.
spec fn managed_timely(s: ManagedState, now: nat, deadline: nat, slack: nat) -> bool {
    &&& s.pending matches ManagedAction::AwaitCancel { timeout_nanos } ==> {
        &&& s.cleanup_deadline is None ==> timeout_nanos <= left_until(deadline, now)
        &&& s.cleanup_deadline matches Some(end) ==> timeout_nanos <= left_until(end, now)
    }
    &&& match s.cleanup_deadline {
        None => now >= deadline ==> now + managed_operations_before_signal(s) * slack <= deadline
            + 4 * slack,
        Some(end) => end <= deadline + 4 * slack + budget_nanos() && (now >= end ==> now
            + managed_operations_left(s) * slack <= end + 3 * slack),
    }
}

proof fn lemma_managed_step_is_timely(
    s: ManagedState,
    now: nat,
    event: ManagedEvent,
    later: Duration,
    slack: nat,
)
    requires
        s.lawful(),
        s.deadline is Some,
        managed_timely(s, now, s.deadline->0.nanos(), slack),
        event.answers(s.pending),
        now <= later.nanos() <= now + managed_asked_wait(s) + slack,
    ensures
        managed_timely(s.after(event, later), later.nanos(), s.deadline->0.nanos(), slack),
{
    let after = s.after(event, later);
    let deadline = s.deadline->0.nanos();
    law_managed_waits_end_in_time(s, event, later);
    law_lawful_managed_states_stay_lawful(s, event, later);
    let left = managed_operations_before_signal(after);
    let rest = managed_operations_left(after);
    if s.cleanup_deadline is None {
        if later.nanos() >= deadline {
            law_managed_reasons_to_stop_lead_to_the_signal(s, event, later);
            if after.cleanup_deadline is None {
                if now >= deadline {
                    lemma_slack_step(left, managed_operations_before_signal(s), slack);
                } else {
                    lemma_slack(left, 3, slack);
                }
            } else {
                lemma_slack(1, managed_operations_before_signal(s), slack);
            }
        }
        if after.cleanup_deadline is Some {
            lemma_slack(rest, 3, slack);
        }
    } else if later.nanos() >= s.cleanup_deadline->0 {
        law_managed_cleanup_ends_with_its_budget(s, event, later);
        if now >= s.cleanup_deadline->0 {
            lemma_slack_step(rest, managed_operations_left(s), slack);
        } else {
            lemma_slack(rest, 2, slack);
        }
    }
}

proof fn lemma_managed_runs_are_timely(s: ManagedState, inputs: Seq<ManagedInput>, slack: nat)
    requires
        s.lawful(),
        s.pending is Begin,
        s.deadline is Some,
        managed_prompt(s, inputs, slack),
    ensures
        managed_timely(
            s.run(inputs),
            last_managed_reading(inputs),
            s.deadline->0.nanos(),
            slack,
        ),
        s.run(inputs).deadline == s.deadline,
    decreases inputs.len(),
{
    if inputs.len() == 0 {
        lemma_slack(managed_operations_before_signal(s), 4, slack);
    } else {
        let front = inputs.drop_last();
        let input = inputs.last();
        lemma_managed_runs_are_timely(s, front, slack);
        law_managed_runs_are_lawful(s, front);
        lemma_managed_step_is_timely(
            s.run(front),
            last_managed_reading(front),
            input.event,
            input.now,
            slack,
        );
    }
}

/// The supervision of a child with a deadline is over in time, whatever the child and its
/// descendants do: where no operation takes more than `slack` beyond the wait that it was
/// asked for, supervision ends at most the cleanup budget and eight times that after the
/// deadline. With twelve and a half milliseconds for an operation, that is the allowance
/// that a caller may see.
pub proof fn law_managed_supervision_ends_in_time(
    s: ManagedState,
    inputs: Seq<ManagedInput>,
    slack: nat,
    elapsed: Duration,
)
    requires
        s.lawful(),
        s.pending is Begin,
        s.deadline is Some,
        managed_prompt(s, inputs, slack),
        s.run(inputs).pending is Finish,
        elapsed.nanos() <= last_managed_reading(inputs) + slack,
    ensures
        elapsed.nanos() <= s.deadline->0.nanos() + budget_nanos() + 8 * slack,
        slack <= 12_500_000 ==> elapsed.nanos() <= s.deadline->0.nanos() + CLEANUP_ALLOWANCE_MILLIS
            * NANOS_PER_MILLI,
{
    lemma_managed_runs_are_timely(s, inputs, slack);
    law_managed_runs_are_lawful(s, inputs);
}

proof fn lemma_managed_readings_ascend(s: ManagedState, inputs: Seq<ManagedInput>, slack: nat, i: int)
    requires
        managed_prompt(s, inputs, slack),
        0 <= i < inputs.len(),
    ensures
        inputs[i].now.nanos() <= last_managed_reading(inputs),
    decreases inputs.len(),
{
    if i < inputs.len() - 1 {
        lemma_managed_readings_ascend(s, inputs.drop_last(), slack, i);
    }
}

/// A timeout comes on time: it keeps the configured deadline, and the time that its evidence
/// gives as elapsed lies between the deadline and the end of the allowance that a caller may
/// see, where no operation takes more than twelve and a half milliseconds beyond the wait that it was
/// asked for.
pub proof fn law_managed_timeouts_are_on_time(
    s: ManagedState,
    inputs: Seq<ManagedInput>,
    slack: nat,
    elapsed: Duration,
    evidence: Box<LifecycleEvidence>,
    result: Result<ManagedOutput, Error>,
)
    requires
        s.lawful(),
        s.pending is Begin,
        managed_prompt(s, inputs, slack),
        slack <= 12_500_000,
        s.run(inputs).pending is Finish,
        last_managed_reading(inputs) <= elapsed.nanos() <= last_managed_reading(inputs) + slack,
        s.run(inputs).evidenced_by(*evidence, elapsed),
        is_managed_result(
            s.run(inputs).primary(),
            s.run(inputs).program,
            s.run(inputs).deadline,
            evidence,
            result,
        ),
        result matches Err(Error::Timeout { .. }),
    ensures
        s.deadline matches Some(configured) && result == Err::<ManagedOutput, Error>(
            Error::Timeout { program: s.run(inputs).program, deadline: configured, evidence },
        ) && evidence.elapsed == Some(elapsed) && configured.nanos() <= elapsed.nanos()
            && elapsed.nanos() <= configured.nanos() + CLEANUP_ALLOWANCE_MILLIS * NANOS_PER_MILLI,
{
    law_managed_runs_are_lawful(s, inputs);
    assert forall|i: int| 0 <= i < inputs.len() implies (#[trigger] inputs[i]).now.nanos()
        <= elapsed.nanos() by {
        lemma_managed_readings_ascend(s, inputs, slack, i);
    }
    law_managed_timeouts_are_not_early(s, inputs, elapsed);
    law_managed_supervision_ends_in_time(s, inputs, slack, elapsed);
}

} // verus!
