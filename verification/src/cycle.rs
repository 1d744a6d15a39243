//! One reconciliation cycle: fetch the published records, resolve the
//! host's addresses, decide, execute. A cycle walks the states
//! `FetchRecords -> ResolveIps -> Decide -> Execute -> Done`, with `Aborted`
//! terminal reachable only from the first two: a fetch failure or a resolver
//! failure discards the whole cycle before anything is decided, so no
//! delete or update is ever issued on the strength of a transient failure.

use vstd::prelude::*;

use crate::addr::{Address, AddressFamily};
use crate::reconcile::{
    decide, spec_decide_actions, spec_decide_notes, DecisionReport, DesiredState, Policy,
};
use crate::record::Record;
use crate::store::{partition_records, spec_first_of_family};

verus! {

/// What a family's resolver reported. `Unavailable` means the host has no
/// route for that family — a legitimate absence that the engine reconciles
/// against. `Failed` is any other failure — transient or otherwise — and
/// aborts the cycle instead of reaching the engine.
#[derive(Debug, PartialEq)]
pub enum ResolveOutcome {
    /// The family resolved to this address.
    Resolved(Address),
    /// The host has no route for this family; the desired address is absent.
    Unavailable,
    /// Resolution failed for some other reason, described by the cause.
    Failed(String),
}

/// The mathematical value of a [`ResolveOutcome`].
pub enum ResolveOutcomeModel {
    Resolved(Address),
    Unavailable,
    Failed(Seq<char>),
}

impl View for ResolveOutcome {
    type V = ResolveOutcomeModel;

    open spec fn view(&self) -> ResolveOutcomeModel {
        match self {
            ResolveOutcome::Resolved(a) => ResolveOutcomeModel::Resolved(*a),
            ResolveOutcome::Unavailable => ResolveOutcomeModel::Unavailable,
            ResolveOutcome::Failed(cause) => ResolveOutcomeModel::Failed(cause@),
        }
    }
}

/// The desired address a resolver outcome stands for, once the cycle is
/// known not to abort: an address, or absence.
pub open spec fn spec_desired_of(o: ResolveOutcomeModel) -> Option<Address> {
    match o {
        ResolveOutcomeModel::Resolved(a) => Some(a),
        ResolveOutcomeModel::Unavailable => None,
        ResolveOutcomeModel::Failed(_) => None,
    }
}

/// Why a cycle was discarded before any action was decided.
#[derive(Debug, PartialEq)]
pub enum CycleAbort {
    /// The named family's resolver failed, with its cause.
    ResolveFailed(AddressFamily, String),
}

/// The mathematical value of a [`CycleAbort`].
pub enum CycleAbortModel {
    ResolveFailed(AddressFamily, Seq<char>),
}

impl View for CycleAbort {
    type V = CycleAbortModel;

    open spec fn view(&self) -> CycleAbortModel {
        match self {
            CycleAbort::ResolveFailed(f, cause) => CycleAbortModel::ResolveFailed(*f, cause@),
        }
    }
}

/// Whether the pair of resolver outcomes forces the cycle to abort: some
/// family that is not disabled failed to resolve. A disabled family is never
/// consulted, so its outcome cannot abort the cycle.
pub open spec fn spec_cycle_aborts(
    v4: ResolveOutcomeModel,
    v6: ResolveOutcomeModel,
    policy: Policy,
) -> bool {
    ||| (!policy.ipv4_disabled && v4 is Failed)
    ||| (!policy.ipv6_disabled && v6 is Failed)
}

/// The abort an aborting cycle reports: the A family's failure when it is
/// the one that failed (it is consulted first), else the AAAA family's.
pub open spec fn spec_cycle_abort(
    v4: ResolveOutcomeModel,
    v6: ResolveOutcomeModel,
    policy: Policy,
) -> CycleAbortModel {
    if !policy.ipv4_disabled && v4 is Failed {
        CycleAbortModel::ResolveFailed(AddressFamily::V4, v4->Failed_0)
    } else {
        CycleAbortModel::ResolveFailed(AddressFamily::V6, v6->Failed_0)
    }
}

/// Plans one cycle from the store's record list and the two resolver
/// outcomes: aborts if a consulted family's resolver failed — discarding the
/// other family's value too, so that zero actions come out of the cycle —
/// and otherwise partitions the records and runs the decision engine.
pub fn plan_cycle(
    records: &Vec<Record>,
    v4: ResolveOutcome,
    v6: ResolveOutcome,
    policy: &Policy,
    record_name: &String,
    zone_id: &String,
) -> (r: Result<DecisionReport, CycleAbort>)
    requires
        v4@ matches ResolveOutcomeModel::Resolved(a) ==> a.spec_family() == AddressFamily::V4,
        v6@ matches ResolveOutcomeModel::Resolved(a) ==> a.spec_family() == AddressFamily::V6,
    ensures
        r is Err <==> spec_cycle_aborts(v4@, v6@, *policy),
        r matches Err(abort) ==> abort@ == spec_cycle_abort(v4@, v6@, *policy),
        r matches Ok(report) ==> {
            let existing_a = spec_first_of_family(records.deep_view(), AddressFamily::V4);
            let existing_aaaa = spec_first_of_family(records.deep_view(), AddressFamily::V6);
            let desired = DesiredState {
                ipv4: spec_desired_of(v4@),
                ipv6: spec_desired_of(v6@),
            };
            &&& report.actions.deep_view() == spec_decide_actions(
                existing_a,
                existing_aaaa,
                desired,
                *policy,
                record_name@,
                zone_id@,
            )
            &&& report.notes@ == spec_decide_notes(
                existing_a,
                existing_aaaa,
                desired,
                *policy,
                record_name@,
                zone_id@,
            )
        },
{
    let desired_v4: Option<Address> = match v4 {
        ResolveOutcome::Resolved(a) => Some(a),
        ResolveOutcome::Unavailable => None,
        ResolveOutcome::Failed(cause) => {
            if !policy.ipv4_disabled {
                return Err(CycleAbort::ResolveFailed(AddressFamily::V4, cause));
            }
            None
        },
    };
    let desired_v6: Option<Address> = match v6 {
        ResolveOutcome::Resolved(a) => Some(a),
        ResolveOutcome::Unavailable => None,
        ResolveOutcome::Failed(cause) => {
            if !policy.ipv6_disabled {
                return Err(CycleAbort::ResolveFailed(AddressFamily::V6, cause));
            }
            None
        },
    };
    let (existing_a, existing_aaaa) = partition_records(records);
    let desired = DesiredState { ipv4: desired_v4, ipv6: desired_v6 };
    Ok(decide(&existing_a, &existing_aaaa, &desired, policy, record_name, zone_id))
}

/// The states of one cycle. `Done` and `Aborted` are terminal; no state is
/// re-entered within a cycle.
#[derive(Clone, Copy, Debug, PartialEq, Eq, Structural)]
pub enum CycleState {
    /// Fetching the published records from the store.
    FetchRecords,
    /// Resolving the host's current addresses, both families.
    ResolveIps,
    /// Running the decision engine.
    Decide,
    /// Applying the decided actions, in order.
    Execute,
    /// The cycle ran to completion (even if some actions failed: those are
    /// isolated, not cycle failures).
    Done,
    /// The cycle was discarded before any action was decided.
    Aborted,
}

/// The events that drive a cycle from state to state.
#[derive(Clone, Copy, Debug, PartialEq, Eq, Structural)]
pub enum CycleEvent {
    /// The record fetch returned a record list.
    FetchSucceeded,
    /// The record fetch failed.
    FetchFailed,
    /// Both families resolved, each to an address or to a legitimate
    /// absence.
    ResolveSucceeded,
    /// A consulted family's resolver failed.
    ResolveFailed,
    /// The decision engine produced its report.
    ActionsDecided,
    /// Every decided action was attempted, in order.
    ActionsExecuted,
}

/// Which events can arise in which states.
pub open spec fn spec_event_fits(s: CycleState, e: CycleEvent) -> bool {
    match (s, e) {
        (CycleState::FetchRecords, CycleEvent::FetchSucceeded) => true,
        (CycleState::FetchRecords, CycleEvent::FetchFailed) => true,
        (CycleState::ResolveIps, CycleEvent::ResolveSucceeded) => true,
        (CycleState::ResolveIps, CycleEvent::ResolveFailed) => true,
        (CycleState::Decide, CycleEvent::ActionsDecided) => true,
        (CycleState::Execute, CycleEvent::ActionsExecuted) => true,
        _ => false,
    }
}

/// The transition table of a cycle. For a pair no event of which can arise
/// (see [`spec_event_fits`]) the state is left as it stands.
pub open spec fn spec_step(s: CycleState, e: CycleEvent) -> CycleState {
    match (s, e) {
        (CycleState::FetchRecords, CycleEvent::FetchSucceeded) => CycleState::ResolveIps,
        (CycleState::FetchRecords, CycleEvent::FetchFailed) => CycleState::Aborted,
        (CycleState::ResolveIps, CycleEvent::ResolveSucceeded) => CycleState::Decide,
        (CycleState::ResolveIps, CycleEvent::ResolveFailed) => CycleState::Aborted,
        (CycleState::Decide, CycleEvent::ActionsDecided) => CycleState::Execute,
        (CycleState::Execute, CycleEvent::ActionsExecuted) => CycleState::Done,
        _ => s,
    }
}

/// How far through a cycle a state is; it rises strictly with every
/// transition, so no state is ever re-entered.
pub open spec fn spec_stage(s: CycleState) -> nat {
    match s {
        CycleState::FetchRecords => 0nat,
        CycleState::ResolveIps => 1nat,
        CycleState::Decide => 2nat,
        CycleState::Execute => 3nat,
        CycleState::Done => 4nat,
        CycleState::Aborted => 4nat,
    }
}

/// Advances a cycle by one event.
pub fn step(s: CycleState, e: CycleEvent) -> (t: CycleState)
    requires
        spec_event_fits(s, e),
    ensures
        t == spec_step(s, e),
{
    match (s, e) {
        (CycleState::FetchRecords, CycleEvent::FetchSucceeded) => CycleState::ResolveIps,
        (CycleState::FetchRecords, CycleEvent::FetchFailed) => CycleState::Aborted,
        (CycleState::ResolveIps, CycleEvent::ResolveSucceeded) => CycleState::Decide,
        (CycleState::ResolveIps, CycleEvent::ResolveFailed) => CycleState::Aborted,
        (CycleState::Decide, CycleEvent::ActionsDecided) => CycleState::Execute,
        (CycleState::Execute, CycleEvent::ActionsExecuted) => CycleState::Done,
        _ => s,
    }
}

/// Every transition moves the cycle strictly forward: no state is
/// re-entered within a cycle.
pub proof fn lemma_step_progresses(s: CycleState, e: CycleEvent)
    requires
        spec_event_fits(s, e),
    ensures
        spec_stage(spec_step(s, e)) > spec_stage(s),
{
}

/// An abort can arise only while fetching or resolving: once the engine has
/// decided, the cycle runs its actions and completes.
pub proof fn lemma_abort_only_before_decide(s: CycleState, e: CycleEvent)
    requires
        spec_event_fits(s, e),
        spec_step(s, e) == CycleState::Aborted,
    ensures
        s == CycleState::FetchRecords || s == CycleState::ResolveIps,
{
}

/// `Done` and `Aborted` are terminal: no event fits them, so a finished
/// cycle cannot move again and each new cycle starts fresh.
pub proof fn lemma_terminal_states(s: CycleState, e: CycleEvent)
    requires
        s == CycleState::Done || s == CycleState::Aborted,
    ensures
        !spec_event_fits(s, e),
{
}

} // verus!
