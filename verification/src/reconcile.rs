//! The reconciliation decision engine: given the published A and AAAA
//! records and the host's currently resolved addresses, compute the ordered
//! list of create/update/delete actions that converges the published state,
//! honouring the policy flags.
//!
//! The decision is per family. With `existing` the record of that family,
//! `desired` the address of that family after disabling is applied, and
//! `sibling` the other family's record (used only to inherit `proxied`/`ttl`
//! defaults on creation):
//!
//! | existing | desired | policy                | decision                  |
//! |----------|---------|-----------------------|---------------------------|
//! | present  | equal   | any                   | nothing (in sync)         |
//! | present  | differs | any                   | update to the new address |
//! | present  | absent  | deletion allowed      | delete                    |
//! | present  | absent  | deletion not allowed  | nothing (suppressed)      |
//! | absent   | present | creation allowed      | create                    |
//! | absent   | present | creation not allowed  | nothing (suppressed)      |
//! | absent   | absent  | any                   | nothing (in sync)         |
//!
//! Equality is address-value equality alone: a record whose address already
//! matches is left alone even if its TTL or proxying flag differ, as those
//! fields are not reconciled. Families are decided independently, A before
//! AAAA, and each run of the engine is deterministic and side-effect free.

use vstd::prelude::*;

use crate::addr::{Address, AddressFamily};
use crate::record::{Record, RecordModel};

verus! {

/// The flags that govern what the engine may do: whether it may create
/// records, whether it may delete them, and whether a family is disabled
/// outright. A disabled family is treated as having no desired address,
/// whatever the resolvers would say.
#[derive(Clone, Copy, Debug, PartialEq, Eq, Structural)]
pub struct Policy {
    pub allow_create: bool,
    pub allow_delete: bool,
    pub ipv4_disabled: bool,
    pub ipv6_disabled: bool,
}

/// The addresses the host currently has, resolved once per cycle and
/// independent per family. `None` means the host has no address of that
/// family (for instance no IPv6 uplink), which is distinct from a resolver
/// failure: a failure aborts the cycle and never reaches the engine.
#[derive(Clone, Copy, Debug)]
pub struct DesiredState {
    pub ipv4: Option<Address>,
    pub ipv6: Option<Address>,
}

impl DesiredState {
    /// Each desired address belongs to its slot's family.
    pub open spec fn wf(self) -> bool {
        &&& (self.ipv4 matches Some(a) ==> a.spec_family() == AddressFamily::V4)
        &&& (self.ipv6 matches Some(a) ==> a.spec_family() == AddressFamily::V6)
    }
}

/// One step the store must take to converge the published state.
#[derive(Debug, PartialEq)]
pub enum Action {
    /// Publish a new record; its id is empty until the store assigns one.
    Create(Record),
    /// Replace the record's content with the given address.
    Update(Record, Address),
    /// Remove the record.
    Delete(Record),
}

/// The mathematical value of an [`Action`].
pub enum ActionModel {
    Create(RecordModel),
    Update(RecordModel, Address),
    Delete(RecordModel),
}

impl ActionModel {
    /// The family of the record an action concerns.
    pub open spec fn family(self) -> AddressFamily {
        match self {
            ActionModel::Create(r) => r.family,
            ActionModel::Update(r, _) => r.family,
            ActionModel::Delete(r) => r.family,
        }
    }
}

impl View for Action {
    type V = ActionModel;

    open spec fn view(&self) -> ActionModel {
        match self {
            Action::Create(r) => ActionModel::Create(r@),
            Action::Update(r, a) => ActionModel::Update(r@, *a),
            Action::Delete(r) => ActionModel::Delete(r@),
        }
    }
}

impl DeepView for Action {
    type V = ActionModel;

    open spec fn deep_view(&self) -> ActionModel {
        self.view()
    }
}

impl Action {
    /// The family of the record the action concerns.
    pub fn family(&self) -> (f: AddressFamily)
        ensures
            f == self@.family(),
    {
        match self {
            Action::Create(r) => r.family,
            Action::Update(r, _) => r.family,
            Action::Delete(r) => r.family,
        }
    }
}

/// Why a family needed no action. The suppressed kinds deserve an operator's
/// attention; the in-sync kinds are routine.
#[derive(Clone, Copy, Debug, PartialEq, Eq, Structural)]
pub enum NoteKind {
    /// A record exists and already carries the desired address.
    InSync,
    /// No record exists and no address is desired.
    AbsentInSync,
    /// An address is desired but no record exists, and creation is not
    /// allowed.
    CreateSuppressed,
    /// A record exists but no address is desired, and deletion is not
    /// allowed.
    DeleteSuppressed,
}

impl NoteKind {
    /// Whether the note reports a policy suppression rather than a state
    /// that is already converged. Suppressions are the notes worth logging
    /// loudly: the published state still differs from the desired one.
    pub fn is_suppression(&self) -> (r: bool)
        ensures
            r == (*self == NoteKind::CreateSuppressed || *self == NoteKind::DeleteSuppressed),
    {
        match self {
            NoteKind::CreateSuppressed => true,
            NoteKind::DeleteSuppressed => true,
            _ => false,
        }
    }
}

/// A per-family report of why nothing was done.
#[derive(Clone, Copy, Debug, PartialEq, Eq, Structural)]
pub struct Note {
    pub family: AddressFamily,
    pub kind: NoteKind,
}

/// What the engine concluded for one family: an action, or a note saying why
/// none is needed.
#[derive(Debug)]
pub enum FamilyDecision {
    Act(Action),
    Skip(NoteKind),
}

/// The mathematical value of a [`FamilyDecision`].
pub enum FamilyPlan {
    Act(ActionModel),
    Skip(NoteKind),
}

impl View for FamilyDecision {
    type V = FamilyPlan;

    open spec fn view(&self) -> FamilyPlan {
        match self {
            FamilyDecision::Act(a) => FamilyPlan::Act(a@),
            FamilyDecision::Skip(k) => FamilyPlan::Skip(*k),
        }
    }
}

/// Everything one engine run concluded: the actions to take, in order (the
/// A-family action, if any, before the AAAA-family one), and the notes for
/// the families that need none.
#[derive(Debug, PartialEq)]
pub struct DecisionReport {
    pub actions: Vec<Action>,
    pub notes: Vec<Note>,
}

/// The `proxied` flag a freshly created record inherits: the sibling
/// family's flag if that record exists, else `true`.
pub open spec fn spec_default_proxied(sibling: Option<RecordModel>) -> bool {
    match sibling {
        Some(s) => s.proxied,
        None => true,
    }
}

/// The TTL a freshly created record inherits: the sibling family's TTL if
/// that record exists, else `1` ("automatic").
pub open spec fn spec_default_ttl(sibling: Option<RecordModel>) -> u64 {
    match sibling {
        Some(s) => s.ttl,
        None => 1u64,
    }
}

/// The record a `Create` action carries, fully determined by the decision
/// inputs: empty id, the queried name and zone, the desired address, and
/// defaults inherited from the sibling record.
pub open spec fn spec_creation(
    name: Seq<char>,
    family: AddressFamily,
    zone_id: Seq<char>,
    content: Address,
    sibling: Option<RecordModel>,
) -> RecordModel {
    RecordModel {
        id: Seq::<char>::empty(),
        name,
        family,
        zone_id,
        content,
        proxied: spec_default_proxied(sibling),
        ttl: spec_default_ttl(sibling),
    }
}

/// The per-family decision table (see the module documentation).
pub open spec fn spec_decide_family(
    existing: Option<RecordModel>,
    sibling: Option<RecordModel>,
    desired: Option<Address>,
    allow_create: bool,
    allow_delete: bool,
    family: AddressFamily,
    name: Seq<char>,
    zone_id: Seq<char>,
) -> FamilyPlan {
    match existing {
        Some(r) => match desired {
            Some(a) => if r.content == a {
                FamilyPlan::Skip(NoteKind::InSync)
            } else {
                FamilyPlan::Act(ActionModel::Update(r, a))
            },
            None => if allow_delete {
                FamilyPlan::Act(ActionModel::Delete(r))
            } else {
                FamilyPlan::Skip(NoteKind::DeleteSuppressed)
            },
        },
        None => match desired {
            Some(a) => if allow_create {
                FamilyPlan::Act(
                    ActionModel::Create(spec_creation(name, family, zone_id, a, sibling)),
                )
            } else {
                FamilyPlan::Skip(NoteKind::CreateSuppressed)
            },
            None => FamilyPlan::Skip(NoteKind::AbsentInSync),
        },
    }
}

/// The desired address once per-family disabling is applied: a disabled
/// family desires no address, whatever was resolved.
pub open spec fn spec_effective_desired(desired: Option<Address>, disabled: bool) -> Option<
    Address,
> {
    if disabled {
        None
    } else {
        desired
    }
}

/// The actions of a run, in family order.
pub open spec fn spec_plan_actions(p4: FamilyPlan, p6: FamilyPlan) -> Seq<ActionModel> {
    (match p4 {
        FamilyPlan::Act(a) => seq![a],
        FamilyPlan::Skip(_) => Seq::<ActionModel>::empty(),
    }) + (match p6 {
        FamilyPlan::Act(a) => seq![a],
        FamilyPlan::Skip(_) => Seq::<ActionModel>::empty(),
    })
}

/// The notes of a run, in family order.
pub open spec fn spec_plan_notes(p4: FamilyPlan, p6: FamilyPlan) -> Seq<Note> {
    (match p4 {
        FamilyPlan::Skip(k) => seq![Note { family: AddressFamily::V4, kind: k }],
        FamilyPlan::Act(_) => Seq::<Note>::empty(),
    }) + (match p6 {
        FamilyPlan::Skip(k) => seq![Note { family: AddressFamily::V6, kind: k }],
        FamilyPlan::Act(_) => Seq::<Note>::empty(),
    })
}

/// The A-family plan of a whole run.
pub open spec fn spec_plan_v4(
    existing_a: Option<RecordModel>,
    existing_aaaa: Option<RecordModel>,
    desired: DesiredState,
    policy: Policy,
    name: Seq<char>,
    zone_id: Seq<char>,
) -> FamilyPlan {
    spec_decide_family(
        existing_a,
        existing_aaaa,
        spec_effective_desired(desired.ipv4, policy.ipv4_disabled),
        policy.allow_create,
        policy.allow_delete,
        AddressFamily::V4,
        name,
        zone_id,
    )
}

/// The AAAA-family plan of a whole run.
pub open spec fn spec_plan_v6(
    existing_a: Option<RecordModel>,
    existing_aaaa: Option<RecordModel>,
    desired: DesiredState,
    policy: Policy,
    name: Seq<char>,
    zone_id: Seq<char>,
) -> FamilyPlan {
    spec_decide_family(
        existing_aaaa,
        existing_a,
        spec_effective_desired(desired.ipv6, policy.ipv6_disabled),
        policy.allow_create,
        policy.allow_delete,
        AddressFamily::V6,
        name,
        zone_id,
    )
}

/// The actions a whole run decides on, in order.
pub open spec fn spec_decide_actions(
    existing_a: Option<RecordModel>,
    existing_aaaa: Option<RecordModel>,
    desired: DesiredState,
    policy: Policy,
    name: Seq<char>,
    zone_id: Seq<char>,
) -> Seq<ActionModel> {
    spec_plan_actions(
        spec_plan_v4(existing_a, existing_aaaa, desired, policy, name, zone_id),
        spec_plan_v6(existing_a, existing_aaaa, desired, policy, name, zone_id),
    )
}

/// The notes a whole run reports, in order.
pub open spec fn spec_decide_notes(
    existing_a: Option<RecordModel>,
    existing_aaaa: Option<RecordModel>,
    desired: DesiredState,
    policy: Policy,
    name: Seq<char>,
    zone_id: Seq<char>,
) -> Seq<Note> {
    spec_plan_notes(
        spec_plan_v4(existing_a, existing_aaaa, desired, policy, name, zone_id),
        spec_plan_v6(existing_a, existing_aaaa, desired, policy, name, zone_id),
    )
}

/// Decides one family of the table. `desired` must already have disabling
/// applied; `record_name` and `zone_id` are used only when a record has to
/// be created.
pub fn decide_family(
    existing: &Option<Record>,
    sibling: &Option<Record>,
    desired: Option<Address>,
    allow_create: bool,
    allow_delete: bool,
    family: AddressFamily,
    record_name: &String,
    zone_id: &String,
) -> (r: FamilyDecision)
    ensures
        r@ == spec_decide_family(
            existing.deep_view(),
            sibling.deep_view(),
            desired,
            allow_create,
            allow_delete,
            family,
            record_name@,
            zone_id@,
        ),
{
    match existing {
        Some(rec) => match desired {
            Some(a) => {
                if rec.content == a {
                    FamilyDecision::Skip(NoteKind::InSync)
                } else {
                    FamilyDecision::Act(Action::Update(rec.duplicate(), a))
                }
            },
            None => {
                if allow_delete {
                    FamilyDecision::Act(Action::Delete(rec.duplicate()))
                } else {
                    FamilyDecision::Skip(NoteKind::DeleteSuppressed)
                }
            },
        },
        None => match desired {
            Some(a) => {
                if allow_create {
                    let proxied: bool = match sibling {
                        Some(s) => s.proxied,
                        None => true,
                    };
                    let ttl: u64 = match sibling {
                        Some(s) => s.ttl,
                        None => 1u64,
                    };
                    FamilyDecision::Act(
                        Action::Create(Record::fresh(record_name, family, zone_id, a, proxied, ttl)),
                    )
                } else {
                    FamilyDecision::Skip(NoteKind::CreateSuppressed)
                }
            },
            None => FamilyDecision::Skip(NoteKind::AbsentInSync),
        },
    }
}

/// Decides a whole run: the A family first, then the AAAA family, each
/// against the effective desired address of that family. Deterministic and
/// side-effect free; the result is pinned exactly by
/// [`spec_decide_actions`] and [`spec_decide_notes`].
pub fn decide(
    existing_a: &Option<Record>,
    existing_aaaa: &Option<Record>,
    desired: &DesiredState,
    policy: &Policy,
    record_name: &String,
    zone_id: &String,
) -> (r: DecisionReport)
    ensures
        r.actions.deep_view() == spec_decide_actions(
            existing_a.deep_view(),
            existing_aaaa.deep_view(),
            *desired,
            *policy,
            record_name@,
            zone_id@,
        ),
        r.notes@ == spec_decide_notes(
            existing_a.deep_view(),
            existing_aaaa.deep_view(),
            *desired,
            *policy,
            record_name@,
            zone_id@,
        ),
{
    let desired_v4: Option<Address> = if policy.ipv4_disabled {
        None
    } else {
        desired.ipv4
    };
    let desired_v6: Option<Address> = if policy.ipv6_disabled {
        None
    } else {
        desired.ipv6
    };
    let p4 = decide_family(
        existing_a,
        existing_aaaa,
        desired_v4,
        policy.allow_create,
        policy.allow_delete,
        AddressFamily::V4,
        record_name,
        zone_id,
    );
    let p6 = decide_family(
        existing_aaaa,
        existing_a,
        desired_v6,
        policy.allow_create,
        policy.allow_delete,
        AddressFamily::V6,
        record_name,
        zone_id,
    );
    let mut actions: Vec<Action> = Vec::new();
    let mut notes: Vec<Note> = Vec::new();
    match p4 {
        FamilyDecision::Act(a) => actions.push(a),
        FamilyDecision::Skip(k) => notes.push(Note { family: AddressFamily::V4, kind: k }),
    }
    match p6 {
        FamilyDecision::Act(a) => actions.push(a),
        FamilyDecision::Skip(k) => notes.push(Note { family: AddressFamily::V6, kind: k }),
    }
    proof {
        assert(actions.deep_view() =~= spec_plan_actions(
            spec_plan_v4(
                existing_a.deep_view(),
                existing_aaaa.deep_view(),
                *desired,
                *policy,
                record_name@,
                zone_id@,
            ),
            spec_plan_v6(
                existing_a.deep_view(),
                existing_aaaa.deep_view(),
                *desired,
                *policy,
                record_name@,
                zone_id@,
            ),
        ));
        assert(notes@ =~= spec_decide_notes(
            existing_a.deep_view(),
            existing_aaaa.deep_view(),
            *desired,
            *policy,
            record_name@,
            zone_id@,
        ));
    }
    DecisionReport { actions, notes }
}

} // verus!
