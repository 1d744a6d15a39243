//! The engine's governing properties, stated and proved over the decision
//! specs: a family already in sync is left untouched; the engine is
//! deterministic; and one converging run is enough — applying the decided
//! actions and deciding again yields nothing further to do.

use vstd::prelude::*;

use crate::addr::AddressFamily;
use crate::reconcile::{
    spec_decide_actions, spec_decide_notes, spec_plan_v4, spec_plan_v6,
    ActionModel, DecisionReport, DesiredState, FamilyPlan, Policy,
};
use crate::record::RecordModel;

verus! {

/// A family's slot in the published state: absent, or a well-formed record
/// filed under that family.
pub open spec fn spec_slot_wf(r: Option<RecordModel>, family: AddressFamily) -> bool {
    r matches Some(m) ==> m.wf() && m.family == family
}

/// The published pair after the store accepts one action: a create or
/// update fills the action's family slot with the resulting record, a
/// delete empties it; the other family's slot is untouched.
pub open spec fn spec_apply_action(
    existing_a: Option<RecordModel>,
    existing_aaaa: Option<RecordModel>,
    action: ActionModel,
) -> (Option<RecordModel>, Option<RecordModel>) {
    let slot = match action {
        ActionModel::Create(r) => Some(r),
        ActionModel::Update(r, a) => Some(RecordModel { content: a, ..r }),
        ActionModel::Delete(_) => None,
    };
    if action.family() == AddressFamily::V4 {
        (slot, existing_aaaa)
    } else {
        (existing_a, slot)
    }
}

/// The published pair after a list of actions is applied in order.
pub open spec fn spec_apply_actions(
    existing_a: Option<RecordModel>,
    existing_aaaa: Option<RecordModel>,
    actions: Seq<ActionModel>,
) -> (Option<RecordModel>, Option<RecordModel>)
    decreases actions.len(),
{
    if actions.len() == 0 {
        (existing_a, existing_aaaa)
    } else {
        let next = spec_apply_action(existing_a, existing_aaaa, actions[0]);
        spec_apply_actions(next.0, next.1, actions.drop_first())
    }
}

/// Every action the A-family plan emits concerns the A family, and likewise
/// for AAAA: an engine run never reaches across families.
pub proof fn lemma_plan_families(
    existing_a: Option<RecordModel>,
    existing_aaaa: Option<RecordModel>,
    desired: DesiredState,
    policy: Policy,
    name: Seq<char>,
    zone_id: Seq<char>,
)
    requires
        spec_slot_wf(existing_a, AddressFamily::V4),
        spec_slot_wf(existing_aaaa, AddressFamily::V6),
    ensures
        spec_plan_v4(existing_a, existing_aaaa, desired, policy, name, zone_id) matches
            FamilyPlan::Act(a) ==> a.family() == AddressFamily::V4,
        spec_plan_v6(existing_a, existing_aaaa, desired, policy, name, zone_id) matches
            FamilyPlan::Act(a) ==> a.family() == AddressFamily::V6,
{
}

/// A family whose record already carries the resolved desired address gets
/// no action: the engine only ever touches what differs. (A disabled family
/// is out of scope here: disabling forces its desired address to absent,
/// which can call for a delete however the record reads.)
pub proof fn lemma_synced_family_untouched(
    existing_a: Option<RecordModel>,
    existing_aaaa: Option<RecordModel>,
    desired: DesiredState,
    policy: Policy,
    name: Seq<char>,
    zone_id: Seq<char>,
    family: AddressFamily,
)
    requires
        spec_slot_wf(existing_a, AddressFamily::V4),
        spec_slot_wf(existing_aaaa, AddressFamily::V6),
        family == AddressFamily::V4 ==> !policy.ipv4_disabled && (existing_a matches Some(r)
            && desired.ipv4 == Some(r.content)),
        family == AddressFamily::V6 ==> !policy.ipv6_disabled && (existing_aaaa matches Some(r)
            && desired.ipv6 == Some(r.content)),
    ensures
        forall|i: int|
            0 <= i < spec_decide_actions(
                existing_a,
                existing_aaaa,
                desired,
                policy,
                name,
                zone_id,
            ).len() ==> #[trigger] spec_decide_actions(
                existing_a,
                existing_aaaa,
                desired,
                policy,
                name,
                zone_id,
            )[i].family() != family,
{
    lemma_plan_families(existing_a, existing_aaaa, desired, policy, name, zone_id);
}

/// An engine run emits at most one action per family, and in family order:
/// when there are two, the A-family action comes first and the AAAA-family
/// action second.
pub proof fn lemma_actions_ordered(
    existing_a: Option<RecordModel>,
    existing_aaaa: Option<RecordModel>,
    desired: DesiredState,
    policy: Policy,
    name: Seq<char>,
    zone_id: Seq<char>,
)
    requires
        spec_slot_wf(existing_a, AddressFamily::V4),
        spec_slot_wf(existing_aaaa, AddressFamily::V6),
    ensures
        spec_decide_actions(existing_a, existing_aaaa, desired, policy, name, zone_id).len() <= 2,
        ({
            let acts = spec_decide_actions(existing_a, existing_aaaa, desired, policy, name, zone_id);
            acts.len() == 2 ==> acts[0].family() == AddressFamily::V4 && acts[1].family()
                == AddressFamily::V6
        }),
{
    lemma_plan_families(existing_a, existing_aaaa, desired, policy, name, zone_id);
}

/// The engine is deterministic: two runs that both satisfy the engine's
/// contract on the same inputs report the same action list and the same
/// notes. The contract pins the result to a function of the inputs alone.
pub proof fn lemma_decide_deterministic(
    first: DecisionReport,
    second: DecisionReport,
    existing_a: Option<RecordModel>,
    existing_aaaa: Option<RecordModel>,
    desired: DesiredState,
    policy: Policy,
    name: Seq<char>,
    zone_id: Seq<char>,
)
    requires
        first.actions.deep_view() == spec_decide_actions(
            existing_a,
            existing_aaaa,
            desired,
            policy,
            name,
            zone_id,
        ),
        first.notes@ == spec_decide_notes(existing_a, existing_aaaa, desired, policy, name, zone_id),
        second.actions.deep_view() == spec_decide_actions(
            existing_a,
            existing_aaaa,
            desired,
            policy,
            name,
            zone_id,
        ),
        second.notes@ == spec_decide_notes(
            existing_a,
            existing_aaaa,
            desired,
            policy,
            name,
            zone_id,
        ),
    ensures
        first.actions.deep_view() == second.actions.deep_view(),
        first.notes@ == second.notes@,
{
}

proof fn lemma_apply_one(
    existing_a: Option<RecordModel>,
    existing_aaaa: Option<RecordModel>,
    x: ActionModel,
)
    ensures
        spec_apply_actions(existing_a, existing_aaaa, seq![x]) == spec_apply_action(
            existing_a,
            existing_aaaa,
            x,
        ),
{
    assert(seq![x].drop_first() =~= Seq::<ActionModel>::empty());
    let next = spec_apply_action(existing_a, existing_aaaa, x);
    assert(spec_apply_actions(next.0, next.1, seq![x].drop_first()) == next);
}

proof fn lemma_apply_two(
    existing_a: Option<RecordModel>,
    existing_aaaa: Option<RecordModel>,
    x: ActionModel,
    y: ActionModel,
)
    ensures
        spec_apply_actions(existing_a, existing_aaaa, seq![x, y]) == ({
            let next = spec_apply_action(existing_a, existing_aaaa, x);
            spec_apply_action(next.0, next.1, y)
        }),
{
    assert(seq![x, y][0] == x);
    assert(seq![x, y].drop_first() =~= seq![y]);
    let next = spec_apply_action(existing_a, existing_aaaa, x);
    lemma_apply_one(next.0, next.1, y);
}

/// One converging run is enough: apply the actions the engine decided on,
/// decide again against the resulting published state with the same desired
/// addresses and policy, and the engine finds nothing further to do.
/// Suppressed families stay suppressed — their state is unchanged — and
/// every acted-on family lands exactly where the engine aimed.
pub proof fn lemma_reconverged_after_apply(
    existing_a: Option<RecordModel>,
    existing_aaaa: Option<RecordModel>,
    desired: DesiredState,
    policy: Policy,
    name: Seq<char>,
    zone_id: Seq<char>,
)
    requires
        spec_slot_wf(existing_a, AddressFamily::V4),
        spec_slot_wf(existing_aaaa, AddressFamily::V6),
    ensures
        ({
            let acts = spec_decide_actions(existing_a, existing_aaaa, desired, policy, name, zone_id);
            let post = spec_apply_actions(existing_a, existing_aaaa, acts);
            spec_decide_actions(post.0, post.1, desired, policy, name, zone_id).len() == 0
        }),
{
    let p4 = spec_plan_v4(existing_a, existing_aaaa, desired, policy, name, zone_id);
    let p6 = spec_plan_v6(existing_a, existing_aaaa, desired, policy, name, zone_id);
    let acts = spec_decide_actions(existing_a, existing_aaaa, desired, policy, name, zone_id);
    lemma_plan_families(existing_a, existing_aaaa, desired, policy, name, zone_id);
    match (p4, p6) {
        (FamilyPlan::Act(a4), FamilyPlan::Act(a6)) => {
            assert(acts =~= seq![a4, a6]);
            lemma_apply_two(existing_a, existing_aaaa, a4, a6);
        },
        (FamilyPlan::Act(a4), FamilyPlan::Skip(_)) => {
            assert(acts =~= seq![a4]);
            lemma_apply_one(existing_a, existing_aaaa, a4);
        },
        (FamilyPlan::Skip(_), FamilyPlan::Act(a6)) => {
            assert(acts =~= seq![a6]);
            lemma_apply_one(existing_a, existing_aaaa, a6);
        },
        (FamilyPlan::Skip(_), FamilyPlan::Skip(_)) => {
            assert(acts =~= Seq::<ActionModel>::empty());
        },
    }
}

} // verus!
