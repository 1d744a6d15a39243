use ddns::addr::{Address, AddressFamily};
use ddns::cycle::{plan_cycle, step, CycleAbort, CycleEvent, CycleState, ResolveOutcome};
use ddns::reconcile::{Action, Policy};
use ddns::record::Record;

fn aaaa_record() -> Record {
    Record {
        id: "rec-6".to_string(),
        name: "host.example.com".to_string(),
        family: AddressFamily::V6,
        zone_id: "zone-1".to_string(),
        content: Address::V6(0x7),
        proxied: true,
        ttl: 1,
    }
}

fn open_policy() -> Policy {
    Policy { allow_create: true, allow_delete: true, ipv4_disabled: false, ipv6_disabled: false }
}

#[test]
fn resolver_failure_aborts_the_cycle() {
    // A transient IPv6 resolver failure must not be mistaken for absence:
    // the cycle aborts with zero actions, and in particular no delete of the
    // existing AAAA record is issued.
    let records = vec![aaaa_record()];
    let result = plan_cycle(
        &records,
        ResolveOutcome::Unavailable,
        ResolveOutcome::Failed("request timed out".to_string()),
        &open_policy(),
        &"host.example.com".to_string(),
        &"zone-1".to_string(),
    );
    assert_eq!(
        result,
        Err(CycleAbort::ResolveFailed(AddressFamily::V6, "request timed out".to_string()))
    );
}

#[test]
fn resolver_failure_discards_the_other_family_too() {
    // The A family resolved fine and would call for a create, but the AAAA
    // failure aborts the whole cycle: both families' actions are skipped.
    let records = vec![aaaa_record()];
    let result = plan_cycle(
        &records,
        ResolveOutcome::Resolved(Address::V4(0x01020304)),
        ResolveOutcome::Failed("malformed response".to_string()),
        &open_policy(),
        &"host.example.com".to_string(),
        &"zone-1".to_string(),
    );
    assert!(result.is_err());
}

#[test]
fn no_route_is_absence_not_failure() {
    // "No route" for IPv6 reaches the engine as absence, and with deletion
    // allowed the stale AAAA record is removed.
    let records = vec![aaaa_record()];
    let result = plan_cycle(
        &records,
        ResolveOutcome::Unavailable,
        ResolveOutcome::Unavailable,
        &open_policy(),
        &"host.example.com".to_string(),
        &"zone-1".to_string(),
    );
    let report = result.expect("the cycle must not abort");
    assert_eq!(report.actions.len(), 1);
    assert_eq!(report.actions[0], Action::Delete(aaaa_record()));
}

#[test]
fn disabled_family_failure_is_ignored() {
    // A disabled family is never consulted, so its resolver's failure
    // cannot abort the cycle; its record is deleted as "desired absent".
    let records = vec![aaaa_record()];
    let policy =
        Policy { allow_create: true, allow_delete: true, ipv4_disabled: false, ipv6_disabled: true };
    let result = plan_cycle(
        &records,
        ResolveOutcome::Unavailable,
        ResolveOutcome::Failed("request timed out".to_string()),
        &policy,
        &"host.example.com".to_string(),
        &"zone-1".to_string(),
    );
    let report = result.expect("a disabled family's failure must not abort");
    assert_eq!(report.actions.len(), 1);
    assert_eq!(report.actions[0], Action::Delete(aaaa_record()));
}

#[test]
fn planned_update_comes_out_of_a_full_cycle() {
    let a = Record {
        id: "rec-4".to_string(),
        name: "host.example.com".to_string(),
        family: AddressFamily::V4,
        zone_id: "zone-1".to_string(),
        content: Address::V4(0x01020304),
        proxied: true,
        ttl: 1,
    };
    let expected = a.duplicate();
    let records = vec![a];
    let result = plan_cycle(
        &records,
        ResolveOutcome::Resolved(Address::V4(0x05060708)),
        ResolveOutcome::Unavailable,
        &open_policy(),
        &"host.example.com".to_string(),
        &"zone-1".to_string(),
    );
    let report = result.expect("the cycle must not abort");
    assert_eq!(report.actions.len(), 1);
    assert_eq!(report.actions[0], Action::Update(expected, Address::V4(0x05060708)));
}

#[test]
fn cycle_walks_to_done() {
    let mut state = CycleState::FetchRecords;
    state = step(state, CycleEvent::FetchSucceeded);
    assert_eq!(state, CycleState::ResolveIps);
    state = step(state, CycleEvent::ResolveSucceeded);
    assert_eq!(state, CycleState::Decide);
    state = step(state, CycleEvent::ActionsDecided);
    assert_eq!(state, CycleState::Execute);
    state = step(state, CycleEvent::ActionsExecuted);
    assert_eq!(state, CycleState::Done);
}

#[test]
fn fetch_failure_aborts_immediately() {
    assert_eq!(step(CycleState::FetchRecords, CycleEvent::FetchFailed), CycleState::Aborted);
}

#[test]
fn resolve_failure_aborts_before_deciding() {
    let state = step(CycleState::FetchRecords, CycleEvent::FetchSucceeded);
    assert_eq!(step(state, CycleEvent::ResolveFailed), CycleState::Aborted);
}
