use ddns::addr::{Address, AddressFamily};
use ddns::execute::{ActionKind, Execution, Outcome, StoreResponse};
use ddns::reconcile::Action;
use ddns::record::Record;

fn a_record(content: Address) -> Record {
    Record {
        id: "rec-4".to_string(),
        name: "host.example.com".to_string(),
        family: AddressFamily::V4,
        zone_id: "zone-1".to_string(),
        content,
        proxied: true,
        ttl: 1,
    }
}

fn aaaa_record(content: Address) -> Record {
    Record {
        id: "rec-6".to_string(),
        name: "host.example.com".to_string(),
        family: AddressFamily::V6,
        zone_id: "zone-1".to_string(),
        content,
        proxied: false,
        ttl: 300,
    }
}

#[test]
fn a_failure_does_not_block_later_actions() {
    // The A-family update fails at the store; the AAAA-family delete decided
    // in the same cycle must still be attempted and succeed.
    let actions = vec![
        Action::Update(a_record(Address::V4(0x01020304)), Address::V4(0x05060708)),
        Action::Delete(aaaa_record(Address::V6(0x7))),
    ];
    let mut run = Execution::begin(actions);

    let first = run.next_action().expect("two actions were decided");
    assert_eq!(first.family(), AddressFamily::V4);
    run.record_response(StoreResponse::Failed("internal error".to_string()));

    let second = run.next_action().expect("the failure must not end the run");
    assert_eq!(second.family(), AddressFamily::V6);
    run.record_response(StoreResponse::Succeeded(None));

    assert!(run.is_finished());
    let outcomes = run.into_outcomes();
    assert_eq!(
        outcomes,
        vec![
            Outcome::Failed {
                kind: ActionKind::Update,
                family: AddressFamily::V4,
                cause: "internal error".to_string(),
            },
            Outcome::Deleted { family: AddressFamily::V6 },
        ]
    );
}

#[test]
fn success_reports_the_record_the_store_returned() {
    // A successful create is logged with the resulting record's fields as
    // the store returned them, not with the submitted payload's.
    let submitted = Record {
        id: String::new(),
        name: "host.example.com".to_string(),
        family: AddressFamily::V4,
        zone_id: "zone-1".to_string(),
        content: Address::V4(0x09090909),
        proxied: true,
        ttl: 1,
    };
    let returned = Record {
        id: "rec-9".to_string(),
        name: "host.example.com".to_string(),
        family: AddressFamily::V4,
        zone_id: "zone-1".to_string(),
        content: Address::V4(0x09090909),
        proxied: true,
        ttl: 60,
    };
    let mut run = Execution::begin(vec![Action::Create(submitted)]);
    run.next_action().expect("one action was decided");
    run.record_response(StoreResponse::Succeeded(Some(returned)));
    let outcomes = run.into_outcomes();
    assert_eq!(
        outcomes,
        vec![Outcome::Applied {
            kind: ActionKind::Create,
            family: AddressFamily::V4,
            content: Address::V4(0x09090909),
            ttl: 60,
            proxied: true,
        }]
    );
}

#[test]
fn update_success_reports_the_new_content() {
    let existing = a_record(Address::V4(0x01020304));
    let updated = a_record(Address::V4(0x05060708));
    let mut run = Execution::begin(vec![Action::Update(existing, Address::V4(0x05060708))]);
    run.next_action().expect("one action was decided");
    run.record_response(StoreResponse::Succeeded(Some(updated)));
    let outcomes = run.into_outcomes();
    assert_eq!(
        outcomes,
        vec![Outcome::Applied {
            kind: ActionKind::Update,
            family: AddressFamily::V4,
            content: Address::V4(0x05060708),
            ttl: 1,
            proxied: true,
        }]
    );
}

#[test]
fn empty_run_is_finished_at_once() {
    let run = Execution::begin(Vec::new());
    assert!(run.next_action().is_none());
    assert!(run.is_finished());
    assert!(run.into_outcomes().is_empty());
}
