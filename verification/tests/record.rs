use ddns::addr::{Address, AddressFamily};
use ddns::record::Record;

fn a_record() -> Record {
    Record {
        id: "rec-4".to_string(),
        name: "host.example.com".to_string(),
        family: AddressFamily::V4,
        zone_id: "zone-1".to_string(),
        content: Address::V4(0x01020304),
        proxied: true,
        ttl: 120,
    }
}

#[test]
fn well_formedness_ties_content_to_family() {
    assert!(a_record().is_well_formed());
    let crossed = Record { content: Address::V6(0x7), ..a_record() };
    assert!(!crossed.is_well_formed());
}

#[test]
fn duplicate_is_an_exact_copy() {
    let record = a_record();
    assert_eq!(record.duplicate(), record);
}

#[test]
fn with_content_changes_the_address_alone() {
    let updated = a_record().with_content(Address::V4(0x05060708));
    assert_eq!(updated.content, Address::V4(0x05060708));
    assert_eq!(
        updated,
        Record { content: Address::V4(0x05060708), ..a_record() }
    );
}

#[test]
fn fresh_records_have_no_id_yet() {
    let fresh = Record::fresh(
        &"host.example.com".to_string(),
        AddressFamily::V4,
        &"zone-1".to_string(),
        Address::V4(0x09090909),
        false,
        300,
    );
    assert_eq!(fresh.id, "");
    assert_eq!(fresh.name, "host.example.com");
    assert_eq!(fresh.family, AddressFamily::V4);
    assert_eq!(fresh.zone_id, "zone-1");
    assert_eq!(fresh.content, Address::V4(0x09090909));
    assert!(!fresh.proxied);
    assert_eq!(fresh.ttl, 300);
    assert!(fresh.is_well_formed());
}
