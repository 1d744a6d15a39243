use ddns::addr::{Address, AddressFamily};
use ddns::record::Record;
use ddns::store::{partition_records, select_zone_id, StartupError};

fn record(id: &str, family: AddressFamily, content: Address) -> Record {
    Record {
        id: id.to_string(),
        name: "host.example.com".to_string(),
        family,
        zone_id: "zone-1".to_string(),
        content,
        proxied: true,
        ttl: 1,
    }
}

#[test]
fn partition_of_nothing_is_empty() {
    let (a, aaaa) = partition_records(&Vec::new());
    assert!(a.is_none());
    assert!(aaaa.is_none());
}

#[test]
fn partition_splits_by_family() {
    let records = vec![
        record("rec-6", AddressFamily::V6, Address::V6(0x7)),
        record("rec-4", AddressFamily::V4, Address::V4(0x01020304)),
    ];
    let (a, aaaa) = partition_records(&records);
    assert_eq!(a, Some(record("rec-4", AddressFamily::V4, Address::V4(0x01020304))));
    assert_eq!(aaaa, Some(record("rec-6", AddressFamily::V6, Address::V6(0x7))));
}

#[test]
fn first_record_of_a_family_is_authoritative() {
    let records = vec![
        record("rec-4a", AddressFamily::V4, Address::V4(0x01020304)),
        record("rec-4b", AddressFamily::V4, Address::V4(0x05060708)),
    ];
    let (a, aaaa) = partition_records(&records);
    assert_eq!(a, Some(record("rec-4a", AddressFamily::V4, Address::V4(0x01020304))));
    assert!(aaaa.is_none());
}

#[test]
fn zone_lookup_takes_the_first_match() {
    let ids = vec!["zone-1".to_string(), "zone-2".to_string()];
    assert_eq!(select_zone_id(&ids), Ok("zone-1".to_string()));
}

#[test]
fn empty_zone_lookup_is_fatal() {
    assert_eq!(select_zone_id(&Vec::new()), Err(StartupError::ZoneNotFound));
}
