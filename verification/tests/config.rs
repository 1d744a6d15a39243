use ddns::addr::{ipv4_from_octets, ipv6_from_segments, Address, AddressFamily};
use ddns::config::{qualified_record_name, Config};
use ddns::reconcile::Policy;

fn config(record_name: &str, manage_records: bool, interval: u64) -> Config {
    Config {
        zone_name: "example.com".to_string(),
        api_token: "token".to_string(),
        record_name: record_name.to_string(),
        interval,
        manage_records,
    }
}

#[test]
fn apex_marker_queries_the_zone_itself() {
    assert_eq!(
        qualified_record_name(&"@".to_string(), &"example.com".to_string()),
        "example.com"
    );
    assert_eq!(config("@", true, 0).query_name(), "example.com");
}

#[test]
fn other_names_are_qualified_with_the_zone() {
    assert_eq!(
        qualified_record_name(&"www".to_string(), &"example.com".to_string()),
        "www.example.com"
    );
    assert_eq!(config("www", true, 0).query_name(), "www.example.com");
}

#[test]
fn management_flag_toggles_create_and_delete_together() {
    assert_eq!(
        config("www", true, 0).policy(),
        Policy { allow_create: true, allow_delete: true, ipv4_disabled: false, ipv6_disabled: false }
    );
    assert_eq!(
        config("www", false, 0).policy(),
        Policy {
            allow_create: false,
            allow_delete: false,
            ipv4_disabled: false,
            ipv6_disabled: false,
        }
    );
}

#[test]
fn zero_interval_means_one_shot() {
    assert!(config("www", true, 0).run_once());
    assert!(!config("www", true, 300).run_once());
}

#[test]
fn ipv4_octets_make_the_numeric_value() {
    assert_eq!(ipv4_from_octets(1, 2, 3, 4), Address::V4(0x01020304));
    assert_eq!(ipv4_from_octets(255, 255, 255, 255), Address::V4(0xFFFFFFFF));
    assert_eq!(ipv4_from_octets(0, 0, 0, 0), Address::V4(0));
    assert_eq!(ipv4_from_octets(1, 2, 3, 4).family(), AddressFamily::V4);
}

#[test]
fn ipv6_segments_make_the_numeric_value() {
    assert_eq!(
        ipv6_from_segments(0x2001, 0x0db8, 0, 0, 0, 0, 0, 1),
        Address::V6(0x2001_0db8_0000_0000_0000_0000_0000_0001)
    );
    assert_eq!(ipv6_from_segments(0, 0, 0, 0, 0, 0, 0, 0), Address::V6(0));
    assert_eq!(ipv6_from_segments(0, 0, 0, 0, 0, 0, 0, 1).family(), AddressFamily::V6);
}
