//! The configuration the engine consumes: zone name, record name, poll
//! interval and the record-management flag. The record name `@` denotes the
//! zone apex; any other name is qualified with the zone name.

use vstd::prelude::*;
use vstd::string::StringExecFns;

use crate::reconcile::Policy;

verus! {

/// The record name that denotes the zone apex.
pub open spec fn spec_apex_marker() -> Seq<char> {
    seq!['@']
}

/// The fully qualified name the store is queried for: the zone name itself
/// when the record name is the apex marker `@`, else `<record>.<zone>`.
pub open spec fn spec_qualified_name(record_name: Seq<char>, zone_name: Seq<char>) -> Seq<char> {
    if record_name == spec_apex_marker() {
        zone_name
    } else {
        record_name + seq!['.'] + zone_name
    }
}

/// The operator's configuration. `interval` is the polling period in
/// seconds, with `0` meaning run exactly once; `manage_records` governs
/// whether records may be created and deleted (updating an existing record
/// is always permitted).
#[derive(Debug)]
pub struct Config {
    pub zone_name: String,
    pub api_token: String,
    pub record_name: String,
    pub interval: u64,
    pub manage_records: bool,
}

/// Qualifies a record name against its zone: `@` denotes the zone apex and
/// yields the zone name itself; any other name is joined to the zone with a
/// dot.
pub fn qualified_record_name(record_name: &String, zone_name: &String) -> (r: String)
    ensures
        r@ == spec_qualified_name(record_name@, zone_name@),
{
    let apex = String::from_str("@");
    proof {
        reveal_strlit("@");
        assert(apex@ =~= spec_apex_marker());
    }
    if record_name.eq(&apex) {
        zone_name.clone()
    } else {
        let joined = record_name.clone().concat(".").concat(zone_name.as_str());
        proof {
            reveal_strlit(".");
            assert(joined@ =~= record_name@ + seq!['.'] + zone_name@);
        }
        joined
    }
}

impl Config {
    /// The name the record store is queried for (see
    /// [`qualified_record_name`]).
    pub fn query_name(&self) -> (r: String)
        ensures
            r@ == spec_qualified_name(self.record_name@, self.zone_name@),
    {
        qualified_record_name(&self.record_name, &self.zone_name)
    }

    /// The policy this configuration encodes: the management flag toggles
    /// creation and deletion together, and neither family is disabled.
    pub fn policy(&self) -> (p: Policy)
        ensures
            p == (Policy {
                allow_create: self.manage_records,
                allow_delete: self.manage_records,
                ipv4_disabled: false,
                ipv6_disabled: false,
            }),
    {
        Policy {
            allow_create: self.manage_records,
            allow_delete: self.manage_records,
            ipv4_disabled: false,
            ipv6_disabled: false,
        }
    }

    /// Whether the engine should run once and exit rather than poll.
    pub fn run_once(&self) -> (r: bool)
        ensures
            r == (self.interval == 0),
    {
        self.interval == 0
    }
}

} // verus!
