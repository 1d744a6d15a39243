//! The engine's view of the record store's answers: picking the zone from a
//! lookup, and partitioning a fetched record list into the one A and one
//! AAAA record that are authoritative for a cycle.

use vstd::prelude::*;

use crate::addr::AddressFamily;
use crate::record::{Record, RecordModel};

verus! {

/// A failure of the one-time startup validation; nothing can run after it.
#[derive(Clone, Copy, Debug, PartialEq, Eq, Structural)]
pub enum StartupError {
    /// The zone lookup returned no zone of the configured name.
    ZoneNotFound,
}

/// The first record of the given family in the list, if any. When the store
/// returns more than one record of a family, only the first is considered
/// authoritative for the cycle.
pub open spec fn spec_first_of_family(
    records: Seq<RecordModel>,
    family: AddressFamily,
) -> Option<RecordModel>
    decreases records.len(),
{
    if records.len() == 0 {
        None
    } else if records[0].family == family {
        Some(records[0])
    } else {
        spec_first_of_family(records.drop_first(), family)
    }
}

proof fn lemma_first_of_family_push(s: Seq<RecordModel>, x: RecordModel, family: AddressFamily)
    ensures
        spec_first_of_family(s.push(x), family) == (match spec_first_of_family(s, family) {
            Some(r) => Some(r),
            None => if x.family == family {
                Some(x)
            } else {
                None::<RecordModel>
            },
        }),
    decreases s.len(),
{
    if s.len() == 0 {
        assert(s.push(x)[0] == x);
        assert(s.push(x).len() == 1);
    } else {
        assert(s.push(x)[0] == s[0]);
        assert(s.push(x).drop_first() =~= s.drop_first().push(x));
        lemma_first_of_family_push(s.drop_first(), x, family);
    }
}

/// Splits a fetched record list into the authoritative A record and the
/// authoritative AAAA record: the first of each family, in store order.
pub fn partition_records(records: &Vec<Record>) -> (r: (Option<Record>, Option<Record>))
    ensures
        r.0.deep_view() == spec_first_of_family(records.deep_view(), AddressFamily::V4),
        r.1.deep_view() == spec_first_of_family(records.deep_view(), AddressFamily::V6),
{
    let mut a_record: Option<Record> = None;
    let mut aaaa_record: Option<Record> = None;
    let mut i: usize = 0;
    while i < records.len()
        invariant
            i <= records.len(),
            a_record.deep_view() == spec_first_of_family(
                records.deep_view().take(i as int),
                AddressFamily::V4,
            ),
            aaaa_record.deep_view() == spec_first_of_family(
                records.deep_view().take(i as int),
                AddressFamily::V6,
            ),
        decreases records.len() - i,
    {
        let rec = &records[i];
        proof {
            assert(records.deep_view().take(i + 1) =~= records.deep_view().take(i as int).push(
                rec.deep_view(),
            ));
            lemma_first_of_family_push(
                records.deep_view().take(i as int),
                rec.deep_view(),
                AddressFamily::V4,
            );
            lemma_first_of_family_push(
                records.deep_view().take(i as int),
                rec.deep_view(),
                AddressFamily::V6,
            );
        }
        match rec.family {
            AddressFamily::V4 => {
                if a_record.is_none() {
                    a_record = Some(rec.duplicate());
                }
            },
            AddressFamily::V6 => {
                if aaaa_record.is_none() {
                    aaaa_record = Some(rec.duplicate());
                }
            },
        }
        i = i + 1;
    }
    proof {
        assert(records.deep_view().take(records.len() as int) =~= records.deep_view());
    }
    (a_record, aaaa_record)
}

/// Picks the zone identifier from a zone lookup's results: the first match
/// is the zone; no match at all is the fatal [`StartupError::ZoneNotFound`].
pub fn select_zone_id(zone_ids: &Vec<String>) -> (r: Result<String, StartupError>)
    ensures
        zone_ids@.len() == 0 <==> r is Err,
        r matches Ok(id) ==> zone_ids@.len() > 0 && id@ == zone_ids@[0]@,
        r matches Err(e) ==> e == StartupError::ZoneNotFound,
{
    if zone_ids.len() == 0 {
        Err(StartupError::ZoneNotFound)
    } else {
        Ok(zone_ids[0].clone())
    }
}

} // verus!
