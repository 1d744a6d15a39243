//! The DNS records the engine manages: one A and one AAAA record per
//! (zone, name) pair, fetched fresh each cycle and never mutated in place.

use vstd::prelude::*;

use crate::addr::{Address, AddressFamily};

verus! {

/// A single address record as published by the record store.
///
/// `id` is the store's opaque identifier, empty until the record has been
/// created remotely. `ttl` is in seconds, with `1` meaning "automatic".
/// A well-formed record's `content` belongs to its `family`.
#[derive(Debug, PartialEq)]
pub struct Record {
    pub id: String,
    pub name: String,
    pub family: AddressFamily,
    pub zone_id: String,
    pub content: Address,
    pub proxied: bool,
    pub ttl: u64,
}

/// The mathematical value of a [`Record`]: the same fields with the strings
/// abstracted to character sequences.
pub struct RecordModel {
    pub id: Seq<char>,
    pub name: Seq<char>,
    pub family: AddressFamily,
    pub zone_id: Seq<char>,
    pub content: Address,
    pub proxied: bool,
    pub ttl: u64,
}

impl RecordModel {
    /// A record's content must belong to the family the record is filed under.
    pub open spec fn wf(self) -> bool {
        self.content.spec_family() == self.family
    }
}

impl View for Record {
    type V = RecordModel;

    open spec fn view(&self) -> RecordModel {
        RecordModel {
            id: self.id@,
            name: self.name@,
            family: self.family,
            zone_id: self.zone_id@,
            content: self.content,
            proxied: self.proxied,
            ttl: self.ttl,
        }
    }
}

impl DeepView for Record {
    type V = RecordModel;

    open spec fn deep_view(&self) -> RecordModel {
        self.view()
    }
}

impl Record {
    /// Whether the record is well formed: its address matches its family.
    pub fn is_well_formed(&self) -> (r: bool)
        ensures
            r == self@.wf(),
    {
        self.content.family() == self.family
    }

    /// An exact copy; records are never mutated in place, so a decision can
    /// carry a copy of the record it concerns.
    pub fn duplicate(&self) -> (r: Record)
        ensures
            r@ == self@,
    {
        Record {
            id: self.id.clone(),
            name: self.name.clone(),
            family: self.family,
            zone_id: self.zone_id.clone(),
            content: self.content,
            proxied: self.proxied,
            ttl: self.ttl,
        }
    }

    /// The record as it stands after the store accepts a content update.
    pub fn with_content(&self, content: Address) -> (r: Record)
        ensures
            r@ == (RecordModel { content, ..self@ }),
    {
        Record {
            id: self.id.clone(),
            name: self.name.clone(),
            family: self.family,
            zone_id: self.zone_id.clone(),
            content,
            proxied: self.proxied,
            ttl: self.ttl,
        }
    }

    /// The payload for a record that is yet to be created remotely: the id is
    /// empty until the store assigns one.
    pub fn fresh(
        name: &String,
        family: AddressFamily,
        zone_id: &String,
        content: Address,
        proxied: bool,
        ttl: u64,
    ) -> (r: Record)
        ensures
            r@ == (RecordModel {
                id: Seq::<char>::empty(),
                name: name@,
                family,
                zone_id: zone_id@,
                content,
                proxied,
                ttl,
            }),
    {
        Record {
            id: String::new(),
            name: name.clone(),
            family,
            zone_id: zone_id.clone(),
            content,
            proxied,
            ttl,
        }
    }
}

} // verus!
