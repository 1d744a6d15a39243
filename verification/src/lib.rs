//! Decision engine for keeping a DNS zone's address records in step with a
//! host's current public IP addresses.
//!
//! The library is the part of a dynamic-DNS updater that is worth stating
//! precisely: given the currently published A and AAAA records and the
//! addresses the host currently has, it computes the minimal ordered list of
//! create/update/delete actions that converges the published state, honouring
//! policy flags for creation, deletion and per-family disabling. It also
//! models the per-cycle state machine and the per-action outcome reporting.
//! All network transport (the record store's HTTP API, the address resolvers)
//! lives outside the library and hands it plain values.

pub mod addr;
pub mod config;
pub mod cycle;
pub mod execute;
pub mod laws;
pub mod reconcile;
pub mod record;
pub mod store;

pub use addr::{Address, AddressFamily};
pub use config::Config;
pub use reconcile::{Action, DecisionReport, DesiredState, Note, NoteKind, Policy};
pub use record::{Record, RecordModel};
