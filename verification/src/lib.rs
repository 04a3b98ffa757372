//! Data-synchronization core: translation between a legacy, denormalized wire
//! format and a normalized domain schema, with per-record fault isolation.
//!
//! Inbound ("pull") direction: raw buffered records are dispatched across an
//! ordered registry of per-table translators, converted into normalized
//! upserts, and applied to the normalized store so that one bad record never
//! aborts the rest of a batch. Outbound ("push") direction: change-log entries
//! are converted back into the legacy wire shape. What the two directions
//! guarantee on every input — fault isolation, unclaimed-record skipping,
//! push/pull round tripping and idempotence under retry — is stated and
//! proved in [`laws`].

pub mod buffer;
pub mod date;
pub mod errors;
pub mod filters;
pub mod inbound_shipment_line;
pub mod inbound_shipment_service_line;
pub mod integrate;
pub mod invoice_checks;
pub mod laws;
pub mod legacy;
pub mod name_store_join;
pub mod patient;
pub mod pull;
pub mod push;
pub mod requisition;
pub mod rows;
pub mod store;
pub mod table;
pub mod test_data;
pub mod text;
pub mod trans_line;
pub mod translation_and_integration;
