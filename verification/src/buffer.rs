//! Buffered inbound records staged for translation.
//!
//! The surrounding session fetches raw records from the staging table and
//! hands them to the core as plain values; payload bytes that could not even
//! be read as a flat object arrive as [`Payload::Malformed`].

use vstd::prelude::*;

use crate::legacy::LegacyObject;
use crate::legacy::ObjectV;

verus! {

/// The pending action a buffered record carries.
#[derive(Clone, Copy, Debug, PartialEq, Eq, Structural, Hash)]
pub enum SyncAction {
    Update,
    Delete,
}

impl DeepView for SyncAction {
    type V = SyncAction;

    open spec fn deep_view(&self) -> SyncAction {
        *self
    }
}

/// The payload of a buffered record.
#[derive(Clone, Debug, PartialEq)]
pub enum Payload {
    /// The serialized payload could not be read as a flat object.
    Malformed,
    /// The payload as a flat legacy record.
    Object(LegacyObject),
}

/// The value of a [`Payload`].
#[verifier::ext_equal]
pub enum PayloadV {
    Malformed,
    Object(ObjectV),
}

impl DeepView for Payload {
    type V = PayloadV;

    open spec fn deep_view(&self) -> PayloadV {
        match self {
            Payload::Malformed => PayloadV::Malformed,
            Payload::Object(o) => PayloadV::Object(o.deep_view()),
        }
    }
}

/// One raw inbound record staged in the sync buffer.
#[derive(Clone, Debug, PartialEq)]
pub struct SyncBufferRow {
    /// Identity of the buffer entry itself.
    pub id: String,
    /// The legacy table the record belongs to; what dispatch matches on.
    pub table_name: String,
    /// Identity of the record within its legacy table.
    pub record_id: String,
    /// The record's payload.
    pub data: Payload,
    /// The pending action.
    pub action: SyncAction,
}

/// The value of a [`SyncBufferRow`].
#[verifier::ext_equal]
pub struct SyncBufferRowV {
    pub id: Seq<char>,
    pub table_name: Seq<char>,
    pub record_id: Seq<char>,
    pub data: PayloadV,
    pub action: SyncAction,
}

impl DeepView for SyncBufferRow {
    type V = SyncBufferRowV;

    open spec fn deep_view(&self) -> SyncBufferRowV {
        SyncBufferRowV {
            id: self.id@,
            table_name: self.table_name@,
            record_id: self.record_id@,
            data: self.data.deep_view(),
            action: self.action,
        }
    }
}

} // verus!
