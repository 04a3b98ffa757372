//! Error taxonomy of the synchronization core.
//!
//! Every per-record failure is converted into a recorded outcome at the
//! per-record boundary; nothing here aborts a whole batch.

use vstd::prelude::*;

verus! {

/// A record was claimed by a translator but its payload is structurally
/// invalid. Distinct from "unclaimed": an unclaimed record is skipped, a
/// translation error is recorded against the record.
#[derive(Clone, Copy, Debug, PartialEq, Eq, Structural, Hash)]
pub enum TranslationError {
    /// The payload is not a flat object at all.
    NotAnObject,
    /// A required field is absent or carries the wrong kind of value.
    MalformedField,
    /// The legacy line `type` value is not one the schema knows.
    UnknownLineType,
    /// A computed total does not fit the numeric range.
    TotalOutOfRange,
}

/// A failure applying one normalized upsert to the schema.
#[derive(Clone, Copy, Debug, PartialEq, Eq, Structural, Hash)]
pub enum RepositoryError {
    /// A referenced row is absent; expected under out-of-order arrival and
    /// recoverable on a later cycle.
    ForeignKeyViolation,
}

/// A failure translating a change-log entry for push.
#[derive(Clone, Copy, Debug, PartialEq, Eq, Structural, Hash)]
pub enum PushError {
    /// The normalized row the entry points at does not exist.
    RowNotFound,
}

/// The terminal outcome recorded for one buffered record.
#[derive(Clone, Copy, Debug, PartialEq, Eq, Structural, Hash)]
pub enum ProcessingOutcome {
    /// Every upsert of the record's batch was applied.
    Integrated,
    /// No translator claimed the record, or a dependency it needs has not
    /// arrived; skipped without counting as an error.
    Unclaimed,
    /// The record's payload is malformed; recorded, rest of the batch goes
    /// on.
    TranslationError(TranslationError),
    /// Applying the record's upserts failed part-way; recorded, rest of the
    /// batch goes on.
    IntegrationError(RepositoryError),
}

} // verus!
