use vstd::prelude::*;

verus! {

/// Everything a database operation can fail with.
///
/// The validation errors (`InvalidFieldType`, `TableNotFound`,
/// `InvalidColumn`) are returned before any statement reaches the engine,
/// so a call that fails with one of them has changed nothing.
/// `EngineExecutionFailure` carries the engine's own message;
/// `MaterializationFailure` means a result row could not be rebuilt
/// against the table's schema.
#[derive(Debug, PartialEq, Eq)]
pub enum DbError {
    /// A declared field used a type outside the legal set; carries the
    /// field's name and the offending type name.
    InvalidFieldType(String, String),
    /// The named table was never registered.
    TableNotFound(String),
    /// The named column is not part of the target table's schema.
    InvalidColumn(String),
    /// The engine rejected or failed a statement.
    EngineExecutionFailure(String),
    /// The engine's flat result could not be split into whole rows.
    MaterializationFailure,
}

} // verus!
