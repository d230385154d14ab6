use vstd::prelude::*;

verus! {

/// Why an operation was rejected. Every failure is detected before any
/// field of a record changes, so a rejected operation is a true no-op.
#[derive(Clone, Copy, PartialEq, Eq, Structural, Debug)]
pub enum StableGuardError {
    /// A record for this authority already occupies its slot.
    AlreadyExists,
    /// No record exists for the addressed authority.
    NotFound,
    /// The caller is not the record's stored authority.
    Unauthorized,
    /// The free-text note of an audit entry exceeds the maximum length.
    DetailsTooLong,
}

} // verus!
