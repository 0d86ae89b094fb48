use vstd::prelude::*;

verus! {

/// The identity field that failed validation.
#[derive(Clone, Copy, Debug, PartialEq, Eq, Structural)]
pub enum IdField {
    WorkerId,
    DataCenterId,
}

/// Errors reported by construction and by id generation.
#[derive(Clone, Copy, Debug, PartialEq, Eq, Structural)]
pub enum SnowError {
    /// An identity parameter exceeds the largest value its bit field holds.
    InvalidIdentity { field: IdField, value: u128, max: u128 },
    /// The clock reads earlier than the last issued timestamp, by `behind_ms`.
    ClockRegression { behind_ms: u128 },
    /// The clock could not report a time that the id layout can encode.
    ClockReadFailure,
}

} // verus!
