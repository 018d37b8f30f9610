use vstd::prelude::*;

verus! {

/// Errors that the contract's entry points return.
#[derive(Clone, Copy, Debug, PartialEq, Eq, Structural)]
pub enum VowenaError {
    AlreadyInitialized,
    NotInitialized,
    InvalidAmount,
    InvalidPeriod,
    CeilingBelowAmount,
    PlanNotFound,
    PlanInactive,
    SubNotFound,
    Unauthorized,
    AmountExceedsCeiling,
    MerchantMismatch,
    NoMigrationPending,
    NotPaused,
}

impl VowenaError {
    /// The numeric code under which the host reports this error.
    pub fn code(&self) -> (c: u32)
        ensures
            c == self.spec_code(),
    {
        match self {
            VowenaError::AlreadyInitialized => 1,
            VowenaError::NotInitialized => 2,
            VowenaError::InvalidAmount => 3,
            VowenaError::InvalidPeriod => 4,
            VowenaError::CeilingBelowAmount => 5,
            VowenaError::PlanNotFound => 6,
            VowenaError::PlanInactive => 7,
            VowenaError::SubNotFound => 8,
            VowenaError::Unauthorized => 9,
            VowenaError::AmountExceedsCeiling => 10,
            VowenaError::MerchantMismatch => 11,
            VowenaError::NoMigrationPending => 12,
            VowenaError::NotPaused => 13,
        }
    }

    pub open spec fn spec_code(&self) -> u32 {
        match self {
            VowenaError::AlreadyInitialized => 1,
            VowenaError::NotInitialized => 2,
            VowenaError::InvalidAmount => 3,
            VowenaError::InvalidPeriod => 4,
            VowenaError::CeilingBelowAmount => 5,
            VowenaError::PlanNotFound => 6,
            VowenaError::PlanInactive => 7,
            VowenaError::SubNotFound => 8,
            VowenaError::Unauthorized => 9,
            VowenaError::AmountExceedsCeiling => 10,
            VowenaError::MerchantMismatch => 11,
            VowenaError::NoMigrationPending => 12,
            VowenaError::NotPaused => 13,
        }
    }
}

} // verus!
