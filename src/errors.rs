//! The classes of failure that every handler reports, and the errors of the
//! shared services.

use vstd::prelude::*;

verus! {

/// The four classes of failure; each error of the library falls in one.
#[derive(Clone, Copy, Debug, PartialEq, Eq, Structural)]
pub enum ErrorClass {
    /// A length or shape violation, found before any storage is touched.
    Validation,
    /// The caller does not hold the required capability.
    Authorization,
    /// A counter or a balance would overflow or underflow.
    Arithmetic,
    /// A slot is occupied, absent, or in a state that forbids the call.
    State,
}

/// The caller is not the identity that the record names.
#[derive(Clone, Copy, Debug, PartialEq, Eq, Structural)]
pub enum AuthzError {
    Unauthorized,
}

/// Why a value move between two holders was refused.
#[derive(Clone, Copy, Debug, PartialEq, Eq, Structural)]
pub enum TransferError {
    /// The source holds less than the amount.
    InsufficientBalance,
    /// The destination would exceed the largest representable balance.
    Overflow,
}

/// Why a slot could not be created or closed.
#[derive(Clone, Copy, Debug, PartialEq, Eq, Structural)]
pub enum StorageError {
    /// The slot already holds a record.
    AccountInUse,
    /// The slot holds no record.
    NotInitialized,
    /// The payer cannot fund the storage deposit.
    InsufficientFunds,
    /// A balance would exceed the largest representable value.
    Overflow,
}

impl TransferError {
    pub open spec fn spec_class(self) -> ErrorClass {
        match self {
            TransferError::InsufficientBalance => ErrorClass::State,
            TransferError::Overflow => ErrorClass::Arithmetic,
        }
    }

    /// The class of this error.
    pub fn class(&self) -> (r: ErrorClass)
        ensures
            r == self.spec_class(),
    {
        match self {
            TransferError::InsufficientBalance => ErrorClass::State,
            TransferError::Overflow => ErrorClass::Arithmetic,
        }
    }
}

impl StorageError {
    pub open spec fn spec_class(self) -> ErrorClass {
        match self {
            StorageError::Overflow => ErrorClass::Arithmetic,
            _ => ErrorClass::State,
        }
    }

    /// The class of this error.
    pub fn class(&self) -> (r: ErrorClass)
        ensures
            r == self.spec_class(),
    {
        match self {
            StorageError::Overflow => ErrorClass::Arithmetic,
            _ => ErrorClass::State,
        }
    }
}

} // verus!
