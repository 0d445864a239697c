//! Storage slots: a record at a derived address, with the deposit that pays
//! for its storage. A slot is created once and may be closed with a refund.

use vstd::prelude::*;

use crate::address::Address;
use crate::errors::StorageError;

verus! {

/// Bytes of the record header that precedes the declared fields.
pub const HEADER_SPACE: usize = 8;

/// Largest record that a slot may hold, in bytes.
pub const MAX_ACCOUNT_SPACE: usize = 10485760;

/// Lamports of deposit for a record of `space` bytes: the storage overhead of
/// 128 bytes plus the record, at 3480 lamports per byte-year, for two years.
pub open spec fn rent_for(space: nat) -> nat {
    (128 + space) * 6960
}

/// Relies on `Rent::minimum_balance` of the default rent: the product of the
/// stored size, 3480 lamports per byte-year and an exemption threshold of 2.
#[verifier::external_body]
fn rent_exempt_minimum(space: usize) -> (r: u64)
    requires
        space <= MAX_ACCOUNT_SPACE,
    ensures
        r == rent_for(space as nat),
{
    anchor_lang::prelude::Rent::default().minimum_balance(space)
}

/// The deposit that a record of `space` bytes needs.
pub fn storage_deposit(space: usize) -> (r: u64)
    requires
        space <= MAX_ACCOUNT_SPACE,
    ensures
        r == rent_for(space as nat),
{
    rent_exempt_minimum(space)
}

/// A slot of the ledger: its address, the lamports it holds and the record
/// stored there, if any.
pub struct Slot<T> {
    pub key: Address,
    pub lamports: u64,
    pub data: Option<T>,
}

impl<T> Slot<T> {
    /// An empty slot at `key` that holds no lamports.
    pub fn vacant(key: Address) -> (r: Slot<T>)
        ensures
            r.key == key,
            r.lamports == 0,
            r.data is None,
    {
        Slot { key, lamports: 0, data: None }
    }

    /// Whether a record is stored in the slot.
    pub fn is_open(&self) -> (r: bool)
        ensures
            r == self.data is Some,
    {
        self.data.is_some()
    }
}

/// What creating a record of `space` bytes does to the slot's lamports and
/// the payer's, or why it is refused.
pub open spec fn allocation_outcome(occupied: bool, slot_lamports: u64, payer_lamports: u64, space: nat) -> Result<(u64, u64), StorageError> {
    if occupied {
        Err(StorageError::AccountInUse)
    } else if payer_lamports < rent_for(space) {
        Err(StorageError::InsufficientFunds)
    } else if slot_lamports + rent_for(space) > u64::MAX {
        Err(StorageError::Overflow)
    } else {
        Ok(((slot_lamports + rent_for(space)) as u64, (payer_lamports - rent_for(space)) as u64))
    }
}

/// Creates the record in the slot, funded by the payer with the deposit for
/// `space` bytes. An occupied slot is refused; on failure nothing changes.
pub fn allocate<T>(slot: &mut Slot<T>, payer_lamports: &mut u64, space: usize, data: T) -> (r: Result<(), StorageError>)
    requires
        space <= MAX_ACCOUNT_SPACE,
    ensures
        match allocation_outcome(old(slot).data is Some, old(slot).lamports, *old(payer_lamports), space as nat) {
            Ok((s, p)) => {
                &&& r is Ok
                &&& final(slot).key == old(slot).key
                &&& final(slot).lamports == s
                &&& final(slot).data == Some(data)
                &&& *final(payer_lamports) == p
            },
            Err(e) => {
                &&& r == Err::<(), StorageError>(e)
                &&& *final(slot) == *old(slot)
                &&& *final(payer_lamports) == *old(payer_lamports)
            },
        },
{
    if slot.data.is_some() {
        return Err(StorageError::AccountInUse);
    }
    let rent = rent_exempt_minimum(space);
    if *payer_lamports < rent {
        return Err(StorageError::InsufficientFunds);
    }
    match slot.lamports.checked_add(rent) {
        Some(total) => {
            slot.lamports = total;
            *payer_lamports = *payer_lamports - rent;
            slot.data = Some(data);
            Ok(())
        },
        None => Err(StorageError::Overflow),
    }
}

/// What closing the slot does to the beneficiary's lamports, or why it is
/// refused.
pub open spec fn closing_outcome(open: bool, slot_lamports: u64, beneficiary_lamports: u64) -> Result<u64, StorageError> {
    if !open {
        Err(StorageError::NotInitialized)
    } else if beneficiary_lamports + slot_lamports > u64::MAX {
        Err(StorageError::Overflow)
    } else {
        Ok((beneficiary_lamports + slot_lamports) as u64)
    }
}

/// Closes the slot: the record is dropped and every lamport it held goes to
/// the beneficiary. On failure nothing changes.
pub fn close<T>(slot: &mut Slot<T>, beneficiary_lamports: &mut u64) -> (r: Result<(), StorageError>)
    ensures
        match closing_outcome(old(slot).data is Some, old(slot).lamports, *old(beneficiary_lamports)) {
            Ok(b) => {
                &&& r is Ok
                &&& final(slot).key == old(slot).key
                &&& final(slot).lamports == 0
                &&& final(slot).data is None
                &&& *final(beneficiary_lamports) == b
            },
            Err(e) => {
                &&& r == Err::<(), StorageError>(e)
                &&& *final(slot) == *old(slot)
                &&& *final(beneficiary_lamports) == *old(beneficiary_lamports)
            },
        },
{
    if slot.data.is_none() {
        return Err(StorageError::NotInitialized);
    }
    match beneficiary_lamports.checked_add(slot.lamports) {
        Some(b) => {
            *beneficiary_lamports = b;
            slot.lamports = 0;
            slot.data = None;
            Ok(())
        },
        None => Err(StorageError::Overflow),
    }
}

} // verus!
