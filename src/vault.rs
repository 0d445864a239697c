//! A vault: lamports held at a slot derived from its authority, which anyone
//! may fund while it is unlocked and only the authority may drain or lock.

use vstd::prelude::*;
use vstd::string::StringSliceAdditionalSpecFns;

use crate::address::{
    address_seed, bump_of_slot, derived, lemma_seed_list_view, slot_bump, text_seed, Address,
    DerivationError,
};
use crate::errors::{ErrorClass, StorageError, TransferError};
use crate::guard::authorize;
use crate::transfer::transfer;
use crate::ledger::{allocate, allocation_outcome, rent_for, storage_deposit, Slot, HEADER_SPACE};

verus! {

/// Namespace seed of vault slots.
pub const VAULT_SEED: &'static str = "vault";

/// Bytes of a stored vault: header, authority, lock flag and bump.
pub const VAULT_SPACE: usize = HEADER_SPACE + 32 + 1 + 1;

/// The record of a vault. Its balance is the lamports of its slot.
#[derive(Clone, Copy, Debug, PartialEq, Eq)]
pub struct Vault {
    pub vault_authority: Address,
    pub locked: bool,
    pub bump: u8,
}

#[derive(Clone, Copy, Debug, PartialEq, Eq, Structural)]
pub enum VaultError {
    VaultLocked,
    Unauthorized,
    InsufficientBalance,
    Overflow,
    NotInitialized,
    AccountInUse,
    InsufficientFunds,
    SeedsMismatch,
}

/// A completed deposit.
#[derive(Clone, Copy, Debug, PartialEq, Eq)]
pub struct DepositEvent {
    pub amount: u64,
    pub user: Address,
    pub vault: Address,
    pub timestamp: i64,
}

/// A completed withdrawal.
#[derive(Clone, Copy, Debug, PartialEq, Eq)]
pub struct WithdrawEvent {
    pub amount: u64,
    pub vault_authority: Address,
    pub vault: Address,
    pub timestamp: i64,
}

/// A completed change of the lock.
#[derive(Clone, Copy, Debug, PartialEq, Eq)]
pub struct ToggleLockEvent {
    pub vault: Address,
    pub vault_authority: Address,
    pub locked: bool,
}

impl VaultError {
    pub open spec fn spec_class(self) -> ErrorClass {
        match self {
            VaultError::Unauthorized => ErrorClass::Authorization,
            VaultError::Overflow => ErrorClass::Arithmetic,
            VaultError::SeedsMismatch => ErrorClass::Validation,
            _ => ErrorClass::State,
        }
    }

    /// The class of this error.
    pub fn class(&self) -> (r: ErrorClass)
        ensures
            r == self.spec_class(),
    {
        match self {
            VaultError::Unauthorized => ErrorClass::Authorization,
            VaultError::Overflow => ErrorClass::Arithmetic,
            VaultError::SeedsMismatch => ErrorClass::Validation,
            _ => ErrorClass::State,
        }
    }
}

pub open spec fn storage_error(e: StorageError) -> VaultError {
    match e {
        StorageError::AccountInUse => VaultError::AccountInUse,
        StorageError::NotInitialized => VaultError::NotInitialized,
        StorageError::InsufficientFunds => VaultError::InsufficientFunds,
        StorageError::Overflow => VaultError::Overflow,
    }
}

fn from_storage(e: StorageError) -> (r: VaultError)
    ensures
        r == storage_error(e),
{
    match e {
        StorageError::AccountInUse => VaultError::AccountInUse,
        StorageError::NotInitialized => VaultError::NotInitialized,
        StorageError::InsufficientFunds => VaultError::InsufficientFunds,
        StorageError::Overflow => VaultError::Overflow,
    }
}

fn from_transfer(e: TransferError) -> (r: VaultError)
    ensures
        e == TransferError::InsufficientBalance ==> r == VaultError::InsufficientBalance,
        e == TransferError::Overflow ==> r == VaultError::Overflow,
{
    match e {
        TransferError::InsufficientBalance => VaultError::InsufficientBalance,
        TransferError::Overflow => VaultError::Overflow,
    }
}

/// The seeds of the vault of an authority.
pub open spec fn vault_seeds_of(authority: Seq<u8>) -> Seq<Seq<u8>> {
    seq![VAULT_SEED.spec_bytes(), authority]
}

/// Builds the seeds of the vault of `authority`.
pub fn vault_seeds(authority: &Address) -> (r: Vec<Vec<u8>>)
    ensures
        r.deep_view() == vault_seeds_of(authority@),
{
    let mut r: Vec<Vec<u8>> = Vec::new();
    r.push(text_seed(VAULT_SEED));
    r.push(address_seed(authority));
    proof {
        lemma_seed_list_view(r);
    }
    assert(r.deep_view() =~= vault_seeds_of(authority@));
    r
}

/// Creates the unlocked vault of `authority` at its derived slot, funded by
/// the authority. The slot must be the canonical one of the authority's
/// seeds, and must be vacant; on failure nothing changes.
pub fn initialize_vault(
    program_id: &Address,
    vault: &mut Slot<Vault>,
    authority: &Address,
    authority_lamports: &mut u64,
) -> (r: Result<(), VaultError>)
    ensures
        match slot_bump(vault_seeds_of(authority@), program_id@, old(vault).key@) {
            None => r == Err::<(), VaultError>(VaultError::SeedsMismatch) && *final(vault) == *old(vault)
                && *final(authority_lamports) == *old(authority_lamports),
            Some(b) => match allocation_outcome(
                old(vault).data is Some,
                old(vault).lamports,
                *old(authority_lamports),
                VAULT_SPACE as nat,
            ) {
                Ok((s, p)) => {
                    &&& r is Ok
                    &&& final(vault).key == old(vault).key
                    &&& final(vault).lamports == s
                    &&& final(vault).data == Some(
                        (Vault { vault_authority: *authority, locked: false, bump: b }),
                    )
                    &&& *final(authority_lamports) == p
                    &&& derived(vault_seeds_of(authority@), b, program_id@) == Ok::<Seq<u8>, DerivationError>(
                        old(vault).key@,
                    )
                },
                Err(e) => r == Err::<(), VaultError>(storage_error(e)) && *final(vault) == *old(vault)
                    && *final(authority_lamports) == *old(authority_lamports),
            },
        },
{
    let seeds = vault_seeds(authority);
    let bump = match bump_of_slot(&seeds, program_id, &vault.key) {
        Some(b) => b,
        None => {
            return Err(VaultError::SeedsMismatch);
        },
    };
    let record = Vault { vault_authority: *authority, locked: false, bump };
    match allocate(vault, authority_lamports, VAULT_SPACE, record) {
        Ok(()) => Ok(()),
        Err(e) => Err(from_storage(e)),
    }
}

/// Lamports that a vault keeps as the deposit for its storage; they are
/// not part of its balance.
pub open spec fn vault_reserve() -> nat {
    rent_for(VAULT_SPACE as nat)
}

/// The balance of a vault whose slot holds `lamports`: its funding minus its
/// withdrawals, the storage deposit left out.
pub open spec fn vault_balance(lamports: u64) -> int {
    lamports - vault_reserve()
}

/// The balances of vault and funder after a deposit, or why it is refused.
pub open spec fn deposit_outcome(record: Option<Vault>, vault_lamports: u64, user_lamports: u64, amount: u64) -> Result<(u64, u64), VaultError> {
    match record {
        None => Err(VaultError::NotInitialized),
        Some(v) => if v.locked {
            Err(VaultError::VaultLocked)
        } else if user_lamports < amount {
            Err(VaultError::InsufficientBalance)
        } else if vault_lamports + amount > u64::MAX {
            Err(VaultError::Overflow)
        } else {
            Ok(((vault_lamports + amount) as u64, (user_lamports - amount) as u64))
        },
    }
}

/// Moves `amount` from any funder into an unlocked vault; the event carries
/// the host's `timestamp`. On failure nothing changes.
pub fn deposit(
    vault: &mut Slot<Vault>,
    user: &Address,
    user_lamports: &mut u64,
    amount: u64,
    timestamp: i64,
) -> (r: Result<DepositEvent, VaultError>)
    ensures
        final(vault).key == old(vault).key,
        final(vault).data == old(vault).data,
        match deposit_outcome(old(vault).data, old(vault).lamports, *old(user_lamports), amount) {
            Ok((v, u)) => {
                &&& r == Ok::<DepositEvent, VaultError>(
                    (DepositEvent { amount, user: *user, vault: old(vault).key, timestamp }),
                )
                &&& final(vault).lamports == v
                &&& *final(user_lamports) == u
            },
            Err(e) => r == Err::<DepositEvent, VaultError>(e) && final(vault).lamports == old(vault).lamports
                && *final(user_lamports) == *old(user_lamports),
        },
{
    let locked = match &vault.data {
        None => {
            return Err(VaultError::NotInitialized);
        },
        Some(v) => v.locked,
    };
    if locked {
        return Err(VaultError::VaultLocked);
    }
    match transfer(user_lamports, &mut vault.lamports, amount) {
        Ok(()) => Ok(DepositEvent { amount, user: *user, vault: vault.key, timestamp }),
        Err(e) => Err(from_transfer(e)),
    }
}

/// The balances of vault and authority after a withdrawal, or why it is
/// refused: the lock, then the caller, then the balance are checked. The
/// storage deposit is never paid out.
pub open spec fn withdraw_outcome(record: Option<Vault>, vault_lamports: u64, caller: Seq<u8>, caller_lamports: u64, amount: u64) -> Result<(u64, u64), VaultError> {
    match record {
        None => Err(VaultError::NotInitialized),
        Some(v) => if v.locked {
            Err(VaultError::VaultLocked)
        } else if caller != v.vault_authority@ {
            Err(VaultError::Unauthorized)
        } else if vault_balance(vault_lamports) < amount {
            Err(VaultError::InsufficientBalance)
        } else if caller_lamports + amount > u64::MAX {
            Err(VaultError::Overflow)
        } else {
            Ok(((vault_lamports - amount) as u64, (caller_lamports + amount) as u64))
        },
    }
}

/// Moves `amount` out of the balance of an unlocked vault to its authority,
/// who must be the caller; the event carries the host's `timestamp`. On
/// failure nothing changes.
pub fn withdraw(
    vault: &mut Slot<Vault>,
    caller: &Address,
    caller_lamports: &mut u64,
    amount: u64,
    timestamp: i64,
) -> (r: Result<WithdrawEvent, VaultError>)
    ensures
        final(vault).key == old(vault).key,
        final(vault).data == old(vault).data,
        match withdraw_outcome(old(vault).data, old(vault).lamports, caller@, *old(caller_lamports), amount) {
            Ok((v, c)) => {
                &&& r == Ok::<WithdrawEvent, VaultError>(
                    (WithdrawEvent { amount, vault_authority: *caller, vault: old(vault).key, timestamp }),
                )
                &&& final(vault).lamports == v
                &&& *final(caller_lamports) == c
            },
            Err(e) => r == Err::<WithdrawEvent, VaultError>(e) && final(vault).lamports == old(vault).lamports
                && *final(caller_lamports) == *old(caller_lamports),
        },
{
    let record = match &vault.data {
        None => {
            return Err(VaultError::NotInitialized);
        },
        Some(v) => *v,
    };
    if record.locked {
        return Err(VaultError::VaultLocked);
    }
    if authorize(&record.vault_authority, caller).is_err() {
        return Err(VaultError::Unauthorized);
    }
    let reserve = storage_deposit(VAULT_SPACE);
    if vault.lamports < reserve || vault.lamports - reserve < amount {
        return Err(VaultError::InsufficientBalance);
    }
    match transfer(&mut vault.lamports, caller_lamports, amount) {
        Ok(()) => Ok(WithdrawEvent { amount, vault_authority: *caller, vault: vault.key, timestamp }),
        Err(e) => Err(from_transfer(e)),
    }
}

/// The vault with its lock flipped.
pub open spec fn toggled(v: Vault) -> Vault {
    Vault { locked: !v.locked, ..v }
}

/// The vault after a change of the lock by `caller`, or why it is refused.
pub open spec fn toggle_outcome(record: Option<Vault>, caller: Seq<u8>) -> Result<Vault, VaultError> {
    match record {
        None => Err(VaultError::NotInitialized),
        Some(v) => if caller != v.vault_authority@ {
            Err(VaultError::Unauthorized)
        } else {
            Ok(toggled(v))
        },
    }
}

/// Flips the lock of the vault; only its authority may. On failure nothing
/// changes.
pub fn toggle_lock(vault: &mut Slot<Vault>, caller: &Address) -> (r: Result<ToggleLockEvent, VaultError>)
    ensures
        final(vault).key == old(vault).key,
        final(vault).lamports == old(vault).lamports,
        match toggle_outcome(old(vault).data, caller@) {
            Ok(v) => {
                &&& final(vault).data == Some(v)
                &&& r == Ok::<ToggleLockEvent, VaultError>(
                    (ToggleLockEvent { vault: old(vault).key, vault_authority: *caller, locked: v.locked }),
                )
            },
            Err(e) => r == Err::<ToggleLockEvent, VaultError>(e) && final(vault).data == old(vault).data,
        },
{
    let record = match &vault.data {
        None => {
            return Err(VaultError::NotInitialized);
        },
        Some(v) => *v,
    };
    if authorize(&record.vault_authority, caller).is_err() {
        return Err(VaultError::Unauthorized);
    }
    let updated = Vault { locked: !record.locked, ..record };
    vault.data = Some(updated);
    Ok(ToggleLockEvent { vault: vault.key, vault_authority: *caller, locked: updated.locked })
}

/// A withdrawal succeeds exactly when the vault is unlocked, the caller is
/// its authority and the balance (the storage deposit left out) covers the
/// amount, the authority's lamports being able to take it. Each of the three
/// conditions broken alone gives its own error.
pub proof fn lemma_withdraw_conditions(v: Vault, vault_lamports: u64, caller: Seq<u8>, caller_lamports: u64, amount: u64)
    requires
        caller_lamports + amount <= u64::MAX,
    ensures
        withdraw_outcome(Some(v), vault_lamports, caller, caller_lamports, amount) is Ok <==> (!v.locked && caller
            == v.vault_authority@ && vault_balance(vault_lamports) >= amount),
        v.locked && caller == v.vault_authority@ && vault_balance(vault_lamports) >= amount ==> withdraw_outcome(
            Some(v),
            vault_lamports,
            caller,
            caller_lamports,
            amount,
        ) == Err::<(u64, u64), VaultError>(VaultError::VaultLocked),
        !v.locked && caller != v.vault_authority@ && vault_balance(vault_lamports) >= amount ==> withdraw_outcome(
            Some(v),
            vault_lamports,
            caller,
            caller_lamports,
            amount,
        ) == Err::<(u64, u64), VaultError>(VaultError::Unauthorized),
        !v.locked && caller == v.vault_authority@ && vault_balance(vault_lamports) < amount ==> withdraw_outcome(
            Some(v),
            vault_lamports,
            caller,
            caller_lamports,
            amount,
        ) == Err::<(u64, u64), VaultError>(VaultError::InsufficientBalance),
        withdraw_outcome(Some(v), vault_lamports, caller, caller_lamports, amount) matches Ok((left, _)) ==> vault_balance(
            left,
        ) == vault_balance(vault_lamports) - amount,
{
}

/// Two authorized changes of the lock in a row restore the vault; a change
/// by anyone else is refused as unauthorized.
pub proof fn lemma_toggle_is_involution(v: Vault, caller: Seq<u8>)
    ensures
        caller == v.vault_authority@ ==> toggle_outcome(Some(v), caller) == Ok::<Vault, VaultError>(toggled(v))
            && toggle_outcome(Some(toggled(v)), caller) == Ok::<Vault, VaultError>(v),
        caller != v.vault_authority@ ==> toggle_outcome(Some(v), caller) == Err::<Vault, VaultError>(
            VaultError::Unauthorized,
        ),
{
    assert(toggled(toggled(v)) == v);
}

} // verus!
