//! A fortune teller: for a small balance check, each request of a user
//! stores one of a fixed list of fortunes at a slot derived from the user and
//! a request number.

use vstd::bytes::{spec_u64_to_le_bytes, u64_to_le_bytes};
use vstd::prelude::*;
use vstd::string::StringSliceAdditionalSpecFns;

use crate::address::{address_seed, bump_of_slot, lemma_seed_list_view, slot_bump, text_seed, Address};
use crate::errors::{ErrorClass, StorageError};
use crate::ledger::{allocate, allocation_outcome, rent_for, storage_deposit, Slot};

verus! {

/// Namespace seed of fortune slots.
pub const FORTUNE_SEED: &'static str = "fortune";

/// Bytes set aside for a stored fortune.
pub const FORTUNE_SPACE: usize = 1000;

/// Lamports that a user must still hold once the slot is paid for.
pub const REQUIRED_LAMPORTS: u64 = 2;

/// Number of fortunes that a request picks among.
pub const FORTUNE_CHOICES: u64 = 20;

/// Number of fortunes in the list.
pub const FORTUNE_COUNT: usize = 28;

/// A delivered fortune and the user it was told to.
#[derive(Clone, Debug)]
pub struct FortuneData {
    pub fortune: String,
    pub user: Address,
}

#[derive(Clone, Copy, Debug, PartialEq, Eq, Structural)]
pub enum ErrorCode {
    InsufficientPayment,
    AccountInUse,
    InsufficientFunds,
    Overflow,
    SeedsMismatch,
}

impl ErrorCode {
    pub open spec fn spec_class(self) -> ErrorClass {
        match self {
            ErrorCode::Overflow => ErrorClass::Arithmetic,
            ErrorCode::SeedsMismatch => ErrorClass::Validation,
            _ => ErrorClass::State,
        }
    }

    /// The class of this error.
    pub fn class(&self) -> (r: ErrorClass)
        ensures
            r == self.spec_class(),
    {
        match self {
            ErrorCode::Overflow => ErrorClass::Arithmetic,
            ErrorCode::SeedsMismatch => ErrorClass::Validation,
            _ => ErrorClass::State,
        }
    }
}

pub open spec fn storage_error(e: StorageError) -> ErrorCode {
    match e {
        StorageError::AccountInUse => ErrorCode::AccountInUse,
        StorageError::NotInitialized => ErrorCode::AccountInUse,
        StorageError::InsufficientFunds => ErrorCode::InsufficientFunds,
        StorageError::Overflow => ErrorCode::Overflow,
    }
}

/// The fortune at position `i` of the list.
pub open spec fn fortune_spec(i: int) -> Seq<char> {
    if i == 0 {
        "You will find a bug in your code today!"@
    } else if i == 1 {
        "A mysterious PR will fix your issues tomorrow."@
    } else if i == 2 {
        "Your CPU cycle will bring great joy soon."@
    } else if i == 3 {
        "Beware of off-by-one errors in your future!"@
    } else if i == 4 {
        "The blockchain gods smile upon your transactions."@
    } else if i == 5 {
        "A segfault in your past will become a feature in your future."@
    } else if i == 6 {
        "Your next commit will break production... but in a good way?"@
    } else if i == 7 {
        "The only constant in your life will be changing requirements."@
    } else if i == 8 {
        "You will be promoted to Senior Senior Software Engineer, reporting to the cat."@
    } else if i == 9 {
        "A rubber duck will finally understand your code comments."@
    } else if i == 10 {
        "You will discover that the bug was actually a feature requested by the client 3 years ago."@
    } else if i == 11 {
        "Your coffee will compile faster than your actual code."@
    } else if i == 12 {
        "You will achieve enlightenment after refactoring the same function for the 42nd time."@
    } else if i == 13 {
        "A merge conflict will arise between your code and reality."@
    } else if i == 14 {
        "You will be knighted by the Queen of England for your exceptional use of Comic Sans in production."@
    } else if i == 15 {
        "Your pull request will be approved by a ghost."@
    } else if i == 16 {
        "You will find the missing semicolon in your paycheck."@
    } else if i == 17 {
        "Your code will run perfectly on the first try, but only in production."@
    } else if i == 18 {
        "You will be offered a job at the Department of Redundancy Department."@
    } else if i == 19 {
        "You will realize that the documentation was lying, but you were too."@
    } else if i == 20 {
        "Your keyboard will finally forgive you for the spilled coffee."@
    } else if i == 21 {
        "You will be given the keys to the production server... by accident."@
    } else if i == 22 {
        "A Stack Overflow answer from 2009 will perfectly solve your cutting-edge problem."@
    } else if i == 23 {
        "You will be praised for your innovative use of infinite loops."@
    } else if i == 24 {
        "Your code review will be conducted by Skynet."@
    } else if i == 25 {
        "You will be awarded a Nobel Prize in Debugging for finding that typo."@
    } else if i == 26 {
        "Your YAML indentation will finally be correct, just this once."@
    } else {
        "You will discover that 'It works on my machine' is a valid deployment strategy in at least 3 parallel universes."@
    }
}

/// The fortune at position `index` of the list.
pub fn fortune_text(index: usize) -> (r: &'static str)
    requires
        index < FORTUNE_COUNT,
    ensures
        r@ == fortune_spec(index as int),
{
    if index == 0 {
        "You will find a bug in your code today!"
    } else if index == 1 {
        "A mysterious PR will fix your issues tomorrow."
    } else if index == 2 {
        "Your CPU cycle will bring great joy soon."
    } else if index == 3 {
        "Beware of off-by-one errors in your future!"
    } else if index == 4 {
        "The blockchain gods smile upon your transactions."
    } else if index == 5 {
        "A segfault in your past will become a feature in your future."
    } else if index == 6 {
        "Your next commit will break production... but in a good way?"
    } else if index == 7 {
        "The only constant in your life will be changing requirements."
    } else if index == 8 {
        "You will be promoted to Senior Senior Software Engineer, reporting to the cat."
    } else if index == 9 {
        "A rubber duck will finally understand your code comments."
    } else if index == 10 {
        "You will discover that the bug was actually a feature requested by the client 3 years ago."
    } else if index == 11 {
        "Your coffee will compile faster than your actual code."
    } else if index == 12 {
        "You will achieve enlightenment after refactoring the same function for the 42nd time."
    } else if index == 13 {
        "A merge conflict will arise between your code and reality."
    } else if index == 14 {
        "You will be knighted by the Queen of England for your exceptional use of Comic Sans in production."
    } else if index == 15 {
        "Your pull request will be approved by a ghost."
    } else if index == 16 {
        "You will find the missing semicolon in your paycheck."
    } else if index == 17 {
        "Your code will run perfectly on the first try, but only in production."
    } else if index == 18 {
        "You will be offered a job at the Department of Redundancy Department."
    } else if index == 19 {
        "You will realize that the documentation was lying, but you were too."
    } else if index == 20 {
        "Your keyboard will finally forgive you for the spilled coffee."
    } else if index == 21 {
        "You will be given the keys to the production server... by accident."
    } else if index == 22 {
        "A Stack Overflow answer from 2009 will perfectly solve your cutting-edge problem."
    } else if index == 23 {
        "You will be praised for your innovative use of infinite loops."
    } else if index == 24 {
        "Your code review will be conducted by Skynet."
    } else if index == 25 {
        "You will be awarded a Nobel Prize in Debugging for finding that typo."
    } else if index == 26 {
        "Your YAML indentation will finally be correct, just this once."
    } else {
        "You will discover that 'It works on my machine' is a valid deployment strategy in at least 3 parallel universes."
    }
}

/// The position of the fortune that a request hash picks.
pub open spec fn fortune_index_spec(hash: u64) -> int {
    (hash % FORTUNE_CHOICES) as int
}

/// Picks the position of a fortune from the hash of a request.
pub fn fortune_index(hash: u64) -> (r: usize)
    ensures
        r == fortune_index_spec(hash),
        r < FORTUNE_CHOICES,
{
    (hash % FORTUNE_CHOICES) as usize
}

/// The seeds of the fortune slot of `user` for request `counter`.
pub open spec fn fortune_seeds_of(user: Seq<u8>, counter: u64) -> Seq<Seq<u8>> {
    seq![FORTUNE_SEED.spec_bytes(), user, spec_u64_to_le_bytes(counter)]
}

/// Builds the seeds of the fortune slot of `user` for request `counter`.
pub fn fortune_seeds(user: &Address, counter: u64) -> (r: Vec<Vec<u8>>)
    ensures
        r.deep_view() == fortune_seeds_of(user@, counter),
{
    let mut r: Vec<Vec<u8>> = Vec::new();
    r.push(text_seed(FORTUNE_SEED));
    r.push(address_seed(user));
    r.push(u64_to_le_bytes(counter));
    proof {
        lemma_seed_list_view(r);
    }
    assert(r.deep_view() =~= fortune_seeds_of(user@, counter));
    r
}

/// Why a fortune cannot be delivered: the slot must be the canonical one of
/// the request, vacant and paid for, and the user must keep the required
/// balance after paying.
pub open spec fn fortune_refusal(
    program_id: Seq<u8>,
    key: Seq<u8>,
    open: bool,
    slot_lamports: u64,
    user: Seq<u8>,
    user_lamports: u64,
    counter: u64,
) -> Option<ErrorCode> {
    if slot_bump(fortune_seeds_of(user, counter), program_id, key) is None {
        Some(ErrorCode::SeedsMismatch)
    } else {
        match allocation_outcome(open, slot_lamports, user_lamports, FORTUNE_SPACE as nat) {
            Err(e) => Some(storage_error(e)),
            Ok((_, left)) => if left < REQUIRED_LAMPORTS {
                Some(ErrorCode::InsufficientPayment)
            } else {
                None
            },
        }
    }
}

/// Delivers a fortune for request `counter` of `user`: stores the fortune
/// that `hash` picks, with the user, at the request's slot, paid by the user.
/// `hash` is the digest of the user and the request number. On failure
/// nothing changes.
pub fn get_fortune(
    program_id: &Address,
    fortune_data: &mut Slot<FortuneData>,
    user: &Address,
    user_lamports: &mut u64,
    counter: u64,
    hash: u64,
) -> (r: Result<(), ErrorCode>)
    ensures
        final(fortune_data).key == old(fortune_data).key,
        match fortune_refusal(
            program_id@,
            old(fortune_data).key@,
            old(fortune_data).data is Some,
            old(fortune_data).lamports,
            user@,
            *old(user_lamports),
            counter,
        ) {
            Some(e) => r == Err::<(), ErrorCode>(e) && *final(fortune_data) == *old(fortune_data)
                && *final(user_lamports) == *old(user_lamports),
            None => {
                &&& r is Ok
                &&& final(fortune_data).lamports == old(fortune_data).lamports + rent_for(FORTUNE_SPACE as nat)
                &&& *final(user_lamports) == *old(user_lamports) - rent_for(FORTUNE_SPACE as nat)
                &&& final(fortune_data).data is Some
                &&& final(fortune_data).data->Some_0.fortune@ == fortune_spec(fortune_index_spec(hash))
                &&& final(fortune_data).data->Some_0.user == *user
            },
        },
{
    let seeds = fortune_seeds(user, counter);
    if bump_of_slot(&seeds, program_id, &fortune_data.key).is_none() {
        return Err(ErrorCode::SeedsMismatch);
    }
    if fortune_data.data.is_some() {
        return Err(ErrorCode::AccountInUse);
    }
    let rent = storage_deposit(FORTUNE_SPACE);
    if *user_lamports < rent {
        return Err(ErrorCode::InsufficientFunds);
    }
    if fortune_data.lamports > u64::MAX - rent {
        return Err(ErrorCode::Overflow);
    }
    if *user_lamports - rent < REQUIRED_LAMPORTS {
        return Err(ErrorCode::InsufficientPayment);
    }
    let text = fortune_text(fortune_index(hash));
    let record = FortuneData { fortune: text.to_string(), user: *user };
    let stored = allocate(fortune_data, user_lamports, FORTUNE_SPACE, record);
    assert(stored is Ok);
    Ok(())
}

} // verus!
