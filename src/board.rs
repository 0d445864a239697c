//! A message board: a counter slot numbers the posts, each post is stored at
//! a slot derived from the counter and its number, and every post pays a fee
//! into the board's treasury.

use vstd::bytes::{spec_u64_to_le_bytes, u64_to_le_bytes};
use vstd::prelude::*;
use vstd::string::StringSliceAdditionalSpecFns;

use crate::address::{
    address_seed, bump_of_slot, lemma_seed_list_view, slot_bump, text_len, text_seed, utf8_len,
    Address,
};
use crate::errors::{ErrorClass, StorageError};
use crate::transfer::transfer;
use crate::ledger::{allocate, allocation_outcome, rent_for, storage_deposit, Slot, HEADER_SPACE};

verus! {

/// Namespace seed of the counter slot.
pub const COUNTER_SEED: &'static str = "counter";

/// Seed of the treasury that collects the fees.
pub const TREASURY_SEED: &'static str = "treasury";

/// Namespace seed of message slots.
pub const MESSAGE_SEED: &'static str = "message";

/// Longest message, in bytes.
pub const MAX_CONTENT: usize = 100;

/// Bytes of a stored counter: header and count.
pub const COUNTER_SPACE: usize = HEADER_SPACE + 8;

/// Bytes of a stored message: header, length-prefixed content at its
/// longest, timestamp and poster.
pub const MESSAGE_SPACE: usize = HEADER_SPACE + 4 + MAX_CONTENT + 8 + 32;

/// Lamports that each post pays into the treasury.
pub const POST_FEE: u64 = 69;

/// The number of posts made so far.
#[derive(Clone, Copy, Debug, PartialEq, Eq, Structural)]
pub struct MessageCounter {
    pub count: u64,
}

/// A stored post.
#[derive(Clone, Debug)]
pub struct Message {
    pub content: String,
    pub timestamp: i64,
    pub poster: Address,
}

/// A completed post.
#[derive(Clone, Copy, Debug, PartialEq, Eq)]
pub struct MessagePosted {
    pub poster: Address,
    pub message: Address,
    pub timestamp: i64,
}

#[derive(Clone, Copy, Debug, PartialEq, Eq, Structural)]
pub enum ErrorCode {
    ContentTooLong,
    AlreadyInitialized,
    CounterOverflow,
    NotInitialized,
    AccountInUse,
    InsufficientFunds,
    Overflow,
    SeedsMismatch,
}

impl ErrorCode {
    pub open spec fn spec_class(self) -> ErrorClass {
        match self {
            ErrorCode::ContentTooLong => ErrorClass::Validation,
            ErrorCode::SeedsMismatch => ErrorClass::Validation,
            ErrorCode::CounterOverflow => ErrorClass::Arithmetic,
            ErrorCode::Overflow => ErrorClass::Arithmetic,
            _ => ErrorClass::State,
        }
    }

    /// The class of this error.
    pub fn class(&self) -> (r: ErrorClass)
        ensures
            r == self.spec_class(),
    {
        match self {
            ErrorCode::ContentTooLong => ErrorClass::Validation,
            ErrorCode::SeedsMismatch => ErrorClass::Validation,
            ErrorCode::CounterOverflow => ErrorClass::Arithmetic,
            ErrorCode::Overflow => ErrorClass::Arithmetic,
            _ => ErrorClass::State,
        }
    }
}

pub open spec fn storage_error(e: StorageError) -> ErrorCode {
    match e {
        StorageError::AccountInUse => ErrorCode::AccountInUse,
        StorageError::NotInitialized => ErrorCode::NotInitialized,
        StorageError::InsufficientFunds => ErrorCode::InsufficientFunds,
        StorageError::Overflow => ErrorCode::Overflow,
    }
}

fn from_storage(e: StorageError) -> (r: ErrorCode)
    ensures
        r == storage_error(e),
{
    match e {
        StorageError::AccountInUse => ErrorCode::AccountInUse,
        StorageError::NotInitialized => ErrorCode::NotInitialized,
        StorageError::InsufficientFunds => ErrorCode::InsufficientFunds,
        StorageError::Overflow => ErrorCode::Overflow,
    }
}

/// The seeds of the counter slot.
pub open spec fn counter_seeds_of() -> Seq<Seq<u8>> {
    seq![COUNTER_SEED.spec_bytes()]
}

/// Builds the seeds of the counter slot.
pub fn counter_seeds() -> (r: Vec<Vec<u8>>)
    ensures
        r.deep_view() == counter_seeds_of(),
{
    let mut r: Vec<Vec<u8>> = Vec::new();
    r.push(text_seed(COUNTER_SEED));
    proof {
        lemma_seed_list_view(r);
    }
    assert(r.deep_view() =~= counter_seeds_of());
    r
}

/// The seeds of the treasury.
pub open spec fn treasury_seeds_of() -> Seq<Seq<u8>> {
    seq![TREASURY_SEED.spec_bytes()]
}

/// Builds the seeds of the treasury.
pub fn treasury_seeds() -> (r: Vec<Vec<u8>>)
    ensures
        r.deep_view() == treasury_seeds_of(),
{
    let mut r: Vec<Vec<u8>> = Vec::new();
    r.push(text_seed(TREASURY_SEED));
    proof {
        lemma_seed_list_view(r);
    }
    assert(r.deep_view() =~= treasury_seeds_of());
    r
}

/// The seeds of the post numbered `count` on the board of `counter`.
pub open spec fn message_seeds_of(counter: Seq<u8>, count: u64) -> Seq<Seq<u8>> {
    seq![MESSAGE_SEED.spec_bytes(), counter, spec_u64_to_le_bytes(count)]
}

/// Builds the seeds of the post numbered `count` on the board of `counter`.
pub fn message_seeds(counter: &Address, count: u64) -> (r: Vec<Vec<u8>>)
    ensures
        r.deep_view() == message_seeds_of(counter@, count),
{
    let mut r: Vec<Vec<u8>> = Vec::new();
    r.push(text_seed(MESSAGE_SEED));
    r.push(address_seed(counter));
    r.push(u64_to_le_bytes(count));
    proof {
        lemma_seed_list_view(r);
    }
    assert(r.deep_view() =~= message_seeds_of(counter@, count));
    r
}

/// Creates the counter at zero if its slot is vacant; a counter that exists
/// at zero is left as it is, and one past zero is refused. The slot must be
/// the canonical one of the counter seeds. On failure nothing changes.
pub fn initialize(program_id: &Address, counter: &mut Slot<MessageCounter>, payer_lamports: &mut u64) -> (r: Result<(), ErrorCode>)
    ensures
        final(counter).key == old(counter).key,
        slot_bump(counter_seeds_of(), program_id@, old(counter).key@) is None ==> r == Err::<(), ErrorCode>(
            ErrorCode::SeedsMismatch,
        ) && *final(counter) == *old(counter) && *final(payer_lamports) == *old(payer_lamports),
        slot_bump(counter_seeds_of(), program_id@, old(counter).key@) is Some ==> match old(counter).data {
            Some(c) => {
                &&& c.count == 0 ==> r is Ok
                &&& c.count != 0 ==> r == Err::<(), ErrorCode>(ErrorCode::AlreadyInitialized)
                &&& *final(counter) == *old(counter)
                &&& *final(payer_lamports) == *old(payer_lamports)
            },
            None => match allocation_outcome(false, old(counter).lamports, *old(payer_lamports), COUNTER_SPACE as nat) {
                Ok((s, p)) => {
                    &&& r is Ok
                    &&& final(counter).lamports == s
                    &&& final(counter).data == Some(MessageCounter { count: 0 })
                    &&& *final(payer_lamports) == p
                },
                Err(e) => r == Err::<(), ErrorCode>(storage_error(e)) && *final(counter) == *old(counter)
                    && *final(payer_lamports) == *old(payer_lamports),
            },
        },
{
    let seeds = counter_seeds();
    if bump_of_slot(&seeds, program_id, &counter.key).is_none() {
        return Err(ErrorCode::SeedsMismatch);
    }
    match &counter.data {
        Some(c) => if c.count == 0 {
            Ok(())
        } else {
            Err(ErrorCode::AlreadyInitialized)
        },
        None => match allocate(counter, payer_lamports, COUNTER_SPACE, MessageCounter { count: 0 }) {
            Ok(()) => Ok(()),
            Err(e) => Err(from_storage(e)),
        },
    }
}

/// The counter after one more post.
pub open spec fn posted(c: MessageCounter) -> MessageCounter {
    MessageCounter { count: (c.count + 1) as u64 }
}

/// Why a post is refused, checked in this order: the content, the
/// treasury's address, the counter, the message slot, the counter's room, the
/// funds, the balances' room.
pub open spec fn post_refusal(
    program_id: Seq<u8>,
    treasury_key: Seq<u8>,
    counter_key: Seq<u8>,
    record: Option<MessageCounter>,
    message_key: Seq<u8>,
    message_open: bool,
    message_lamports: u64,
    treasury_lamports: u64,
    payer_lamports: u64,
    content: Seq<char>,
) -> Option<ErrorCode> {
    if utf8_len(content) > MAX_CONTENT {
        Some(ErrorCode::ContentTooLong)
    } else if slot_bump(treasury_seeds_of(), program_id, treasury_key) is None {
        Some(ErrorCode::SeedsMismatch)
    } else if record is None {
        Some(ErrorCode::NotInitialized)
    } else if slot_bump(message_seeds_of(counter_key, record->Some_0.count), program_id, message_key) is None {
        Some(ErrorCode::SeedsMismatch)
    } else if message_open {
        Some(ErrorCode::AccountInUse)
    } else if record->Some_0.count == u64::MAX {
        Some(ErrorCode::CounterOverflow)
    } else if payer_lamports < rent_for(MESSAGE_SPACE as nat) + POST_FEE {
        Some(ErrorCode::InsufficientFunds)
    } else if message_lamports + rent_for(MESSAGE_SPACE as nat) > u64::MAX || treasury_lamports + POST_FEE > u64::MAX {
        Some(ErrorCode::Overflow)
    } else {
        None
    }
}

/// Posts `content` as the next message: stores it with the poster and the
/// time at the slot derived from the counter and its count, charges the
/// poster the storage deposit and the fee, paid into the treasury at its
/// derived address, and counts the post. Every check
/// comes before any change, so on failure nothing changes.
pub fn post_message(
    program_id: &Address,
    counter: &mut Slot<MessageCounter>,
    message: &mut Slot<Message>,
    treasury: &Address,
    treasury_lamports: &mut u64,
    poster: &Address,
    poster_lamports: &mut u64,
    content: String,
    timestamp: i64,
) -> (r: Result<MessagePosted, ErrorCode>)
    ensures
        final(counter).key == old(counter).key,
        final(counter).lamports == old(counter).lamports,
        final(message).key == old(message).key,
        match post_refusal(
            program_id@,
            treasury@,
            old(counter).key@,
            old(counter).data,
            old(message).key@,
            old(message).data is Some,
            old(message).lamports,
            *old(treasury_lamports),
            *old(poster_lamports),
            content@,
        ) {
            Some(e) => {
                &&& r == Err::<MessagePosted, ErrorCode>(e)
                &&& final(counter).data == old(counter).data
                &&& *final(message) == *old(message)
                &&& *final(treasury_lamports) == *old(treasury_lamports)
                &&& *final(poster_lamports) == *old(poster_lamports)
            },
            None => {
                &&& r == Ok::<MessagePosted, ErrorCode>(
                    (MessagePosted { poster: *poster, message: old(message).key, timestamp }),
                )
                &&& final(counter).data == Some(posted(old(counter).data->Some_0))
                &&& final(message).lamports == old(message).lamports + rent_for(MESSAGE_SPACE as nat)
                &&& final(message).data is Some
                &&& final(message).data->Some_0.content@ == content@
                &&& final(message).data->Some_0.timestamp == timestamp
                &&& final(message).data->Some_0.poster == *poster
                &&& *final(treasury_lamports) == *old(treasury_lamports) + POST_FEE
                &&& *final(poster_lamports) == *old(poster_lamports) - rent_for(MESSAGE_SPACE as nat)
                    - POST_FEE
            },
        },
{
    if text_len(&content) > MAX_CONTENT {
        return Err(ErrorCode::ContentTooLong);
    }
    if bump_of_slot(&treasury_seeds(), program_id, treasury).is_none() {
        return Err(ErrorCode::SeedsMismatch);
    }
    let count = match &counter.data {
        None => {
            return Err(ErrorCode::NotInitialized);
        },
        Some(c) => c.count,
    };
    let seeds = message_seeds(&counter.key, count);
    if bump_of_slot(&seeds, program_id, &message.key).is_none() {
        return Err(ErrorCode::SeedsMismatch);
    }
    if message.data.is_some() {
        return Err(ErrorCode::AccountInUse);
    }
    if count == u64::MAX {
        return Err(ErrorCode::CounterOverflow);
    }
    let deposit = storage_deposit(MESSAGE_SPACE);
    if *poster_lamports < deposit || *poster_lamports - deposit < POST_FEE {
        return Err(ErrorCode::InsufficientFunds);
    }
    if message.lamports > u64::MAX - deposit || *treasury_lamports > u64::MAX - POST_FEE {
        return Err(ErrorCode::Overflow);
    }
    let key = message.key;
    let record = Message { content, timestamp, poster: *poster };
    let allocated = allocate(message, poster_lamports, MESSAGE_SPACE, record);
    assert(allocated is Ok);
    let paid = transfer(poster_lamports, treasury_lamports, POST_FEE);
    assert(paid is Ok);
    counter.data = Some(MessageCounter { count: count + 1 });
    Ok(MessagePosted { poster: *poster, message: key, timestamp })
}

/// A full counter never takes another post; where nothing earlier stops
/// the post, it is refused as an arithmetic error and the count stays.
pub proof fn lemma_full_counter_refuses(
    program_id: Seq<u8>,
    treasury_key: Seq<u8>,
    counter_key: Seq<u8>,
    message_key: Seq<u8>,
    message_lamports: u64,
    treasury_lamports: u64,
    payer_lamports: u64,
    content: Seq<char>,
)
    ensures
        post_refusal(
            program_id,
            treasury_key,
            counter_key,
            Some(MessageCounter { count: u64::MAX }),
            message_key,
            false,
            message_lamports,
            treasury_lamports,
            payer_lamports,
            content,
        ) is Some,
        utf8_len(content) <= MAX_CONTENT && slot_bump(message_seeds_of(counter_key, u64::MAX), program_id, message_key)
            is Some && slot_bump(treasury_seeds_of(), program_id, treasury_key) is Some ==> post_refusal(
            program_id,
            treasury_key,
            counter_key,
            Some(MessageCounter { count: u64::MAX }),
            message_key,
            false,
            message_lamports,
            treasury_lamports,
            payer_lamports,
            content,
        ) == Some(ErrorCode::CounterOverflow) && ErrorCode::CounterOverflow.spec_class() == ErrorClass::Arithmetic,
{
}

/// Number of successes among the outcomes of a run of posts.
pub open spec fn successes(ok: Seq<bool>) -> nat
    decreases ok.len(),
{
    if ok.len() == 0 {
        0
    } else {
        successes(ok.drop_last()) + if ok.last() {
            1nat
        } else {
            0nat
        }
    }
}

proof fn lemma_successes_grow(ok: Seq<bool>)
    requires
        ok.len() > 0,
    ensures
        successes(ok.drop_last()) <= successes(ok),
{
}

/// Counting is exact: along any run of posts from a fresh counter, where
/// each post either succeeds and counts or fails and leaves the counter as it
/// was, the count after the run is the number of successful posts.
pub proof fn lemma_count_tracks_posts(counters: Seq<MessageCounter>, ok: Seq<bool>)
    requires
        counters.len() == ok.len() + 1,
        counters[0].count == 0,
        forall|i: int|
            0 <= i < ok.len() ==> counters[i + 1] == if #[trigger] ok[i] {
                posted(counters[i])
            } else {
                counters[i]
            },
        successes(ok) <= u64::MAX,
    ensures
        counters.last().count == successes(ok),
    decreases ok.len(),
{
    if ok.len() > 0 {
        let n = ok.len() - 1;
        let shorter = counters.drop_last();
        let first = ok.drop_last();
        lemma_successes_grow(ok);
        assert forall|i: int| 0 <= i < first.len() implies shorter[i + 1] == if #[trigger] first[i] {
            posted(shorter[i])
        } else {
            shorter[i]
        } by {
            assert(ok[i] == first[i]);
        }
        lemma_count_tracks_posts(shorter, first);
        assert(shorter.last() == counters[n]);
        assert(ok[n] == ok.last());
    }
}

/// The length bound decides alone among the inputs' own checks: a message
/// within it is never refused for its length, and one past it is refused as
/// a validation error before anything else is looked at.
pub proof fn lemma_post_content_bound(
    program_id: Seq<u8>,
    treasury_key: Seq<u8>,
    counter_key: Seq<u8>,
    record: Option<MessageCounter>,
    message_key: Seq<u8>,
    message_open: bool,
    message_lamports: u64,
    treasury_lamports: u64,
    payer_lamports: u64,
    content: Seq<char>,
)
    ensures
        utf8_len(content) > MAX_CONTENT ==> post_refusal(
            program_id,
            treasury_key,
            counter_key,
            record,
            message_key,
            message_open,
            message_lamports,
            treasury_lamports,
            payer_lamports,
            content,
        ) == Some(ErrorCode::ContentTooLong) && ErrorCode::ContentTooLong.spec_class() == ErrorClass::Validation,
        utf8_len(content) <= MAX_CONTENT ==> post_refusal(
            program_id,
            treasury_key,
            counter_key,
            record,
            message_key,
            message_open,
            message_lamports,
            treasury_lamports,
            payer_lamports,
            content,
        ) != Some(ErrorCode::ContentTooLong),
{
}

} // verus!
