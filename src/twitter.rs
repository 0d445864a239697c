//! A small social feed: tweets keyed by topic and author, comments keyed by
//! author, content digest and tweet, and one reaction per author and tweet.

use vstd::prelude::*;
use vstd::string::StringSliceAdditionalSpecFns;

use crate::address::{
    address_seed, bump_of_slot, derived, lemma_seed_list_view, slot_bump, text_len, text_seed,
    utf8_len, Address, DerivationError,
};
use crate::errors::{ErrorClass, StorageError};
use crate::guard::authorize;
use crate::ledger::{allocate, allocation_outcome, close, closing_outcome, Slot, HEADER_SPACE};

verus! {

/// Longest topic, in bytes.
pub const TOPIC_LENGTH: usize = 32;

/// Longest tweet, in bytes.
pub const CONTENT_LENGTH: usize = 500;

/// Longest comment, in bytes.
pub const COMMENT_LENGTH: usize = 500;

/// Namespace seed of tweet slots.
pub const TWEET_SEED: &'static str = "TWEET_SEED";

/// Namespace seed of comment slots.
pub const COMMENT_SEED: &'static str = "COMMENT_SEED";

/// Namespace seed of reaction slots.
pub const TWEET_REACTION_SEED: &'static str = "TWEET_REACTION_SEED";

/// Bytes of a stored tweet: header, author, topic and content at their
/// longest with length prefixes, two counters and the bump.
pub const TWEET_SPACE: usize = HEADER_SPACE + 32 + (4 + TOPIC_LENGTH) + (4 + CONTENT_LENGTH) + 8 + 8 + 1;

/// Bytes of a stored comment: header, author, parent, content at its longest
/// with a length prefix, and the bump.
pub const COMMENT_SPACE: usize = HEADER_SPACE + 32 + 32 + (4 + COMMENT_LENGTH) + 1;

/// Bytes of a stored reaction: header, author, parent, kind and bump.
pub const REACTION_SPACE: usize = HEADER_SPACE + 32 + 32 + 1 + 1;

#[derive(Clone, Debug)]
pub struct Tweet {
    pub tweet_author: Address,
    pub topic: String,
    pub content: String,
    pub likes: u64,
    pub dislikes: u64,
    pub bump: u8,
}

#[derive(Clone, Debug)]
pub struct Comment {
    pub comment_author: Address,
    pub parent_tweet: Address,
    pub content: String,
    pub bump: u8,
}

#[derive(Clone, Copy, Debug, PartialEq, Eq, Structural)]
pub enum ReactionType {
    Like,
    Dislike,
}

#[derive(Clone, Copy, Debug, PartialEq, Eq)]
pub struct Reaction {
    pub reaction_author: Address,
    pub parent_tweet: Address,
    pub reaction: ReactionType,
    pub bump: u8,
}

#[derive(Clone, Copy, Debug, PartialEq, Eq, Structural)]
pub enum TwitterError {
    TopicTooLong,
    ContentTooLong,
    CommentTooLong,
    MaxLikesReached,
    MaxDislikesReached,
    Unauthorized,
    NotInitialized,
    AccountInUse,
    InsufficientFunds,
    Overflow,
    SeedsMismatch,
}

impl TwitterError {
    pub open spec fn spec_class(self) -> ErrorClass {
        match self {
            TwitterError::TopicTooLong => ErrorClass::Validation,
            TwitterError::ContentTooLong => ErrorClass::Validation,
            TwitterError::CommentTooLong => ErrorClass::Validation,
            TwitterError::SeedsMismatch => ErrorClass::Validation,
            TwitterError::MaxLikesReached => ErrorClass::Arithmetic,
            TwitterError::MaxDislikesReached => ErrorClass::Arithmetic,
            TwitterError::Overflow => ErrorClass::Arithmetic,
            TwitterError::Unauthorized => ErrorClass::Authorization,
            _ => ErrorClass::State,
        }
    }

    /// The class of this error.
    pub fn class(&self) -> (r: ErrorClass)
        ensures
            r == self.spec_class(),
    {
        match self {
            TwitterError::TopicTooLong => ErrorClass::Validation,
            TwitterError::ContentTooLong => ErrorClass::Validation,
            TwitterError::CommentTooLong => ErrorClass::Validation,
            TwitterError::SeedsMismatch => ErrorClass::Validation,
            TwitterError::MaxLikesReached => ErrorClass::Arithmetic,
            TwitterError::MaxDislikesReached => ErrorClass::Arithmetic,
            TwitterError::Overflow => ErrorClass::Arithmetic,
            TwitterError::Unauthorized => ErrorClass::Authorization,
            _ => ErrorClass::State,
        }
    }
}

pub open spec fn storage_error(e: StorageError) -> TwitterError {
    match e {
        StorageError::AccountInUse => TwitterError::AccountInUse,
        StorageError::NotInitialized => TwitterError::NotInitialized,
        StorageError::InsufficientFunds => TwitterError::InsufficientFunds,
        StorageError::Overflow => TwitterError::Overflow,
    }
}

fn from_storage(e: StorageError) -> (r: TwitterError)
    ensures
        r == storage_error(e),
{
    match e {
        StorageError::AccountInUse => TwitterError::AccountInUse,
        StorageError::NotInitialized => TwitterError::NotInitialized,
        StorageError::InsufficientFunds => TwitterError::InsufficientFunds,
        StorageError::Overflow => TwitterError::Overflow,
    }
}

/// The SHA-256 digest of some bytes.
pub uninterp spec fn sha256_of(data: Seq<u8>) -> Seq<u8>;

/// Relies on `solana_program::hash::hash`: the SHA-256 digest of the bytes,
/// which is 32 bytes long.
#[verifier::external_body]
fn digest(data: &[u8]) -> (r: Vec<u8>)
    ensures
        r@ == sha256_of(data@),
        r@.len() == 32,
{
    anchor_lang::solana_program::hash::hash(data).to_bytes().to_vec()
}

/// The seeds of the tweet of `author` on `topic`.
pub open spec fn tweet_seeds_of(topic: Seq<char>, author: Seq<u8>) -> Seq<Seq<u8>> {
    seq![vstd::utf8::encode_utf8(topic), TWEET_SEED.spec_bytes(), author]
}

/// Builds the seeds of the tweet of `author` on `topic`.
pub fn tweet_seeds(topic: &String, author: &Address) -> (r: Vec<Vec<u8>>)
    ensures
        r.deep_view() == tweet_seeds_of(topic@, author@),
{
    let mut r: Vec<Vec<u8>> = Vec::new();
    r.push(text_seed(topic.as_str()));
    r.push(text_seed(TWEET_SEED));
    r.push(address_seed(author));
    proof {
        lemma_seed_list_view(r);
    }
    assert(r.deep_view() =~= tweet_seeds_of(topic@, author@));
    r
}

/// The seeds of the comment of `author` with `content` under `tweet`.
pub open spec fn comment_seeds_of(author: Seq<u8>, content: Seq<char>, tweet: Seq<u8>) -> Seq<Seq<u8>> {
    seq![COMMENT_SEED.spec_bytes(), author, sha256_of(vstd::utf8::encode_utf8(content)), tweet]
}

/// Builds the seeds of the comment of `author` with `content` under `tweet`:
/// the content stands there by its digest.
pub fn comment_seeds(author: &Address, content: &String, tweet: &Address) -> (r: Vec<Vec<u8>>)
    ensures
        r.deep_view() == comment_seeds_of(author@, content@, tweet@),
{
    let mut r: Vec<Vec<u8>> = Vec::new();
    r.push(text_seed(COMMENT_SEED));
    r.push(address_seed(author));
    r.push(digest(content.as_str().as_bytes()));
    r.push(address_seed(tweet));
    proof {
        lemma_seed_list_view(r);
    }
    assert(r.deep_view() =~= comment_seeds_of(author@, content@, tweet@));
    r
}

/// The seeds of the reaction of `author` to `tweet`.
pub open spec fn reaction_seeds_of(author: Seq<u8>, tweet: Seq<u8>) -> Seq<Seq<u8>> {
    seq![TWEET_REACTION_SEED.spec_bytes(), author, tweet]
}

/// Builds the seeds of the reaction of `author` to `tweet`.
pub fn reaction_seeds(author: &Address, tweet: &Address) -> (r: Vec<Vec<u8>>)
    ensures
        r.deep_view() == reaction_seeds_of(author@, tweet@),
{
    let mut r: Vec<Vec<u8>> = Vec::new();
    r.push(text_seed(TWEET_REACTION_SEED));
    r.push(address_seed(author));
    r.push(address_seed(tweet));
    proof {
        lemma_seed_list_view(r);
    }
    assert(r.deep_view() =~= reaction_seeds_of(author@, tweet@));
    r
}

/// Why a tweet cannot be created, checked in this order: the topic, the
/// content, the slot's address, then the storage.
pub open spec fn tweet_refusal(
    program_id: Seq<u8>,
    key: Seq<u8>,
    author: Seq<u8>,
    topic: Seq<char>,
    content: Seq<char>,
) -> Option<TwitterError> {
    if utf8_len(topic) > TOPIC_LENGTH {
        Some(TwitterError::TopicTooLong)
    } else if utf8_len(content) > CONTENT_LENGTH {
        Some(TwitterError::ContentTooLong)
    } else if slot_bump(tweet_seeds_of(topic, author), program_id, key) is None {
        Some(TwitterError::SeedsMismatch)
    } else {
        None
    }
}

/// Creates the tweet of `author` on `topic` with no reactions, at the
/// canonical slot of its seeds, funded by the author. The lengths are checked
/// before anything else; on failure nothing changes.
pub fn initialize_tweet(
    program_id: &Address,
    tweet: &mut Slot<Tweet>,
    author: &Address,
    author_lamports: &mut u64,
    topic: String,
    content: String,
) -> (r: Result<(), TwitterError>)
    ensures
        final(tweet).key == old(tweet).key,
        match tweet_refusal(program_id@, old(tweet).key@, author@, topic@, content@) {
            Some(e) => r == Err::<(), TwitterError>(e) && *final(tweet) == *old(tweet)
                && *final(author_lamports) == *old(author_lamports),
            None => match allocation_outcome(
                old(tweet).data is Some,
                old(tweet).lamports,
                *old(author_lamports),
                TWEET_SPACE as nat,
            ) {
                Ok((s, p)) => {
                    &&& r is Ok
                    &&& final(tweet).lamports == s
                    &&& *final(author_lamports) == p
                    &&& final(tweet).data == Some(
                        (Tweet {
                            tweet_author: *author,
                            topic,
                            content,
                            likes: 0,
                            dislikes: 0,
                            bump: slot_bump(tweet_seeds_of(topic@, author@), program_id@, old(tweet).key@)->Some_0,
                        }),
                    )
                    &&& derived(
                        tweet_seeds_of(topic@, author@),
                        final(tweet).data->Some_0.bump,
                        program_id@,
                    ) == Ok::<Seq<u8>, DerivationError>(old(tweet).key@)
                },
                Err(e) => r == Err::<(), TwitterError>(storage_error(e)) && *final(tweet) == *old(tweet)
                    && *final(author_lamports) == *old(author_lamports),
            },
        },
{
    if text_len(&topic) > TOPIC_LENGTH {
        return Err(TwitterError::TopicTooLong);
    }
    if text_len(&content) > CONTENT_LENGTH {
        return Err(TwitterError::ContentTooLong);
    }
    let seeds = tweet_seeds(&topic, author);
    let bump = match bump_of_slot(&seeds, program_id, &tweet.key) {
        Some(b) => b,
        None => {
            return Err(TwitterError::SeedsMismatch);
        },
    };
    let record = Tweet { tweet_author: *author, topic, content, likes: 0, dislikes: 0, bump };
    match allocate(tweet, author_lamports, TWEET_SPACE, record) {
        Ok(()) => Ok(()),
        Err(e) => Err(from_storage(e)),
    }
}

/// The length bound decides alone among the inputs' own checks: a topic and
/// content within their bounds are never refused for their length, and a
/// content past its bound is refused as a validation error before the slot
/// is looked at.
pub proof fn lemma_content_bound(program_id: Seq<u8>, key: Seq<u8>, author: Seq<u8>, topic: Seq<char>, content: Seq<char>)
    requires
        utf8_len(topic) <= TOPIC_LENGTH,
    ensures
        utf8_len(content) > CONTENT_LENGTH ==> tweet_refusal(program_id, key, author, topic, content) == Some(
            TwitterError::ContentTooLong,
        ) && TwitterError::ContentTooLong.spec_class() == ErrorClass::Validation,
        utf8_len(content) <= CONTENT_LENGTH && slot_bump(tweet_seeds_of(topic, author), program_id, key) is Some
            ==> tweet_refusal(program_id, key, author, topic, content) is None,
{
}

/// Why a comment cannot be created, checked in this order: the content, the
/// parent tweet, the slot's address, then the storage.
pub open spec fn comment_refusal(
    program_id: Seq<u8>,
    key: Seq<u8>,
    tweet_open: bool,
    tweet_key: Seq<u8>,
    author: Seq<u8>,
    content: Seq<char>,
) -> Option<TwitterError> {
    if utf8_len(content) > COMMENT_LENGTH {
        Some(TwitterError::CommentTooLong)
    } else if !tweet_open {
        Some(TwitterError::NotInitialized)
    } else if slot_bump(comment_seeds_of(author, content, tweet_key), program_id, key) is None {
        Some(TwitterError::SeedsMismatch)
    } else {
        None
    }
}

/// The length bound decides alone among the inputs' own checks: a comment
/// within it under an existing tweet, at its canonical slot, is never
/// refused, and one past it is refused as a validation error before the
/// tweet or the slot is looked at.
pub proof fn lemma_comment_bound(
    program_id: Seq<u8>,
    key: Seq<u8>,
    tweet_open: bool,
    tweet_key: Seq<u8>,
    author: Seq<u8>,
    content: Seq<char>,
)
    ensures
        utf8_len(content) > COMMENT_LENGTH ==> comment_refusal(program_id, key, tweet_open, tweet_key, author, content)
            == Some(TwitterError::CommentTooLong) && TwitterError::CommentTooLong.spec_class() == ErrorClass::Validation,
        utf8_len(content) <= COMMENT_LENGTH && tweet_open && slot_bump(
            comment_seeds_of(author, content, tweet_key),
            program_id,
            key,
        ) is Some ==> comment_refusal(program_id, key, tweet_open, tweet_key, author, content) is None,
{
}

/// Creates the comment of `author` under an existing tweet, at the canonical
/// slot of its seeds, funded by the author. On failure nothing changes.
pub fn add_comment(
    program_id: &Address,
    comment: &mut Slot<Comment>,
    tweet: &Slot<Tweet>,
    author: &Address,
    author_lamports: &mut u64,
    content: String,
) -> (r: Result<(), TwitterError>)
    ensures
        final(comment).key == old(comment).key,
        match comment_refusal(program_id@, old(comment).key@, tweet.data is Some, tweet.key@, author@, content@) {
            Some(e) => r == Err::<(), TwitterError>(e) && *final(comment) == *old(comment)
                && *final(author_lamports) == *old(author_lamports),
            None => match allocation_outcome(
                old(comment).data is Some,
                old(comment).lamports,
                *old(author_lamports),
                COMMENT_SPACE as nat,
            ) {
                Ok((s, p)) => {
                    &&& r is Ok
                    &&& final(comment).lamports == s
                    &&& *final(author_lamports) == p
                    &&& final(comment).data == Some(
                        (Comment {
                            comment_author: *author,
                            parent_tweet: tweet.key,
                            content,
                            bump: slot_bump(
                                comment_seeds_of(author@, content@, tweet.key@),
                                program_id@,
                                old(comment).key@,
                            )->Some_0,
                        }),
                    )
                    &&& derived(
                        comment_seeds_of(author@, content@, tweet.key@),
                        final(comment).data->Some_0.bump,
                        program_id@,
                    ) == Ok::<Seq<u8>, DerivationError>(old(comment).key@)
                },
                Err(e) => r == Err::<(), TwitterError>(storage_error(e)) && *final(comment) == *old(comment)
                    && *final(author_lamports) == *old(author_lamports),
            },
        },
{
    if text_len(&content) > COMMENT_LENGTH {
        return Err(TwitterError::CommentTooLong);
    }
    if tweet.data.is_none() {
        return Err(TwitterError::NotInitialized);
    }
    let seeds = comment_seeds(author, &content, &tweet.key);
    let bump = match bump_of_slot(&seeds, program_id, &comment.key) {
        Some(b) => b,
        None => {
            return Err(TwitterError::SeedsMismatch);
        },
    };
    let record = Comment { comment_author: *author, parent_tweet: tweet.key, content, bump };
    match allocate(comment, author_lamports, COMMENT_SPACE, record) {
        Ok(()) => Ok(()),
        Err(e) => Err(from_storage(e)),
    }
}

/// Why a comment cannot be removed by `caller`: it must exist and the caller
/// must be its author.
pub open spec fn removal_refusal(record: Option<Comment>, caller: Seq<u8>) -> Option<TwitterError> {
    match record {
        None => Some(TwitterError::NotInitialized),
        Some(c) => if c.comment_author@ != caller {
            Some(TwitterError::Unauthorized)
        } else {
            None
        },
    }
}

/// Only the author removes a comment: a stored comment is never refused to
/// its author, and always refused as unauthorized to anyone else.
pub proof fn lemma_only_author_removes(c: Comment, caller: Seq<u8>)
    ensures
        caller == c.comment_author@ ==> removal_refusal(Some(c), caller) is None,
        caller != c.comment_author@ ==> removal_refusal(Some(c), caller) == Some(TwitterError::Unauthorized)
            && TwitterError::Unauthorized.spec_class() == ErrorClass::Authorization,
{
}

/// Closes the comment and refunds its whole deposit to its author, who must
/// be the caller. On failure the comment and every balance stay as they were.
pub fn remove_comment(comment: &mut Slot<Comment>, caller: &Address, caller_lamports: &mut u64) -> (r: Result<(), TwitterError>)
    ensures
        final(comment).key == old(comment).key,
        match removal_refusal(old(comment).data, caller@) {
            Some(e) => r == Err::<(), TwitterError>(e) && *final(comment) == *old(comment)
                && *final(caller_lamports) == *old(caller_lamports),
            None => match closing_outcome(true, old(comment).lamports, *old(caller_lamports)) {
                Ok(b) => {
                    &&& r is Ok
                    &&& final(comment).data is None
                    &&& final(comment).lamports == 0
                    &&& *final(caller_lamports) == b
                },
                Err(e) => r == Err::<(), TwitterError>(storage_error(e)) && *final(comment) == *old(comment)
                    && *final(caller_lamports) == *old(caller_lamports),
            },
        },
{
    let author = match &comment.data {
        None => {
            return Err(TwitterError::NotInitialized);
        },
        Some(c) => c.comment_author,
    };
    if authorize(&author, caller).is_err() {
        return Err(TwitterError::Unauthorized);
    }
    match close(comment, caller_lamports) {
        Ok(()) => Ok(()),
        Err(e) => Err(from_storage(e)),
    }
}

/// The tweet with one more reaction of the given kind.
pub open spec fn reacted(t: Tweet, kind: ReactionType) -> Tweet {
    match kind {
        ReactionType::Like => Tweet { likes: (t.likes + 1) as u64, ..t },
        ReactionType::Dislike => Tweet { dislikes: (t.dislikes + 1) as u64, ..t },
    }
}

/// Why a reaction cannot be added, checked in this order: the parent tweet,
/// the slot's address, a vacant slot, then the counter of that kind.
pub open spec fn reaction_refusal(
    program_id: Seq<u8>,
    key: Seq<u8>,
    open: bool,
    tweet: Option<Tweet>,
    tweet_key: Seq<u8>,
    author: Seq<u8>,
    kind: ReactionType,
) -> Option<TwitterError> {
    if tweet is None {
        Some(TwitterError::NotInitialized)
    } else if slot_bump(reaction_seeds_of(author, tweet_key), program_id, key) is None {
        Some(TwitterError::SeedsMismatch)
    } else if open {
        Some(TwitterError::AccountInUse)
    } else if kind == ReactionType::Like && tweet->Some_0.likes == u64::MAX {
        Some(TwitterError::MaxLikesReached)
    } else if kind == ReactionType::Dislike && tweet->Some_0.dislikes == u64::MAX {
        Some(TwitterError::MaxDislikesReached)
    } else {
        None
    }
}

/// Records the reaction of `author` to a tweet and counts it on the tweet:
/// a like or a dislike, each counter checked on its own. On failure nothing
/// changes.
pub fn add_reaction(
    program_id: &Address,
    reaction: &mut Slot<Reaction>,
    tweet: &mut Slot<Tweet>,
    author: &Address,
    author_lamports: &mut u64,
    kind: ReactionType,
) -> (r: Result<(), TwitterError>)
    ensures
        final(reaction).key == old(reaction).key,
        final(tweet).key == old(tweet).key,
        final(tweet).lamports == old(tweet).lamports,
        match reaction_refusal(
            program_id@,
            old(reaction).key@,
            old(reaction).data is Some,
            old(tweet).data,
            old(tweet).key@,
            author@,
            kind,
        ) {
            Some(e) => r == Err::<(), TwitterError>(e) && *final(reaction) == *old(reaction)
                && final(tweet).data == old(tweet).data && *final(author_lamports) == *old(author_lamports),
            None => match allocation_outcome(false, old(reaction).lamports, *old(author_lamports), REACTION_SPACE as nat) {
                Ok((s, p)) => {
                    &&& r is Ok
                    &&& final(reaction).lamports == s
                    &&& *final(author_lamports) == p
                    &&& final(reaction).data == Some(
                        (Reaction {
                            reaction_author: *author,
                            parent_tweet: old(tweet).key,
                            reaction: kind,
                            bump: slot_bump(reaction_seeds_of(author@, old(tweet).key@), program_id@, old(reaction).key@)->Some_0,
                        }),
                    )
                    &&& final(tweet).data == Some(reacted(old(tweet).data->Some_0, kind))
                    &&& derived(
                        reaction_seeds_of(author@, old(tweet).key@),
                        final(reaction).data->Some_0.bump,
                        program_id@,
                    ) == Ok::<Seq<u8>, DerivationError>(old(reaction).key@)
                },
                Err(e) => r == Err::<(), TwitterError>(storage_error(e)) && *final(reaction) == *old(reaction)
                    && final(tweet).data == old(tweet).data && *final(author_lamports) == *old(author_lamports),
            },
        },
{
    let (likes, dislikes) = match &tweet.data {
        None => {
            return Err(TwitterError::NotInitialized);
        },
        Some(t) => (t.likes, t.dislikes),
    };
    let seeds = reaction_seeds(author, &tweet.key);
    let bump = match bump_of_slot(&seeds, program_id, &reaction.key) {
        Some(b) => b,
        None => {
            return Err(TwitterError::SeedsMismatch);
        },
    };
    if reaction.data.is_some() {
        return Err(TwitterError::AccountInUse);
    }
    match kind {
        ReactionType::Like => if likes == u64::MAX {
            return Err(TwitterError::MaxLikesReached);
        },
        ReactionType::Dislike => if dislikes == u64::MAX {
            return Err(TwitterError::MaxDislikesReached);
        },
    }
    let record = Reaction { reaction_author: *author, parent_tweet: tweet.key, reaction: kind, bump };
    match allocate(reaction, author_lamports, REACTION_SPACE, record) {
        Ok(()) => {},
        Err(e) => {
            return Err(from_storage(e));
        },
    }
    let mut updated = tweet.data.take().unwrap();
    match kind {
        ReactionType::Like => updated.likes = likes + 1,
        ReactionType::Dislike => updated.dislikes = dislikes + 1,
    }
    tweet.data = Some(updated);
    Ok(())
}

} // verus!
