use slot_ledger::address::{find_address, Address};
use slot_ledger::errors::ErrorClass;
use slot_ledger::ledger::{storage_deposit, Slot};
use slot_ledger::twitter::{
    add_comment, add_reaction, comment_seeds, initialize_tweet, reaction_seeds, remove_comment,
    tweet_seeds, Comment, Reaction, ReactionType, Tweet, TwitterError, COMMENT_SPACE, TWEET_SPACE,
};

fn program() -> Address {
    Address::new([21u8; 32])
}

fn new_tweet(author: &Address, funds: &mut u64, topic: &str) -> Slot<Tweet> {
    let (key, _) = find_address(&tweet_seeds(&topic.to_string(), author), &program()).unwrap();
    let mut slot = Slot::vacant(key);
    initialize_tweet(&program(), &mut slot, author, funds, topic.to_string(), "hello world".to_string()).unwrap();
    slot
}

fn comment_slot(author: &Address, content: &str, tweet: &Address) -> Slot<Comment> {
    let (key, _) = find_address(&comment_seeds(author, &content.to_string(), tweet), &program()).unwrap();
    Slot::vacant(key)
}

fn reaction_slot(author: &Address, tweet: &Address) -> Slot<Reaction> {
    let (key, _) = find_address(&reaction_seeds(author, tweet), &program()).unwrap();
    Slot::vacant(key)
}

#[test]
fn tweet_is_stored_with_its_bump() {
    let author = Address::new([1u8; 32]);
    let mut funds: u64 = 100_000_000;
    let tweet = new_tweet(&author, &mut funds, "rust");
    let (_, bump) = find_address(&tweet_seeds(&"rust".to_string(), &author), &program()).unwrap();
    assert_eq!(tweet.lamports, storage_deposit(TWEET_SPACE));
    assert_eq!(funds, 100_000_000 - storage_deposit(TWEET_SPACE));
    let t = tweet.data.unwrap();
    assert_eq!(t.tweet_author, author);
    assert_eq!(t.topic, "rust");
    assert_eq!(t.content, "hello world");
    assert_eq!((t.likes, t.dislikes), (0, 0));
    assert_eq!(t.bump, bump);
}

#[test]
fn tweet_lengths_are_checked_before_storage() {
    let author = Address::new([1u8; 32]);
    let mut funds: u64 = 100_000_000;
    let topic = "t".repeat(32);
    let (key, _) = find_address(&tweet_seeds(&topic, &author), &program()).unwrap();
    let mut slot: Slot<Tweet> = Slot::vacant(key);
    let err = initialize_tweet(&program(), &mut slot, &author, &mut funds, topic.clone(), "c".repeat(501)).unwrap_err();
    assert_eq!(err, TwitterError::ContentTooLong);
    assert_eq!(err.class(), ErrorClass::Validation);
    assert!(slot.data.is_none());
    assert_eq!(slot.lamports, 0);
    assert_eq!(funds, 100_000_000);
    assert_eq!(
        initialize_tweet(&program(), &mut slot, &author, &mut funds, "t".repeat(33), "c".to_string()),
        Err(TwitterError::TopicTooLong)
    );
    initialize_tweet(&program(), &mut slot, &author, &mut funds, topic.clone(), "c".repeat(500)).unwrap();
    assert!(slot.is_open());
    assert_eq!(
        initialize_tweet(&program(), &mut slot, &author, &mut funds, topic, "again".to_string()),
        Err(TwitterError::AccountInUse)
    );
}

#[test]
fn tweet_at_a_foreign_slot_is_refused() {
    let author = Address::new([1u8; 32]);
    let mut funds: u64 = 100_000_000;
    let mut slot: Slot<Tweet> = Slot::vacant(Address::new([3u8; 32]));
    assert_eq!(
        initialize_tweet(&program(), &mut slot, &author, &mut funds, "a".to_string(), "b".to_string()),
        Err(TwitterError::SeedsMismatch)
    );
    assert_eq!(funds, 100_000_000);
}

#[test]
fn comment_scenario_removal_by_author_and_stranger() {
    let author = Address::new([1u8; 32]);
    let stranger = Address::new([2u8; 32]);
    let mut author_funds: u64 = 100_000_000;
    let tweet = new_tweet(&author, &mut author_funds, "topic");
    let mut comment = comment_slot(&author, "nice", &tweet.key);
    add_comment(&program(), &mut comment, &tweet, &author, &mut author_funds, "nice".to_string()).unwrap();
    let after_comment = author_funds;
    assert_eq!(comment.lamports, storage_deposit(COMMENT_SPACE));
    {
        let c = comment.data.as_ref().unwrap();
        assert_eq!(c.comment_author, author);
        assert_eq!(c.parent_tweet, tweet.key);
        assert_eq!(c.content, "nice");
    }

    let mut stranger_funds: u64 = 7;
    let err = remove_comment(&mut comment, &stranger, &mut stranger_funds).unwrap_err();
    assert_eq!(err, TwitterError::Unauthorized);
    assert_eq!(err.class(), ErrorClass::Authorization);
    assert!(comment.is_open());
    assert_eq!(stranger_funds, 7);

    remove_comment(&mut comment, &author, &mut author_funds).unwrap();
    assert!(!comment.is_open());
    assert_eq!(comment.lamports, 0);
    assert_eq!(author_funds, after_comment + storage_deposit(COMMENT_SPACE));
    assert_eq!(remove_comment(&mut comment, &author, &mut author_funds), Err(TwitterError::NotInitialized));
}

#[test]
fn comment_slot_depends_on_content_digest() {
    let author = Address::new([1u8; 32]);
    let tweet = Address::new([4u8; 32]);
    let seeds = comment_seeds(&author, &"abc".to_string(), &tweet);
    assert_eq!(seeds.len(), 4);
    assert_eq!(seeds[0], b"COMMENT_SEED".to_vec());
    assert_eq!(seeds[1], vec![1u8; 32]);
    let expected: Vec<u8> = vec![
        0xba, 0x78, 0x16, 0xbf, 0x8f, 0x01, 0xcf, 0xea, 0x41, 0x41, 0x40, 0xde, 0x5d, 0xae, 0x22, 0x23, 0xb0, 0x03,
        0x61, 0xa3, 0x96, 0x17, 0x7a, 0x9c, 0xb4, 0x10, 0xff, 0x61, 0xf2, 0x00, 0x15, 0xad,
    ];
    assert_eq!(seeds[2], expected);
    assert_eq!(seeds[3], vec![4u8; 32]);
    let a = comment_slot(&author, "one", &tweet);
    let b = comment_slot(&author, "two", &tweet);
    assert_ne!(a.key, b.key);
}

#[test]
fn comment_checks_length_parent_and_slot() {
    let author = Address::new([1u8; 32]);
    let mut funds: u64 = 100_000_000;
    let tweet = new_tweet(&author, &mut funds, "topic");
    let long = "c".repeat(501);
    let mut slot = comment_slot(&author, &long, &tweet.key);
    let before = funds;
    let err = add_comment(&program(), &mut slot, &tweet, &author, &mut funds, long).unwrap_err();
    assert_eq!(err, TwitterError::CommentTooLong);
    assert!(slot.data.is_none());
    assert_eq!(funds, before);

    let missing: Slot<Tweet> = Slot::vacant(tweet.key);
    let mut slot = comment_slot(&author, "x", &tweet.key);
    assert_eq!(
        add_comment(&program(), &mut slot, &missing, &author, &mut funds, "x".to_string()),
        Err(TwitterError::NotInitialized)
    );
    assert_eq!(
        add_comment(&program(), &mut slot, &tweet, &author, &mut funds, "y".to_string()),
        Err(TwitterError::SeedsMismatch)
    );
    let mut poor: u64 = 1;
    assert_eq!(
        add_comment(&program(), &mut slot, &tweet, &author, &mut poor, "x".to_string()),
        Err(TwitterError::InsufficientFunds)
    );
}

#[test]
fn reactions_count_likes_and_dislikes() {
    let author = Address::new([1u8; 32]);
    let fan = Address::new([2u8; 32]);
    let critic = Address::new([3u8; 32]);
    let mut funds: u64 = 100_000_000;
    let mut tweet = new_tweet(&author, &mut funds, "topic");
    let mut fan_funds: u64 = 10_000_000;
    let mut critic_funds: u64 = 10_000_000;
    let mut like = reaction_slot(&fan, &tweet.key);
    add_reaction(&program(), &mut like, &mut tweet, &fan, &mut fan_funds, ReactionType::Like).unwrap();
    let mut dislike = reaction_slot(&critic, &tweet.key);
    add_reaction(&program(), &mut dislike, &mut tweet, &critic, &mut critic_funds, ReactionType::Dislike).unwrap();
    let t = tweet.data.as_ref().unwrap();
    assert_eq!((t.likes, t.dislikes), (1, 1));
    let r = like.data.unwrap();
    assert_eq!(r.reaction_author, fan);
    assert_eq!(r.parent_tweet, tweet.key);
    assert_eq!(r.reaction, ReactionType::Like);

    assert_eq!(
        add_reaction(&program(), &mut like, &mut tweet, &fan, &mut fan_funds, ReactionType::Dislike),
        Err(TwitterError::AccountInUse)
    );
    assert_eq!(tweet.data.as_ref().unwrap().dislikes, 1);
}

#[test]
fn reaction_counters_refuse_to_wrap() {
    let author = Address::new([1u8; 32]);
    let fan = Address::new([2u8; 32]);
    let mut funds: u64 = 100_000_000;
    let mut tweet = new_tweet(&author, &mut funds, "topic");
    tweet.data.as_mut().unwrap().likes = u64::MAX;
    tweet.data.as_mut().unwrap().dislikes = u64::MAX;
    let mut slot = reaction_slot(&fan, &tweet.key);
    let mut fan_funds: u64 = 10_000_000;
    let err = add_reaction(&program(), &mut slot, &mut tweet, &fan, &mut fan_funds, ReactionType::Like).unwrap_err();
    assert_eq!(err, TwitterError::MaxLikesReached);
    assert_eq!(err.class(), ErrorClass::Arithmetic);
    assert_eq!(
        add_reaction(&program(), &mut slot, &mut tweet, &fan, &mut fan_funds, ReactionType::Dislike),
        Err(TwitterError::MaxDislikesReached)
    );
    assert!(slot.data.is_none());
    assert_eq!(fan_funds, 10_000_000);
    assert_eq!(tweet.data.as_ref().unwrap().likes, u64::MAX);
}
