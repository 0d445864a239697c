use slot_ledger::address::{find_address, Address};
use slot_ledger::board::{
    counter_seeds, initialize, treasury_seeds, message_seeds, post_message, ErrorCode, Message, MessageCounter,
    MessagePosted, MESSAGE_SPACE, POST_FEE,
};
use slot_ledger::errors::ErrorClass;
use slot_ledger::ledger::{storage_deposit, Slot};

fn program() -> Address {
    Address::new([11u8; 32])
}

fn treasury_key() -> Address {
    find_address(&treasury_seeds(), &program()).unwrap().0
}

fn new_board(funds: &mut u64) -> Slot<MessageCounter> {
    let (key, _) = find_address(&counter_seeds(), &program()).unwrap();
    let mut counter = Slot::vacant(key);
    initialize(&program(), &mut counter, funds).unwrap();
    counter
}

fn next_message_slot(counter: &Slot<MessageCounter>) -> Slot<Message> {
    let count = counter.data.unwrap().count;
    let (key, _) = find_address(&message_seeds(&counter.key, count), &program()).unwrap();
    Slot::vacant(key)
}

#[test]
fn board_initialize_is_idempotent_at_zero() {
    let mut funds: u64 = 10_000_000;
    let mut counter = new_board(&mut funds);
    assert_eq!(counter.data.unwrap().count, 0);
    let left = funds;
    assert_eq!(initialize(&program(), &mut counter, &mut funds), Ok(()));
    assert_eq!(funds, left);
    counter.data = Some(MessageCounter { count: 3 });
    assert_eq!(initialize(&program(), &mut counter, &mut funds), Err(ErrorCode::AlreadyInitialized));
    assert_eq!(counter.data.unwrap().count, 3);

    let mut stray: Slot<MessageCounter> = Slot::vacant(Address::new([1u8; 32]));
    assert_eq!(initialize(&program(), &mut stray, &mut funds), Err(ErrorCode::SeedsMismatch));
}

#[test]
fn posts_are_counted_and_paid_for() {
    let mut funds: u64 = 100_000_000;
    let mut counter = new_board(&mut funds);
    let poster = Address::new([5u8; 32]);
    let mut treasury: u64 = 0;
    let deposit = storage_deposit(MESSAGE_SPACE);
    for n in 0..3u64 {
        let mut message = next_message_slot(&counter);
        let before = funds;
        let ev = post_message(
            &program(),
            &mut counter,
            &mut message,
            &treasury_key(),
            &mut treasury,
            &poster,
            &mut funds,
            format!("post {}", n),
            1_700_000_000 + n as i64,
        )
        .unwrap();
        assert_eq!(ev, MessagePosted { poster, message: message.key, timestamp: 1_700_000_000 + n as i64 });
        let stored = message.data.unwrap();
        assert_eq!(stored.content, format!("post {}", n));
        assert_eq!(stored.poster, poster);
        assert_eq!(message.lamports, deposit);
        assert_eq!(funds, before - deposit - POST_FEE);
    }
    assert_eq!(counter.data.unwrap().count, 3);
    assert_eq!(treasury, 3 * POST_FEE);
}

#[test]
fn message_content_bound_is_checked_first() {
    let mut funds: u64 = 100_000_000;
    let mut counter = new_board(&mut funds);
    let poster = Address::new([5u8; 32]);
    let mut treasury: u64 = 0;
    let mut message = next_message_slot(&counter);
    let before = funds;
    let err = post_message(&program(), &mut counter, &mut message, &treasury_key(), &mut treasury, &poster, &mut funds, "x".repeat(101), 1)
        .unwrap_err();
    assert_eq!(err, ErrorCode::ContentTooLong);
    assert_eq!(err.class(), ErrorClass::Validation);
    assert!(message.data.is_none());
    assert_eq!(message.lamports, 0);
    assert_eq!(funds, before);
    assert_eq!(counter.data.unwrap().count, 0);
    assert!(post_message(&program(), &mut counter, &mut message, &treasury_key(), &mut treasury, &poster, &mut funds, "x".repeat(100), 1)
        .is_ok());
    assert_eq!(counter.data.unwrap().count, 1);
}

#[test]
fn fee_goes_only_to_the_derived_treasury() {
    let mut funds: u64 = 100_000_000;
    let mut counter = new_board(&mut funds);
    let poster = Address::new([5u8; 32]);
    let mut treasury: u64 = 0;
    let mut message = next_message_slot(&counter);
    let before = funds;
    let err = post_message(
        &program(),
        &mut counter,
        &mut message,
        &Address::new([2u8; 32]),
        &mut treasury,
        &poster,
        &mut funds,
        "hi".to_string(),
        1,
    )
    .unwrap_err();
    assert_eq!(err, ErrorCode::SeedsMismatch);
    assert_eq!((treasury, funds), (0, before));
    assert!(message.data.is_none());
}

#[test]
fn full_counter_refuses_a_post() {
    let mut funds: u64 = 100_000_000;
    let mut counter = new_board(&mut funds);
    counter.data = Some(MessageCounter { count: u64::MAX });
    let mut message = next_message_slot(&counter);
    let poster = Address::new([5u8; 32]);
    let mut treasury: u64 = 0;
    let before = funds;
    let err = post_message(&program(), &mut counter, &mut message, &treasury_key(), &mut treasury, &poster, &mut funds, "hi".to_string(), 1)
        .unwrap_err();
    assert_eq!(err, ErrorCode::CounterOverflow);
    assert_eq!(err.class(), ErrorClass::Arithmetic);
    assert_eq!(counter.data.unwrap().count, u64::MAX);
    assert!(message.data.is_none());
    assert_eq!(funds, before);
    assert_eq!(treasury, 0);
}

#[test]
fn post_needs_the_right_slot_and_funds() {
    let mut funds: u64 = 100_000_000;
    let mut counter = new_board(&mut funds);
    let poster = Address::new([5u8; 32]);
    let mut treasury: u64 = 0;
    let mut wrong: Slot<Message> = Slot::vacant(Address::new([1u8; 32]));
    assert_eq!(
        post_message(&program(), &mut counter, &mut wrong, &treasury_key(), &mut treasury, &poster, &mut funds, "a".to_string(), 1),
        Err(ErrorCode::SeedsMismatch)
    );
    let mut message = next_message_slot(&counter);
    let mut poor: u64 = storage_deposit(MESSAGE_SPACE) + POST_FEE - 1;
    assert_eq!(
        post_message(&program(), &mut counter, &mut message, &treasury_key(), &mut treasury, &poster, &mut poor, "a".to_string(), 1),
        Err(ErrorCode::InsufficientFunds)
    );
    assert_eq!(poor, storage_deposit(MESSAGE_SPACE) + POST_FEE - 1);
    let mut full_treasury: u64 = u64::MAX;
    assert_eq!(
        post_message(&program(), &mut counter, &mut message, &treasury_key(), &mut full_treasury, &poster, &mut funds, "a".to_string(), 1),
        Err(ErrorCode::Overflow)
    );
    let mut missing: Slot<MessageCounter> = Slot::vacant(counter.key);
    assert_eq!(
        post_message(&program(), &mut missing, &mut message, &treasury_key(), &mut treasury, &poster, &mut funds, "a".to_string(), 1),
        Err(ErrorCode::NotInitialized)
    );
    post_message(&program(), &mut counter, &mut message, &treasury_key(), &mut treasury, &poster, &mut funds, "a".to_string(), 1).unwrap();
    counter.data = Some(MessageCounter { count: 0 });
    assert_eq!(
        post_message(&program(), &mut counter, &mut message, &treasury_key(), &mut treasury, &poster, &mut funds, "b".to_string(), 2),
        Err(ErrorCode::AccountInUse)
    );
}
