use bridge_ledger::ledger::Ledger;
use bridge_ledger::record::{ErrorClass, LedgerError, LockRecord, UnlockRecord};

fn sample_lock(ledger: &mut Ledger) -> LockRecord {
    ledger
        .lock("alice.near", "T", 1000, 5000, "X", "0xabc", 42)
        .unwrap()
}

#[test]
fn new_ledger_is_empty() {
    let ledger = Ledger::new("near");
    assert_eq!(ledger.issued(), 0);
    assert_eq!(ledger.lock_record("0"), None);
    assert_eq!(ledger.unlock_record("0"), None);
    assert!(!ledger.is_consumed("0"));
}

#[test]
fn lock_returns_the_record_it_stores() {
    let mut ledger = Ledger::new("near");
    let record = sample_lock(&mut ledger);
    let expected = LockRecord {
        message_id: "0".to_string(),
        sender: "alice.near".to_string(),
        token_contract: "T".to_string(),
        amount: 1000,
        destination_chain: "X".to_string(),
        destination_address: "0xabc".to_string(),
        nonce: 0,
        timestamp: 42,
    };
    assert_eq!(record, expected);
    assert_eq!(ledger.lock_record("0"), Some(expected));
    assert_eq!(ledger.issued(), 1);
    assert!(!ledger.is_consumed("0"));
}

#[test]
fn lock_issues_message_ids_never_seen_before() {
    let mut ledger = Ledger::new("near");
    let mut seen: Vec<String> = Vec::new();
    for i in 0..25u64 {
        let record = ledger
            .lock("alice.near", "T", 1 + i as u128, 100, "X", "0xabc", i)
            .unwrap();
        assert!(!seen.contains(&record.message_id));
        assert_eq!(record.message_id, format!("{}", i));
        seen.push(record.message_id);
    }
}

#[test]
fn lock_rejects_a_zero_amount() {
    let mut ledger = Ledger::new("near");
    let r = ledger.lock("alice.near", "T", 0, 5000, "X", "0xabc", 42);
    assert_eq!(r, Err(LedgerError::InvalidAmount));
    assert_eq!(ledger.issued(), 0);
}

#[test]
fn lock_rejects_more_than_the_custody() {
    let mut ledger = Ledger::new("near");
    let r = ledger.lock("alice.near", "T", 5001, 5000, "X", "0xabc", 42);
    assert_eq!(r, Err(LedgerError::InsufficientBalance));
    assert_eq!(ledger.issued(), 0);
    let r = ledger.lock("alice.near", "T", 5000, 5000, "X", "0xabc", 42);
    assert!(r.is_ok());
}

#[test]
fn lock_rejects_an_empty_destination() {
    let mut ledger = Ledger::new("near");
    let r = ledger.lock("alice.near", "T", 10, 5000, "", "0xabc", 42);
    assert_eq!(r, Err(LedgerError::InvalidDestination));
    let r = ledger.lock("alice.near", "T", 10, 5000, "X", "", 42);
    assert_eq!(r, Err(LedgerError::InvalidDestination));
    assert_eq!(ledger.issued(), 0);
}

#[test]
fn lock_judges_amount_then_custody_then_destination() {
    let mut ledger = Ledger::new("near");
    let r = ledger.lock("alice.near", "T", 0, 0, "", "", 42);
    assert_eq!(r, Err(LedgerError::InvalidAmount));
    let r = ledger.lock("alice.near", "T", 2, 1, "", "", 42);
    assert_eq!(r, Err(LedgerError::InsufficientBalance));
}

#[test]
fn lock_takes_the_largest_amount() {
    let mut ledger = Ledger::new("near");
    let r = ledger
        .lock("alice.near", "T", u128::MAX, u128::MAX, "X", "0xabc", u64::MAX)
        .unwrap();
    assert_eq!(r.amount, u128::MAX);
    assert_eq!(r.timestamp, u64::MAX);
}

#[test]
fn round_trip_lock_then_unlock() {
    let mut ledger = Ledger::new("near");
    let lock = ledger.lock("alice.near", "T", 1000, 1000, "X", "0xabc", 7).unwrap();
    let unlock = ledger
        .unlock(&lock.message_id, "bob.near", 1000, "T", 9)
        .unwrap();
    let expected = UnlockRecord {
        message_id: lock.message_id.clone(),
        source_chain: "near".to_string(),
        sender_address: "alice.near".to_string(),
        recipient: "bob.near".to_string(),
        token_contract: "T".to_string(),
        amount: 1000,
        timestamp: 9,
    };
    assert_eq!(unlock, expected);
    assert!(ledger.is_consumed(&lock.message_id));
    assert_eq!(ledger.unlock_record(&lock.message_id), Some(expected));
    assert_eq!(ledger.lock_record(&lock.message_id), Some(lock));
}

#[test]
fn unlock_succeeds_at_most_once() {
    let mut ledger = Ledger::new("near");
    let lock = sample_lock(&mut ledger);
    assert!(ledger.unlock(&lock.message_id, "bob.near", 1000, "T", 9).is_ok());
    for t in 10..15u64 {
        let again = ledger.unlock(&lock.message_id, "bob.near", 1000, "T", t);
        assert_eq!(again, Err(LedgerError::AlreadyConsumed));
    }
    sample_lock(&mut ledger);
    let again = ledger.unlock(&lock.message_id, "carol.near", 1, "U", 20);
    assert_eq!(again, Err(LedgerError::AlreadyConsumed));
}

#[test]
fn unlock_of_a_message_never_locked_is_unknown() {
    let mut ledger = Ledger::new("near");
    assert_eq!(
        ledger.unlock("0", "bob.near", 1000, "T", 9),
        Err(LedgerError::UnknownMessage)
    );
    sample_lock(&mut ledger);
    for id in ["1", "00", "", "0 ", "zero", "-0", "+0"] {
        assert_eq!(
            ledger.unlock(id, "bob.near", 1000, "T", 9),
            Err(LedgerError::UnknownMessage)
        );
    }
    assert!(!ledger.is_consumed("0"));
}

#[test]
fn unlock_with_another_amount_leaves_the_lock_unconsumed() {
    let mut ledger = Ledger::new("near");
    let lock = sample_lock(&mut ledger);
    assert_eq!(
        ledger.unlock(&lock.message_id, "bob.near", 999, "T", 9),
        Err(LedgerError::AmountMismatch)
    );
    assert_eq!(
        ledger.unlock(&lock.message_id, "bob.near", 1001, "T", 9),
        Err(LedgerError::AmountMismatch)
    );
    assert!(!ledger.is_consumed(&lock.message_id));
    assert_eq!(ledger.unlock_record(&lock.message_id), None);
    assert!(ledger.unlock(&lock.message_id, "bob.near", 1000, "T", 9).is_ok());
}

#[test]
fn unlock_with_another_token_leaves_the_lock_unconsumed() {
    let mut ledger = Ledger::new("near");
    let lock = sample_lock(&mut ledger);
    assert_eq!(
        ledger.unlock(&lock.message_id, "bob.near", 1000, "U", 9),
        Err(LedgerError::TokenMismatch)
    );
    assert_eq!(
        ledger.unlock(&lock.message_id, "bob.near", 999, "U", 9),
        Err(LedgerError::AmountMismatch)
    );
    assert!(!ledger.is_consumed(&lock.message_id));
    assert!(ledger.unlock(&lock.message_id, "bob.near", 1000, "T", 9).is_ok());
}

#[test]
fn a_rejected_unlock_repeated_is_rejected_alike() {
    let mut ledger = Ledger::new("near");
    let lock = sample_lock(&mut ledger);
    let first = ledger.unlock(&lock.message_id, "bob.near", 5, "T", 9);
    let second = ledger.unlock(&lock.message_id, "bob.near", 5, "T", 9);
    assert_eq!(first, Err(LedgerError::AmountMismatch));
    assert_eq!(first, second);
    let first = ledger.unlock("77", "bob.near", 5, "T", 9);
    let second = ledger.unlock("77", "bob.near", 5, "T", 9);
    assert_eq!(first, Err(LedgerError::UnknownMessage));
    assert_eq!(first, second);
    assert_eq!(ledger.issued(), 1);
    assert_eq!(ledger.lock_record("0"), Some(lock));
    assert_eq!(ledger.unlock_record("0"), None);
}

#[test]
fn nonces_count_the_accepted_locks() {
    let mut ledger = Ledger::new("near");
    let mut nonces: Vec<u64> = Vec::new();
    for i in 0..6u64 {
        let rejected = ledger.lock("alice.near", "T", 0, 100, "X", "0xabc", i);
        assert_eq!(rejected, Err(LedgerError::InvalidAmount));
        let other = ledger.lock("dave.near", "T", 1, 100, "X", "0xdef", i).unwrap();
        let own = ledger.lock("alice.near", "T", 1, 100, "X", "0xabc", i).unwrap();
        assert_eq!(own.nonce, other.nonce + 1);
        nonces.push(own.nonce);
    }
    assert_eq!(nonces, vec![1, 3, 5, 7, 9, 11]);
    assert_eq!(ledger.issued(), 12);
}

#[test]
fn locks_are_found_by_their_message_ids() {
    let mut ledger = Ledger::new("near");
    for i in 0..12u64 {
        ledger.lock("alice.near", "T", 1 + i as u128, 100, "X", "0xabc", i).unwrap();
    }
    let tenth = ledger.lock_record("10").unwrap();
    assert_eq!(tenth.nonce, 10);
    assert_eq!(tenth.amount, 11);
    let unlock = ledger.unlock("10", "bob.near", 11, "T", 50).unwrap();
    assert_eq!(unlock.message_id, "10");
    assert!(ledger.is_consumed("10"));
    assert!(!ledger.is_consumed("1"));
    assert!(!ledger.is_consumed("0"));
}

#[test]
fn rejections_fall_into_two_classes() {
    assert_eq!(LedgerError::InvalidAmount.class(), ErrorClass::Validation);
    assert_eq!(LedgerError::InsufficientBalance.class(), ErrorClass::Validation);
    assert_eq!(LedgerError::InvalidDestination.class(), ErrorClass::Validation);
    assert_eq!(LedgerError::AmountMismatch.class(), ErrorClass::Validation);
    assert_eq!(LedgerError::TokenMismatch.class(), ErrorClass::Validation);
    assert_eq!(LedgerError::UnknownMessage.class(), ErrorClass::Replay);
    assert_eq!(LedgerError::AlreadyConsumed.class(), ErrorClass::Replay);
}

#[test]
fn records_are_cloned_field_for_field() {
    let mut ledger = Ledger::new("near");
    let lock = sample_lock(&mut ledger);
    assert_eq!(lock.clone(), lock);
    let unlock = ledger.unlock("0", "bob.near", 1000, "T", 9).unwrap();
    assert_eq!(unlock.clone(), unlock);
}
