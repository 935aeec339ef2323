//! A request from validation to announcement: the ledger records the change,
//! and only then is the line made that announces it.

use vstd::prelude::*;
use crate::events::{
    emit_token_locked_event, emit_token_unlocked_event, event_line, locked_data,
    payload_or_empty, unlocked_data, EventKind, TokenLockedEvent, TokenUnlockedEvent,
};
use crate::ledger::Ledger;
use crate::model::{
    index_of, lock_rejection, new_lock, new_unlock, next, unlock_rejection, Request,
};
use crate::record::{LedgerError, LockRecord, UnlockRecord};

verus! {

/// Records a lock and makes the one line that announces it. The line carries
/// the fields of the record that the ledger now holds. A rejected lock
/// changes nothing and is announced by no line.
pub fn lock_and_announce(
    ledger: &mut Ledger,
    sender: &str,
    token: &str,
    amount: u128,
    custody: u128,
    destination_chain: &str,
    destination_address: &str,
    timestamp: u64,
) -> (r: Result<(LockRecord, String), LedgerError>)
    requires
        old(ledger).wf(),
    ensures
        final(ledger).wf(),
        final(ledger)@ == next(
            old(ledger)@,
            Request::Lock {
                sender: sender@,
                token: token@,
                amount,
                custody,
                destination_chain: destination_chain@,
                destination_address: destination_address@,
                timestamp,
            },
        ),
        match lock_rejection(amount, custody, destination_chain@, destination_address@) {
            Some(e) => r matches Err(x) && x == e,
            None => {
                &&& r matches Ok(p)
                &&& p.0@ == new_lock(
                    old(ledger)@,
                    sender@,
                    token@,
                    amount,
                    destination_chain@,
                    destination_address@,
                    timestamp,
                )
                &&& final(ledger)@.locks.last() == p.0@
                &&& p.1@ == event_line(EventKind::Locked, payload_or_empty(locked_data(p.0@)))
            },
        },
{
    match ledger.lock(
        sender,
        token,
        amount,
        custody,
        destination_chain,
        destination_address,
        timestamp,
    ) {
        Ok(record) => {
            let event = TokenLockedEvent::from_record(&record);
            let line = emit_token_locked_event(&event);
            Ok((record, line))
        },
        Err(e) => Err(e),
    }
}

/// Records an unlock and makes the one line that announces it. The line
/// carries the fields of the record that the ledger now holds. A rejected
/// unlock changes nothing and is announced by no line.
pub fn unlock_and_announce(
    ledger: &mut Ledger,
    message_id: &str,
    recipient: &str,
    claimed_amount: u128,
    claimed_token: &str,
    timestamp: u64,
) -> (r: Result<(UnlockRecord, String), LedgerError>)
    requires
        old(ledger).wf(),
    ensures
        final(ledger).wf(),
        final(ledger)@ == next(
            old(ledger)@,
            Request::Unlock {
                message_id: message_id@,
                recipient: recipient@,
                claimed_amount,
                claimed_token: claimed_token@,
                timestamp,
            },
        ),
        match unlock_rejection(old(ledger)@, message_id@, claimed_amount, claimed_token@) {
            Some(e) => r matches Err(x) && x == e,
            None => {
                &&& r matches Ok(p)
                &&& p.0@ == new_unlock(
                    old(ledger)@,
                    message_id@,
                    recipient@,
                    claimed_amount,
                    claimed_token@,
                    timestamp,
                )
                &&& final(ledger)@.unlocks[index_of(old(ledger)@, message_id@)] == Some(p.0@)
                &&& p.1@ == event_line(
                    EventKind::Unlocked,
                    payload_or_empty(unlocked_data(p.0@)),
                )
            },
        },
{
    match ledger.unlock(message_id, recipient, claimed_amount, claimed_token, timestamp) {
        Ok(record) => {
            let event = TokenUnlockedEvent::from_record(&record);
            let line = emit_token_unlocked_event(&event);
            Ok((record, line))
        },
        Err(e) => Err(e),
    }
}

} // verus!
