//! The ledger as a mathematical state machine: its states, the requests that
//! it answers, and the state that follows each request.

use vstd::prelude::*;
use crate::decimal::{decimal, lemma_decimal_injective};
use crate::record::{LedgerError, LockRecordView, UnlockRecordView};

verus! {

/// A state of the ledger. `locks[i]` is the lock with nonce `i`; `unlocks[i]`
/// is the unlock that consumed it, if there was one.
pub ghost struct LedgerView {
    pub chain: Seq<char>,
    pub locks: Seq<LockRecordView>,
    pub unlocks: Seq<Option<UnlockRecordView>>,
}

/// The identity of the message whose lock has nonce `nonce`.
pub open spec fn message_id_of(nonce: nat) -> Seq<char> {
    decimal(nonce)
}

/// What holds of every state that the ledger reaches.
pub open spec fn ledger_inv(v: LedgerView) -> bool {
    &&& v.unlocks.len() == v.locks.len()
    &&& forall|i: int|
        0 <= i < v.locks.len() ==> {
            let l = #[trigger] v.locks[i];
            &&& l.nonce == i
            &&& l.message_id == message_id_of(i as nat)
            &&& l.amount > 0
            &&& l.destination_chain.len() > 0
            &&& l.destination_address.len() > 0
        }
    &&& forall|i: int|
        0 <= i < v.unlocks.len() ==> (#[trigger] v.unlocks[i] matches Some(u) ==> {
            &&& u.message_id == v.locks[i].message_id
            &&& u.amount == v.locks[i].amount
            &&& u.token_contract == v.locks[i].token_contract
            &&& u.sender_address == v.locks[i].sender
            &&& u.source_chain == v.chain
        })
}

/// A lock was recorded under `id`.
pub open spec fn knows(v: LedgerView, id: Seq<char>) -> bool {
    exists|i: int| 0 <= i < v.locks.len() && (#[trigger] v.locks[i]).message_id == id
}

/// The place of the lock recorded under `id`, where there is one.
pub open spec fn index_of(v: LedgerView, id: Seq<char>) -> int {
    choose|i: int| 0 <= i < v.locks.len() && (#[trigger] v.locks[i]).message_id == id
}

/// A lock was recorded under `id` and an unlock has consumed it.
pub open spec fn consumed(v: LedgerView, id: Seq<char>) -> bool {
    knows(v, id) && v.unlocks[index_of(v, id)].is_some()
}

/// In a state that meets the invariant, no two locks share a message identity.
pub proof fn lemma_ids_distinct(v: LedgerView, i: int, j: int)
    requires
        ledger_inv(v),
        0 <= i < v.locks.len(),
        0 <= j < v.locks.len(),
        v.locks[i].message_id == v.locks[j].message_id,
    ensures
        i == j,
{
    lemma_decimal_injective(i as nat, j as nat);
}

/// In a state that meets the invariant, the lock at place `i` is the one
/// recorded under its message identity.
pub proof fn lemma_index_of(v: LedgerView, i: int)
    requires
        ledger_inv(v),
        0 <= i < v.locks.len(),
    ensures
        knows(v, v.locks[i].message_id),
        index_of(v, v.locks[i].message_id) == i,
{
    let id = v.locks[i].message_id;
    assert(knows(v, id));
    lemma_ids_distinct(v, i, index_of(v, id));
}

/// A request to the ledger.
pub ghost enum Request {
    Lock {
        sender: Seq<char>,
        token: Seq<char>,
        amount: u128,
        custody: u128,
        destination_chain: Seq<char>,
        destination_address: Seq<char>,
        timestamp: u64,
    },
    Unlock {
        message_id: Seq<char>,
        recipient: Seq<char>,
        claimed_amount: u128,
        claimed_token: Seq<char>,
        timestamp: u64,
    },
}

/// Why a lock request is rejected, if it is. The amount is judged first, then
/// the custody, then the destination.
pub open spec fn lock_rejection(
    amount: u128,
    custody: u128,
    destination_chain: Seq<char>,
    destination_address: Seq<char>,
) -> Option<LedgerError> {
    if amount == 0 {
        Some(LedgerError::InvalidAmount)
    } else if amount > custody {
        Some(LedgerError::InsufficientBalance)
    } else if destination_chain.len() == 0 || destination_address.len() == 0 {
        Some(LedgerError::InvalidDestination)
    } else {
        None
    }
}

/// Why an unlock request is rejected, if it is. An unknown message is
/// reported first, then a consumed lock, then a wrong amount, then a wrong token.
pub open spec fn unlock_rejection(
    v: LedgerView,
    message_id: Seq<char>,
    claimed_amount: u128,
    claimed_token: Seq<char>,
) -> Option<LedgerError> {
    if !knows(v, message_id) {
        Some(LedgerError::UnknownMessage)
    } else if consumed(v, message_id) {
        Some(LedgerError::AlreadyConsumed)
    } else if v.locks[index_of(v, message_id)].amount != claimed_amount {
        Some(LedgerError::AmountMismatch)
    } else if v.locks[index_of(v, message_id)].token_contract != claimed_token {
        Some(LedgerError::TokenMismatch)
    } else {
        None
    }
}

/// Why `req` is rejected in state `v`, if it is.
pub open spec fn rejection(v: LedgerView, req: Request) -> Option<LedgerError> {
    match req {
        Request::Lock { amount, custody, destination_chain, destination_address, .. } =>
            lock_rejection(amount, custody, destination_chain, destination_address),
        Request::Unlock { message_id, claimed_amount, claimed_token, .. } =>
            unlock_rejection(v, message_id, claimed_amount, claimed_token),
    }
}

/// The record of a lock accepted in state `v`.
pub open spec fn new_lock(
    v: LedgerView,
    sender: Seq<char>,
    token: Seq<char>,
    amount: u128,
    destination_chain: Seq<char>,
    destination_address: Seq<char>,
    timestamp: u64,
) -> LockRecordView {
    LockRecordView {
        message_id: message_id_of(v.locks.len()),
        sender,
        token_contract: token,
        amount,
        destination_chain,
        destination_address,
        nonce: v.locks.len(),
        timestamp,
    }
}

/// The record of an unlock accepted in state `v`.
pub open spec fn new_unlock(
    v: LedgerView,
    message_id: Seq<char>,
    recipient: Seq<char>,
    claimed_amount: u128,
    claimed_token: Seq<char>,
    timestamp: u64,
) -> UnlockRecordView {
    UnlockRecordView {
        message_id,
        source_chain: v.chain,
        sender_address: v.locks[index_of(v, message_id)].sender,
        recipient,
        token_contract: claimed_token,
        amount: claimed_amount,
        timestamp,
    }
}

/// The state after `req` in state `v`: unchanged where `req` is rejected.
pub open spec fn next(v: LedgerView, req: Request) -> LedgerView {
    if rejection(v, req).is_some() {
        v
    } else {
        match req {
            Request::Lock {
                sender,
                token,
                amount,
                destination_chain,
                destination_address,
                timestamp,
                ..
            } => LedgerView {
                locks: v.locks.push(
                    new_lock(
                        v,
                        sender,
                        token,
                        amount,
                        destination_chain,
                        destination_address,
                        timestamp,
                    ),
                ),
                unlocks: v.unlocks.push(None),
                ..v
            },
            Request::Unlock { message_id, recipient, claimed_amount, claimed_token, timestamp } =>
                LedgerView {
                    unlocks: v.unlocks.update(
                        index_of(v, message_id),
                        Some(
                            new_unlock(
                                v,
                                message_id,
                                recipient,
                                claimed_amount,
                                claimed_token,
                                timestamp,
                            ),
                        ),
                    ),
                    ..v
                },
        }
    }
}

/// The state after the requests `reqs`, one after the other, from state `v`.
pub open spec fn run(v: LedgerView, reqs: Seq<Request>) -> LedgerView
    decreases reqs.len(),
{
    if reqs.len() == 0 {
        v
    } else {
        next(run(v, reqs.drop_last()), reqs.last())
    }
}

/// The ledger of `chain` before any request.
pub open spec fn initial(chain: Seq<char>) -> LedgerView {
    LedgerView { chain, locks: Seq::empty(), unlocks: Seq::empty() }
}

} // verus!
