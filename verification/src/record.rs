//! The records that the ledger keeps, and the reasons for which it rejects a request.

use vstd::prelude::*;

verus! {

/// Why the ledger rejected a request.
#[derive(Clone, Copy, Debug, PartialEq, Eq, Structural)]
pub enum LedgerError {
    /// The amount to lock is zero.
    InvalidAmount,
    /// The sender holds less of the token in custody than the amount to lock.
    InsufficientBalance,
    /// The destination chain or the destination address is empty.
    InvalidDestination,
    /// No lock was ever recorded under the message identity.
    UnknownMessage,
    /// The lock under the message identity has already been unlocked.
    AlreadyConsumed,
    /// The claimed amount differs from the locked amount.
    AmountMismatch,
    /// The claimed token differs from the locked token.
    TokenMismatch,
}

/// The class of a rejection.
#[derive(Clone, Copy, Debug, PartialEq, Eq, Structural)]
pub enum ErrorClass {
    /// The request is ill-formed or contradicts the lock that it names.
    Validation,
    /// The request names a message that is unknown or already consumed.
    Replay,
}

impl LedgerError {
    /// The class of each rejection.
    pub open spec fn spec_class(self) -> ErrorClass {
        match self {
            LedgerError::UnknownMessage | LedgerError::AlreadyConsumed => ErrorClass::Replay,
            _ => ErrorClass::Validation,
        }
    }

    /// The class of this rejection.
    pub fn class(&self) -> (c: ErrorClass)
        ensures
            c == self.spec_class(),
    {
        match self {
            LedgerError::UnknownMessage => ErrorClass::Replay,
            LedgerError::AlreadyConsumed => ErrorClass::Replay,
            _ => ErrorClass::Validation,
        }
    }
}

/// One accepted lock: tokens held on this chain for a transfer to another.
#[derive(Debug, PartialEq, Eq)]
pub struct LockRecord {
    pub message_id: String,
    pub sender: String,
    pub token_contract: String,
    pub amount: u128,
    pub destination_chain: String,
    pub destination_address: String,
    pub nonce: u64,
    pub timestamp: u64,
}

/// What a `LockRecord` holds, as mathematical values.
pub ghost struct LockRecordView {
    pub message_id: Seq<char>,
    pub sender: Seq<char>,
    pub token_contract: Seq<char>,
    pub amount: u128,
    pub destination_chain: Seq<char>,
    pub destination_address: Seq<char>,
    pub nonce: nat,
    pub timestamp: u64,
}

impl View for LockRecord {
    type V = LockRecordView;

    open spec fn view(&self) -> LockRecordView {
        LockRecordView {
            message_id: self.message_id@,
            sender: self.sender@,
            token_contract: self.token_contract@,
            amount: self.amount,
            destination_chain: self.destination_chain@,
            destination_address: self.destination_address@,
            nonce: self.nonce as nat,
            timestamp: self.timestamp,
        }
    }
}

impl Clone for LockRecord {
    fn clone(&self) -> (r: Self)
        ensures
            r@ == self@,
    {
        LockRecord {
            message_id: self.message_id.clone(),
            sender: self.sender.clone(),
            token_contract: self.token_contract.clone(),
            amount: self.amount,
            destination_chain: self.destination_chain.clone(),
            destination_address: self.destination_address.clone(),
            nonce: self.nonce,
            timestamp: self.timestamp,
        }
    }
}

/// One accepted unlock: the release that consumes a lock.
#[derive(Debug, PartialEq, Eq)]
pub struct UnlockRecord {
    pub message_id: String,
    pub source_chain: String,
    pub sender_address: String,
    pub recipient: String,
    pub token_contract: String,
    pub amount: u128,
    pub timestamp: u64,
}

/// What an `UnlockRecord` holds, as mathematical values.
pub ghost struct UnlockRecordView {
    pub message_id: Seq<char>,
    pub source_chain: Seq<char>,
    pub sender_address: Seq<char>,
    pub recipient: Seq<char>,
    pub token_contract: Seq<char>,
    pub amount: u128,
    pub timestamp: u64,
}

impl View for UnlockRecord {
    type V = UnlockRecordView;

    open spec fn view(&self) -> UnlockRecordView {
        UnlockRecordView {
            message_id: self.message_id@,
            source_chain: self.source_chain@,
            sender_address: self.sender_address@,
            recipient: self.recipient@,
            token_contract: self.token_contract@,
            amount: self.amount,
            timestamp: self.timestamp,
        }
    }
}

impl Clone for UnlockRecord {
    fn clone(&self) -> (r: Self)
        ensures
            r@ == self@,
    {
        UnlockRecord {
            message_id: self.message_id.clone(),
            source_chain: self.source_chain.clone(),
            sender_address: self.sender_address.clone(),
            recipient: self.recipient.clone(),
            token_contract: self.token_contract.clone(),
            amount: self.amount,
            timestamp: self.timestamp,
        }
    }
}

} // verus!
