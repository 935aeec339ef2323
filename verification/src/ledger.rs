//! The ledger: the locks recorded on this chain and the unlocks that consumed them.

use vstd::prelude::*;
use crate::decimal::{lemma_decimal_injective, to_decimal};
use crate::model::{
    consumed, index_of, initial, knows, ledger_inv, lemma_index_of, lock_rejection, new_lock,
    new_unlock, next, unlock_rejection, LedgerView, Request,
};
use crate::record::{LedgerError, LockRecord, UnlockRecord, UnlockRecordView};

verus! {

/// The locks of one chain, in the order of their nonces, each with the unlock
/// that consumed it. Records are added and never removed.
pub struct Ledger {
    chain: String,
    locks: Vec<LockRecord>,
    unlocks: Vec<Option<UnlockRecord>>,
}

/// An optional unlock record as mathematical values.
pub open spec fn unlock_view(u: Option<UnlockRecord>) -> Option<UnlockRecordView> {
    match u {
        Some(u) => Some(u@),
        None => None,
    }
}

impl View for Ledger {
    type V = LedgerView;

    closed spec fn view(&self) -> LedgerView {
        LedgerView {
            chain: self.chain@,
            locks: Seq::new(self.locks@.len(), |i: int| self.locks@[i]@),
            unlocks: Seq::new(self.unlocks@.len(), |i: int| unlock_view(self.unlocks@[i])),
        }
    }
}

impl Ledger {
    /// The ledger's state meets the invariant of the state machine.
    pub open spec fn wf(&self) -> bool {
        ledger_inv(self@)
    }

    /// An empty ledger for the chain named `chain`.
    pub fn new(chain: &str) -> (r: Ledger)
        ensures
            r.wf(),
            r@ == initial(chain@),
    {
        let r = Ledger { chain: chain.to_owned(), locks: Vec::new(), unlocks: Vec::new() };
        assert(r@.locks =~= Seq::empty());
        assert(r@.unlocks =~= Seq::empty());
        r
    }

    /// The number of locks recorded so far, which is the nonce of the next one.
    pub fn issued(&self) -> (n: u64)
        ensures
            n == self@.locks.len(),
    {
        self.locks.len() as u64
    }

    /// The place of the lock recorded under `message_id`, if there is one.
    fn find(&self, message_id: &String) -> (r: Option<usize>)
        requires
            self.wf(),
        ensures
            match r {
                Some(i) => knows(self@, message_id@) && i == index_of(self@, message_id@)
                    && i < self.locks@.len(),
                None => !knows(self@, message_id@),
            },
    {
        let mut i: usize = 0;
        while i < self.locks.len()
            invariant
                self.wf(),
                i <= self.locks@.len(),
                forall|j: int| 0 <= j < i ==> (#[trigger] self@.locks[j]).message_id != message_id@,
            decreases self.locks@.len() - i,
        {
            if self.locks[i].message_id == *message_id {
                proof {
                    assert(self@.locks[i as int].message_id == message_id@);
                    lemma_index_of(self@, i as int);
                }
                return Some(i);
            }
            i += 1;
        }
        None
    }

    /// The lock recorded under `message_id`, if there is one.
    pub fn lock_record(&self, message_id: &str) -> (r: Option<LockRecord>)
        requires
            self.wf(),
        ensures
            match r {
                Some(l) => knows(self@, message_id@)
                    && l@ == self@.locks[index_of(self@, message_id@)],
                None => !knows(self@, message_id@),
            },
    {
        let id = message_id.to_owned();
        match self.find(&id) {
            Some(i) => Some(self.locks[i].clone()),
            None => None,
        }
    }

    /// The unlock that consumed the lock recorded under `message_id`, if there was one.
    pub fn unlock_record(&self, message_id: &str) -> (r: Option<UnlockRecord>)
        requires
            self.wf(),
        ensures
            match r {
                Some(u) => consumed(self@, message_id@)
                    && Some(u@) == self@.unlocks[index_of(self@, message_id@)],
                None => !consumed(self@, message_id@),
            },
    {
        let id = message_id.to_owned();
        match self.find(&id) {
            Some(i) => match &self.unlocks[i] {
                Some(u) => Some(u.clone()),
                None => None,
            },
            None => None,
        }
    }

    /// Whether a lock was recorded under `message_id` and has been unlocked.
    pub fn is_consumed(&self, message_id: &str) -> (b: bool)
        requires
            self.wf(),
        ensures
            b == consumed(self@, message_id@),
    {
        let id = message_id.to_owned();
        match self.find(&id) {
            Some(i) => self.unlocks[i].is_some(),
            None => false,
        }
    }

    /// Records a lock of `amount` of `token` by `sender`, who holds `custody`
    /// of that token, for `destination_address` on `destination_chain`.
    ///
    /// An accepted lock gets the next nonce and a message identity that no
    /// earlier lock has. A rejected one leaves the ledger as it was.
    pub fn lock(
        &mut self,
        sender: &str,
        token: &str,
        amount: u128,
        custody: u128,
        destination_chain: &str,
        destination_address: &str,
        timestamp: u64,
    ) -> (r: Result<LockRecord, LedgerError>)
        requires
            old(self).wf(),
        ensures
            final(self).wf(),
            final(self)@ == next(
                old(self)@,
                Request::Lock {
                    sender: sender@,
                    token: token@,
                    amount,
                    custody,
                    destination_chain: destination_chain@,
                    destination_address: destination_address@,
                    timestamp,
                },
            ),
            match lock_rejection(amount, custody, destination_chain@, destination_address@) {
                Some(e) => r matches Err(x) && x == e && final(self)@ == old(self)@,
                None => {
                    &&& r matches Ok(l)
                    &&& l@ == new_lock(
                        old(self)@,
                        sender@,
                        token@,
                        amount,
                        destination_chain@,
                        destination_address@,
                        timestamp,
                    )
                    &&& !knows(old(self)@, l@.message_id)
                    &&& final(self)@.locks == old(self)@.locks.push(l@)
                    &&& final(self)@.unlocks == old(self)@.unlocks.push(None)
                },
            },
    {
        if amount == 0 {
            return Err(LedgerError::InvalidAmount);
        }
        if amount > custody {
            return Err(LedgerError::InsufficientBalance);
        }
        if destination_chain.is_empty() || destination_address.is_empty() {
            return Err(LedgerError::InvalidDestination);
        }
        let n: usize = self.locks.len();
        let record = LockRecord {
            message_id: to_decimal(n as u128),
            sender: sender.to_owned(),
            token_contract: token.to_owned(),
            amount,
            destination_chain: destination_chain.to_owned(),
            destination_address: destination_address.to_owned(),
            nonce: n as u64,
            timestamp,
        };
        let out = record.clone();
        self.locks.push(record);
        self.unlocks.push(None);
        proof {
            let v = old(self)@;
            assert(self@.locks =~= v.locks.push(out@));
            assert(self@.unlocks =~= v.unlocks.push(None));
            assert forall|i: int| 0 <= i < v.locks.len() implies (#[trigger] v.locks[i]).message_id
                != out@.message_id by {
                if v.locks[i].message_id == out@.message_id {
                    lemma_decimal_injective(i as nat, n as nat);
                }
            }
        }
        Ok(out)
    }

    /// Consumes the lock recorded under `message_id` in favour of `recipient`,
    /// where the claimed amount and token are those that were locked.
    ///
    /// A rejected unlock leaves the ledger as it was.
    pub fn unlock(
        &mut self,
        message_id: &str,
        recipient: &str,
        claimed_amount: u128,
        claimed_token: &str,
        timestamp: u64,
    ) -> (r: Result<UnlockRecord, LedgerError>)
        requires
            old(self).wf(),
        ensures
            final(self).wf(),
            final(self)@ == next(
                old(self)@,
                Request::Unlock {
                    message_id: message_id@,
                    recipient: recipient@,
                    claimed_amount,
                    claimed_token: claimed_token@,
                    timestamp,
                },
            ),
            match unlock_rejection(old(self)@, message_id@, claimed_amount, claimed_token@) {
                Some(e) => r matches Err(x) && x == e && final(self)@ == old(self)@,
                None => {
                    &&& r matches Ok(u)
                    &&& u@ == new_unlock(
                        old(self)@,
                        message_id@,
                        recipient@,
                        claimed_amount,
                        claimed_token@,
                        timestamp,
                    )
                    &&& consumed(final(self)@, message_id@)
                    &&& final(self)@.locks == old(self)@.locks
                },
            },
    {
        let id = message_id.to_owned();
        let token = claimed_token.to_owned();
        let i = match self.find(&id) {
            Some(i) => i,
            None => {
                return Err(LedgerError::UnknownMessage);
            },
        };
        if self.unlocks[i].is_some() {
            return Err(LedgerError::AlreadyConsumed);
        }
        if self.locks[i].amount != claimed_amount {
            return Err(LedgerError::AmountMismatch);
        }
        if self.locks[i].token_contract != token {
            return Err(LedgerError::TokenMismatch);
        }
        let record = UnlockRecord {
            message_id: id,
            source_chain: self.chain.clone(),
            sender_address: self.locks[i].sender.clone(),
            recipient: recipient.to_owned(),
            token_contract: token,
            amount: claimed_amount,
            timestamp,
        };
        let out = record.clone();
        self.unlocks.set(i, Some(record));
        proof {
            let v = old(self)@;
            assert(self@.locks =~= v.locks);
            assert(self@.unlocks =~= v.unlocks.update(i as int, Some(out@)));
            assert(self@.locks[i as int].message_id == message_id@);
        }
        Ok(out)
    }
}

} // verus!
