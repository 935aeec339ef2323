//! What holds of the ledger in every state and over every sequence of requests.

use vstd::prelude::*;
use crate::model::{
    consumed, index_of, initial, knows, ledger_inv, lemma_ids_distinct, lemma_index_of,
    message_id_of, next, rejection, run, LedgerView, Request,
};
use crate::record::LedgerError;

verus! {

/// A request, accepted or rejected, leads from a state that meets the
/// invariant to one that meets it, keeps every lock in its place and adds at
/// most one.
pub proof fn law_step_keeps_invariant(v: LedgerView, req: Request)
    requires
        ledger_inv(v),
    ensures
        ledger_inv(next(v, req)),
        next(v, req).chain == v.chain,
        v.locks.len() <= next(v, req).locks.len() <= v.locks.len() + 1,
        forall|i: int| 0 <= i < v.locks.len() ==> next(v, req).locks[i] == v.locks[i],
{
    if rejection(v, req).is_none() {
        if let Request::Unlock { message_id, .. } = req {
            let k = index_of(v, message_id);
            assert(0 <= k < v.locks.len() && v.locks[k].message_id == message_id);
        }
    }
}

/// Every state reached from one that meets the invariant meets it, and holds
/// the earlier locks in their places.
pub proof fn law_run_keeps_invariant(v: LedgerView, reqs: Seq<Request>)
    requires
        ledger_inv(v),
    ensures
        ledger_inv(run(v, reqs)),
        run(v, reqs).chain == v.chain,
        v.locks.len() <= run(v, reqs).locks.len(),
        forall|i: int| 0 <= i < v.locks.len() ==> run(v, reqs).locks[i] == v.locks[i],
    decreases reqs.len(),
{
    if reqs.len() > 0 {
        law_run_keeps_invariant(v, reqs.drop_last());
        law_step_keeps_invariant(run(v, reqs.drop_last()), reqs.last());
    }
}

/// Every state reached from the empty ledger meets the invariant.
pub proof fn law_reachable_states(chain: Seq<char>, reqs: Seq<Request>)
    ensures
        ledger_inv(run(initial(chain), reqs)),
{
    law_run_keeps_invariant(initial(chain), reqs);
}

/// An accepted lock is recorded under a message identity that no earlier lock
/// has, and from then on the ledger knows that identity, not yet consumed.
pub proof fn law_lock_issues_fresh_id(v: LedgerView, req: Request)
    requires
        ledger_inv(v),
        req is Lock,
        rejection(v, req).is_none(),
    ensures
        !knows(v, message_id_of(v.locks.len())),
        next(v, req).locks.last().message_id == message_id_of(v.locks.len()),
        knows(next(v, req), message_id_of(v.locks.len())),
        !consumed(next(v, req), message_id_of(v.locks.len())),
{
    let w = next(v, req);
    let n = v.locks.len() as int;
    law_step_keeps_invariant(v, req);
    if knows(v, message_id_of(n as nat)) {
        let i = index_of(v, message_id_of(n as nat));
        assert(w.locks[i] == v.locks[i]);
        lemma_ids_distinct(w, i, n);
    }
    lemma_index_of(w, n);
}

/// A lock that has been consumed stays consumed whatever is requested next.
pub proof fn law_consumed_is_final(v: LedgerView, reqs: Seq<Request>, id: Seq<char>)
    requires
        ledger_inv(v),
        consumed(v, id),
    ensures
        consumed(run(v, reqs), id),
    decreases reqs.len(),
{
    if reqs.len() > 0 {
        let u = run(v, reqs.drop_last());
        let req = reqs.last();
        let w = next(u, req);
        law_consumed_is_final(v, reqs.drop_last(), id);
        law_run_keeps_invariant(v, reqs.drop_last());
        law_step_keeps_invariant(u, req);
        let i = index_of(u, id);
        assert(w.locks[i] == u.locks[i]);
        lemma_index_of(w, i);
        if rejection(u, req).is_none() {
            match req {
                Request::Lock { .. } => {
                    assert(w.unlocks[i] == u.unlocks[i]);
                },
                Request::Unlock { message_id, .. } => {
                    let k = index_of(u, message_id);
                    if k == i {
                        lemma_index_of(u, i);
                    }
                    assert(w.unlocks[i] == u.unlocks[i]);
                },
            }
        }
    }
}

/// At most one unlock of a message succeeds: once an unlock was accepted,
/// every later unlock under the same identity, whatever it claims and whatever
/// was requested in between, is rejected as already consumed and changes nothing.
pub proof fn law_unlock_succeeds_once(
    v: LedgerView,
    first: Request,
    between: Seq<Request>,
    again: Request,
)
    requires
        ledger_inv(v),
        first is Unlock,
        again is Unlock,
        first->Unlock_message_id == again->Unlock_message_id,
        rejection(v, first).is_none(),
    ensures
        rejection(run(next(v, first), between), again) == Some(LedgerError::AlreadyConsumed),
        next(run(next(v, first), between), again) == run(next(v, first), between),
{
    let id = first->Unlock_message_id;
    let w = next(v, first);
    let i = index_of(v, id);
    law_step_keeps_invariant(v, first);
    assert(w.locks[i] == v.locks[i]);
    lemma_index_of(w, i);
    assert(consumed(w, id));
    law_consumed_is_final(w, between, id);
}

/// An unlock under an identity that no lock was recorded under is rejected as
/// unknown and changes nothing.
pub proof fn law_unknown_message(v: LedgerView, req: Request)
    requires
        req is Unlock,
        !knows(v, req->Unlock_message_id),
    ensures
        rejection(v, req) == Some(LedgerError::UnknownMessage),
        next(v, req) == v,
{
}

/// An unlock that claims another amount than was locked is rejected for that,
/// and the lock stays unconsumed.
pub proof fn law_amount_mismatch(v: LedgerView, req: Request)
    requires
        ledger_inv(v),
        req is Unlock,
        knows(v, req->Unlock_message_id),
        !consumed(v, req->Unlock_message_id),
        v.locks[index_of(v, req->Unlock_message_id)].amount != req->Unlock_claimed_amount,
    ensures
        rejection(v, req) == Some(LedgerError::AmountMismatch),
        next(v, req) == v,
        !consumed(next(v, req), req->Unlock_message_id),
{
}

/// A rejected request changes nothing, so the same request made again is
/// rejected for the same reason and changes nothing again.
pub proof fn law_rejection_is_idempotent(v: LedgerView, req: Request)
    requires
        rejection(v, req).is_some(),
    ensures
        next(v, req) == v,
        rejection(next(v, req), req) == rejection(v, req),
        next(next(v, req), req) == v,
{
}

/// Nonces count the accepted locks: each lock's nonce is its place, so of two
/// locks the later has the greater nonce, and the nonces between them are
/// those of the locks between them.
pub proof fn law_nonces_increase(v: LedgerView, i: int, j: int)
    requires
        ledger_inv(v),
        0 <= i < j < v.locks.len(),
    ensures
        v.locks[i].nonce < v.locks[j].nonce,
        v.locks[j].nonce - v.locks[i].nonce == j - i,
{
}

/// A rejected lock takes no nonce; an accepted one takes the next.
pub proof fn law_nonce_taken_on_success(v: LedgerView, req: Request)
    requires
        ledger_inv(v),
        req is Lock,
    ensures
        rejection(v, req).is_some() ==> next(v, req).locks.len() == v.locks.len(),
        rejection(v, req).is_none() ==> next(v, req).locks.len() == v.locks.len() + 1 && next(
            v,
            req,
        ).locks.last().nonce == v.locks.len(),
{
}

} // verus!
