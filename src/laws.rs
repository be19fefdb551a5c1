//! Properties of the account state machine that hold over every state and
//! every stream of transactions.

use vstd::prelude::*;
use crate::account::{available_of, initial_model, model_wf, step, AccountError, AccountModel};
use crate::engine::Transaction;
use crate::types::{Currency, TransactionId};

verus! {

/// The state after `t` is offered to an account in state `m`: the next
/// state where it is applied, `m` itself where it is refused.
pub open spec fn after(m: AccountModel, t: Transaction) -> AccountModel {
    match step(m, t) {
        Ok(next) => next,
        Err(_) => m,
    }
}

/// The state after each transaction of `ts` is offered in turn.
pub open spec fn run(m: AccountModel, ts: Seq<Transaction>) -> AccountModel
    decreases ts.len(),
{
    if ts.len() == 0 {
        m
    } else {
        after(run(m, ts.drop_last()), ts.last())
    }
}

/// A locked account refuses every transaction, so no stream of transactions
/// changes it any more: its balances, its ledger and the lock stay as they are.
pub proof fn lemma_locked_account_is_frozen(m: AccountModel, ts: Seq<Transaction>)
    requires
        m.locked,
    ensures
        forall|t: Transaction| #[trigger] step(m, t) == Err::<AccountModel, AccountError>(
            AccountError::AccountLocked,
        ),
        run(m, ts) == m,
    decreases ts.len(),
{
    if ts.len() > 0 {
        lemma_locked_account_is_frozen(m, ts.drop_last());
    }
}

/// A dispute succeeds only on a recorded deposit that is not under dispute
/// already, and marks it as disputed.
pub proof fn lemma_dispute_needs_undisputed_deposit(m: AccountModel, id: TransactionId)
    requires
        step(m, Transaction::Dispute { id }) is Ok,
    ensures
        !m.locked,
        m.deposits.contains_key(id),
        !m.deposits[id].disputed,
        step(m, Transaction::Dispute { id })->Ok_0.deposits[id].disputed,
{
}

/// Whether `t`, offered to an account in state `m`, is a deposit with
/// identifier `id` that succeeds.
pub open spec fn deposits_with_id(m: AccountModel, t: Transaction, id: TransactionId) -> bool {
    t is Deposit && t->Deposit_id == id && step(m, t) is Ok
}

/// Every deposit in the ledger of an account that started fresh was put
/// there by a deposit of the stream with the same identifier that succeeded:
/// the last such deposit, whose amount the record keeps.
pub proof fn lemma_recorded_deposits_come_from_the_stream(ts: Seq<Transaction>, id: TransactionId)
    requires
        run(initial_model(), ts).deposits.contains_key(id),
    ensures
        exists|i: int|
            #![trigger ts[i]]
            0 <= i < ts.len() && deposits_with_id(run(initial_model(), ts.take(i)), ts[i], id)
                && ts[i]->Deposit_amount == run(initial_model(), ts).deposits[id].amount
                && forall|j: int|
                i < j < ts.len() ==> !deposits_with_id(
                    run(initial_model(), ts.take(j)),
                    #[trigger] ts[j],
                    id,
                ),
    decreases ts.len(),
{
    let prefix = ts.drop_last();
    let last = ts.len() - 1;
    let before = run(initial_model(), prefix);
    assert(ts.len() > 0);
    assert(prefix =~= ts.take(last));
    if deposits_with_id(before, ts[last], id) {
        assert(ts[last] == ts.last());
    } else {
        assert(ts[last] == ts.last());
        assert(before.deposits.contains_key(id));
        lemma_recorded_deposits_come_from_the_stream(prefix, id);
        let i = choose|i: int|
            #![trigger prefix[i]]
            0 <= i < prefix.len() && deposits_with_id(
                run(initial_model(), prefix.take(i)),
                prefix[i],
                id,
            ) && prefix[i]->Deposit_amount == before.deposits[id].amount && forall|j: int|
                i < j < prefix.len() ==> !deposits_with_id(
                    run(initial_model(), prefix.take(j)),
                    #[trigger] prefix[j],
                    id,
                );
        assert(prefix.take(i) =~= ts.take(i));
        assert(ts[i] == prefix[i]);
        assert forall|j: int| i < j < ts.len() implies !deposits_with_id(
            run(initial_model(), ts.take(j)),
            #[trigger] ts[j],
            id,
        ) by {
            if j < last {
                assert(prefix.take(j) =~= ts.take(j));
                assert(ts[j] == prefix[j]);
            }
        }
    }
}

/// Resolving the same deposit twice in a row: the second resolve is refused
/// because the deposit is no longer disputed.
pub proof fn lemma_second_resolve_is_refused(m: AccountModel, id: TransactionId)
    requires
        step(m, Transaction::Resolve { id }) is Ok,
    ensures
        step(step(m, Transaction::Resolve { id })->Ok_0, Transaction::Resolve { id }) == Err::<
            AccountModel,
            AccountError,
        >(AccountError::NotDisputed { id }),
{
}

/// Disputing a deposit and then resolving it brings the account back to
/// the state it was in, so the deposit may be disputed again.
pub proof fn lemma_dispute_resolve_cycle(m: AccountModel, id: TransactionId)
    requires
        model_wf(m),
        step(m, Transaction::Dispute { id }) is Ok,
    ensures
        ({
            let disputed = step(m, Transaction::Dispute { id })->Ok_0;
            &&& step(disputed, Transaction::Resolve { id }) == Ok::<AccountModel, AccountError>(m)
            &&& step(m, Transaction::Dispute { id }) is Ok
        }),
{
    let disputed = step(m, Transaction::Dispute { id })->Ok_0;
    let back = step(disputed, Transaction::Resolve { id })->Ok_0;
    assert(back.deposits =~= m.deposits);
}

/// Withdrawing exactly the available funds succeeds and leaves nothing
/// available.
pub proof fn lemma_withdraw_all_available(m: AccountModel, id: TransactionId)
    requires
        model_wf(m),
        !m.locked,
        available_of(m) >= 0,
    ensures
        ({
            let t = Transaction::Withdrawal {
                id,
                amount: Currency { units: available_of(m) as i128 },
            };
            step(m, t) is Ok && available_of(step(m, t)->Ok_0) == 0
        }),
{
}

/// A chargeback of a disputed deposit that makes up the whole total, and all
/// that is held, succeeds, empties the account and locks it.
pub proof fn lemma_chargeback_of_whole_total(m: AccountModel, id: TransactionId)
    requires
        model_wf(m),
        !m.locked,
        m.deposits.contains_key(id),
        m.deposits[id].disputed,
        m.deposits[id].amount@ == m.total,
        m.held == m.total,
    ensures
        ({
            let t = Transaction::Chargeback { id };
            &&& step(m, t) is Ok
            &&& step(m, t)->Ok_0.total == 0
            &&& step(m, t)->Ok_0.held == 0
            &&& step(m, t)->Ok_0.locked
        }),
{
}

} // verus!
