//! Transactions and the router that applies them to the accounts they name.

use vstd::prelude::*;
use std::collections::HashMap;
use vstd::std_specs::hash::spec_hash_map_iter;
use vstd::std_specs::iter::IteratorSpec;
use crate::account::{initial_model, step, Account, AccountError, AccountModel};
use crate::types::{AccountId, Currency, TransactionId};

verus! {

broadcast use vstd::std_specs::hash::group_hash_axioms;

/// One entry of the transaction stream.
#[derive(Clone, Copy, Debug, PartialEq, Eq, Structural)]
pub enum Transaction {
    Deposit { id: TransactionId, amount: Currency },
    Withdrawal { id: TransactionId, amount: Currency },
    Dispute { id: TransactionId },
    Resolve { id: TransactionId },
    Chargeback { id: TransactionId },
}

pub fn deposit(id: TransactionId, amount: Currency) -> (r: Transaction)
    ensures
        r == (Transaction::Deposit { id, amount }),
{
    Transaction::Deposit { id, amount }
}

pub fn withdrawal(id: TransactionId, amount: Currency) -> (r: Transaction)
    ensures
        r == (Transaction::Withdrawal { id, amount }),
{
    Transaction::Withdrawal { id, amount }
}

pub fn dispute(id: TransactionId) -> (r: Transaction)
    ensures
        r == (Transaction::Dispute { id }),
{
    Transaction::Dispute { id }
}

pub fn resolve(id: TransactionId) -> (r: Transaction)
    ensures
        r == (Transaction::Resolve { id }),
{
    Transaction::Resolve { id }
}

pub fn chargeback(id: TransactionId) -> (r: Transaction)
    ensures
        r == (Transaction::Chargeback { id }),
{
    Transaction::Chargeback { id }
}

/// A transaction refused by the account it was routed to.
#[derive(Clone, Copy, Debug, PartialEq, Eq, Structural)]
pub struct EngineError {
    pub account: AccountId,
    pub error: AccountError,
}

/// The state of account `aid` in `m`, or that of a fresh account where `m`
/// has none.
pub open spec fn account_or_new(m: Map<AccountId, AccountModel>, aid: AccountId) -> AccountModel {
    if m.contains_key(aid) {
        m[aid]
    } else {
        initial_model()
    }
}

/// Routes transactions to the accounts they name, creating an account the
/// first time it is named.
pub struct Engine {
    accounts: HashMap<AccountId, Account>,
}

impl Engine {
    /// Each known account as a mathematical value.
    pub closed spec fn view(&self) -> Map<AccountId, AccountModel> {
        self.accounts@.map_values(|a: Account| a.view())
    }

    #[verifier::type_invariant]
    spec fn wf(&self) -> bool {
        forall|aid: AccountId| #[trigger]
            self.accounts@.contains_key(aid) ==> self.accounts@[aid].wf()
    }

    /// An engine that knows no account.
    pub fn empty() -> (r: Engine)
        ensures
            r.view() == Map::<AccountId, AccountModel>::empty(),
    {
        let r = Engine { accounts: HashMap::new() };
        assert(r.view() =~= Map::<AccountId, AccountModel>::empty());
        r
    }

    /// Applies `t` to account `aid`, which is created first if it is new.
    /// A refusal carries the account's identifier and leaves every account as
    /// it was, but for the creation.
    pub fn process(&mut self, aid: AccountId, t: Transaction) -> (r: Result<(), EngineError>)
        ensures
            match step(account_or_new(old(self).view(), aid), t) {
                Ok(next) => r is Ok && final(self).view() == old(self).view().insert(aid, next),
                Err(e) => r == Err::<(), EngineError>(EngineError { account: aid, error: e })
                    && final(self).view() == old(self).view().insert(
                    aid,
                    account_or_new(old(self).view(), aid),
                ),
            },
    {
        proof {
            use_type_invariant(&*self);
        }
        let mut accounts: HashMap<AccountId, Account> = HashMap::new();
        std::mem::swap(&mut accounts, &mut self.accounts);
        let mut account = match accounts.remove(&aid) {
            Some(a) => a,
            None => Account::new(),
        };
        let r = account.update(t);
        let ghost after = account;
        accounts.insert(aid, account);
        std::mem::swap(&mut accounts, &mut self.accounts);
        assert(self.view() =~= old(self).view().insert(aid, after.view()));
        match r {
            Ok(()) => Ok(()),
            Err(e) => Err(EngineError { account: aid, error: e }),
        }
    }

    /// Every known account with its identifier, each once, in no set order.
    pub fn accounts(&self) -> (r: Vec<(AccountId, &Account)>)
        ensures
            r@.len() == self.view().len(),
            forall|i: int| #![auto] 0 <= i < r@.len() ==> r@[i].1.wf()
                && self.view().contains_key(r@[i].0) && self.view()[r@[i].0] == r@[i].1.view(),
            forall|aid: AccountId| #[trigger] self.view().contains_key(aid) ==>
                exists|i: int| 0 <= i < r@.len() && r@[i].0 == aid,
            forall|i: int, j: int| 0 <= i < j < r@.len() ==> r@[i].0 != r@[j].0,
    {
        let mut r: Vec<(AccountId, &Account)> = Vec::new();
        for entry in it: self.accounts.iter()
            invariant
                it.seq() == spec_hash_map_iter(&self.accounts).remaining(),
                it.seq().no_duplicates(),
                r@.len() == it.index(),
                forall|i: int| #![auto] 0 <= i < it.index() ==> r@[i].0 == *it.seq()[i].0
                    && r@[i].1 == it.seq()[i].1,
                forall|i: int, j: int| 0 <= i < j < r@.len() ==> r@[i].0 != r@[j].0,
                forall|i: int| #![auto] 0 <= i < r@.len() ==> self.accounts@.contains_key(r@[i].0)
                    && self.accounts@[r@[i].0] == *r@[i].1,
        {
            proof {
                let n = it.index();
                assert forall|i: int| 0 <= i < n implies r@[i].0 != *entry.0 by {
                    if r@[i].0 == *entry.0 {
                        assert(self.accounts@.contains_key(*it.seq()[n].0));
                        assert(it.seq()[i] == it.seq()[n]);
                    }
                }
                assert(self.accounts@.contains_key(*it.seq()[n].0));
            }
            r.push((*entry.0, entry.1));
        }
        proof {
            use_type_invariant(self);
            assert(self.view().dom() =~= self.accounts@.dom());
            assert forall|i: int| #![auto] 0 <= i < r@.len() implies r@[i].1.wf()
                && self.view().contains_key(r@[i].0) && self.view()[r@[i].0] == r@[i].1.view() by {
                assert(self.accounts@.contains_key(r@[i].0));
            }
        }
        r
    }
}

} // verus!
