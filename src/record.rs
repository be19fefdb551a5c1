//! Raw input records, their reading into transactions, and the per-account
//! rows of the final report.

use vstd::prelude::*;
use crate::account::{Account, AccountModel};
use crate::engine::{Engine, EngineError, Transaction};
use crate::types::{parsed_currency, AccountId, Currency, TransactionId};

verus! {

broadcast use vstd::std_specs::hash::group_hash_axioms;

/// One input record as read: the kind of transaction, the client, the
/// transaction identifier and the amount column, if it was filled.
pub struct TransactionRaw {
    pub typ: String,
    pub client: AccountId,
    pub tx: TransactionId,
    pub amount: Option<String>,
}

/// Why an input record yields no transaction.
#[derive(Clone, Copy, Debug, PartialEq, Eq, Structural)]
pub enum RowError {
    /// A column does not hold a value of its type.
    MalformedRow,
    /// The kind is unknown, or the amount is missing where it is needed or
    /// present where it is not.
    InvalidTransactionShape,
}

/// Why an input record changed nothing.
#[derive(Clone, Copy, Debug, PartialEq, Eq, Structural)]
pub enum ProcessError {
    Row(RowError),
    Refused(EngineError),
}

/// The transaction that a record of kind `typ` names, if the kind is known
/// and the amount is given exactly for deposits and withdrawals.
pub open spec fn shape_of(typ: Seq<char>, tx: TransactionId, amount: Option<Currency>) -> Option<
    Transaction,
> {
    match amount {
        Some(amount) => if typ == "withdrawal"@ {
            Some(Transaction::Withdrawal { id: tx, amount })
        } else if typ == "deposit"@ {
            Some(Transaction::Deposit { id: tx, amount })
        } else {
            None
        },
        None => if typ == "dispute"@ {
            Some(Transaction::Dispute { id: tx })
        } else if typ == "resolve"@ {
            Some(Transaction::Resolve { id: tx })
        } else if typ == "chargeback"@ {
            Some(Transaction::Chargeback { id: tx })
        } else {
            None
        },
    }
}

/// What a record yields: its client and transaction, or why there is none.
pub open spec fn record_outcome(raw: TransactionRaw) -> Result<(AccountId, Transaction), RowError> {
    match raw.amount {
        Some(text) if parsed_currency(text@) is None => Err(RowError::MalformedRow),
        _ => {
            let amount = match raw.amount {
                Some(text) => parsed_currency(text@),
                None => None,
            };
            match shape_of(raw.typ@, raw.tx, amount) {
                Some(t) => Ok((raw.client, t)),
                None => Err(RowError::InvalidTransactionShape),
            }
        },
    }
}

fn text_is(s: &String, word: &str) -> (r: bool)
    ensures
        r == (s@ == word@),
{
    let w = word.to_owned();
    *s == w
}

/// The transaction named by kind `typ`, identifier `tx` and an amount already
/// read, for client `client`.
pub fn transaction_of(
    typ: &String,
    client: AccountId,
    tx: TransactionId,
    amount: Option<Currency>,
) -> (r: Result<(AccountId, Transaction), RowError>)
    ensures
        r == (match shape_of(typ@, tx, amount) {
            Some(t) => Ok((client, t)),
            None => Err(RowError::InvalidTransactionShape),
        }),
{
    match amount {
        Some(amount) => {
            if text_is(typ, "withdrawal") {
                Ok((client, Transaction::Withdrawal { id: tx, amount }))
            } else if text_is(typ, "deposit") {
                Ok((client, Transaction::Deposit { id: tx, amount }))
            } else {
                Err(RowError::InvalidTransactionShape)
            }
        },
        None => {
            if text_is(typ, "dispute") {
                Ok((client, Transaction::Dispute { id: tx }))
            } else if text_is(typ, "resolve") {
                Ok((client, Transaction::Resolve { id: tx }))
            } else if text_is(typ, "chargeback") {
                Ok((client, Transaction::Chargeback { id: tx }))
            } else {
                Err(RowError::InvalidTransactionShape)
            }
        },
    }
}

impl TransactionRaw {
    /// Reads the record: an amount that is no decimal in range makes it
    /// malformed; otherwise its kind and amount must fit together.
    pub fn to_transaction(&self) -> (r: Result<(AccountId, Transaction), RowError>)
        ensures
            r == record_outcome(*self),
    {
        let amount = match &self.amount {
            Some(text) => match Currency::parse(text.as_str()) {
                Some(c) => Some(c),
                None => {
                    return Err(RowError::MalformedRow);
                },
            },
            None => None,
        };
        transaction_of(&self.typ, self.client, self.tx, amount)
    }
}

impl Engine {
    /// Reads one record and applies the transaction it names; a record that
    /// names none changes nothing.
    pub fn process_row(&mut self, raw: &TransactionRaw) -> (r: Result<(), ProcessError>)
        ensures
            match record_outcome(*raw) {
                Err(e) => r == Err::<(), ProcessError>(ProcessError::Row(e)) && final(self).view()
                    == old(self).view(),
                Ok((aid, t)) => match crate::account::step(
                    crate::engine::account_or_new(old(self).view(), aid),
                    t,
                ) {
                    Ok(next) => r is Ok && final(self).view() == old(self).view().insert(aid, next),
                    Err(e) => r == Err::<(), ProcessError>(
                        ProcessError::Refused(EngineError { account: aid, error: e }),
                    ) && final(self).view() == old(self).view().insert(
                        aid,
                        crate::engine::account_or_new(old(self).view(), aid),
                    ),
                },
            },
    {
        match raw.to_transaction() {
            Err(e) => Err(ProcessError::Row(e)),
            Ok((aid, t)) => match self.process(aid, t) {
                Ok(()) => Ok(()),
                Err(e) => Err(ProcessError::Refused(e)),
            },
        }
    }
}

/// Whether `row` shows the balances and lock of an account in state `m`.
pub open spec fn row_matches(row: AccountStorage, m: AccountModel) -> bool {
    &&& row.available@ == m.total - m.held
    &&& row.held@ == m.held
    &&& row.total@ == m.total
    &&& row.locked == m.locked
}

/// One row of the report: an account's balances and lock.
#[derive(Clone, Copy, Debug, PartialEq, Eq, Structural)]
pub struct AccountStorage {
    pub client: AccountId,
    pub available: Currency,
    pub held: Currency,
    pub total: Currency,
    pub locked: bool,
}

impl AccountStorage {
    /// The report row of account `account.1`, whose identifier is `account.0`.
    pub fn from(account: (AccountId, &Account)) -> (r: AccountStorage)
        requires
            account.1.wf(),
        ensures
            r.client == account.0,
            row_matches(r, account.1.view()),
    {
        let (id, a) = account;
        AccountStorage {
            client: id,
            available: a.availible(),
            held: a.held,
            total: a.total,
            locked: a.locked,
        }
    }
}

impl Engine {
    /// One report row per known account, each account once, in no set order.
    pub fn report(&self) -> (r: Vec<AccountStorage>)
        ensures
            r@.len() == self.view().len(),
            forall|i: int| #![auto] 0 <= i < r@.len() ==> self.view().contains_key(r@[i].client)
                && row_matches(r@[i], self.view()[r@[i].client]),
            forall|aid: AccountId| #[trigger] self.view().contains_key(aid) ==>
                exists|i: int| 0 <= i < r@.len() && r@[i].client == aid,
            forall|i: int, j: int| 0 <= i < j < r@.len() ==> r@[i].client != r@[j].client,
    {
        let accounts = self.accounts();
        let mut r: Vec<AccountStorage> = Vec::new();
        let mut k: usize = 0;
        while k < accounts.len()
            invariant
                k <= accounts@.len(),
                r@.len() == k,
                forall|i: int| #![auto] 0 <= i < accounts@.len() ==> accounts@[i].1.wf(),
                forall|i: int| #![auto] 0 <= i < k ==> r@[i].client == accounts@[i].0
                    && row_matches(r@[i], accounts@[i].1.view()),
            decreases accounts@.len() - k,
        {
            r.push(AccountStorage::from(accounts[k]));
            k = k + 1;
        }
        proof {
            assert forall|aid: AccountId| #[trigger] self.view().contains_key(aid) implies
                exists|i: int| 0 <= i < r@.len() && r@[i].client == aid by {
                let i = choose|i: int| 0 <= i < accounts@.len() && accounts@[i].0 == aid;
                assert(r@[i].client == aid);
            }
        }
        r
    }
}

} // verus!
