//! One client's balances, its ledger of deposits and the rules that move them.

use vstd::prelude::*;
use std::collections::HashMap;
use crate::engine::Transaction;
use crate::types::{in_range, Currency, TransactionId, MAX_UNITS};

verus! {

broadcast use vstd::std_specs::hash::group_hash_axioms;

/// A recorded deposit: its amount and whether it is under dispute.
#[derive(Clone, Copy, Debug, PartialEq, Eq, Structural)]
pub struct DepositRecord {
    pub amount: Currency,
    pub disputed: bool,
}

/// Why a transaction was not applied to an account.
#[derive(Clone, Copy, Debug, PartialEq, Eq, Structural)]
pub enum AccountError {
    /// The account was locked by an earlier chargeback.
    AccountLocked,
    /// A deposit or withdrawal with a negative amount.
    InvalidAmount { id: TransactionId },
    /// A withdrawal above the available funds, or a chargeback above the total.
    InsufficientFunds { id: TransactionId },
    /// No deposit with this identifier is recorded.
    UnknownTransaction { id: TransactionId },
    /// The deposit is already under dispute.
    AlreadyDisputed { id: TransactionId },
    /// The deposit is not under dispute.
    NotDisputed { id: TransactionId },
    /// A balance or an amount would leave the representable range.
    Overflow { id: TransactionId },
}

/// The state of an account as a mathematical value, in units of `10^-4`.
pub struct AccountModel {
    pub total: int,
    pub held: int,
    pub locked: bool,
    pub deposits: Map<TransactionId, DepositRecord>,
}

/// The state of a fresh account.
pub open spec fn initial_model() -> AccountModel {
    AccountModel { total: 0, held: 0, locked: false, deposits: Map::empty() }
}

/// Funds that may be withdrawn: the total less what is held.
pub open spec fn available_of(m: AccountModel) -> int {
    m.total - m.held
}

/// Balances in range, every recorded amount between zero and the bound.
pub open spec fn model_wf(m: AccountModel) -> bool {
    &&& in_range(m.total)
    &&& in_range(m.held)
    &&& forall|id: TransactionId| #[trigger]
        m.deposits.contains_key(id) ==> 0 <= m.deposits[id].amount@ <= MAX_UNITS
}

/// What applying `t` to an account in state `m` yields: the next state, or
/// the reason it is refused, in which case the state stays as it was.
pub open spec fn step(m: AccountModel, t: Transaction) -> Result<AccountModel, AccountError> {
    if m.locked {
        Err(AccountError::AccountLocked)
    } else {
        match t {
            Transaction::Deposit { id, amount } => {
                if amount@ < 0 {
                    Err(AccountError::InvalidAmount { id })
                } else if !in_range(amount@) || !in_range(m.total + amount@) {
                    Err(AccountError::Overflow { id })
                } else {
                    Ok(AccountModel {
                        total: m.total + amount@,
                        deposits: m.deposits.insert(id, DepositRecord { amount, disputed: false }),
                        ..m
                    })
                }
            },
            Transaction::Withdrawal { id, amount } => {
                if amount@ < 0 {
                    Err(AccountError::InvalidAmount { id })
                } else if amount@ > available_of(m) {
                    Err(AccountError::InsufficientFunds { id })
                } else {
                    Ok(AccountModel { total: m.total - amount@, ..m })
                }
            },
            Transaction::Dispute { id } => {
                if !m.deposits.contains_key(id) {
                    Err(AccountError::UnknownTransaction { id })
                } else if m.deposits[id].disputed {
                    Err(AccountError::AlreadyDisputed { id })
                } else if !in_range(m.held + m.deposits[id].amount@) {
                    Err(AccountError::Overflow { id })
                } else {
                    Ok(AccountModel {
                        held: m.held + m.deposits[id].amount@,
                        deposits: m.deposits.insert(
                            id,
                            DepositRecord { amount: m.deposits[id].amount, disputed: true },
                        ),
                        ..m
                    })
                }
            },
            Transaction::Resolve { id } => {
                if !m.deposits.contains_key(id) {
                    Err(AccountError::UnknownTransaction { id })
                } else if !m.deposits[id].disputed {
                    Err(AccountError::NotDisputed { id })
                } else if !in_range(m.held - m.deposits[id].amount@) {
                    Err(AccountError::Overflow { id })
                } else {
                    Ok(AccountModel {
                        held: m.held - m.deposits[id].amount@,
                        deposits: m.deposits.insert(
                            id,
                            DepositRecord { amount: m.deposits[id].amount, disputed: false },
                        ),
                        ..m
                    })
                }
            },
            Transaction::Chargeback { id } => {
                if !m.deposits.contains_key(id) {
                    Err(AccountError::UnknownTransaction { id })
                } else if !m.deposits[id].disputed {
                    Err(AccountError::NotDisputed { id })
                } else if m.deposits[id].amount@ > m.total {
                    Err(AccountError::InsufficientFunds { id })
                } else if !in_range(m.held - m.deposits[id].amount@) {
                    Err(AccountError::Overflow { id })
                } else {
                    Ok(AccountModel {
                        total: m.total - m.deposits[id].amount@,
                        held: m.held - m.deposits[id].amount@,
                        locked: true,
                        deposits: m.deposits.insert(
                            id,
                            DepositRecord { amount: m.deposits[id].amount, disputed: false },
                        ),
                    })
                }
            },
        }
    }
}

/// One client's balances and the deposits it has received.
///
/// Every deposit is kept for as long as the account lives, so that a dispute
/// may name it at any later point of the stream.
pub struct Account {
    pub deposits: HashMap<TransactionId, DepositRecord>,
    pub total: Currency,
    pub held: Currency,
    pub locked: bool,
}

impl Default for Account {
    fn default() -> (r: Account)
        ensures
            r.view() == initial_model(),
            r.wf(),
    {
        Account::new()
    }
}

impl Account {
    pub open spec fn view(&self) -> AccountModel {
        AccountModel {
            total: self.total@,
            held: self.held@,
            locked: self.locked,
            deposits: self.deposits@,
        }
    }

    pub open spec fn wf(&self) -> bool {
        model_wf(self.view())
    }

    /// A fresh account: nothing deposited, nothing held, not locked.
    pub fn new() -> (r: Account)
        ensures
            r.view() == initial_model(),
            r.wf(),
    {
        Account {
            deposits: HashMap::new(),
            total: Currency::zero(),
            held: Currency::zero(),
            locked: false,
        }
    }

    /// The funds that may be withdrawn: the total less what is held. It is
    /// negative where a deposit already spent has since been disputed.
    pub fn availible(&self) -> (r: Currency)
        requires
            self.wf(),
        ensures
            r@ == self.total@ - self.held@,
            r@ == available_of(self.view()),
    {
        Currency { units: self.total.units - self.held.units }
    }

    /// Applies one transaction, or refuses it and leaves the account as it was.
    pub fn update(&mut self, transaction: Transaction) -> (r: Result<(), AccountError>)
        requires
            old(self).wf(),
        ensures
            final(self).wf(),
            match step(old(self).view(), transaction) {
                Ok(next) => r is Ok && final(self).view() == next,
                Err(e) => r == Err::<(), AccountError>(e) && final(self).view() == old(self).view(),
            },
    {
        if self.locked {
            return Err(AccountError::AccountLocked);
        }
        match transaction {
            Transaction::Deposit { id, amount } => {
                if amount.units < 0 {
                    Err(AccountError::InvalidAmount { id })
                } else if amount.units > MAX_UNITS || amount.units > MAX_UNITS - self.total.units {
                    Err(AccountError::Overflow { id })
                } else {
                    self.deposits.insert(id, DepositRecord { amount, disputed: false });
                    self.total = Currency { units: self.total.units + amount.units };
                    Ok(())
                }
            },
            Transaction::Withdrawal { id, amount } => {
                if amount.units < 0 {
                    Err(AccountError::InvalidAmount { id })
                } else if amount.units > self.total.units - self.held.units {
                    Err(AccountError::InsufficientFunds { id })
                } else {
                    self.total = Currency { units: self.total.units - amount.units };
                    Ok(())
                }
            },
            Transaction::Dispute { id } => {
                match self.deposits.get(&id) {
                    None => Err(AccountError::UnknownTransaction { id }),
                    Some(record) => {
                        let record = *record;
                        if record.disputed {
                            Err(AccountError::AlreadyDisputed { id })
                        } else if record.amount.units > MAX_UNITS - self.held.units {
                            Err(AccountError::Overflow { id })
                        } else {
                            self.held = Currency { units: self.held.units + record.amount.units };
                            self.deposits.insert(
                                id,
                                DepositRecord { amount: record.amount, disputed: true },
                            );
                            Ok(())
                        }
                    },
                }
            },
            Transaction::Resolve { id } => {
                match self.deposits.get(&id) {
                    None => Err(AccountError::UnknownTransaction { id }),
                    Some(record) => {
                        let record = *record;
                        if !record.disputed {
                            Err(AccountError::NotDisputed { id })
                        } else if self.held.units - record.amount.units < -MAX_UNITS {
                            Err(AccountError::Overflow { id })
                        } else {
                            self.held = Currency { units: self.held.units - record.amount.units };
                            self.deposits.insert(
                                id,
                                DepositRecord { amount: record.amount, disputed: false },
                            );
                            Ok(())
                        }
                    },
                }
            },
            Transaction::Chargeback { id } => {
                match self.deposits.get(&id) {
                    None => Err(AccountError::UnknownTransaction { id }),
                    Some(record) => {
                        let record = *record;
                        if !record.disputed {
                            Err(AccountError::NotDisputed { id })
                        } else if record.amount.units > self.total.units {
                            Err(AccountError::InsufficientFunds { id })
                        } else if self.held.units - record.amount.units < -MAX_UNITS {
                            Err(AccountError::Overflow { id })
                        } else {
                            self.total = Currency { units: self.total.units - record.amount.units };
                            self.held = Currency { units: self.held.units - record.amount.units };
                            self.deposits.insert(
                                id,
                                DepositRecord { amount: record.amount, disputed: false },
                            );
                            self.locked = true;
                            Ok(())
                        }
                    },
                }
            },
        }
    }
}

} // verus!
