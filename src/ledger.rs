//! The ledger that holds the players' balances.
//!
//! The engine moves money only through the [`Ledger`] trait. [`Balances`] is
//! an in-memory ledger with an existential deposit: an account whose free
//! balance would fall below that threshold is removed.
use vstd::prelude::*;

use std::collections::HashMap;

use crate::{AccountId, Balance};

verus! {

broadcast use vstd::std_specs::hash::group_hash_axioms;

/// Why a ledger declined to move funds.
#[derive(Clone, Copy, Debug, PartialEq, Eq, Structural)]
pub enum LedgerError {
    /// The account holds less than the amount asked for.
    InsufficientBalance,
    /// The withdrawal would leave less than the existential deposit behind,
    /// and the caller asked for the account to be kept alive.
    KeepAlive,
    /// The account to credit does not exist.
    DeadAccount,
    /// The credited balance would not fit in a `Balance`.
    Overflow,
}

/// `before` with `amount` taken from `who`'s account, which stays open.
pub open spec fn debited(
    before: Map<AccountId, Balance>,
    who: AccountId,
    amount: Balance,
) -> Map<AccountId, Balance> {
    if amount == 0 {
        before
    } else {
        before.insert(who, (before[who] - amount) as Balance)
    }
}

/// The balances after `amount` left `who`'s account, starting from `before`.
///
/// Nothing moves for a zero amount. Otherwise the account existed and held at
/// least `amount`; it now holds the difference, or, where the caller let it
/// die, it may be gone.
pub open spec fn withdrawn(
    before: Map<AccountId, Balance>,
    after: Map<AccountId, Balance>,
    who: AccountId,
    amount: Balance,
    keep_alive: bool,
) -> bool {
    if amount == 0 {
        after == before
    } else {
        &&& before.contains_key(who)
        &&& amount <= before[who]
        &&& {
            ||| after == debited(before, who, amount)
            ||| !keep_alive && after == before.remove(who)
        }
    }
}

/// The balances after `amount` was credited to the existing account `who`,
/// starting from `before`. Nothing moves for a zero amount.
pub open spec fn deposited(
    before: Map<AccountId, Balance>,
    after: Map<AccountId, Balance>,
    who: AccountId,
    amount: Balance,
) -> bool {
    if amount == 0 {
        after == before
    } else {
        &&& before.contains_key(who)
        &&& before[who] + amount <= Balance::MAX
        &&& after == before.insert(who, (before[who] + amount) as Balance)
    }
}

/// A store of balances that can debit and credit accounts.
///
/// A refused operation leaves the ledger exactly as it was.
pub trait Ledger: Sized {
    /// The free balance of each account that exists.
    spec fn balances(&self) -> Map<AccountId, Balance>;

    /// What [`Ledger::withdraw`] answers on this ledger.
    spec fn withdraw_outcome(
        &self,
        who: AccountId,
        amount: Balance,
        keep_alive: bool,
    ) -> Result<(), LedgerError>;

    /// What [`Ledger::deposit_into_existing`] answers on this ledger.
    spec fn deposit_outcome(&self, who: AccountId, amount: Balance) -> Result<(), LedgerError>;

    /// Debits `amount` from `who`. With `keep_alive` the account must keep at
    /// least the ledger's existential deposit.
    fn withdraw(&mut self, who: AccountId, amount: Balance, keep_alive: bool) -> (r: Result<
        (),
        LedgerError,
    >)
        ensures
            r == old(self).withdraw_outcome(who, amount, keep_alive),
            r is Err ==> *final(self) == *old(self),
            r is Ok ==> withdrawn(old(self).balances(), final(self).balances(), who, amount, keep_alive),
    ;

    /// Credits `amount` to `who`, which must already exist.
    fn deposit_into_existing(&mut self, who: AccountId, amount: Balance) -> (r: Result<
        (),
        LedgerError,
    >)
        ensures
            r == old(self).deposit_outcome(who, amount),
            r is Err ==> *final(self) == *old(self),
            r is Ok ==> deposited(old(self).balances(), final(self).balances(), who, amount),
    ;
}

/// An in-memory ledger with an existential deposit.
pub struct Balances {
    accounts: HashMap<AccountId, Balance>,
    existential_deposit: Balance,
}

impl Balances {
    /// The smallest balance an account may hold.
    pub closed spec fn spec_existential_deposit(&self) -> Balance {
        self.existential_deposit
    }

    /// An empty ledger whose accounts must hold at least `existential_deposit`.
    pub fn new(existential_deposit: Balance) -> (r: Balances)
        ensures
            r.balances() == Map::<AccountId, Balance>::empty(),
            r.spec_existential_deposit() == existential_deposit,
    {
        Balances { accounts: HashMap::new(), existential_deposit }
    }

    /// The smallest balance an account may hold.
    pub fn existential_deposit(&self) -> (r: Balance)
        ensures
            r == self.spec_existential_deposit(),
    {
        self.existential_deposit
    }

    /// Sets the free balance of `who`. A balance below the existential
    /// deposit removes the account.
    pub fn set_balance(&mut self, who: AccountId, amount: Balance)
        ensures
            final(self).spec_existential_deposit() == old(self).spec_existential_deposit(),
            final(self).balances() == if amount < old(self).spec_existential_deposit() {
                old(self).balances().remove(who)
            } else {
                old(self).balances().insert(who, amount)
            },
    {
        if amount < self.existential_deposit {
            self.accounts.remove(&who);
        } else {
            self.accounts.insert(who, amount);
        }
    }

    /// The free balance of `who`, zero for an account that does not exist.
    pub open spec fn spec_total_balance(&self, who: AccountId) -> Balance {
        if self.balances().contains_key(who) {
            self.balances()[who]
        } else {
            0
        }
    }

    /// The free balance of `who`, zero for an account that does not exist.
    pub fn total_balance(&self, who: AccountId) -> (r: Balance)
        ensures
            r == self.spec_total_balance(who),
    {
        match self.accounts.get(&who) {
            Some(b) => *b,
            None => 0,
        }
    }
}

impl Ledger for Balances {
    closed spec fn balances(&self) -> Map<AccountId, Balance> {
        self.accounts@
    }

    open spec fn withdraw_outcome(
        &self,
        who: AccountId,
        amount: Balance,
        keep_alive: bool,
    ) -> Result<(), LedgerError> {
        if amount == 0 {
            Ok(())
        } else if !self.balances().contains_key(who) || self.balances()[who] < amount {
            Err(LedgerError::InsufficientBalance)
        } else if keep_alive && self.balances()[who] - amount < self.spec_existential_deposit() {
            Err(LedgerError::KeepAlive)
        } else {
            Ok(())
        }
    }

    open spec fn deposit_outcome(&self, who: AccountId, amount: Balance) -> Result<(), LedgerError> {
        if amount == 0 {
            Ok(())
        } else if !self.balances().contains_key(who) {
            Err(LedgerError::DeadAccount)
        } else if self.balances()[who] + amount > Balance::MAX {
            Err(LedgerError::Overflow)
        } else {
            Ok(())
        }
    }

    /// Without `keep_alive`, an account left below the existential deposit is
    /// removed.
    fn withdraw(&mut self, who: AccountId, amount: Balance, keep_alive: bool) -> (r: Result<
        (),
        LedgerError,
    >)
        ensures
            r is Ok && amount > 0 ==> final(self).balances() == if old(self).balances()[who] - amount
                < old(self).spec_existential_deposit() {
                old(self).balances().remove(who)
            } else {
                old(self).balances().insert(who, (old(self).balances()[who] - amount) as Balance)
            },
            final(self).spec_existential_deposit() == old(self).spec_existential_deposit(),
    {
        if amount == 0 {
            return Ok(());
        }
        let free = match self.accounts.get(&who) {
            Some(b) => *b,
            None => 0,
        };
        if free < amount {
            return Err(LedgerError::InsufficientBalance);
        }
        let left = free - amount;
        if left < self.existential_deposit {
            if keep_alive {
                return Err(LedgerError::KeepAlive);
            }
            self.accounts.remove(&who);
        } else {
            self.accounts.insert(who, left);
        }
        Ok(())
    }

    fn deposit_into_existing(&mut self, who: AccountId, amount: Balance) -> (r: Result<
        (),
        LedgerError,
    >)
        ensures
            final(self).spec_existential_deposit() == old(self).spec_existential_deposit(),
    {
        if amount == 0 {
            return Ok(());
        }
        let free = match self.accounts.get(&who) {
            Some(b) => *b,
            None => {
                return Err(LedgerError::DeadAccount);
            },
        };
        match free.checked_add(amount) {
            Some(total) => {
                self.accounts.insert(who, total);
                Ok(())
            },
            None => Err(LedgerError::Overflow),
        }
    }
}

} // verus!
