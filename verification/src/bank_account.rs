//! A bank account whose balance and transaction count move together:
//! the invariant-checking example of a compound critical section.
//!
//! A `transfer` is one step that both applies the (possibly negative)
//! amount and counts the transaction, so the two fields can never drift
//! apart: after any serialized run, the balance equals the initial
//! balance plus the sum of all transferred amounts, and the count equals
//! the number of transfers.

use vstd::prelude::*;

verus! {

/// An account balance with a running transaction counter.
pub struct BankAccount {
    balance: i64,
    transaction_count: u64,
}

impl BankAccount {
    /// The current balance.
    pub closed spec fn spec_balance(&self) -> i64 {
        self.balance
    }

    /// How many transfers have been applied.
    pub closed spec fn spec_transaction_count(&self) -> u64 {
        self.transaction_count
    }

    /// An account holding `initial_balance` with no transactions yet.
    pub fn new(initial_balance: i64) -> (a: Self)
        ensures
            a.spec_balance() == initial_balance,
            a.spec_transaction_count() == 0,
    {
        BankAccount { balance: initial_balance, transaction_count: 0 }
    }

    /// Applies `amount` (a deposit when positive, a withdrawal when
    /// negative) and counts the transaction, as one step.
    pub fn transfer(&mut self, amount: i64)
        requires
            i64::MIN <= old(self).spec_balance() + amount <= i64::MAX,
            old(self).spec_transaction_count() < u64::MAX,
        ensures
            final(self).spec_balance() == old(self).spec_balance() + amount,
            final(self).spec_transaction_count() == old(self).spec_transaction_count() + 1,
    {
        self.balance = self.balance + amount;
        self.transaction_count = self.transaction_count + 1;
    }

    /// Reads the current balance.
    pub fn get_balance(&self) -> (b: i64)
        ensures
            b == self.spec_balance(),
    {
        self.balance
    }

    /// Reads the number of transfers applied so far.
    pub fn get_transaction_count(&self) -> (n: u64)
        ensures
            n == self.spec_transaction_count(),
    {
        self.transaction_count
    }
}

} // verus!
