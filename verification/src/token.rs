//! An in-memory model of the underlying fungible-token ledger.
//!
//! The real token is an external collaborator reached by cross-contract
//! calls; this crate specifies it at its interface boundary and carries
//! an in-memory instance so that the vault's accounting and the market's
//! settlement can be verified against exact balance and allowance
//! semantics.  Balances are non-negative, the supply fits in an `i128`,
//! and an allowance past its recorded expiry ledger reads as zero.

use vstd::prelude::*;

verus! {

use crate::table::{
    allowance_get,
    allowance_of,
    allowance_set,
    amount_get,
    amount_of,
    amount_set,
    amounts_nonneg,
    amounts_total,
    keys_unique,
    lemma_amount_le_total,
    lemma_amount_nonneg,
    lemma_total_nonneg,
    pairs_unique,
    AllowanceData,
    AmountEntry,
    PairEntry,
};

/// The token ledger: cached metadata, per-account balances and
/// per-(owner, spender) transfer allowances.
#[derive(Debug)]
pub struct TokenLedger {
    pub name: String,
    pub symbol: String,
    pub decimals: u32,
    pub balances: Vec<AmountEntry>,
    pub allowances: Vec<PairEntry>,
}

impl TokenLedger {
    /// Well-formedness: distinct account keys, non-negative balances, a
    /// total supply that fits the balance type, and distinct allowance
    /// pairs.
    pub open spec fn wf(self) -> bool {
        &&& keys_unique(self.balances@)
        &&& amounts_nonneg(self.balances@)
        &&& amounts_total(self.balances@) <= i128::MAX
        &&& pairs_unique(self.allowances@)
    }

    /// The balance of `account`, absent entries reading as zero.
    pub open spec fn balance_spec(self, account: u64) -> int {
        amount_of(self.balances@, account)
    }

    /// The sum of all balances.
    pub open spec fn supply(self) -> int {
        amounts_total(self.balances@)
    }

    /// The live allowance from `owner` toward `spender` at ledger
    /// sequence `sequence`: the recorded amount while the record has not
    /// expired, zero otherwise.
    pub open spec fn allowance_spec(self, owner: u64, spender: u64, sequence: u32) -> int {
        match allowance_of(self.allowances@, owner, spender) {
            Option::Some(d) => if d.expiry_ledger >= sequence {
                d.amount as int
            } else {
                0
            },
            Option::None => 0,
        }
    }

    /// An empty ledger with the given cached metadata.
    pub fn new(name: String, symbol: String, decimals: u32) -> (r: TokenLedger)
        ensures
            r.wf(),
            r.name == name,
            r.symbol == symbol,
            r.decimals == decimals,
            r.supply() == 0,
            forall|a: u64| r.balance_spec(a) == 0,
            forall|o: u64, p: u64, q: u32| r.allowance_spec(o, p, q) == 0,
    {
        TokenLedger { name, symbol, decimals, balances: Vec::new(), allowances: Vec::new() }
    }

    /// Issues `amount` fresh units to `account`.
    pub fn credit(&mut self, account: u64, amount: i128)
        requires
            old(self).wf(),
            amount >= 0,
            old(self).supply() + amount <= i128::MAX,
        ensures
            final(self).wf(),
            final(self).balance_spec(account) == old(self).balance_spec(account) + amount,
            forall|a: u64|
                a != account ==> final(self).balance_spec(a) == old(self).balance_spec(a),
            final(self).supply() == old(self).supply() + amount,
            final(self).allowances == old(self).allowances,
            final(self).name == old(self).name,
            final(self).symbol == old(self).symbol,
            final(self).decimals == old(self).decimals,
    {
        proof {
            lemma_amount_nonneg(self.balances@, account);
            lemma_amount_le_total(self.balances@, account);
            lemma_total_nonneg(self.balances@);
        }
        let b = amount_get(&self.balances, account);
        amount_set(&mut self.balances, account, b + amount);
    }

    /// Reads the balance of `account`.
    pub fn balance(&self, account: u64) -> (r: i128)
        requires
            self.wf(),
        ensures
            r == self.balance_spec(account),
    {
        amount_get(&self.balances, account)
    }

    /// Reads the live allowance from `owner` toward `spender`.
    pub fn allowance(&self, owner: u64, spender: u64, sequence: u32) -> (r: i128)
        requires
            self.wf(),
        ensures
            r == self.allowance_spec(owner, spender, sequence),
    {
        match allowance_get(&self.allowances, owner, spender) {
            Option::Some(d) => {
                if d.expiry_ledger >= sequence {
                    d.amount
                } else {
                    0
                }
            },
            Option::None => 0,
        }
    }

    /// Records an allowance of `amount` from `owner` toward `spender`,
    /// counting until ledger sequence `live_until`, overwriting any prior
    /// record for the pair.
    pub fn approve(&mut self, owner: u64, spender: u64, amount: i128, live_until: u32)
        requires
            old(self).wf(),
            amount >= 0,
        ensures
            final(self).wf(),
            forall|q: u32|
                final(self).allowance_spec(owner, spender, q) == if live_until >= q {
                    amount as int
                } else {
                    0
                },
            forall|o: u64, p: u64, q: u32|
                !(o == owner && p == spender) ==> final(self).allowance_spec(o, p, q) == old(
                    self,
                ).allowance_spec(o, p, q),
            final(self).balances == old(self).balances,
            final(self).name == old(self).name,
            final(self).symbol == old(self).symbol,
            final(self).decimals == old(self).decimals,
    {
        allowance_set(
            &mut self.allowances,
            owner,
            spender,
            AllowanceData { amount, expiry_ledger: live_until },
        );
    }

    /// Moves `amount` from `from` to `to`.  Balances of every other
    /// account, the supply, and all allowances are untouched.
    pub fn transfer(&mut self, from: u64, to: u64, amount: i128)
        requires
            old(self).wf(),
            amount >= 0,
            old(self).balance_spec(from) >= amount,
        ensures
            final(self).wf(),
            from != to ==> final(self).balance_spec(from) == old(self).balance_spec(from) - amount,
            from != to ==> final(self).balance_spec(to) == old(self).balance_spec(to) + amount,
            from == to ==> final(self).balance_spec(from) == old(self).balance_spec(from),
            forall|a: u64|
                a != from && a != to ==> final(self).balance_spec(a) == old(self).balance_spec(a),
            final(self).supply() == old(self).supply(),
            final(self).allowances == old(self).allowances,
            final(self).name == old(self).name,
            final(self).symbol == old(self).symbol,
            final(self).decimals == old(self).decimals,
    {
        proof {
            lemma_amount_nonneg(self.balances@, to);
        }
        let bf = amount_get(&self.balances, from);
        amount_set(&mut self.balances, from, bf - amount);
        proof {
            lemma_amount_nonneg(self.balances@, to);
            lemma_amount_le_total(self.balances@, to);
            lemma_total_nonneg(self.balances@);
        }
        let bt = amount_get(&self.balances, to);
        amount_set(&mut self.balances, to, bt + amount);
    }

    /// Moves `amount` from `from` to `to` on the authority of `spender`,
    /// spending `from`'s live allowance toward `spender` by `amount` and
    /// keeping its expiry.
    pub fn transfer_from(&mut self, spender: u64, from: u64, to: u64, amount: i128, sequence: u32)
        requires
            old(self).wf(),
            amount >= 0,
            old(self).balance_spec(from) >= amount,
            old(self).allowance_spec(from, spender, sequence) >= amount,
        ensures
            final(self).wf(),
            from != to ==> final(self).balance_spec(from) == old(self).balance_spec(from) - amount,
            from != to ==> final(self).balance_spec(to) == old(self).balance_spec(to) + amount,
            from == to ==> final(self).balance_spec(from) == old(self).balance_spec(from),
            forall|a: u64|
                a != from && a != to ==> final(self).balance_spec(a) == old(self).balance_spec(a),
            final(self).supply() == old(self).supply(),
            final(self).allowance_spec(from, spender, sequence) == old(self).allowance_spec(
                from,
                spender,
                sequence,
            ) - amount,
            forall|o: u64, p: u64, q: u32|
                !(o == from && p == spender) ==> final(self).allowance_spec(o, p, q) == old(
                    self,
                ).allowance_spec(o, p, q),
            final(self).name == old(self).name,
            final(self).symbol == old(self).symbol,
            final(self).decimals == old(self).decimals,
    {
        match allowance_get(&self.allowances, from, spender) {
            Option::Some(d) => {
                allowance_set(
                    &mut self.allowances,
                    from,
                    spender,
                    AllowanceData { amount: d.amount - amount, expiry_ledger: d.expiry_ledger },
                );
            },
            Option::None => {},
        }
        self.transfer(from, to, amount);
    }
}

} // verus!
