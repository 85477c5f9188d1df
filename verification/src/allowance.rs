//! The vault's delegated-spending subsystem: per (owner, spender)
//! approval records with an amount and a ledger-sequence expiry.
//!
//! A spend deducts from the record and deletes it once exhausted; a
//! record whose expiry sequence has passed can no longer be spent.

use vstd::prelude::*;

verus! {

use crate::errors::VaultError;
use crate::math::in_i128;
use crate::table::{
    allowance_get,
    allowance_of,
    allowance_remove,
    allowance_set,
    pairs_unique,
    AllowanceData,
    PairEntry,
};

/// Ledgers closed per day, assuming one every five seconds.
pub const DAY_IN_LEDGERS: u32 = 17280;

/// The longest expiry an approval may be given, in days.
pub const MAXIMUM_DAYS: u32 = 30;

/// The longest expiry an approval may be given, in ledgers.
pub const MAXIMUM_LEDGERS: u32 = MAXIMUM_DAYS * DAY_IN_LEDGERS;

/// How a spend of `amount` resolves against the looked-up record `pre` at
/// ledger sequence `sequence`: the typed failure, or success.
pub open spec fn spend_check(
    pre: Option<AllowanceData>,
    sequence: u32,
    amount: i128,
) -> Result<(), VaultError> {
    match pre {
        Option::None => Result::Err(VaultError::NoAllowance),
        Option::Some(d) => if sequence > d.expiry_ledger {
            Result::Err(VaultError::AllowanceExpired)
        } else if amount > d.amount || !in_i128(d.amount - amount) {
            Result::Err(VaultError::InsufficientAllowance)
        } else {
            Result::Ok(())
        },
    }
}

/// What a successful spend of `amount` leaves of the record `d`: the
/// deducted record, or nothing once the amount reaches zero.
pub open spec fn spend_step(d: AllowanceData, amount: i128) -> Option<AllowanceData> {
    if d.amount - amount > 0 {
        Option::Some(
            AllowanceData { amount: (d.amount - amount) as i128, expiry_ledger: d.expiry_ledger },
        )
    } else {
        Option::None
    }
}

/// Spending an approval in two steps that together exhaust it leaves no
/// record behind, and any further spend fails with `NoAllowance`.
pub proof fn lemma_allowance_exhaustion(d: AllowanceData, sequence: u32, a: i128, b: i128, c: i128)
    requires
        a + b == d.amount,
        0 < a,
        0 < b,
        sequence <= d.expiry_ledger,
    ensures
        spend_check(Option::Some(d), sequence, a) is Ok,
        spend_step(d, a) matches Option::Some(d1) && spend_check(Option::Some(d1), sequence, b)
            is Ok && spend_step(d1, b) is None,
        spend_check(Option::None, sequence, c) == Result::<(), VaultError>::Err(
            VaultError::NoAllowance,
        ),
{
}

/// The absolute expiry ledger for an approval lasting `days` days from
/// ledger sequence `sequence`; `days` must lie in `1..=MAXIMUM_DAYS`.
pub fn calculate_expiry_ledger(sequence: u32, days: u32) -> (r: Result<u32, VaultError>)
    requires
        1 <= days <= MAXIMUM_DAYS ==> sequence + days * DAY_IN_LEDGERS <= u32::MAX,
    ensures
        r == if days == 0 || days > MAXIMUM_DAYS {
            Result::<u32, VaultError>::Err(VaultError::InvalidExpiryDays)
        } else {
            Result::<u32, VaultError>::Ok((sequence + days * DAY_IN_LEDGERS) as u32)
        },
{
    if days == 0 || days > MAXIMUM_DAYS {
        Result::Err(VaultError::InvalidExpiryDays)
    } else {
        proof {
            assert(days * DAY_IN_LEDGERS <= MAXIMUM_DAYS * DAY_IN_LEDGERS) by (nonlinear_arith)
                requires
                    days <= MAXIMUM_DAYS,
            ;
        }
        let ledgers: u32 = days * DAY_IN_LEDGERS;
        Result::Ok(sequence + ledgers)
    }
}

/// Records an approval of `amount` from `owner` toward `spender` lasting
/// until `expiry_ledger`, overwriting any prior record for the pair; the
/// expiry must land within `(sequence, sequence + MAXIMUM_LEDGERS]`.
pub fn approve_allowance(
    allowances: &mut Vec<PairEntry>,
    sequence: u32,
    owner: u64,
    spender: u64,
    amount: i128,
    expiry_ledger: u32,
) -> (r: Result<(), VaultError>)
    requires
        pairs_unique(old(allowances)@),
        sequence + MAXIMUM_LEDGERS <= u32::MAX,
    ensures
        pairs_unique(final(allowances)@),
        r == if expiry_ledger < sequence + 1 || expiry_ledger > sequence + MAXIMUM_LEDGERS {
            Result::<(), VaultError>::Err(VaultError::InvalidExpiry)
        } else {
            Result::<(), VaultError>::Ok(())
        },
        r is Ok ==> allowance_of(final(allowances)@, owner, spender) == Option::Some(
            AllowanceData { amount, expiry_ledger },
        ),
        r is Ok ==> forall|o: u64, p: u64|
            !(o == owner && p == spender) ==> allowance_of(final(allowances)@, o, p)
                == allowance_of(old(allowances)@, o, p),
        r is Err ==> *final(allowances) == *old(allowances),
{
    let min_expiry: u32 = sequence + 1;
    let max_expiry: u32 = sequence + MAXIMUM_LEDGERS;
    if expiry_ledger < min_expiry || expiry_ledger > max_expiry {
        Result::Err(VaultError::InvalidExpiry)
    } else {
        allowance_set(allowances, owner, spender, AllowanceData { amount, expiry_ledger });
        Result::Ok(())
    }
}

/// Spends `amount` of the approval from `owner` toward `spender`,
/// deducting the record and deleting it once exhausted.
pub fn spend_allowance(
    allowances: &mut Vec<PairEntry>,
    sequence: u32,
    owner: u64,
    spender: u64,
    amount: i128,
) -> (r: Result<(), VaultError>)
    requires
        pairs_unique(old(allowances)@),
    ensures
        pairs_unique(final(allowances)@),
        r == spend_check(allowance_of(old(allowances)@, owner, spender), sequence, amount),
        r is Ok ==> (allowance_of(old(allowances)@, owner, spender) matches Option::Some(d)
            && allowance_of(final(allowances)@, owner, spender) == spend_step(d, amount)),
        r is Ok ==> forall|o: u64, p: u64|
            !(o == owner && p == spender) ==> allowance_of(final(allowances)@, o, p)
                == allowance_of(old(allowances)@, o, p),
        r is Err ==> *final(allowances) == *old(allowances),
{
    let d = match allowance_get(allowances, owner, spender) {
        Option::Some(d) => d,
        Option::None => {
            return Result::Err(VaultError::NoAllowance);
        },
    };
    if sequence > d.expiry_ledger {
        Result::Err(VaultError::AllowanceExpired)
    } else if amount > d.amount || (amount < 0 && d.amount > i128::MAX + amount) {
        Result::Err(VaultError::InsufficientAllowance)
    } else {
        let remaining = d.amount - amount;
        if remaining > 0 {
            allowance_set(
                allowances,
                owner,
                spender,
                AllowanceData { amount: remaining, expiry_ledger: d.expiry_ledger },
            );
        } else {
            allowance_remove(allowances, owner, spender);
        }
        Result::Ok(())
    }
}

} // verus!
