use vault_market::allowance::{
    approve_allowance, calculate_expiry_ledger, spend_allowance, DAY_IN_LEDGERS, MAXIMUM_LEDGERS,
};
use vault_market::errors::VaultError;
use vault_market::table::{allowance_get, PairEntry};

const OWNER: u64 = 1;
const SPENDER: u64 = 2;

#[test]
fn calculate_expiry_ledger_bounds_days() {
    assert_eq!(calculate_expiry_ledger(100, 0), Err(VaultError::InvalidExpiryDays));
    assert_eq!(calculate_expiry_ledger(100, 31), Err(VaultError::InvalidExpiryDays));
    assert_eq!(calculate_expiry_ledger(100, 1), Ok(100 + DAY_IN_LEDGERS));
    assert_eq!(calculate_expiry_ledger(100, 30), Ok(100 + MAXIMUM_LEDGERS));
}

#[test]
fn approve_allowance_rejects_out_of_window_expiry() {
    let mut records: Vec<PairEntry> = Vec::new();
    assert_eq!(
        approve_allowance(&mut records, 100, OWNER, SPENDER, 50, 100),
        Err(VaultError::InvalidExpiry)
    );
    assert_eq!(
        approve_allowance(&mut records, 100, OWNER, SPENDER, 50, 100 + MAXIMUM_LEDGERS + 1),
        Err(VaultError::InvalidExpiry)
    );
    assert!(records.is_empty());
    assert_eq!(approve_allowance(&mut records, 100, OWNER, SPENDER, 50, 101), Ok(()));
    let data = allowance_get(&records, OWNER, SPENDER).unwrap();
    assert_eq!(data.amount, 50);
    assert_eq!(data.expiry_ledger, 101);
}

#[test]
fn spend_deducts_and_deletes_when_exhausted() {
    // Spending the approved amount in two steps leaves no record, and
    // any further spend fails with NoAllowance.
    let mut records: Vec<PairEntry> = Vec::new();
    approve_allowance(&mut records, 100, OWNER, SPENDER, 100, 200).unwrap();

    assert_eq!(spend_allowance(&mut records, 150, OWNER, SPENDER, 60), Ok(()));
    let data = allowance_get(&records, OWNER, SPENDER).unwrap();
    assert_eq!(data.amount, 40);
    assert_eq!(data.expiry_ledger, 200);

    assert_eq!(spend_allowance(&mut records, 150, OWNER, SPENDER, 40), Ok(()));
    assert!(allowance_get(&records, OWNER, SPENDER).is_none());

    assert_eq!(
        spend_allowance(&mut records, 150, OWNER, SPENDER, 1),
        Err(VaultError::NoAllowance)
    );
}

#[test]
fn spend_rejects_expired_and_oversized() {
    let mut records: Vec<PairEntry> = Vec::new();
    approve_allowance(&mut records, 100, OWNER, SPENDER, 100, 200).unwrap();
    assert_eq!(
        spend_allowance(&mut records, 201, OWNER, SPENDER, 10),
        Err(VaultError::AllowanceExpired)
    );
    assert_eq!(
        spend_allowance(&mut records, 200, OWNER, SPENDER, 101),
        Err(VaultError::InsufficientAllowance)
    );
    // Failed spends leave the record alone.
    let data = allowance_get(&records, OWNER, SPENDER).unwrap();
    assert_eq!(data.amount, 100);
}

#[test]
fn approve_overwrites_prior_record() {
    let mut records: Vec<PairEntry> = Vec::new();
    approve_allowance(&mut records, 100, OWNER, SPENDER, 100, 200).unwrap();
    approve_allowance(&mut records, 100, OWNER, SPENDER, 7, 300).unwrap();
    let data = allowance_get(&records, OWNER, SPENDER).unwrap();
    assert_eq!(data.amount, 7);
    assert_eq!(data.expiry_ledger, 300);
    assert_eq!(records.len(), 1);
}
