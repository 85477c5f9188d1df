use vault_market::errors::{ContractError, VaultError};
use vault_market::table::allowance_get;
use vault_market::token::TokenLedger;
use vault_market::vault::Vault;

const ADMIN: u64 = 1;
const ASSET: u64 = 2;
const VAULT: u64 = 10;
const ALICE: u64 = 100;
const BOB: u64 = 101;
const CAROL: u64 = 102;
const NOW: u64 = 100;
const SEQ: u32 = 500;

fn setup() -> (TokenLedger, Vault) {
    let mut token = TokenLedger::new(String::from("Dollar"), String::from("USD"), 0);
    token.credit(ALICE, 1_000);
    token.credit(BOB, 1_000);
    let mut vault = Vault::new(VAULT);
    vault
        .initialize(&token, ADMIN, ASSET, 2_000, 3_000)
        .unwrap();
    (token, vault)
}

fn share_sum(vault: &Vault) -> i128 {
    vault.shares.iter().map(|e| e.amount).sum()
}

#[test]
fn initialize_captures_metadata() {
    let token = TokenLedger::new(String::from("Dollar"), String::from("USD"), 7);
    let mut vault = Vault::new(VAULT);
    let (name, symbol, decimals) = vault
        .initialize(&token, ADMIN, ASSET, 2_000, 3_000)
        .unwrap();
    assert_eq!(name, "Dollar");
    assert_eq!(symbol, "USD");
    assert_eq!(decimals, 7);
    assert_eq!(vault.administrator_address(), Ok(ADMIN));
    assert_eq!(vault.asset_address(), Ok(ASSET));
    assert_eq!(vault.asset_name(), Ok(String::from("Dollar")));
    assert_eq!(vault.asset_symbol(), Ok(String::from("USD")));
    assert_eq!(vault.asset_decimals(), Ok(7));
    assert_eq!(vault.total_shares(), Ok(0));
    assert_eq!(vault.lock_timestamp(), Ok(2_000));
    assert_eq!(vault.unlock_timestamp(), Ok(3_000));
}

#[test]
fn initialize_twice_fails_and_changes_nothing() {
    let (token, mut vault) = setup();
    let r = vault.initialize(&token, 9, 9, 0, 1);
    assert_eq!(r, Err(ContractError::AlreadyInitialized));
    assert_eq!(vault.administrator_address(), Ok(ADMIN));
    assert_eq!(vault.asset_address(), Ok(ASSET));
    assert_eq!(vault.lock_timestamp(), Ok(2_000));
}

#[test]
fn initialize_rejects_misordered_lock_window() {
    let token = TokenLedger::new(String::from("Dollar"), String::from("USD"), 0);
    let mut vault = Vault::new(VAULT);
    assert_eq!(
        vault.initialize(&token, ADMIN, ASSET, 3_000, 2_000),
        Err(ContractError::InvalidLockTimes)
    );
    assert_eq!(vault.administrator_address(), Err(ContractError::NotInitialized));
}

#[test]
fn uninitialized_vault_rejects_everything() {
    let mut token = TokenLedger::new(String::from("Dollar"), String::from("USD"), 0);
    token.credit(ALICE, 100);
    let mut vault = Vault::new(VAULT);
    assert_eq!(vault.total_shares(), Err(ContractError::NotInitialized));
    assert_eq!(vault.total_assets(&token), Err(ContractError::NotInitialized));
    assert_eq!(vault.preview_deposit(&token, 5), Err(ContractError::NotInitialized));
    assert_eq!(
        vault.deposit(&mut token, NOW, 5, ALICE, ALICE),
        Err(VaultError::AdministratorError)
    );
    assert_eq!(
        vault.withdraw(&mut token, NOW, SEQ, 5, ALICE, ALICE, ALICE),
        Err(VaultError::AdministratorError)
    );
    assert_eq!(vault.pause(), Err(ContractError::NotInitialized));
}

#[test]
fn deposit_moves_assets_and_mints_shares() {
    let (mut token, mut vault) = setup();
    let shares = vault.deposit(&mut token, NOW, 100, ALICE, ALICE).unwrap();
    assert_eq!(shares, 100);
    assert_eq!(token.balance(ALICE), 900);
    assert_eq!(token.balance(VAULT), 100);
    assert_eq!(vault.total_shares(), Ok(100));
    assert_eq!(vault.balance_of_shares(ALICE), Ok(100));
    assert_eq!(vault.total_assets(&token), Ok(100));

    let shares2 = vault.deposit(&mut token, NOW, 50, BOB, BOB).unwrap();
    assert_eq!(shares2, 50);
    assert_eq!(vault.total_shares(), Ok(150));
    // Conservation: the recorded total equals the sum of all holdings.
    assert_eq!(vault.total_shares().unwrap(), share_sum(&vault));
}

#[test]
fn deposit_rejects_bad_amounts() {
    let (mut token, mut vault) = setup();
    assert_eq!(vault.deposit(&mut token, NOW, 0, ALICE, ALICE), Err(VaultError::ZeroAssets));
    assert_eq!(vault.deposit(&mut token, NOW, -5, ALICE, ALICE), Err(VaultError::ZeroAssets));
    assert_eq!(
        vault.deposit(&mut token, NOW, 2_000, ALICE, ALICE),
        Err(VaultError::InsufficientBalance)
    );
    assert_eq!(token.balance(ALICE), 1_000);
    assert_eq!(vault.total_shares(), Ok(0));
}

#[test]
fn deposit_scales_by_decimals() {
    let mut token = TokenLedger::new(String::from("Dollar"), String::from("USD"), 2);
    token.credit(ALICE, 10_000);
    let mut vault = Vault::new(VAULT);
    vault.initialize(&token, ADMIN, ASSET, 2_000, 3_000).unwrap();
    let shares = vault.deposit(&mut token, NOW, 5, ALICE, ALICE).unwrap();
    assert_eq!(shares, 5);
    // 5 assets move 5 * 10^2 token units.
    assert_eq!(token.balance(ALICE), 9_500);
    assert_eq!(token.balance(VAULT), 500);
    assert_eq!(vault.total_assets(&token), Ok(5));
}

#[test]
fn deposit_respects_lock_window() {
    let (mut token, mut vault) = setup();
    assert_eq!(
        vault.deposit(&mut token, 2_500, 10, ALICE, ALICE),
        Err(VaultError::VaultLocked)
    );
    // Just after the window it works again.
    assert!(vault.deposit(&mut token, 3_001, 10, ALICE, ALICE).is_ok());
}

#[test]
fn mint_draws_quoted_assets() {
    let (mut token, mut vault) = setup();
    vault.deposit(&mut token, NOW, 100, ALICE, ALICE).unwrap();
    // Make the pool uneven: 150 assets back 100 shares.
    token.credit(VAULT, 50);
    assert_eq!(vault.preview_mint(&token, 10), Ok(15));
    let assets = vault.mint(&mut token, NOW, 10, BOB, BOB).unwrap();
    assert_eq!(assets, 15);
    assert_eq!(token.balance(BOB), 985);
    assert_eq!(vault.balance_of_shares(BOB), Ok(10));
    assert_eq!(vault.total_shares(), Ok(110));
    assert_eq!(vault.total_shares().unwrap(), share_sum(&vault));
    assert_eq!(vault.mint(&mut token, NOW, 0, BOB, BOB), Err(VaultError::ZeroShares));
}

#[test]
fn quoting_surface_rounds_against_the_caller() {
    let (mut token, mut vault) = setup();
    vault.deposit(&mut token, NOW, 100, ALICE, ALICE).unwrap();
    token.credit(VAULT, 50);
    // 100 shares, 150 assets: price factors 101 and 151.
    assert_eq!(vault.preview_deposit(&token, 10), Ok(6)); // floor(1010/151)
    assert_eq!(vault.preview_withdraw(&token, 10), Ok(7)); // ceil(1010/151)
    assert_eq!(vault.preview_mint(&token, 10), Ok(15)); // ceil(1510/101)
    assert_eq!(vault.preview_redeem(&token, 10), Ok(14)); // floor(1510/101)
    assert_eq!(vault.convert_to_shares(&token, 10), Ok(6));
    assert_eq!(vault.convert_to_assets(&token, 10), Ok(14));
    // Minting never lets the depositor pay less than the floor-rounded
    // fair price.
    assert!(vault.preview_mint(&token, 10).unwrap() >= vault.convert_to_assets(&token, 10).unwrap());
    // Committing to an amount quotes the same as the plain conversion.
    assert_eq!(vault.preview_deposit(&token, 10), vault.convert_to_shares(&token, 10));
}

#[test]
fn conversion_simulate_matches_formula() {
    let vault = Vault::new(VAULT);
    // 10 * (100 + 1) / (150 + 1) = 1010 / 151 -> 6
    assert_eq!(vault.convert_to_shares_simulate(10, 150, 100), Ok(6));
    // 10 * (150 + 1) / (100 + 1) = 1510 / 101 -> 14
    assert_eq!(vault.convert_to_assets_simulate(10, 100, 150), Ok(14));
    // Outside the supported range the projection is zero.
    assert_eq!(vault.convert_to_shares_simulate(0, 150, 100), Ok(0));
    assert_eq!(vault.convert_to_shares_simulate(200, 150, 100), Ok(0));
    assert_eq!(vault.convert_to_assets_simulate(10, 5, 150), Ok(0));
}

#[test]
fn withdraw_burns_before_paying_out() {
    let (mut token, mut vault) = setup();
    vault.deposit(&mut token, NOW, 100, ALICE, ALICE).unwrap();
    let shares = vault
        .withdraw(&mut token, NOW, SEQ, 40, ALICE, ALICE, ALICE)
        .unwrap();
    assert_eq!(shares, 40);
    assert_eq!(token.balance(ALICE), 940);
    assert_eq!(token.balance(VAULT), 60);
    assert_eq!(vault.balance_of_shares(ALICE), Ok(60));
    assert_eq!(vault.total_shares(), Ok(60));
    assert_eq!(vault.total_shares().unwrap(), share_sum(&vault));
}

#[test]
fn withdraw_rejects_more_than_max() {
    let (mut token, mut vault) = setup();
    vault.deposit(&mut token, NOW, 100, ALICE, ALICE).unwrap();
    assert_eq!(vault.max_withdraw(&token, ALICE), 100);
    assert_eq!(
        vault.withdraw(&mut token, NOW, SEQ, 101, ALICE, ALICE, ALICE),
        Err(VaultError::ERC4626ExceededMaxWithdraw)
    );
    assert_eq!(
        vault.withdraw(&mut token, NOW, SEQ, 0, ALICE, ALICE, ALICE),
        Err(VaultError::ZeroAssets)
    );
}

#[test]
fn redeem_pays_quoted_assets() {
    let (mut token, mut vault) = setup();
    vault.deposit(&mut token, NOW, 100, ALICE, ALICE).unwrap();
    token.credit(VAULT, 50);
    assert_eq!(vault.max_redeem(ALICE), 100);
    let assets = vault
        .redeem(&mut token, NOW, SEQ, 10, ALICE, BOB, ALICE)
        .unwrap();
    assert_eq!(assets, 14); // floor(10 * 151 / 101)
    assert_eq!(token.balance(BOB), 1_014);
    assert_eq!(vault.balance_of_shares(ALICE), Ok(90));
    assert_eq!(
        vault.redeem(&mut token, NOW, SEQ, 91, ALICE, ALICE, ALICE),
        Err(VaultError::ERC4626ExceededMaxRedeem)
    );
    assert_eq!(
        vault.redeem(&mut token, NOW, SEQ, 0, ALICE, ALICE, ALICE),
        Err(VaultError::ZeroShares)
    );
}

#[test]
fn third_party_withdraw_spends_allowance() {
    let (mut token, mut vault) = setup();
    vault.deposit(&mut token, NOW, 100, ALICE, ALICE).unwrap();

    // Without an approval Bob cannot move Alice's shares.
    assert_eq!(
        vault.withdraw(&mut token, NOW, SEQ, 10, BOB, BOB, ALICE),
        Err(VaultError::NoAllowance)
    );

    vault.approve_shares(SEQ, ALICE, BOB, 60, 1).unwrap();
    assert_eq!(
        vault.withdraw(&mut token, NOW, SEQ, 70, BOB, BOB, ALICE),
        Err(VaultError::InsufficientAllowance)
    );
    let shares = vault
        .withdraw(&mut token, NOW, SEQ, 40, BOB, BOB, ALICE)
        .unwrap();
    assert_eq!(shares, 40);
    assert_eq!(token.balance(BOB), 1_040);
    assert_eq!(vault.balance_of_shares(ALICE), Ok(60));
    let left = allowance_get(&vault.allowances, ALICE, BOB).unwrap();
    assert_eq!(left.amount, 20);

    // Exhausting the approval deletes the record; further spends fail.
    vault.withdraw(&mut token, NOW, SEQ, 20, BOB, BOB, ALICE).unwrap();
    assert!(allowance_get(&vault.allowances, ALICE, BOB).is_none());
    assert_eq!(
        vault.withdraw(&mut token, NOW, SEQ, 1, BOB, BOB, ALICE),
        Err(VaultError::NoAllowance)
    );
}

#[test]
fn expired_share_allowance_is_refused() {
    let (mut token, mut vault) = setup();
    vault.deposit(&mut token, NOW, 100, ALICE, ALICE).unwrap();
    vault.approve_shares(SEQ, ALICE, BOB, 60, 1).unwrap();
    let expired_seq = SEQ + 17_280 + 1;
    assert_eq!(
        vault.withdraw(&mut token, NOW, expired_seq, 10, BOB, BOB, ALICE),
        Err(VaultError::AllowanceExpired)
    );
}

#[test]
fn approve_shares_validates_input() {
    let (_token, mut vault) = setup();
    assert_eq!(
        vault.approve_shares(SEQ, ALICE, BOB, 0, 1),
        Err(VaultError::InvalidAmount)
    );
    assert_eq!(
        vault.approve_shares(SEQ, ALICE, ALICE, 10, 1),
        Err(VaultError::CannotApproveOrTransferToSelf)
    );
    assert_eq!(
        vault.approve_shares(SEQ, ALICE, BOB, 10, 0),
        Err(VaultError::InvalidExpiryDays)
    );
    assert_eq!(
        vault.approve_shares(SEQ, ALICE, BOB, 10, 31),
        Err(VaultError::InvalidExpiryDays)
    );
}

#[test]
fn transfer_shares_moves_balance_only() {
    let (mut token, mut vault) = setup();
    vault.deposit(&mut token, NOW, 100, ALICE, ALICE).unwrap();
    assert_eq!(vault.transfer_shares(ALICE, CAROL, 30), Ok(true));
    assert_eq!(vault.balance_of_shares(ALICE), Ok(70));
    assert_eq!(vault.balance_of_shares(CAROL), Ok(30));
    assert_eq!(vault.total_shares(), Ok(100));
    assert_eq!(vault.total_shares().unwrap(), share_sum(&vault));
    // The token ledger is untouched by a pure share move.
    assert_eq!(token.balance(CAROL), 0);

    assert_eq!(vault.transfer_shares(ALICE, CAROL, 0), Err(VaultError::InvalidAmount));
    assert_eq!(vault.transfer_shares(ALICE, CAROL, 1_000), Err(VaultError::InvalidAmount));
    assert_eq!(
        vault.transfer_shares(ALICE, ALICE, 10),
        Err(VaultError::CannotApproveOrTransferToSelf)
    );
}

#[test]
fn asset_allowance_grant_shows_on_ledger() {
    let (mut token, vault) = setup();
    assert_eq!(
        vault.approve_asset_allowance(&mut token, CAROL, 0, SEQ + 10),
        Err(VaultError::InvalidAmount)
    );
    vault.approve_asset_allowance(&mut token, CAROL, 500, SEQ + 10).unwrap();
    assert_eq!(token.allowance(VAULT, CAROL, SEQ), 500);
    // Past the recorded expiry the allowance reads zero.
    assert_eq!(token.allowance(VAULT, CAROL, SEQ + 11), 0);
}

#[test]
fn pause_gates_deposit_and_withdraw() {
    let (mut token, mut vault) = setup();
    vault.deposit(&mut token, NOW, 100, ALICE, ALICE).unwrap();
    assert_eq!(vault.pause(), Ok(true));
    assert!(vault.is_paused());
    assert_eq!(vault.pause(), Err(ContractError::ContractIsAlreadyPaused));
    assert_eq!(
        vault.deposit(&mut token, NOW, 10, ALICE, ALICE),
        Err(VaultError::VaultPaused)
    );
    assert_eq!(
        vault.withdraw(&mut token, NOW, SEQ, 10, ALICE, ALICE, ALICE),
        Err(VaultError::VaultPaused)
    );
    assert_eq!(vault.unpause(), Ok(true));
    assert!(!vault.is_paused());
    assert_eq!(vault.unpause(), Err(ContractError::ContractIsAlreadyNotPaused));
    assert!(vault.deposit(&mut token, NOW, 10, ALICE, ALICE).is_ok());
}

#[test]
fn operation_pauses_gate_individually() {
    let (mut token, mut vault) = setup();
    vault.deposit(&mut token, NOW, 100, ALICE, ALICE).unwrap();
    assert_eq!(vault.pause_deposit(), Ok(true));
    assert_eq!(vault.pause_deposit(), Err(ContractError::DepositIsAlreadyPaused));
    assert_eq!(
        vault.deposit(&mut token, NOW, 10, ALICE, ALICE),
        Err(VaultError::DepositPaused)
    );
    // Withdrawals still run under a deposit pause.
    assert!(vault.withdraw(&mut token, NOW, SEQ, 10, ALICE, ALICE, ALICE).is_ok());

    let (mut token2, mut vault2) = setup();
    vault2.deposit(&mut token2, NOW, 100, ALICE, ALICE).unwrap();
    assert_eq!(vault2.pause_withdrawal(), Ok(true));
    assert_eq!(vault2.pause_withdrawal(), Err(ContractError::WithdrawIsAlreadyPaused));
    assert_eq!(
        vault2.withdraw(&mut token2, NOW, SEQ, 10, ALICE, ALICE, ALICE),
        Err(VaultError::WithdrawPaused)
    );
    assert!(vault2.deposit(&mut token2, NOW, 10, ALICE, ALICE).is_ok());
}

#[test]
fn individual_pause_is_illegal_while_globally_paused() {
    let (_token, mut vault) = setup();
    vault.pause().unwrap();
    assert_eq!(vault.pause_deposit(), Err(ContractError::ContractIsAlreadyPaused));
    assert_eq!(vault.pause_withdrawal(), Err(ContractError::ContractIsAlreadyPaused));
}

#[test]
fn asymmetric_unpause_converts_the_pause() {
    // Lifting a deposit pause under global pause converts the state into
    // a withdrawal pause rather than fully unpausing.
    let (_token, mut vault) = setup();
    vault.pause_deposit().unwrap();
    vault.pause().unwrap();
    assert_eq!(vault.unpause_deposit(), Ok(true));
    assert!(!vault.is_paused());
    assert!(!vault.deposit_paused);
    assert!(vault.withdraw_paused);

    let (_token2, mut vault2) = setup();
    vault2.pause_withdrawal().unwrap();
    vault2.pause().unwrap();
    assert_eq!(vault2.unpause_withdrawal(), Ok(true));
    assert!(!vault2.is_paused());
    assert!(vault2.deposit_paused);
    assert!(!vault2.withdraw_paused);

    // Outside that state both report the deposit-flavoured error.
    let (_token3, mut vault3) = setup();
    assert_eq!(vault3.unpause_deposit(), Err(ContractError::DepositIsAlreadyNotPaused));
    assert_eq!(vault3.unpause_withdrawal(), Err(ContractError::DepositIsAlreadyNotPaused));
}

#[test]
fn max_deposit_and_mint_are_unbounded() {
    let (_token, vault) = setup();
    assert_eq!(vault.max_deposit(ALICE), i128::MAX);
    assert_eq!(vault.max_mint(ALICE), i128::MAX);
    assert_eq!(vault.contract_address(), VAULT);
}

#[test]
fn ttl_extension_needs_initialization() {
    let (_token, vault) = setup();
    assert_eq!(vault.extend_vault_ttl(), Ok(true));
    let fresh = Vault::new(VAULT);
    assert_eq!(fresh.extend_vault_ttl(), Err(ContractError::NotInitialized));
}

#[test]
fn conversions_on_an_empty_pool() {
    let (token, vault) = setup();
    // With no shares and no assets the price is one to one.
    assert_eq!(vault.preview_deposit(&token, 10), Ok(10));
    assert_eq!(vault.preview_mint(&token, 10), Ok(10));
    assert_eq!(vault.max_withdraw(&token, ALICE), 0);
    assert_eq!(vault.max_redeem(ALICE), 0);
    // Non-positive input converts to zero even before initialization.
    let fresh = Vault::new(VAULT);
    assert_eq!(fresh.convert_to_shares(&token, 0), Ok(0));
    assert_eq!(fresh.convert_to_assets(&token, -3), Ok(0));
    assert_eq!(
        fresh.convert_to_shares(&token, 5),
        Err(ContractError::NotInitialized)
    );
}
