use vault_market::errors::MarketError;
use vault_market::market::{MarketContract, MarketData, MarketRisk, MarketStatus};
use vault_market::token::TokenLedger;
use vault_market::vault::Vault;

const ADMIN: u64 = 1;
const ASSET: u64 = 2;
const ORACLE: u64 = 3;
const MARKET: u64 = 5;
const HEDGE: u64 = 10;
const RISK: u64 = 11;
const ALICE: u64 = 100;
const BOB: u64 = 101;
const SEQ: u32 = 50;

// Expected event time 1000, threshold 100: the decision deadline is 1100.
fn data() -> MarketData {
    MarketData {
        name: String::from("Rainfall"),
        description: String::from("Will it rain before the event time"),
        admin_address: ADMIN,
        asset_address: ASSET,
        trusted_oracle_name: String::from("Weather oracle"),
        trusted_oracle_address: ORACLE,
        hedge_vault_address: HEDGE,
        risk_vault_address: RISK,
        commission_fee: 10,
        risk_score: MarketRisk::MEDIUM,
        is_automatic: true,
        event_unix_timestamp: 1_000,
        lock_period_in_seconds: 100,
        event_threshold_in_seconds: 100,
        unlock_period_in_seconds: 200,
    }
}

#[test]
fn init_sets_up_market_and_vaults() {
    let mut token = TokenLedger::new(String::from("Dollar"), String::from("USD"), 0);
    let mut hedge = Vault::new(HEDGE);
    let mut risk = Vault::new(RISK);
    let mut market = MarketContract::new(MARKET);
    assert_eq!(market.init(&mut hedge, &mut risk, &mut token, 500, SEQ, data()), Ok(true));

    assert_eq!(market.status(), Ok(MarketStatus::LIVE));
    assert_eq!(market.name(), Ok(String::from("Rainfall")));
    assert_eq!(market.admin_address(), Ok(ADMIN));
    assert_eq!(market.underlying_asset_address(), Ok(ASSET));
    assert_eq!(market.hedge_address(), Ok(HEDGE));
    assert_eq!(market.risk_address(), Ok(RISK));
    assert_eq!(market.oracle_address(), Ok(ORACLE));
    assert_eq!(market.initialized_time(), Ok(500));
    assert_eq!(market.expected_time_of_event(), Ok(1_000));
    assert_eq!(market.commission(), Ok(10));
    assert_eq!(market.risk_score(), Ok(MarketRisk::MEDIUM));
    assert_eq!(market.current_contract_address(), MARKET);

    // Both vaults were initialized with the derived lock window.
    assert!(hedge.initialized);
    assert!(risk.initialized);
    assert_eq!(hedge.lock_timestamp(), Ok(900));
    assert_eq!(hedge.unlock_timestamp(), Ok(1_300));
    assert_eq!(risk.lock_timestamp(), Ok(900));
    assert_eq!(hedge.administrator_address(), Ok(ADMIN));

    // Each vault holds a maximum live allowance toward the other.
    assert_eq!(token.allowance(HEDGE, RISK, SEQ), i128::MAX);
    assert_eq!(token.allowance(RISK, HEDGE, SEQ), i128::MAX);

    // A second init fails and leaves the configuration alone.
    let mut d = data();
    d.name = String::from("Other");
    assert_eq!(
        market.init(&mut hedge, &mut risk, &mut token, 600, SEQ, d),
        Err(MarketError::AlreadyInitialized)
    );
    assert_eq!(market.name(), Ok(String::from("Rainfall")));
    assert_eq!(market.initialized_time(), Ok(500));
}

#[test]
fn init_validates_data() {
    let mut token = TokenLedger::new(String::from("Dollar"), String::from("USD"), 0);
    let mut hedge = Vault::new(HEDGE);
    let mut risk = Vault::new(RISK);
    let mut market = MarketContract::new(MARKET);

    let mut d = data();
    d.event_unix_timestamp = 400;
    assert_eq!(
        market.init(&mut hedge, &mut risk, &mut token, 500, SEQ, d),
        Err(MarketError::InvalidUnixTimestamp)
    );

    let mut d = data();
    d.lock_period_in_seconds = 604_801;
    assert_eq!(
        market.init(&mut hedge, &mut risk, &mut token, 500, SEQ, d),
        Err(MarketError::InvalidLockPeriod)
    );

    let mut d = data();
    d.event_threshold_in_seconds = 86_401;
    assert_eq!(
        market.init(&mut hedge, &mut risk, &mut token, 500, SEQ, d),
        Err(MarketError::InvalidEventThreshold)
    );

    let mut d = data();
    d.unlock_period_in_seconds = 604_801;
    assert_eq!(
        market.init(&mut hedge, &mut risk, &mut token, 500, SEQ, d),
        Err(MarketError::InvalidUnlockPeriod)
    );

    let mut d = data();
    d.risk_vault_address = HEDGE;
    let mut hedge_twin = Vault::new(HEDGE);
    assert_eq!(
        market.init(&mut hedge, &mut hedge_twin, &mut token, 500, SEQ, d),
        Err(MarketError::HedgeAndRiskAddressesAreSame)
    );

    let mut d = data();
    d.commission_fee = 101;
    assert_eq!(
        market.init(&mut hedge, &mut risk, &mut token, 500, SEQ, d),
        Err(MarketError::InvalidCommisionFee)
    );

    // Nothing was persisted by the failures above.
    assert_eq!(market.status(), Err(MarketError::NotInitialized));
    assert!(!hedge.initialized);
}

#[test]
fn init_fails_on_pre_initialized_vaults() {
    let mut token = TokenLedger::new(String::from("Dollar"), String::from("USD"), 0);
    let mut hedge = Vault::new(HEDGE);
    let mut risk = Vault::new(RISK);
    let mut market = MarketContract::new(MARKET);
    hedge.initialize(&token, ADMIN, ASSET, 0, 1).unwrap();
    assert_eq!(
        market.init(&mut hedge, &mut risk, &mut token, 500, SEQ, data()),
        Err(MarketError::HedgeVaultInitializationFailed)
    );
    assert!(!risk.initialized);

    let mut hedge2 = Vault::new(HEDGE);
    let mut risk2 = Vault::new(RISK);
    risk2.initialize(&token, ADMIN, ASSET, 0, 1).unwrap();
    assert_eq!(
        market.init(&mut hedge2, &mut risk2, &mut token, 500, SEQ, data()),
        Err(MarketError::RiskVaultInitializationFailed)
    );
    assert!(!hedge2.initialized);
    assert_eq!(market.status(), Err(MarketError::NotInitialized));
}

fn live_market() -> (TokenLedger, Vault, Vault, MarketContract) {
    let mut token = TokenLedger::new(String::from("Dollar"), String::from("USD"), 0);
    let mut hedge = Vault::new(HEDGE);
    let mut risk = Vault::new(RISK);
    let mut market = MarketContract::new(MARKET);
    market.init(&mut hedge, &mut risk, &mut token, 500, SEQ, data()).unwrap();
    (token, hedge, risk, market)
}

#[test]
fn bump_with_event_in_window_flags_maturity() {
    let (_token, _hedge, _risk, mut market) = live_market();
    assert_eq!(market.bump(600, true, Some(1_050)), Ok(true));
    assert_eq!(market.status(), Ok(MarketStatus::MATURE));
    assert_eq!(market.actual_time_of_event(), Ok(1_050));
    assert_eq!(market.matured_time(), Ok(600));
    assert_eq!(market.last_oracle_time(), Ok(600));
}

#[test]
fn bump_with_late_event_flags_liquidation() {
    let (_token, _hedge, _risk, mut market) = live_market();
    // 1150 lies past the deadline 1000 + 100.
    assert_eq!(market.bump(600, true, Some(1_150)), Ok(true));
    assert_eq!(market.status(), Ok(MarketStatus::LIQUIDATE));
    assert_eq!(market.liquidated_time(), Ok(600));
    assert_eq!(market.actual_time_of_event(), Ok(1_150));
}

#[test]
fn bump_without_event_past_deadline_flags_maturity() {
    let (_token, _hedge, _risk, mut market) = live_market();
    // 1100 >= 1000 + 100: the window has closed without the event.
    assert_eq!(market.bump(600, false, Some(1_100)), Ok(true));
    assert_eq!(market.status(), Ok(MarketStatus::MATURE));
}

#[test]
fn bump_without_event_before_deadline_is_ignored() {
    let (_token, _hedge, _risk, mut market) = live_market();
    assert_eq!(market.bump(600, false, Some(1_050)), Ok(true));
    assert_eq!(market.status(), Ok(MarketStatus::LIVE));
    assert_eq!(market.last_oracle_time(), Ok(600));
    assert_eq!(market.actual_time_of_event(), Err(MarketError::ActualEventTimeNotSet));
}

#[test]
fn bump_with_event_needs_its_time() {
    let (_token, _hedge, _risk, mut market) = live_market();
    assert_eq!(market.bump(600, true, None), Err(MarketError::EventTimeIsRequired));
    assert_eq!(market.status(), Ok(MarketStatus::LIVE));
    // A failing call records nothing.
    assert_eq!(market.last_oracle_time(), Err(MarketError::LastOracleTimeNotSet));
}

#[test]
fn bump_without_event_and_time_is_ignored() {
    let (_token, _hedge, _risk, mut market) = live_market();
    assert_eq!(market.bump(600, false, None), Ok(true));
    assert_eq!(market.status(), Ok(MarketStatus::LIVE));
    assert_eq!(market.last_oracle_time(), Ok(600));
}

#[test]
fn mature_splits_fees_and_conserves_the_total() {
    let (mut token, _hedge, _risk, mut market) = live_market();
    token.credit(HEDGE, 1_000);
    token.credit(RISK, 500);
    market.bump(600, true, Some(1_050)).unwrap();

    assert_eq!(market.mature(&mut token, 700, SEQ), Ok(true));
    assert_eq!(market.status(), Ok(MarketStatus::MATURED));
    assert_eq!(market.last_keeper_time(), Ok(700));

    // commissionFee = 10: the hedge fee is 100, the risk fee 50; the
    // hedge side empties, the principal of 900 reaches the risk vault.
    assert_eq!(token.balance(HEDGE), 0);
    assert_eq!(token.balance(RISK), 1_350);
    assert_eq!(token.balance(ADMIN), 150);
    let total = token.balance(HEDGE) + token.balance(RISK) + token.balance(ADMIN);
    assert_eq!(total, 1_500);
}

#[test]
fn liquidate_pays_the_hedge_side() {
    let (mut token, _hedge, _risk, mut market) = live_market();
    token.credit(HEDGE, 1_000);
    token.credit(RISK, 500);
    market.bump(600, true, Some(1_150)).unwrap();

    assert_eq!(market.liquidate(&mut token, 700, SEQ), Ok(true));
    assert_eq!(market.status(), Ok(MarketStatus::LIQUIDATED));

    // The risk side empties toward the hedge vault: fees 50 and 100.
    assert_eq!(token.balance(RISK), 0);
    assert_eq!(token.balance(HEDGE), 1_350);
    assert_eq!(token.balance(ADMIN), 150);
    assert_eq!(token.balance(HEDGE) + token.balance(RISK) + token.balance(ADMIN), 1_500);
}

#[test]
fn zero_fee_settlement_moves_the_whole_balance() {
    let mut token = TokenLedger::new(String::from("Dollar"), String::from("USD"), 0);
    let mut hedge = Vault::new(HEDGE);
    let mut risk = Vault::new(RISK);
    let mut market = MarketContract::new(MARKET);
    let mut d = data();
    d.commission_fee = 0;
    market.init(&mut hedge, &mut risk, &mut token, 500, SEQ, d).unwrap();
    token.credit(HEDGE, 1_000);
    token.credit(RISK, 500);
    market.bump(600, true, Some(1_050)).unwrap();
    market.mature(&mut token, 700, SEQ).unwrap();
    assert_eq!(token.balance(HEDGE), 0);
    assert_eq!(token.balance(RISK), 1_500);
    assert_eq!(token.balance(ADMIN), 0);
}

#[test]
fn terminal_state_is_final() {
    let (mut token, _hedge, _risk, mut market) = live_market();
    token.credit(HEDGE, 1_000);
    token.credit(RISK, 500);
    market.bump(600, true, Some(1_050)).unwrap();
    market.mature(&mut token, 700, SEQ).unwrap();

    assert_eq!(market.mature(&mut token, 800, SEQ), Err(MarketError::NotMature));
    assert_eq!(market.liquidate(&mut token, 800, SEQ), Err(MarketError::NotLiquidate));
    assert_eq!(market.bump(800, true, Some(1_050)), Err(MarketError::AlreadyMatured));
    assert_eq!(market.status(), Ok(MarketStatus::MATURED));
    // No balance moved again.
    assert_eq!(token.balance(RISK), 1_350);

    let (mut token2, _hedge2, _risk2, mut market2) = live_market();
    market2.bump(600, true, Some(1_150)).unwrap();
    market2.liquidate(&mut token2, 700, SEQ).unwrap();
    assert_eq!(market2.bump(800, false, Some(1_150)), Err(MarketError::AlreadyLiquidated));
    assert_eq!(market2.mature(&mut token2, 800, SEQ), Err(MarketError::NotMature));
}

#[test]
fn flagged_market_rejects_second_bump() {
    let (_token, _hedge, _risk, mut market) = live_market();
    market.bump(600, true, Some(1_050)).unwrap();
    assert_eq!(market.bump(700, true, Some(1_050)), Err(MarketError::AlreadyMatured));
    market = {
        let (_t, _h, _r, mut m) = live_market();
        m.bump(600, true, Some(1_150)).unwrap();
        m
    };
    assert_eq!(market.bump(700, true, Some(1_150)), Err(MarketError::AlreadyLiquidated));
}

#[test]
fn mature_needs_the_flag_first() {
    let (mut token, _hedge, _risk, mut market) = live_market();
    assert_eq!(market.mature(&mut token, 700, SEQ), Err(MarketError::NotMature));
    assert_eq!(market.liquidate(&mut token, 700, SEQ), Err(MarketError::NotLiquidate));
    assert_eq!(market.status(), Ok(MarketStatus::LIVE));
    assert_eq!(market.last_keeper_time(), Err(MarketError::LastKeeperTimeNotSet));
}

#[test]
fn settlement_checks_the_allowances() {
    let (mut token, hedge, _risk, mut market) = live_market();
    token.credit(HEDGE, 1_000);
    token.credit(RISK, 500);
    market.bump(600, true, Some(1_050)).unwrap();
    // The admin shrinks the hedge vault's grant below its balance.
    hedge.approve_asset_allowance(&mut token, RISK, 1, SEQ + 100).unwrap();
    assert_eq!(market.mature(&mut token, 700, SEQ), Err(MarketError::InsufficientAllowance));
    // The failed settlement changed nothing.
    assert_eq!(market.status(), Ok(MarketStatus::MATURE));
    assert_eq!(token.balance(HEDGE), 1_000);
    assert_eq!(token.balance(RISK), 500);
}

#[test]
fn settlement_checks_the_fee_allowance_too() {
    let (mut token, _hedge, risk, mut market) = live_market();
    // The hedge side holds nothing, so the principal check passes; the
    // fee on the risk balance still needs the reverse allowance.
    token.credit(RISK, 500);
    market.bump(600, true, Some(1_050)).unwrap();
    risk.approve_asset_allowance(&mut token, HEDGE, 1, SEQ + 100).unwrap();
    assert_eq!(
        market.mature(&mut token, 700, SEQ),
        Err(MarketError::InsufficientAllowanceForFeeTransfer)
    );
    assert_eq!(token.balance(RISK), 500);
    assert_eq!(market.status(), Ok(MarketStatus::MATURE));
}

#[test]
fn pause_market_pauses_both_vaults() {
    let (mut token, mut hedge, mut risk, mut market) = live_market();
    assert_eq!(market.pause_market(&mut hedge, &mut risk), Ok(true));
    assert!(market.is_market_paused());
    assert!(hedge.is_paused());
    assert!(risk.is_paused());
    assert_eq!(market.bump(600, true, Some(1_050)), Err(MarketError::ContractIsAlreadyPaused));
    assert_eq!(market.mature(&mut token, 700, SEQ), Err(MarketError::ContractIsAlreadyPaused));
    assert_eq!(
        market.pause_market(&mut hedge, &mut risk),
        Err(MarketError::ContractIsAlreadyPaused)
    );

    assert_eq!(market.unpause_market(&mut hedge, &mut risk), Ok(true));
    assert!(!market.is_market_paused());
    assert!(!hedge.is_paused());
    assert!(!risk.is_paused());
    assert_eq!(
        market.unpause_market(&mut hedge, &mut risk),
        Err(MarketError::ContractIsAlreadyUnpaused)
    );
}

#[test]
fn pause_market_fails_whole_call_when_a_vault_refuses() {
    let (_token, mut hedge, mut risk, mut market) = live_market();
    // The hedge vault is already paused, so its pause call would fail:
    // the whole operation fails and the market stays unpaused.
    hedge.pause().unwrap();
    assert_eq!(
        market.pause_market(&mut hedge, &mut risk),
        Err(MarketError::VaultPauseFailed)
    );
    assert!(!market.is_market_paused());
    assert!(!risk.is_paused());

    // The same holds when only the risk vault refuses.
    let (_token2, mut hedge2, mut risk2, mut market2) = live_market();
    risk2.pause().unwrap();
    assert_eq!(
        market2.pause_market(&mut hedge2, &mut risk2),
        Err(MarketError::VaultPauseFailed)
    );
    assert!(!market2.is_market_paused());
    assert!(!hedge2.is_paused());
}

#[test]
fn unpause_market_fails_whole_call_when_a_vault_refuses() {
    let (_token, mut hedge, mut risk, mut market) = live_market();
    market.pause_market(&mut hedge, &mut risk).unwrap();
    // Someone unpauses the hedge vault behind the market's back.
    hedge.unpause().unwrap();
    assert_eq!(
        market.unpause_market(&mut hedge, &mut risk),
        Err(MarketError::VaultUnpauseFailed)
    );
    assert!(market.is_market_paused());
    assert!(risk.is_paused());
}

#[test]
fn timing_getters_derive_the_window() {
    let (_token, _hedge, _risk, mut market) = live_market();
    assert_eq!(market.time_of_lock(), Ok(900));
    assert_eq!(market.time_of_unlock(), Ok(1_300));
    assert_eq!(market.time_until_event(600), Ok(400));
    assert_eq!(market.time_until_event(1_500), Ok(0));
    assert_eq!(market.time_until_lock(600), Ok(300));
    assert_eq!(market.time_until_lock(950), Ok(0));
    assert_eq!(market.time_until_unlock(600), Ok(700));
    assert_eq!(market.time_until_unlock(1_400), Ok(0));
    assert_eq!(market.lock_period_in_seconds(), Ok(100));
    assert_eq!(market.event_threshold_in_seconds(), Ok(100));
    assert_eq!(market.unlock_period_in_seconds(), Ok(200));
    assert_eq!(market.exercising(), Ok(String::from("Automatic")));
    assert_eq!(market.dispute(), Err(MarketError::NotImplementedYet));
    assert_eq!(market.extend_market_ttl(), Ok(true));
    assert_eq!(market.change_risk_score(MarketRisk::HIGH), Ok(true));
    assert_eq!(market.risk_score(), Ok(MarketRisk::HIGH));
    assert_eq!(market.change_oracle(7, String::from("Other oracle")), Ok(true));
    assert_eq!(market.oracle_address(), Ok(7));
    assert_eq!(market.oracle_name(), Ok(String::from("Other oracle")));
}

#[test]
fn uninitialized_market_reports_not_initialized() {
    let market = MarketContract::new(MARKET);
    let token = TokenLedger::new(String::from("Dollar"), String::from("USD"), 0);
    let hedge = Vault::new(HEDGE);
    let risk = Vault::new(RISK);
    assert_eq!(market.status(), Err(MarketError::NotInitialized));
    assert_eq!(market.name(), Err(MarketError::NotInitialized));
    assert_eq!(market.time_until_event(0), Err(MarketError::NotInitialized));
    assert_eq!(market.extend_market_ttl(), Err(MarketError::NotInitialized));
    assert_eq!(
        market.calculate_vault_assets_ratio(&hedge, &risk, &token),
        Err(MarketError::NotInitialized)
    );
    assert!(matches!(
        market.market_details(&hedge, &risk, &token, ALICE),
        Err(MarketError::NotInitialized)
    ));
    let mut m = MarketContract::new(MARKET);
    assert_eq!(m.bump(600, true, Some(1_050)), Err(MarketError::NotInitialized));
}

#[test]
fn ratios_compare_the_two_pools() {
    let (mut token, mut hedge, mut risk, market) = live_market();
    token.credit(ALICE, 1_000);
    token.credit(BOB, 1_000);
    assert_eq!(market.calculate_vault_assets_ratio(&hedge, &risk, &token), Ok(0));
    hedge.deposit(&mut token, 600, 400, ALICE, ALICE).unwrap();
    risk.deposit(&mut token, 600, 100, BOB, BOB).unwrap();
    assert_eq!(market.calculate_vault_assets_ratio(&hedge, &risk, &token), Ok(4));
    assert_eq!(market.calculate_vault_shares_ratio(&hedge, &risk), Ok(4));
}

#[test]
fn potential_return_projects_the_distributable_pool() {
    let (mut token, mut hedge, _risk, market) = live_market();
    token.credit(ALICE, 1_000);
    token.credit(BOB, 1_000);
    hedge.deposit(&mut token, 600, 100, ALICE, ALICE).unwrap();
    hedge.deposit(&mut token, 600, 100, BOB, BOB).unwrap();
    token.credit(RISK, 500);
    // Balances 200 and 500 at a 10 percent fee leave 630 to distribute;
    // Alice holds 100 of 200 shares: floor(100 * 631 / 201) = 313.
    assert_eq!(market.calculate_hedge_potential_return(&hedge, &token, ALICE), Ok(313));
    assert_eq!(market.calculate_hedge_potential_return(&hedge, &token, BOB), Ok(313));
}

#[test]
fn fee_amount_is_the_floored_percentage() {
    assert_eq!(MarketContract::calculate_fee_amount(1_000, 10), 100);
    assert_eq!(MarketContract::calculate_fee_amount(500, 10), 50);
    assert_eq!(MarketContract::calculate_fee_amount(999, 10), 99);
    assert_eq!(MarketContract::calculate_fee_amount(1_000, 0), 0);
    assert_eq!(MarketContract::calculate_fee_amount(0, 10), 0);
    assert_eq!(MarketContract::calculate_fee_amount(7, 100), 7);
}

#[test]
fn market_details_snapshots_everything() {
    let (mut token, mut hedge, risk, market) = live_market();
    token.credit(ALICE, 1_000);
    hedge.deposit(&mut token, 600, 100, ALICE, ALICE).unwrap();
    let d = market.market_details(&hedge, &risk, &token, ALICE).unwrap();
    assert_eq!(d.name, "Rainfall");
    assert_eq!(d.status, MarketStatus::LIVE);
    assert_eq!(d.hedge_address, HEDGE);
    assert_eq!(d.risk_address, RISK);
    assert_eq!(d.commission_fee, 10);
    assert_eq!(d.hedge_admin_address, ADMIN);
    assert_eq!(d.hedge_asset_symbol, "USD");
    assert_eq!(d.hedge_total_shares, 100);
    assert_eq!(d.hedge_total_assets, 100);
    assert_eq!(d.hedge_address_shares, 100);
    assert_eq!(d.risk_total_shares, 0);
    assert_eq!(d.risk_total_assets, 0);
    assert_eq!(d.risk_address_shares, 0);
}
