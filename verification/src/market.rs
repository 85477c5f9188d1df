//! The market-maker orchestrator: a lifecycle state machine coupling a
//! hedge vault and a risk vault around one future event.
//!
//! The market holds references (account identities) to the two vaults
//! and the underlying asset; it mutates the vaults only through their
//! own operations.  An oracle reports the event through `bump`, which
//! flags the intent to mature or liquidate; the permissionless keeper
//! operations `mature` and `liquidate` perform the actual settlement.
//! Every failing call leaves all state unchanged, mirroring the host's
//! transactional rollback.

use vstd::prelude::*;

verus! {

use crate::allowance::DAY_IN_LEDGERS;
use crate::errors::MarketError;
use crate::math::{
    div_trunc,
    in_i128,
    lemma_div_trunc_bounds,
    lemma_pow_lower,
    pow_int,
    safe_add_i128,
    safe_div,
    safe_mul,
    safe_sub_i128,
    Rounding,
};
use crate::table::{lemma_amount_le_total, lemma_amount_nonneg, lemma_two_amounts_le_total};
use crate::token::TokenLedger;
use crate::vault::{to_assets_simulate_spec, Vault, DECIMALS_OFFSET};
use vstd::arithmetic::div_mod::{lemma_div_by_multiple, lemma_div_is_ordered, lemma_div_pos_is_pos};

/// The commission taken from a settled balance: the floor of
/// `balance * fee / 100`, and zero when the fee percentage is zero.
pub open spec fn fee_amount_spec(whole_amount: int, fee_percentage: u32) -> int {
    if fee_percentage == 0 {
        0
    } else {
        (whole_amount * fee_percentage) / 100
    }
}

/// A commission of at most one hundred percent of a non-negative
/// balance lies between zero and the balance itself.
pub proof fn lemma_fee_bounds(b: int, fee: u32)
    requires
        b >= 0,
        fee <= 100,
    ensures
        0 <= fee_amount_spec(b, fee) <= b,
{
    if fee > 0 {
        let p = b * fee;
        assert(0 <= p <= b * 100) by (nonlinear_arith)
            requires
                b >= 0 && 0 < fee <= 100 && p == b * fee,
        ;
        lemma_div_pos_is_pos(p, 100);
        lemma_div_is_ordered(p, b * 100, 100);
        lemma_div_by_multiple(b, 100);
    }
}

/// How the settlement transfer resolves against the pre-granted
/// allowances: the paying vault's whole balance must lie within its
/// allowance toward the receiving vault, and — whenever a fee is due —
/// the receiving vault's balance within its allowance back.
pub open spec fn settle_check(
    token: TokenLedger,
    from_vault: u64,
    to_vault: u64,
    fee: u32,
    sequence: u32,
) -> Result<(), MarketError> {
    if token.balance_spec(from_vault) > token.allowance_spec(from_vault, to_vault, sequence) {
        Result::Err(MarketError::InsufficientAllowance)
    } else if fee > 0 && token.balance_spec(to_vault) > token.allowance_spec(
        to_vault,
        from_vault,
        sequence,
    ) {
        Result::Err(MarketError::InsufficientAllowanceForFeeTransfer)
    } else {
        Result::Ok(())
    }
}

/// The token ledger after a completed settlement: the paying vault is
/// emptied, the receiving vault gains the principal net of both fees,
/// the administrator collects the two fees, and nothing else moves.
/// The balance equations are stated for an administrator distinct from
/// both vaults; the supply is conserved in every case.
pub open spec fn settled(
    pre: TokenLedger,
    post: TokenLedger,
    from_vault: u64,
    to_vault: u64,
    admin: u64,
    fee: u32,
) -> bool {
    let b1 = pre.balance_spec(from_vault);
    let b2 = pre.balance_spec(to_vault);
    let f1 = fee_amount_spec(b1, fee);
    let f2 = fee_amount_spec(b2, fee);
    &&& post.supply() == pre.supply()
    &&& post.name == pre.name
    &&& post.symbol == pre.symbol
    &&& post.decimals == pre.decimals
    &&& admin != from_vault && admin != to_vault ==> {
        &&& post.balance_spec(from_vault) == 0
        &&& post.balance_spec(to_vault) == b2 + b1 - f1 - f2
        &&& post.balance_spec(admin) == pre.balance_spec(admin) + f1 + f2
        &&& forall|a: u64|
            a != from_vault && a != to_vault && a != admin ==> post.balance_spec(a)
                == pre.balance_spec(a)
    }
}

/// A read-only snapshot of a market and its two vaults, as a caller
/// would assemble it from the individual accessors.
#[derive(Debug)]
pub struct MarketDetails {
    pub name: String,
    pub description: String,
    pub status: MarketStatus,
    pub hedge_address: u64,
    pub risk_address: u64,
    pub oracle_address: u64,
    pub oracle_name: String,
    pub risk_score: MarketRisk,
    pub event_time: u64,
    pub is_automatic: bool,
    pub commission_fee: u32,
    pub hedge_admin_address: u64,
    pub hedge_asset_address: u64,
    pub hedge_asset_symbol: String,
    pub hedge_total_shares: i128,
    pub hedge_total_assets: i128,
    pub hedge_address_shares: i128,
    pub risk_admin_address: u64,
    pub risk_asset_address: u64,
    pub risk_asset_symbol: String,
    pub risk_total_shares: i128,
    pub risk_total_assets: i128,
    pub risk_address_shares: i128,
}

/// Lifecycle position: `LIVE` is initial, `MATURE` and `LIQUIDATE` are
/// the oracle-flagged pre-terminal states, `MATURED` and `LIQUIDATED`
/// are terminal.
#[derive(Clone, Copy, Debug, PartialEq, Eq, Structural)]
pub enum MarketStatus {
    LIVE,
    MATURE,
    MATURED,
    LIQUIDATE,
    LIQUIDATED,
}

/// The market's advertised risk grade.
#[derive(Clone, Copy, Debug, PartialEq, Eq, Structural)]
pub enum MarketRisk {
    LOW,
    MEDIUM,
    HIGH,
    UNKNOWN,
}

/// Everything `init` needs to set a market up.
#[derive(Debug)]
pub struct MarketData {
    pub name: String,
    pub description: String,
    pub admin_address: u64,
    pub asset_address: u64,
    pub trusted_oracle_name: String,
    pub trusted_oracle_address: u64,
    pub hedge_vault_address: u64,
    pub risk_vault_address: u64,
    pub commission_fee: u32,
    pub risk_score: MarketRisk,
    pub is_automatic: bool,
    pub event_unix_timestamp: u64,
    pub lock_period_in_seconds: u64,
    pub event_threshold_in_seconds: u64,
    pub unlock_period_in_seconds: u64,
}

/// The commission fee is a percentage.
pub const MIN_COMMISSION_FEE: u32 = 0;

pub const MAX_COMMISSION_FEE: u32 = 100;

pub const MIN_LOCK_IN_SECONDS: u64 = 0;

/// Seven days.
pub const MAX_LOCK_IN_SECONDS: u64 = 604800;

pub const MIN_EVENT_THRESHOLD_IN_SECONDS: u64 = 0;

/// One day.
pub const MAX_EVENT_THRESHOLD_IN_SECONDS: u64 = 86400;

pub const MIN_UNLOCK_IN_SECONDS: u64 = 0;

/// Seven days.
pub const MAX_UNLOCK_IN_SECONDS: u64 = 604800;

/// One market instance: configuration captured at `init`, the lifecycle
/// status, and the record timestamps its operations leave behind.
#[derive(Debug)]
pub struct MarketContract {
    /// The market's own account identity.
    pub address: u64,
    /// Whether `init` has run; the de-facto initialization marker
    /// guarding every other operation.
    pub initialized: bool,
    pub admin_address: u64,
    pub asset_address: u64,
    pub hedge_vault_address: u64,
    pub risk_vault_address: u64,
    pub oracle_address: u64,
    pub oracle_name: String,
    pub name: String,
    pub description: String,
    pub status: MarketStatus,
    pub initialized_time: u64,
    pub commission_fee: u32,
    pub risk_score: MarketRisk,
    pub is_automatic: bool,
    pub event_unix_timestamp: u64,
    pub lock_period_in_seconds: u64,
    pub event_threshold_in_seconds: u64,
    pub unlock_period_in_seconds: u64,
    pub liquidated_time: Option<u64>,
    pub matured_time: Option<u64>,
    pub last_oracle_time: Option<u64>,
    pub last_keeper_time: Option<u64>,
    pub actual_event_timestamp: Option<u64>,
    pub paused: bool,
}

/// The one-way transition relation of the lifecycle: a state may stay
/// put, `LIVE` may be flagged for either outcome, and each flagged state
/// may only reach its own terminal state.
pub open spec fn status_step(pre: MarketStatus, post: MarketStatus) -> bool {
    ||| post == pre
    ||| (pre == MarketStatus::LIVE && (post == MarketStatus::MATURE || post
        == MarketStatus::LIQUIDATE))
    ||| (pre == MarketStatus::MATURE && post == MarketStatus::MATURED)
    ||| (pre == MarketStatus::LIQUIDATE && post == MarketStatus::LIQUIDATED)
}

/// The two terminal settlement outcomes.
pub open spec fn is_terminal(s: MarketStatus) -> bool {
    s == MarketStatus::MATURED || s == MarketStatus::LIQUIDATED
}

/// Terminal states have no outgoing transition: once a market has
/// matured or liquidated, the lifecycle relation keeps it there.
pub proof fn lemma_terminal_no_exit(pre: MarketStatus, post: MarketStatus)
    requires
        is_terminal(pre),
        status_step(pre, post),
    ensures
        post == pre,
{
}

/// What `bump` does: the next market state and the typed result, as a
/// function of the old state, the oracle's report and the current time.
pub open spec fn bump_spec(
    m: MarketContract,
    now: u64,
    event_occurred: bool,
    event_time: Option<u64>,
) -> (MarketContract, Result<bool, MarketError>) {
    if !m.initialized {
        (m, Result::Err(MarketError::NotInitialized))
    } else if m.paused {
        (m, Result::Err(MarketError::ContractIsAlreadyPaused))
    } else if m.status == MarketStatus::LIQUIDATED || m.status == MarketStatus::LIQUIDATE {
        (m, Result::Err(MarketError::AlreadyLiquidated))
    } else if m.status == MarketStatus::MATURED || m.status == MarketStatus::MATURE {
        (m, Result::Err(MarketError::AlreadyMatured))
    } else {
        let deadline = m.event_unix_timestamp + m.event_threshold_in_seconds;
        if event_occurred {
            match event_time {
                Option::None => (m, Result::Err(MarketError::EventTimeIsRequired)),
                Option::Some(e) => if e > deadline {
                    (
                        MarketContract {
                            status: MarketStatus::LIQUIDATE,
                            liquidated_time: Option::Some(now),
                            actual_event_timestamp: Option::Some(e),
                            last_oracle_time: Option::Some(now),
                            ..m
                        },
                        Result::Ok(true),
                    )
                } else {
                    (
                        MarketContract {
                            status: MarketStatus::MATURE,
                            matured_time: Option::Some(now),
                            actual_event_timestamp: Option::Some(e),
                            last_oracle_time: Option::Some(now),
                            ..m
                        },
                        Result::Ok(true),
                    )
                },
            }
        } else {
            match event_time {
                Option::None => (
                    MarketContract { last_oracle_time: Option::Some(now), ..m },
                    Result::Ok(true),
                ),
                Option::Some(e) => if e >= deadline {
                    (
                        MarketContract {
                            status: MarketStatus::MATURE,
                            matured_time: Option::Some(now),
                            actual_event_timestamp: Option::Some(e),
                            last_oracle_time: Option::Some(now),
                            ..m
                        },
                        Result::Ok(true),
                    )
                } else {
                    (
                        MarketContract { last_oracle_time: Option::Some(now), ..m },
                        Result::Ok(true),
                    )
                },
            }
        }
    }
}

/// Once a market stands in a terminal state, every later oracle report
/// is rejected with the matching already-settled error and changes
/// nothing.
pub proof fn lemma_terminal_bump_rejected(
    m: MarketContract,
    now: u64,
    event_occurred: bool,
    event_time: Option<u64>,
)
    requires
        m.initialized,
        !m.paused,
        is_terminal(m.status),
    ensures
        bump_spec(m, now, event_occurred, event_time).0 == m,
        bump_spec(m, now, event_occurred, event_time).1 == Result::<bool, MarketError>::Err(
            if m.status == MarketStatus::LIQUIDATED {
                MarketError::AlreadyLiquidated
            } else {
                MarketError::AlreadyMatured
            },
        ),
{
}

impl MarketContract {
    /// Well-formedness: an initialized market has a bounded commission,
    /// an event window whose derived lock and unlock times cannot
    /// underflow or overflow, and two distinct vaults; an uninitialized
    /// market is still in its initial state.
    pub open spec fn wf(self) -> bool {
        &&& self.initialized ==> {
            &&& self.commission_fee <= MAX_COMMISSION_FEE
            &&& self.lock_period_in_seconds <= self.event_unix_timestamp
            &&& self.event_unix_timestamp + self.event_threshold_in_seconds
                + self.unlock_period_in_seconds <= u64::MAX
            &&& self.hedge_vault_address != self.risk_vault_address
        }
        &&& !self.initialized ==> {
            &&& self.status == MarketStatus::LIVE
            &&& !self.paused
            &&& self.liquidated_time is None
            &&& self.matured_time is None
            &&& self.last_oracle_time is None
            &&& self.last_keeper_time is None
            &&& self.actual_event_timestamp is None
        }
    }

    /// The derived start of the lock window: event time minus the lock
    /// period.
    pub open spec fn lock_time_spec(self) -> int {
        self.event_unix_timestamp - self.lock_period_in_seconds
    }

    /// The derived end of the lock window: event time plus threshold
    /// plus unlock period.
    pub open spec fn unlock_time_spec(self) -> int {
        self.event_unix_timestamp + self.event_threshold_in_seconds
            + self.unlock_period_in_seconds
    }

    /// A fresh, uninitialized market instance at `address`.
    pub fn new(address: u64) -> (r: MarketContract)
        ensures
            r.wf(),
            !r.initialized,
            r.address == address,
            r.status == MarketStatus::LIVE,
    {
        MarketContract {
            address,
            initialized: false,
            admin_address: 0,
            asset_address: 0,
            hedge_vault_address: 0,
            risk_vault_address: 0,
            oracle_address: 0,
            oracle_name: String::new(),
            name: String::new(),
            description: String::new(),
            status: MarketStatus::LIVE,
            initialized_time: 0,
            commission_fee: 0,
            risk_score: MarketRisk::UNKNOWN,
            is_automatic: false,
            event_unix_timestamp: 0,
            lock_period_in_seconds: 0,
            event_threshold_in_seconds: 0,
            unlock_period_in_seconds: 0,
            liquidated_time: Option::None,
            matured_time: Option::None,
            last_oracle_time: Option::None,
            last_keeper_time: Option::None,
            actual_event_timestamp: Option::None,
            paused: false,
        }
    }

    /// How `init`'s validation resolves against the submitted data and
    /// the two vaults, in the order the checks run.
    pub open spec fn init_check(
        self,
        hedge: Vault,
        risk: Vault,
        now: u64,
        data: MarketData,
    ) -> Result<(), MarketError> {
        if self.initialized {
            Result::Err(MarketError::AlreadyInitialized)
        } else if data.event_unix_timestamp < now {
            Result::Err(MarketError::InvalidUnixTimestamp)
        } else if data.lock_period_in_seconds < MIN_LOCK_IN_SECONDS
            || data.lock_period_in_seconds > MAX_LOCK_IN_SECONDS {
            Result::Err(MarketError::InvalidLockPeriod)
        } else if data.event_threshold_in_seconds < MIN_EVENT_THRESHOLD_IN_SECONDS
            || data.event_threshold_in_seconds > MAX_EVENT_THRESHOLD_IN_SECONDS {
            Result::Err(MarketError::InvalidEventThreshold)
        } else if data.unlock_period_in_seconds < MIN_UNLOCK_IN_SECONDS
            || data.unlock_period_in_seconds > MAX_UNLOCK_IN_SECONDS {
            Result::Err(MarketError::InvalidUnlockPeriod)
        } else if data.hedge_vault_address == data.risk_vault_address {
            Result::Err(MarketError::HedgeAndRiskAddressesAreSame)
        } else if data.commission_fee < MIN_COMMISSION_FEE || data.commission_fee
            > MAX_COMMISSION_FEE {
            Result::Err(MarketError::InvalidCommisionFee)
        } else if hedge.initialized {
            Result::Err(MarketError::HedgeVaultInitializationFailed)
        } else if risk.initialized {
            Result::Err(MarketError::RiskVaultInitializationFailed)
        } else {
            Result::Ok(())
        }
    }

    /// Validates the submitted data, initializes both vaults with the
    /// derived lock window, grants each vault a maximum asset allowance
    /// toward the other for later settlement, and persists the market
    /// configuration.  Any failure — a second call included — leaves
    /// every piece of state unchanged.
    pub fn init(
        &mut self,
        hedge: &mut Vault,
        risk: &mut Vault,
        token: &mut TokenLedger,
        now: u64,
        sequence: u32,
        data: MarketData,
    ) -> (r: Result<bool, MarketError>)
        requires
            old(self).wf(),
            old(hedge).wf(),
            old(risk).wf(),
            old(token).wf(),
            old(hedge).address == data.hedge_vault_address,
            old(risk).address == data.risk_vault_address,
            old(self).init_check(*old(hedge), *old(risk), now, data) is Ok ==> {
                &&& data.lock_period_in_seconds <= data.event_unix_timestamp
                &&& data.event_unix_timestamp + data.event_threshold_in_seconds
                    + data.unlock_period_in_seconds <= u64::MAX
                &&& sequence + DAY_IN_LEDGERS <= u32::MAX
            },
        ensures
            final(self).wf(),
            final(hedge).wf(),
            final(risk).wf(),
            final(token).wf(),
            r == match old(self).init_check(*old(hedge), *old(risk), now, data) {
                Result::Ok(_) => Result::<bool, MarketError>::Ok(true),
                Result::Err(e) => Result::<bool, MarketError>::Err(e),
            },
            r is Err ==> *final(self) == *old(self) && *final(hedge) == *old(hedge) && *final(risk)
                == *old(risk) && *final(token) == *old(token),
            r is Ok ==> {
                &&& final(self).initialized
                &&& final(self).address == old(self).address
                &&& final(self).admin_address == data.admin_address
                &&& final(self).asset_address == data.asset_address
                &&& final(self).hedge_vault_address == data.hedge_vault_address
                &&& final(self).risk_vault_address == data.risk_vault_address
                &&& final(self).oracle_address == data.trusted_oracle_address
                &&& final(self).oracle_name == data.trusted_oracle_name
                &&& final(self).name == data.name
                &&& final(self).description == data.description
                &&& final(self).status == MarketStatus::LIVE
                &&& final(self).initialized_time == now
                &&& final(self).commission_fee == data.commission_fee
                &&& final(self).risk_score == data.risk_score
                &&& final(self).is_automatic == data.is_automatic
                &&& final(self).event_unix_timestamp == data.event_unix_timestamp
                &&& final(self).lock_period_in_seconds == data.lock_period_in_seconds
                &&& final(self).event_threshold_in_seconds == data.event_threshold_in_seconds
                &&& final(self).unlock_period_in_seconds == data.unlock_period_in_seconds
                &&& final(self).liquidated_time is None
                &&& final(self).matured_time is None
                &&& final(self).last_oracle_time is None
                &&& final(self).last_keeper_time is None
                &&& final(self).actual_event_timestamp is None
                &&& !final(self).paused
            },
            r is Ok ==> {
                &&& final(hedge).initialized
                &&& final(hedge).administrator == data.admin_address
                &&& final(hedge).asset_address == data.asset_address
                &&& final(hedge).asset_name == old(token).name
                &&& final(hedge).asset_symbol == old(token).symbol
                &&& final(hedge).asset_decimals == old(token).decimals
                &&& final(hedge).total_shares == 0
                &&& final(hedge).lock_timestamp == data.event_unix_timestamp
                    - data.lock_period_in_seconds
                &&& final(hedge).unlock_timestamp == data.event_unix_timestamp
                    + data.event_threshold_in_seconds + data.unlock_period_in_seconds
                &&& final(hedge).address == old(hedge).address
                &&& !final(hedge).paused
                &&& final(risk).initialized
                &&& final(risk).administrator == data.admin_address
                &&& final(risk).asset_address == data.asset_address
                &&& final(risk).asset_name == old(token).name
                &&& final(risk).asset_symbol == old(token).symbol
                &&& final(risk).asset_decimals == old(token).decimals
                &&& final(risk).total_shares == 0
                &&& final(risk).lock_timestamp == final(hedge).lock_timestamp
                &&& final(risk).unlock_timestamp == final(hedge).unlock_timestamp
                &&& final(risk).address == old(risk).address
                &&& !final(risk).paused
            },
            r is Ok ==> {
                &&& forall|q: u32|
                    final(token).allowance_spec(data.hedge_vault_address, data.risk_vault_address, q)
                        == if sequence + DAY_IN_LEDGERS >= q {
                        i128::MAX as int
                    } else {
                        0
                    }
                &&& forall|q: u32|
                    final(token).allowance_spec(data.risk_vault_address, data.hedge_vault_address, q)
                        == if sequence + DAY_IN_LEDGERS >= q {
                        i128::MAX as int
                    } else {
                        0
                    }
                &&& forall|o: u64, p: u64, q: u32|
                    !(o == data.hedge_vault_address && p == data.risk_vault_address) && !(o
                        == data.risk_vault_address && p == data.hedge_vault_address)
                        ==> final(token).allowance_spec(o, p, q) == old(token).allowance_spec(
                        o,
                        p,
                        q,
                    )
                &&& final(token).balances == old(token).balances
                &&& final(token).name == old(token).name
                &&& final(token).symbol == old(token).symbol
                &&& final(token).decimals == old(token).decimals
            },
    {
        if self.initialized {
            return Result::Err(MarketError::AlreadyInitialized);
        }
        if data.event_unix_timestamp < now {
            return Result::Err(MarketError::InvalidUnixTimestamp);
        }
        if data.lock_period_in_seconds < MIN_LOCK_IN_SECONDS || data.lock_period_in_seconds
            > MAX_LOCK_IN_SECONDS {
            return Result::Err(MarketError::InvalidLockPeriod);
        }
        if data.event_threshold_in_seconds < MIN_EVENT_THRESHOLD_IN_SECONDS
            || data.event_threshold_in_seconds > MAX_EVENT_THRESHOLD_IN_SECONDS {
            return Result::Err(MarketError::InvalidEventThreshold);
        }
        if data.unlock_period_in_seconds < MIN_UNLOCK_IN_SECONDS || data.unlock_period_in_seconds
            > MAX_UNLOCK_IN_SECONDS {
            return Result::Err(MarketError::InvalidUnlockPeriod);
        }
        if data.hedge_vault_address == data.risk_vault_address {
            return Result::Err(MarketError::HedgeAndRiskAddressesAreSame);
        }
        if data.commission_fee < MIN_COMMISSION_FEE || data.commission_fee > MAX_COMMISSION_FEE {
            return Result::Err(MarketError::InvalidCommisionFee);
        }
        if hedge.initialized {
            return Result::Err(MarketError::HedgeVaultInitializationFailed);
        }
        if risk.initialized {
            return Result::Err(MarketError::RiskVaultInitializationFailed);
        }
        let lock_timestamp: u64 = data.event_unix_timestamp - data.lock_period_in_seconds;
        let unlock_timestamp: u64 = data.event_unix_timestamp + data.event_threshold_in_seconds
            + data.unlock_period_in_seconds;
        match hedge.initialize(
            token,
            data.admin_address,
            data.asset_address,
            lock_timestamp,
            unlock_timestamp,
        ) {
            Result::Ok(_) => {},
            Result::Err(_) => {
                proof {
                    assert(false);
                }
                return Result::Err(MarketError::HedgeVaultInitializationFailed);
            },
        }
        match risk.initialize(
            token,
            data.admin_address,
            data.asset_address,
            lock_timestamp,
            unlock_timestamp,
        ) {
            Result::Ok(_) => {},
            Result::Err(_) => {
                proof {
                    assert(false);
                }
                return Result::Err(MarketError::RiskVaultInitializationFailed);
            },
        }
        let allowance_expiry: u32 = sequence + DAY_IN_LEDGERS;
        match hedge.approve_asset_allowance(
            token,
            data.risk_vault_address,
            i128::MAX,
            allowance_expiry,
        ) {
            Result::Ok(_) => {},
            Result::Err(_) => {
                proof {
                    assert(false);
                }
                return Result::Err(MarketError::HedgeVaultAllowanceFailed);
            },
        }
        match risk.approve_asset_allowance(
            token,
            data.hedge_vault_address,
            i128::MAX,
            allowance_expiry,
        ) {
            Result::Ok(_) => {},
            Result::Err(_) => {
                proof {
                    assert(false);
                }
                return Result::Err(MarketError::RiskVaultAllowanceFailed);
            },
        }
        self.admin_address = data.admin_address;
        self.asset_address = data.asset_address;
        self.hedge_vault_address = data.hedge_vault_address;
        self.risk_vault_address = data.risk_vault_address;
        self.oracle_address = data.trusted_oracle_address;
        self.oracle_name = data.trusted_oracle_name;
        self.status = MarketStatus::LIVE;
        self.name = data.name;
        self.description = data.description;
        self.initialized_time = now;
        self.commission_fee = data.commission_fee;
        self.risk_score = data.risk_score;
        self.is_automatic = data.is_automatic;
        self.event_unix_timestamp = data.event_unix_timestamp;
        self.lock_period_in_seconds = data.lock_period_in_seconds;
        self.event_threshold_in_seconds = data.event_threshold_in_seconds;
        self.unlock_period_in_seconds = data.unlock_period_in_seconds;
        self.initialized = true;
        Result::Ok(true)
    }

    /// Records the oracle's report of whether and when the event
    /// happened, flagging the market for maturity or liquidation per the
    /// decision table around `expected event time + threshold`.
    pub fn bump(&mut self, now: u64, event_occurred: bool, event_time: Option<u64>) -> (r: Result<
        bool,
        MarketError,
    >)
        requires
            old(self).wf(),
        ensures
            final(self).wf(),
            (*final(self), r) == bump_spec(*old(self), now, event_occurred, event_time),
            status_step(old(self).status, final(self).status),
            r is Err ==> *final(self) == *old(self),
    {
        if !self.initialized {
            return Result::Err(MarketError::NotInitialized);
        }
        if self.paused {
            return Result::Err(MarketError::ContractIsAlreadyPaused);
        }
        if self.status == MarketStatus::LIQUIDATED || self.status == MarketStatus::LIQUIDATE {
            return Result::Err(MarketError::AlreadyLiquidated);
        }
        if self.status == MarketStatus::MATURED || self.status == MarketStatus::MATURE {
            return Result::Err(MarketError::AlreadyMatured);
        }
        let deadline: u64 = self.event_unix_timestamp + self.event_threshold_in_seconds;
        if event_occurred {
            match event_time {
                Option::None => Result::Err(MarketError::EventTimeIsRequired),
                Option::Some(e) => {
                    self.last_oracle_time = Option::Some(now);
                    self.actual_event_timestamp = Option::Some(e);
                    if e > deadline {
                        self.liquidated_time = Option::Some(now);
                        self.status = MarketStatus::LIQUIDATE;
                    } else {
                        self.matured_time = Option::Some(now);
                        self.status = MarketStatus::MATURE;
                    }
                    Result::Ok(true)
                },
            }
        } else {
            match event_time {
                Option::None => {
                    self.last_oracle_time = Option::Some(now);
                    Result::Ok(true)
                },
                Option::Some(e) => {
                    self.last_oracle_time = Option::Some(now);
                    if e >= deadline {
                        self.matured_time = Option::Some(now);
                        self.actual_event_timestamp = Option::Some(e);
                        self.status = MarketStatus::MATURE;
                    }
                    Result::Ok(true)
                },
            }
        }
    }

    /// The current lifecycle status.
    pub fn status(&self) -> (r: Result<MarketStatus, MarketError>)
        ensures
            r == if self.initialized {
                Result::<MarketStatus, MarketError>::Ok(self.status)
            } else {
                Result::<MarketStatus, MarketError>::Err(MarketError::NotInitialized)
            },
    {
        if self.initialized {
            Result::Ok(self.status)
        } else {
            Result::Err(MarketError::NotInitialized)
        }
    }

    /// The market's human-readable name.
    pub fn name(&self) -> (r: Result<String, MarketError>)
        ensures
            r == if self.initialized {
                Result::<String, MarketError>::Ok(self.name)
            } else {
                Result::<String, MarketError>::Err(MarketError::NotInitialized)
            },
    {
        if self.initialized {
            Result::Ok(self.name.clone())
        } else {
            Result::Err(MarketError::NotInitialized)
        }
    }

    /// The market's human-readable description.
    pub fn description(&self) -> (r: Result<String, MarketError>)
        ensures
            r == if self.initialized {
                Result::<String, MarketError>::Ok(self.description)
            } else {
                Result::<String, MarketError>::Err(MarketError::NotInitialized)
            },
    {
        if self.initialized {
            Result::Ok(self.description.clone())
        } else {
            Result::Err(MarketError::NotInitialized)
        }
    }

    /// The administrator captured at initialization.
    pub fn admin_address(&self) -> (r: Result<u64, MarketError>)
        ensures
            r == if self.initialized {
                Result::<u64, MarketError>::Ok(self.admin_address)
            } else {
                Result::<u64, MarketError>::Err(MarketError::NotInitialized)
            },
    {
        if self.initialized {
            Result::Ok(self.admin_address)
        } else {
            Result::Err(MarketError::NotInitialized)
        }
    }

    /// The market's own account identity.
    pub fn current_contract_address(&self) -> (r: u64)
        ensures
            r == self.address,
    {
        self.address
    }

    /// The underlying asset's account identity.
    pub fn underlying_asset_address(&self) -> (r: Result<u64, MarketError>)
        ensures
            r == if self.initialized {
                Result::<u64, MarketError>::Ok(self.asset_address)
            } else {
                Result::<u64, MarketError>::Err(MarketError::NotInitialized)
            },
    {
        if self.initialized {
            Result::Ok(self.asset_address)
        } else {
            Result::Err(MarketError::NotInitialized)
        }
    }

    /// The hedge vault's account identity.
    pub fn hedge_address(&self) -> (r: Result<u64, MarketError>)
        ensures
            r == if self.initialized {
                Result::<u64, MarketError>::Ok(self.hedge_vault_address)
            } else {
                Result::<u64, MarketError>::Err(MarketError::NotInitialized)
            },
    {
        if self.initialized {
            Result::Ok(self.hedge_vault_address)
        } else {
            Result::Err(MarketError::NotInitialized)
        }
    }

    /// The risk vault's account identity.
    pub fn risk_address(&self) -> (r: Result<u64, MarketError>)
        ensures
            r == if self.initialized {
                Result::<u64, MarketError>::Ok(self.risk_vault_address)
            } else {
                Result::<u64, MarketError>::Err(MarketError::NotInitialized)
            },
    {
        if self.initialized {
            Result::Ok(self.risk_vault_address)
        } else {
            Result::Err(MarketError::NotInitialized)
        }
    }

    /// The trusted oracle's account identity.
    pub fn oracle_address(&self) -> (r: Result<u64, MarketError>)
        ensures
            r == if self.initialized {
                Result::<u64, MarketError>::Ok(self.oracle_address)
            } else {
                Result::<u64, MarketError>::Err(MarketError::NotInitialized)
            },
    {
        if self.initialized {
            Result::Ok(self.oracle_address)
        } else {
            Result::Err(MarketError::NotInitialized)
        }
    }

    /// The trusted oracle's name.
    pub fn oracle_name(&self) -> (r: Result<String, MarketError>)
        ensures
            r == if self.initialized {
                Result::<String, MarketError>::Ok(self.oracle_name)
            } else {
                Result::<String, MarketError>::Err(MarketError::NotInitialized)
            },
    {
        if self.initialized {
            Result::Ok(self.oracle_name.clone())
        } else {
            Result::Err(MarketError::NotInitialized)
        }
    }

    /// Replaces the trusted oracle; rejected while the market is paused.
    pub fn change_oracle(&mut self, oracle_address: u64, oracle_name: String) -> (r: Result<
        bool,
        MarketError,
    >)
        requires
            old(self).wf(),
        ensures
            final(self).wf(),
            r is Err ==> *final(self) == *old(self),
            !old(self).initialized ==> r == Result::<bool, MarketError>::Err(
                MarketError::NotInitialized,
            ),
            old(self).initialized && old(self).paused ==> r == Result::<bool, MarketError>::Err(
                MarketError::ContractIsAlreadyPaused,
            ),
            old(self).initialized && !old(self).paused ==> {
                &&& r == Result::<bool, MarketError>::Ok(true)
                &&& *final(self) == (MarketContract {
                    oracle_address: oracle_address,
                    oracle_name: oracle_name,
                    ..*old(self)
                })
            },
    {
        if !self.initialized {
            return Result::Err(MarketError::NotInitialized);
        }
        if self.paused {
            return Result::Err(MarketError::ContractIsAlreadyPaused);
        }
        self.oracle_address = oracle_address;
        self.oracle_name = oracle_name;
        Result::Ok(true)
    }

    /// The time `init` ran.
    pub fn initialized_time(&self) -> (r: Result<u64, MarketError>)
        ensures
            r == if self.initialized {
                Result::<u64, MarketError>::Ok(self.initialized_time)
            } else {
                Result::<u64, MarketError>::Err(MarketError::NotInitialized)
            },
    {
        if self.initialized {
            Result::Ok(self.initialized_time)
        } else {
            Result::Err(MarketError::NotInitialized)
        }
    }

    /// The expected event time submitted at `init`.
    pub fn expected_time_of_event(&self) -> (r: Result<u64, MarketError>)
        ensures
            r == if self.initialized {
                Result::<u64, MarketError>::Ok(self.event_unix_timestamp)
            } else {
                Result::<u64, MarketError>::Err(MarketError::NotInitialized)
            },
    {
        if self.initialized {
            Result::Ok(self.event_unix_timestamp)
        } else {
            Result::Err(MarketError::NotInitialized)
        }
    }

    /// The event time the oracle actually reported, once one has been.
    pub fn actual_time_of_event(&self) -> (r: Result<u64, MarketError>)
        ensures
            r == if !self.initialized {
                Result::<u64, MarketError>::Err(MarketError::NotInitialized)
            } else {
                match self.actual_event_timestamp {
                    Option::Some(t) => Result::<u64, MarketError>::Ok(t),
                    Option::None => Result::<u64, MarketError>::Err(
                        MarketError::ActualEventTimeNotSet,
                    ),
                }
            },
    {
        if !self.initialized {
            return Result::Err(MarketError::NotInitialized);
        }
        match self.actual_event_timestamp {
            Option::Some(t) => Result::Ok(t),
            Option::None => Result::Err(MarketError::ActualEventTimeNotSet),
        }
    }

    /// Seconds left until the expected event time, zero once it has
    /// passed.
    pub fn time_until_event(&self, now: u64) -> (r: Result<u64, MarketError>)
        ensures
            r == if self.initialized {
                Result::<u64, MarketError>::Ok(
                    if self.event_unix_timestamp <= now {
                        0u64
                    } else {
                        (self.event_unix_timestamp - now) as u64
                    },
                )
            } else {
                Result::<u64, MarketError>::Err(MarketError::NotInitialized)
            },
    {
        if !self.initialized {
            return Result::Err(MarketError::NotInitialized);
        }
        if self.event_unix_timestamp <= now {
            return Result::Ok(0);
        }
        Result::Ok(self.event_unix_timestamp - now)
    }

    /// The lock period submitted at `init`.
    pub fn lock_period_in_seconds(&self) -> (r: Result<u64, MarketError>)
        ensures
            r == if self.initialized {
                Result::<u64, MarketError>::Ok(self.lock_period_in_seconds)
            } else {
                Result::<u64, MarketError>::Err(MarketError::NotInitialized)
            },
    {
        if self.initialized {
            Result::Ok(self.lock_period_in_seconds)
        } else {
            Result::Err(MarketError::NotInitialized)
        }
    }

    /// Seconds left until the lock window opens, zero once it has.
    pub fn time_until_lock(&self, now: u64) -> (r: Result<u64, MarketError>)
        requires
            self.wf(),
        ensures
            r == if self.initialized {
                Result::<u64, MarketError>::Ok(
                    if now >= self.lock_time_spec() {
                        0u64
                    } else {
                        (self.lock_time_spec() - now) as u64
                    },
                )
            } else {
                Result::<u64, MarketError>::Err(MarketError::NotInitialized)
            },
    {
        if !self.initialized {
            return Result::Err(MarketError::NotInitialized);
        }
        let lock_time = self.event_unix_timestamp - self.lock_period_in_seconds;
        if now >= lock_time {
            return Result::Ok(0);
        }
        Result::Ok(lock_time - now)
    }

    /// The event threshold submitted at `init`.
    pub fn event_threshold_in_seconds(&self) -> (r: Result<u64, MarketError>)
        ensures
            r == if self.initialized {
                Result::<u64, MarketError>::Ok(self.event_threshold_in_seconds)
            } else {
                Result::<u64, MarketError>::Err(MarketError::NotInitialized)
            },
    {
        if self.initialized {
            Result::Ok(self.event_threshold_in_seconds)
        } else {
            Result::Err(MarketError::NotInitialized)
        }
    }

    /// The unlock period submitted at `init`.
    pub fn unlock_period_in_seconds(&self) -> (r: Result<u64, MarketError>)
        ensures
            r == if self.initialized {
                Result::<u64, MarketError>::Ok(self.unlock_period_in_seconds)
            } else {
                Result::<u64, MarketError>::Err(MarketError::NotInitialized)
            },
    {
        if self.initialized {
            Result::Ok(self.unlock_period_in_seconds)
        } else {
            Result::Err(MarketError::NotInitialized)
        }
    }

    /// The derived start of the lock window.
    pub fn time_of_lock(&self) -> (r: Result<u64, MarketError>)
        requires
            self.wf(),
        ensures
            r == if self.initialized {
                Result::<u64, MarketError>::Ok(self.lock_time_spec() as u64)
            } else {
                Result::<u64, MarketError>::Err(MarketError::NotInitialized)
            },
    {
        if !self.initialized {
            return Result::Err(MarketError::NotInitialized);
        }
        Result::Ok(self.event_unix_timestamp - self.lock_period_in_seconds)
    }

    /// The derived end of the lock window.
    pub fn time_of_unlock(&self) -> (r: Result<u64, MarketError>)
        requires
            self.wf(),
        ensures
            r == if self.initialized {
                Result::<u64, MarketError>::Ok(self.unlock_time_spec() as u64)
            } else {
                Result::<u64, MarketError>::Err(MarketError::NotInitialized)
            },
    {
        if !self.initialized {
            return Result::Err(MarketError::NotInitialized);
        }
        Result::Ok(
            self.event_unix_timestamp + self.event_threshold_in_seconds
                + self.unlock_period_in_seconds,
        )
    }

    /// Seconds left until the lock window closes, zero once it has.
    pub fn time_until_unlock(&self, now: u64) -> (r: Result<u64, MarketError>)
        requires
            self.wf(),
        ensures
            r == if self.initialized {
                Result::<u64, MarketError>::Ok(
                    if now >= self.unlock_time_spec() {
                        0u64
                    } else {
                        (self.unlock_time_spec() - now) as u64
                    },
                )
            } else {
                Result::<u64, MarketError>::Err(MarketError::NotInitialized)
            },
    {
        if !self.initialized {
            return Result::Err(MarketError::NotInitialized);
        }
        let unlock_time = self.event_unix_timestamp + self.event_threshold_in_seconds
            + self.unlock_period_in_seconds;
        if now >= unlock_time {
            return Result::Ok(0);
        }
        Result::Ok(unlock_time - now)
    }

    /// The market's advertised risk grade.
    pub fn risk_score(&self) -> (r: Result<MarketRisk, MarketError>)
        ensures
            r == if self.initialized {
                Result::<MarketRisk, MarketError>::Ok(self.risk_score)
            } else {
                Result::<MarketRisk, MarketError>::Err(MarketError::NotInitialized)
            },
    {
        if self.initialized {
            Result::Ok(self.risk_score)
        } else {
            Result::Err(MarketError::NotInitialized)
        }
    }

    /// Replaces the advertised risk grade; rejected while paused.
    pub fn change_risk_score(&mut self, risk: MarketRisk) -> (r: Result<bool, MarketError>)
        requires
            old(self).wf(),
        ensures
            final(self).wf(),
            r is Err ==> *final(self) == *old(self),
            !old(self).initialized ==> r == Result::<bool, MarketError>::Err(
                MarketError::NotInitialized,
            ),
            old(self).initialized && old(self).paused ==> r == Result::<bool, MarketError>::Err(
                MarketError::ContractIsAlreadyPaused,
            ),
            old(self).initialized && !old(self).paused ==> {
                &&& r == Result::<bool, MarketError>::Ok(true)
                &&& *final(self) == (MarketContract { risk_score: risk, ..*old(self) })
            },
    {
        if !self.initialized {
            return Result::Err(MarketError::NotInitialized);
        }
        if self.paused {
            return Result::Err(MarketError::ContractIsAlreadyPaused);
        }
        self.risk_score = risk;
        Result::Ok(true)
    }

    /// Whether settlement is exercised automatically or manually, as a
    /// displayable word.
    pub fn exercising(&self) -> (r: Result<String, MarketError>)
        ensures
            !self.initialized ==> r == Result::<String, MarketError>::Err(
                MarketError::NotInitialized,
            ),
            self.initialized ==> (r matches Result::Ok(s) && s@ == if self.is_automatic {
                "Automatic"@
            } else {
                "Manual"@
            }),
    {
        if !self.initialized {
            return Result::Err(MarketError::NotInitialized);
        }
        if self.is_automatic {
            Result::Ok(String::from_str("Automatic"))
        } else {
            Result::Ok(String::from_str("Manual"))
        }
    }

    /// The commission fee percentage.
    pub fn commission(&self) -> (r: Result<u32, MarketError>)
        ensures
            r == if self.initialized {
                Result::<u32, MarketError>::Ok(self.commission_fee)
            } else {
                Result::<u32, MarketError>::Err(MarketError::NotInitialized)
            },
    {
        if self.initialized {
            Result::Ok(self.commission_fee)
        } else {
            Result::Err(MarketError::NotInitialized)
        }
    }

    /// When the oracle flagged liquidation, once it has.
    pub fn liquidated_time(&self) -> (r: Result<u64, MarketError>)
        ensures
            r == if !self.initialized {
                Result::<u64, MarketError>::Err(MarketError::NotInitialized)
            } else {
                match self.liquidated_time {
                    Option::Some(t) => Result::<u64, MarketError>::Ok(t),
                    Option::None => Result::<u64, MarketError>::Err(
                        MarketError::LiquidatedTimeNotSet,
                    ),
                }
            },
    {
        if !self.initialized {
            return Result::Err(MarketError::NotInitialized);
        }
        match self.liquidated_time {
            Option::Some(t) => Result::Ok(t),
            Option::None => Result::Err(MarketError::LiquidatedTimeNotSet),
        }
    }

    /// When the oracle flagged maturity, once it has.
    pub fn matured_time(&self) -> (r: Result<u64, MarketError>)
        ensures
            r == if !self.initialized {
                Result::<u64, MarketError>::Err(MarketError::NotInitialized)
            } else {
                match self.matured_time {
                    Option::Some(t) => Result::<u64, MarketError>::Ok(t),
                    Option::None => Result::<u64, MarketError>::Err(
                        MarketError::MaturityTimeNotSet,
                    ),
                }
            },
    {
        if !self.initialized {
            return Result::Err(MarketError::NotInitialized);
        }
        match self.matured_time {
            Option::Some(t) => Result::Ok(t),
            Option::None => Result::Err(MarketError::MaturityTimeNotSet),
        }
    }

    /// When the oracle last reported, once it has.
    pub fn last_oracle_time(&self) -> (r: Result<u64, MarketError>)
        ensures
            r == if !self.initialized {
                Result::<u64, MarketError>::Err(MarketError::NotInitialized)
            } else {
                match self.last_oracle_time {
                    Option::Some(t) => Result::<u64, MarketError>::Ok(t),
                    Option::None => Result::<u64, MarketError>::Err(
                        MarketError::LastOracleTimeNotSet,
                    ),
                }
            },
    {
        if !self.initialized {
            return Result::Err(MarketError::NotInitialized);
        }
        match self.last_oracle_time {
            Option::Some(t) => Result::Ok(t),
            Option::None => Result::Err(MarketError::LastOracleTimeNotSet),
        }
    }

    /// When a keeper last settled, once one has.
    pub fn last_keeper_time(&self) -> (r: Result<u64, MarketError>)
        ensures
            r == if !self.initialized {
                Result::<u64, MarketError>::Err(MarketError::NotInitialized)
            } else {
                match self.last_keeper_time {
                    Option::Some(t) => Result::<u64, MarketError>::Ok(t),
                    Option::None => Result::<u64, MarketError>::Err(
                        MarketError::LastKeeperTimeNotSet,
                    ),
                }
            },
    {
        if !self.initialized {
            return Result::Err(MarketError::NotInitialized);
        }
        match self.last_keeper_time {
            Option::Some(t) => Result::Ok(t),
            Option::None => Result::Err(MarketError::LastKeeperTimeNotSet),
        }
    }

    /// Dispute resolution is not implemented.
    pub fn dispute(&self) -> (r: Result<bool, MarketError>)
        ensures
            r == Result::<bool, MarketError>::Err(MarketError::NotImplementedYet),
    {
        Result::Err(MarketError::NotImplementedYet)
    }

    /// Whether the market is paused.
    pub fn is_market_paused(&self) -> (r: bool)
        ensures
            r == self.paused,
    {
        self.paused
    }

    /// Reports whether the archival lifetime could be extended; the
    /// extension itself is a host-side effect outside this model.
    pub fn extend_market_ttl(&self) -> (r: Result<bool, MarketError>)
        ensures
            r == if self.initialized {
                Result::<bool, MarketError>::Ok(true)
            } else {
                Result::<bool, MarketError>::Err(MarketError::NotInitialized)
            },
    {
        if self.initialized {
            Result::Ok(true)
        } else {
            Result::Err(MarketError::NotInitialized)
        }
    }

    /// The asset total left for distribution once the commission on both
    /// vault balances is set aside.
    pub open spec fn distribution_total(self, token: TokenLedger) -> int {
        let bh = token.balance_spec(self.hedge_vault_address);
        let br = token.balance_spec(self.risk_vault_address);
        bh + br - fee_amount_spec(bh, self.commission_fee) - fee_amount_spec(
            br,
            self.commission_fee,
        )
    }

    /// Arithmetic-fit condition for a potential-return projection over
    /// `vault` for `caller`'s shares.
    pub open spec fn potential_return_fits(
        self,
        vault: Vault,
        token: TokenLedger,
        caller: u64,
    ) -> bool {
        let bh = token.balance_spec(self.hedge_vault_address);
        let br = token.balance_spec(self.risk_vault_address);
        let total = self.distribution_total(token);
        let cs = vault.shares_of_spec(caller);
        &&& self.commission_fee > 0 ==> in_i128(bh * self.commission_fee) && in_i128(
            br * self.commission_fee,
        )
        &&& bh + br <= i128::MAX
        &&& cs > 0 && vault.total_shares > cs && total > 0 ==> {
            &&& vault.total_shares + pow_int(10, DECIMALS_OFFSET as nat) <= i128::MAX
            &&& total < i128::MAX
            &&& in_i128(cs * (total + 1))
        }
    }

    /// The ratio of the hedge vault's pooled assets to the risk vault's,
    /// rounded toward zero; zero when either pool is empty.
    pub fn calculate_vault_assets_ratio(
        &self,
        hedge: &Vault,
        risk: &Vault,
        token: &TokenLedger,
    ) -> (r: Result<i128, MarketError>)
        requires
            self.wf(),
            hedge.wf(),
            risk.wf(),
            token.wf(),
            self.initialized ==> hedge.initialized && risk.initialized && hedge.decimals_fit()
                && risk.decimals_fit(),
        ensures
            !self.initialized ==> r == Result::<i128, MarketError>::Err(
                MarketError::NotInitialized,
            ),
            self.initialized ==> {
                let ah = hedge.total_assets_spec(*token);
                let ar = risk.total_assets_spec(*token);
                r == Result::<i128, MarketError>::Ok(
                    if ah == 0 || ar == 0 {
                        0i128
                    } else {
                        div_trunc(ah, ar) as i128
                    },
                )
            },
    {
        if !self.initialized {
            return Result::Err(MarketError::NotInitialized);
        }
        let assets_hedge = match hedge.total_assets(token) {
            Result::Ok(v) => v,
            Result::Err(_) => {
                proof {
                    assert(false);
                }
                return Result::Err(MarketError::NotInitialized);
            },
        };
        let assets_risk = match risk.total_assets(token) {
            Result::Ok(v) => v,
            Result::Err(_) => {
                proof {
                    assert(false);
                }
                return Result::Err(MarketError::NotInitialized);
            },
        };
        proof {
            lemma_pow_lower(10, hedge.asset_decimals as nat);
            lemma_pow_lower(10, risk.asset_decimals as nat);
            lemma_amount_nonneg(token.balances@, hedge.address);
            lemma_amount_nonneg(token.balances@, risk.address);
            lemma_amount_le_total(token.balances@, hedge.address);
            lemma_amount_le_total(token.balances@, risk.address);
            lemma_div_trunc_bounds(token.balance_spec(hedge.address), hedge.units_factor());
            lemma_div_trunc_bounds(token.balance_spec(risk.address), risk.units_factor());
        }
        if assets_hedge == 0 || assets_risk == 0 {
            return Result::Ok(0);
        }
        proof {
            lemma_div_trunc_bounds(assets_hedge as int, assets_risk as int);
        }
        Result::Ok(safe_div(assets_hedge, assets_risk))
    }

    /// The ratio of the hedge vault's share supply to the risk vault's,
    /// rounded toward zero; zero when either supply is empty.
    pub fn calculate_vault_shares_ratio(&self, hedge: &Vault, risk: &Vault) -> (r: Result<
        i128,
        MarketError,
    >)
        requires
            self.wf(),
            hedge.wf(),
            risk.wf(),
            self.initialized ==> hedge.initialized && risk.initialized,
        ensures
            !self.initialized ==> r == Result::<i128, MarketError>::Err(
                MarketError::NotInitialized,
            ),
            self.initialized ==> r == Result::<i128, MarketError>::Ok(
                if hedge.total_shares == 0 || risk.total_shares == 0 {
                    0i128
                } else {
                    div_trunc(hedge.total_shares as int, risk.total_shares as int) as i128
                },
            ),
    {
        if !self.initialized {
            return Result::Err(MarketError::NotInitialized);
        }
        let shares_hedge = match hedge.total_shares() {
            Result::Ok(v) => v,
            Result::Err(_) => {
                proof {
                    assert(false);
                }
                return Result::Err(MarketError::NotInitialized);
            },
        };
        let shares_risk = match risk.total_shares() {
            Result::Ok(v) => v,
            Result::Err(_) => {
                proof {
                    assert(false);
                }
                return Result::Err(MarketError::NotInitialized);
            },
        };
        if shares_hedge == 0 || shares_risk == 0 {
            return Result::Ok(0);
        }
        proof {
            lemma_div_trunc_bounds(shares_hedge as int, shares_risk as int);
        }
        Result::Ok(safe_div(shares_hedge, shares_risk))
    }

    /// Projects what `caller`'s hedge-vault shares would return if the
    /// pooled balances of both vaults, net of commission, were
    /// distributed now.
    pub fn calculate_hedge_potential_return(
        &self,
        hedge: &Vault,
        token: &TokenLedger,
        caller: u64,
    ) -> (r: Result<i128, MarketError>)
        requires
            self.wf(),
            hedge.wf(),
            token.wf(),
            self.initialized ==> hedge.initialized && self.potential_return_fits(
                *hedge,
                *token,
                caller,
            ),
        ensures
            !self.initialized ==> r == Result::<i128, MarketError>::Err(
                MarketError::NotInitialized,
            ),
            self.initialized ==> r == Result::<i128, MarketError>::Ok(
                to_assets_simulate_spec(
                    hedge.shares_of_spec(caller),
                    hedge.total_shares as int,
                    self.distribution_total(*token),
                    Rounding::Floor,
                ) as i128,
            ),
    {
        if !self.initialized {
            return Result::Err(MarketError::NotInitialized);
        }
        self.potential_return(hedge, token, caller)
    }

    /// Projects what `caller`'s risk-vault shares would return if the
    /// pooled balances of both vaults, net of commission, were
    /// distributed now.
    pub fn calculate_risk_potential_return(
        &self,
        risk: &Vault,
        token: &TokenLedger,
        caller: u64,
    ) -> (r: Result<i128, MarketError>)
        requires
            self.wf(),
            risk.wf(),
            token.wf(),
            self.initialized ==> risk.initialized && self.potential_return_fits(
                *risk,
                *token,
                caller,
            ),
        ensures
            !self.initialized ==> r == Result::<i128, MarketError>::Err(
                MarketError::NotInitialized,
            ),
            self.initialized ==> r == Result::<i128, MarketError>::Ok(
                to_assets_simulate_spec(
                    risk.shares_of_spec(caller),
                    risk.total_shares as int,
                    self.distribution_total(*token),
                    Rounding::Floor,
                ) as i128,
            ),
    {
        if !self.initialized {
            return Result::Err(MarketError::NotInitialized);
        }
        self.potential_return(risk, token, caller)
    }

    /// The shared projection: values `caller`'s shares of `vault`
    /// against the distributable total of both vault balances.
    fn potential_return(&self, vault: &Vault, token: &TokenLedger, caller: u64) -> (r: Result<
        i128,
        MarketError,
    >)
        requires
            self.wf(),
            vault.wf(),
            token.wf(),
            self.initialized,
            vault.initialized,
            self.potential_return_fits(*vault, *token, caller),
        ensures
            r == Result::<i128, MarketError>::Ok(
                to_assets_simulate_spec(
                    vault.shares_of_spec(caller),
                    vault.total_shares as int,
                    self.distribution_total(*token),
                    Rounding::Floor,
                ) as i128,
            ),
    {
        let assets_hedge = token.balance(self.hedge_vault_address);
        let assets_risk = token.balance(self.risk_vault_address);
        let fee_percentage = self.commission_fee;
        proof {
            lemma_amount_nonneg(token.balances@, self.hedge_vault_address);
            lemma_amount_nonneg(token.balances@, self.risk_vault_address);
        }
        let admin_fee_hedge = MarketContract::calculate_fee_amount(assets_hedge, fee_percentage);
        let admin_fee_risk = MarketContract::calculate_fee_amount(assets_risk, fee_percentage);
        proof {
            lemma_fee_bounds(assets_hedge as int, fee_percentage);
            lemma_fee_bounds(assets_risk as int, fee_percentage);
        }
        let total_assets = safe_sub_i128(
            safe_sub_i128(safe_add_i128(assets_hedge, assets_risk), admin_fee_hedge),
            admin_fee_risk,
        );
        let total_shares = match vault.total_shares() {
            Result::Ok(v) => v,
            Result::Err(_) => {
                proof {
                    assert(false);
                }
                return Result::Err(MarketError::NotInitialized);
            },
        };
        let caller_shares = match vault.balance_of_shares(caller) {
            Result::Ok(v) => v,
            Result::Err(_) => {
                proof {
                    assert(false);
                }
                return Result::Err(MarketError::NotInitialized);
            },
        };
        proof {
            lemma_amount_nonneg(vault.shares@, caller);
            lemma_amount_le_total(vault.shares@, caller);
        }
        match vault.convert_to_assets_simulate(caller_shares, total_shares, total_assets) {
            Result::Ok(v) => Result::Ok(v),
            Result::Err(_) => {
                proof {
                    assert(false);
                }
                Result::Err(MarketError::NotInitialized)
            },
        }
    }

    /// Assembles the read-only snapshot of the market together with the
    /// public views of both vaults and the caller's share balances.
    pub fn market_details(&self, hedge: &Vault, risk: &Vault, token: &TokenLedger, caller: u64) -> (r:
        Result<MarketDetails, MarketError>)
        requires
            self.wf(),
            hedge.wf(),
            risk.wf(),
            token.wf(),
            self.initialized ==> hedge.initialized && risk.initialized && hedge.decimals_fit()
                && risk.decimals_fit(),
        ensures
            !self.initialized ==> r == Result::<MarketDetails, MarketError>::Err(
                MarketError::NotInitialized,
            ),
            self.initialized ==> (r matches Result::Ok(d) && {
                &&& d.name == self.name
                &&& d.description == self.description
                &&& d.status == self.status
                &&& d.hedge_address == self.hedge_vault_address
                &&& d.risk_address == self.risk_vault_address
                &&& d.oracle_address == self.oracle_address
                &&& d.oracle_name == self.oracle_name
                &&& d.risk_score == self.risk_score
                &&& d.event_time == self.event_unix_timestamp
                &&& d.is_automatic == self.is_automatic
                &&& d.commission_fee == self.commission_fee
                &&& d.hedge_admin_address == hedge.administrator
                &&& d.hedge_asset_address == hedge.asset_address
                &&& d.hedge_asset_symbol == hedge.asset_symbol
                &&& d.hedge_total_shares == hedge.total_shares
                &&& d.hedge_total_assets == hedge.total_assets_spec(*token)
                &&& d.hedge_address_shares == hedge.shares_of_spec(caller)
                &&& d.risk_admin_address == risk.administrator
                &&& d.risk_asset_address == risk.asset_address
                &&& d.risk_asset_symbol == risk.asset_symbol
                &&& d.risk_total_shares == risk.total_shares
                &&& d.risk_total_assets == risk.total_assets_spec(*token)
                &&& d.risk_address_shares == risk.shares_of_spec(caller)
            }),
    {
        if !self.initialized {
            return Result::Err(MarketError::NotInitialized);
        }
        proof {
            lemma_pow_lower(10, hedge.asset_decimals as nat);
            lemma_pow_lower(10, risk.asset_decimals as nat);
            lemma_amount_nonneg(token.balances@, hedge.address);
            lemma_amount_nonneg(token.balances@, risk.address);
            lemma_amount_le_total(token.balances@, hedge.address);
            lemma_amount_le_total(token.balances@, risk.address);
            lemma_div_trunc_bounds(token.balance_spec(hedge.address), hedge.units_factor());
            lemma_div_trunc_bounds(token.balance_spec(risk.address), risk.units_factor());
            lemma_amount_nonneg(hedge.shares@, caller);
            lemma_amount_le_total(hedge.shares@, caller);
            lemma_amount_nonneg(risk.shares@, caller);
            lemma_amount_le_total(risk.shares@, caller);
        }
        let hedge_admin_address = match hedge.administrator_address() {
            Result::Ok(v) => v,
            Result::Err(_) => {
                proof {
                    assert(false);
                }
                return Result::Err(MarketError::NotInitialized);
            },
        };
        let hedge_asset_address = match hedge.asset_address() {
            Result::Ok(v) => v,
            Result::Err(_) => {
                proof {
                    assert(false);
                }
                return Result::Err(MarketError::NotInitialized);
            },
        };
        let hedge_asset_symbol = match hedge.asset_symbol() {
            Result::Ok(v) => v,
            Result::Err(_) => {
                proof {
                    assert(false);
                }
                return Result::Err(MarketError::NotInitialized);
            },
        };
        let hedge_total_shares = match hedge.total_shares() {
            Result::Ok(v) => v,
            Result::Err(_) => {
                proof {
                    assert(false);
                }
                return Result::Err(MarketError::NotInitialized);
            },
        };
        let hedge_total_assets = match hedge.total_assets(token) {
            Result::Ok(v) => v,
            Result::Err(_) => {
                proof {
                    assert(false);
                }
                return Result::Err(MarketError::NotInitialized);
            },
        };
        let hedge_address_shares = match hedge.balance_of_shares(caller) {
            Result::Ok(v) => v,
            Result::Err(_) => {
                proof {
                    assert(false);
                }
                return Result::Err(MarketError::NotInitialized);
            },
        };
        let risk_admin_address = match risk.administrator_address() {
            Result::Ok(v) => v,
            Result::Err(_) => {
                proof {
                    assert(false);
                }
                return Result::Err(MarketError::NotInitialized);
            },
        };
        let risk_asset_address = match risk.asset_address() {
            Result::Ok(v) => v,
            Result::Err(_) => {
                proof {
                    assert(false);
                }
                return Result::Err(MarketError::NotInitialized);
            },
        };
        let risk_asset_symbol = match risk.asset_symbol() {
            Result::Ok(v) => v,
            Result::Err(_) => {
                proof {
                    assert(false);
                }
                return Result::Err(MarketError::NotInitialized);
            },
        };
        let risk_total_shares = match risk.total_shares() {
            Result::Ok(v) => v,
            Result::Err(_) => {
                proof {
                    assert(false);
                }
                return Result::Err(MarketError::NotInitialized);
            },
        };
        let risk_total_assets = match risk.total_assets(token) {
            Result::Ok(v) => v,
            Result::Err(_) => {
                proof {
                    assert(false);
                }
                return Result::Err(MarketError::NotInitialized);
            },
        };
        let risk_address_shares = match risk.balance_of_shares(caller) {
            Result::Ok(v) => v,
            Result::Err(_) => {
                proof {
                    assert(false);
                }
                return Result::Err(MarketError::NotInitialized);
            },
        };
        Result::Ok(
            MarketDetails {
                name: self.name.clone(),
                description: self.description.clone(),
                status: self.status,
                hedge_address: self.hedge_vault_address,
                risk_address: self.risk_vault_address,
                oracle_address: self.oracle_address,
                oracle_name: self.oracle_name.clone(),
                risk_score: self.risk_score,
                event_time: self.event_unix_timestamp,
                is_automatic: self.is_automatic,
                commission_fee: self.commission_fee,
                hedge_admin_address,
                hedge_asset_address,
                hedge_asset_symbol,
                hedge_total_shares,
                hedge_total_assets,
                hedge_address_shares,
                risk_admin_address,
                risk_asset_address,
                risk_asset_symbol,
                risk_total_shares,
                risk_total_assets,
                risk_address_shares,
            },
        )
    }

    /// The proportional commission on `whole_amount` at
    /// `fee_percentage` percent, rounded down.
    pub fn calculate_fee_amount(whole_amount: i128, fee_percentage: u32) -> (r: i128)
        requires
            whole_amount >= 0,
            fee_percentage > 0 ==> in_i128(whole_amount * fee_percentage),
        ensures
            r == fee_amount_spec(whole_amount as int, fee_percentage),
    {
        if fee_percentage == 0 {
            return 0;
        }
        let p = safe_mul(whole_amount, fee_percentage as i128);
        proof {
            lemma_div_pos_is_pos(p as int, 100);
            vstd::arithmetic::div_mod::lemma_div_nonincreasing(p as int, 100);
        }
        safe_div(p, 100)
    }

    /// The settlement/fee transfer routine: moves `from_vault`'s whole
    /// balance, net of its commission, to `to_vault`, then collects the
    /// commission on each vault's pre-settlement balance for the
    /// administrator through the pre-granted cross-allowances.  All fee
    /// amounts are computed from the balances read before any transfer,
    /// and a failed allowance check leaves the ledger untouched.
    pub fn transfer_asset(
        &self,
        token: &mut TokenLedger,
        sequence: u32,
        from_vault: u64,
        to_vault: u64,
    ) -> (r: Result<(), MarketError>)
        requires
            old(token).wf(),
            self.initialized,
            self.commission_fee <= MAX_COMMISSION_FEE,
            from_vault != to_vault,
            self.commission_fee > 0 ==> in_i128(
                old(token).balance_spec(from_vault) * self.commission_fee,
            ) && in_i128(old(token).balance_spec(to_vault) * self.commission_fee),
        ensures
            final(token).wf(),
            r == settle_check(*old(token), from_vault, to_vault, self.commission_fee, sequence),
            r is Err ==> *final(token) == *old(token),
            r is Ok ==> settled(
                *old(token),
                *final(token),
                from_vault,
                to_vault,
                self.admin_address,
                self.commission_fee,
            ),
    {
        let allowance_1 = token.allowance(from_vault, to_vault, sequence);
        let balance_1 = token.balance(from_vault);
        proof {
            lemma_amount_nonneg(token.balances@, from_vault);
            lemma_amount_nonneg(token.balances@, to_vault);
            lemma_two_amounts_le_total(token.balances@, from_vault, to_vault);
        }
        if balance_1 > allowance_1 {
            return Result::Err(MarketError::InsufficientAllowance);
        }
        let fee_percentage = self.commission_fee;
        if fee_percentage > 0 {
            let admin_fee_amount_1 = MarketContract::calculate_fee_amount(
                balance_1,
                fee_percentage,
            );
            let balance_2 = token.balance(to_vault);
            let admin_fee_amount_2 = MarketContract::calculate_fee_amount(
                balance_2,
                fee_percentage,
            );
            let allowance_2 = token.allowance(to_vault, from_vault, sequence);
            if balance_2 > allowance_2 {
                return Result::Err(MarketError::InsufficientAllowanceForFeeTransfer);
            }
            let admin = self.admin_address;
            proof {
                lemma_fee_bounds(balance_1 as int, fee_percentage);
                lemma_fee_bounds(balance_2 as int, fee_percentage);
            }
            if balance_1 - admin_fee_amount_1 > 0 {
                token.transfer(from_vault, to_vault, balance_1 - admin_fee_amount_1);
            }
            if admin_fee_amount_1 > 0 {
                token.transfer_from(to_vault, from_vault, admin, admin_fee_amount_1, sequence);
            }
            if admin_fee_amount_2 > 0 {
                token.transfer_from(from_vault, to_vault, admin, admin_fee_amount_2, sequence);
            }
        } else {
            token.transfer(from_vault, to_vault, balance_1);
        }
        Result::Ok(())
    }

    /// Settles a market the oracle has flagged for maturity: the status
    /// becomes terminal and the hedge collateral is transferred to the
    /// risk vault, net of commission.  Permissionless by design, so any
    /// keeper can guarantee liveness.
    pub fn mature(&mut self, token: &mut TokenLedger, now: u64, sequence: u32) -> (r: Result<
        bool,
        MarketError,
    >)
        requires
            old(self).wf(),
            old(token).wf(),
            old(self).initialized && !old(self).paused && old(self).status == MarketStatus::MATURE
                && old(self).commission_fee > 0 ==> in_i128(
                old(token).balance_spec(old(self).hedge_vault_address) * old(self).commission_fee,
            ) && in_i128(
                old(token).balance_spec(old(self).risk_vault_address) * old(self).commission_fee,
            ),
        ensures
            final(self).wf(),
            final(token).wf(),
            status_step(old(self).status, final(self).status),
            r is Err ==> *final(self) == *old(self) && *final(token) == *old(token),
            !old(self).initialized ==> r == Result::<bool, MarketError>::Err(
                MarketError::NotInitialized,
            ),
            old(self).initialized && old(self).paused ==> r == Result::<bool, MarketError>::Err(
                MarketError::ContractIsAlreadyPaused,
            ),
            old(self).initialized && !old(self).paused && old(self).status != MarketStatus::MATURE
                ==> r == Result::<bool, MarketError>::Err(MarketError::NotMature),
            old(self).initialized && !old(self).paused && old(self).status == MarketStatus::MATURE
                ==> r == match settle_check(
                *old(token),
                old(self).hedge_vault_address,
                old(self).risk_vault_address,
                old(self).commission_fee,
                sequence,
            ) {
                Result::Ok(_) => Result::<bool, MarketError>::Ok(true),
                Result::Err(e) => Result::<bool, MarketError>::Err(e),
            },
            r is Ok ==> *final(self) == (MarketContract {
                status: MarketStatus::MATURED,
                last_keeper_time: Option::Some(now),
                ..*old(self)
            }),
            r is Ok ==> settled(
                *old(token),
                *final(token),
                old(self).hedge_vault_address,
                old(self).risk_vault_address,
                old(self).admin_address,
                old(self).commission_fee,
            ),
    {
        if !self.initialized {
            return Result::Err(MarketError::NotInitialized);
        }
        if self.paused {
            return Result::Err(MarketError::ContractIsAlreadyPaused);
        }
        if !(self.status == MarketStatus::MATURE) {
            return Result::Err(MarketError::NotMature);
        }
        let hedge = self.hedge_vault_address;
        let risk = self.risk_vault_address;
        match self.transfer_asset(token, sequence, hedge, risk) {
            Result::Ok(_) => {},
            Result::Err(e) => {
                return Result::Err(e);
            },
        }
        self.status = MarketStatus::MATURED;
        self.last_keeper_time = Option::Some(now);
        Result::Ok(true)
    }

    /// Settles a market the oracle has flagged for liquidation: the
    /// status becomes terminal and the risk collateral is transferred to
    /// the hedge vault, net of commission.  Permissionless by design.
    pub fn liquidate(&mut self, token: &mut TokenLedger, now: u64, sequence: u32) -> (r: Result<
        bool,
        MarketError,
    >)
        requires
            old(self).wf(),
            old(token).wf(),
            old(self).initialized && !old(self).paused && old(self).status
                == MarketStatus::LIQUIDATE && old(self).commission_fee > 0 ==> in_i128(
                old(token).balance_spec(old(self).hedge_vault_address) * old(self).commission_fee,
            ) && in_i128(
                old(token).balance_spec(old(self).risk_vault_address) * old(self).commission_fee,
            ),
        ensures
            final(self).wf(),
            final(token).wf(),
            status_step(old(self).status, final(self).status),
            r is Err ==> *final(self) == *old(self) && *final(token) == *old(token),
            !old(self).initialized ==> r == Result::<bool, MarketError>::Err(
                MarketError::NotInitialized,
            ),
            old(self).initialized && old(self).paused ==> r == Result::<bool, MarketError>::Err(
                MarketError::ContractIsAlreadyPaused,
            ),
            old(self).initialized && !old(self).paused && old(self).status
                != MarketStatus::LIQUIDATE ==> r == Result::<bool, MarketError>::Err(
                MarketError::NotLiquidate,
            ),
            old(self).initialized && !old(self).paused && old(self).status
                == MarketStatus::LIQUIDATE ==> r == match settle_check(
                *old(token),
                old(self).risk_vault_address,
                old(self).hedge_vault_address,
                old(self).commission_fee,
                sequence,
            ) {
                Result::Ok(_) => Result::<bool, MarketError>::Ok(true),
                Result::Err(e) => Result::<bool, MarketError>::Err(e),
            },
            r is Ok ==> *final(self) == (MarketContract {
                status: MarketStatus::LIQUIDATED,
                last_keeper_time: Option::Some(now),
                ..*old(self)
            }),
            r is Ok ==> settled(
                *old(token),
                *final(token),
                old(self).risk_vault_address,
                old(self).hedge_vault_address,
                old(self).admin_address,
                old(self).commission_fee,
            ),
    {
        if !self.initialized {
            return Result::Err(MarketError::NotInitialized);
        }
        if self.paused {
            return Result::Err(MarketError::ContractIsAlreadyPaused);
        }
        if !(self.status == MarketStatus::LIQUIDATE) {
            return Result::Err(MarketError::NotLiquidate);
        }
        let hedge = self.hedge_vault_address;
        let risk = self.risk_vault_address;
        match self.transfer_asset(token, sequence, risk, hedge) {
            Result::Ok(_) => {},
            Result::Err(e) => {
                return Result::Err(e);
            },
        }
        self.status = MarketStatus::LIQUIDATED;
        self.last_keeper_time = Option::Some(now);
        Result::Ok(true)
    }

    /// Pauses the market and both underlying vaults together; if either
    /// vault cannot be paused, the whole call fails and the market — as
    /// well as both vaults — stays exactly as it was.
    pub fn pause_market(&mut self, hedge: &mut Vault, risk: &mut Vault) -> (r: Result<
        bool,
        MarketError,
    >)
        requires
            old(self).wf(),
            old(hedge).wf(),
            old(risk).wf(),
        ensures
            final(self).wf(),
            final(hedge).wf(),
            final(risk).wf(),
            r is Err ==> *final(self) == *old(self) && *final(hedge) == *old(hedge) && *final(risk)
                == *old(risk),
            !old(self).initialized ==> r == Result::<bool, MarketError>::Err(
                MarketError::NotInitialized,
            ),
            old(self).initialized && old(self).paused ==> r == Result::<bool, MarketError>::Err(
                MarketError::ContractIsAlreadyPaused,
            ),
            old(self).initialized && !old(self).paused && !(old(hedge).initialized && !old(
                hedge,
            ).paused) ==> r == Result::<bool, MarketError>::Err(MarketError::VaultPauseFailed),
            old(self).initialized && !old(self).paused && old(hedge).initialized && !old(
                hedge,
            ).paused && !(old(risk).initialized && !old(risk).paused) ==> r == Result::<
                bool,
                MarketError,
            >::Err(MarketError::VaultPauseFailed),
            old(self).initialized && !old(self).paused && old(hedge).initialized && !old(
                hedge,
            ).paused && old(risk).initialized && !old(risk).paused ==> {
                &&& r == Result::<bool, MarketError>::Ok(true)
                &&& *final(self) == (MarketContract { paused: true, ..*old(self) })
                &&& *final(hedge) == (Vault { paused: true, ..*old(hedge) })
                &&& *final(risk) == (Vault { paused: true, ..*old(risk) })
            },
    {
        if !self.initialized {
            return Result::Err(MarketError::NotInitialized);
        }
        if self.paused {
            return Result::Err(MarketError::ContractIsAlreadyPaused);
        }
        // Both vaults are checked before either is touched, so that a
        // refusal from the second leaves the first unpaused.
        if !hedge.initialized || hedge.is_paused() {
            return Result::Err(MarketError::VaultPauseFailed);
        }
        if !risk.initialized || risk.is_paused() {
            return Result::Err(MarketError::VaultPauseFailed);
        }
        match hedge.pause() {
            Result::Ok(_) => {},
            Result::Err(_) => {
                proof {
                    assert(false);
                }
                return Result::Err(MarketError::VaultPauseFailed);
            },
        }
        match risk.pause() {
            Result::Ok(_) => {},
            Result::Err(_) => {
                proof {
                    assert(false);
                }
                return Result::Err(MarketError::VaultPauseFailed);
            },
        }
        self.paused = true;
        Result::Ok(true)
    }

    /// Unpauses the market and both underlying vaults together; if
    /// either vault cannot be unpaused, the whole call fails and
    /// everything stays as it was.
    pub fn unpause_market(&mut self, hedge: &mut Vault, risk: &mut Vault) -> (r: Result<
        bool,
        MarketError,
    >)
        requires
            old(self).wf(),
            old(hedge).wf(),
            old(risk).wf(),
        ensures
            final(self).wf(),
            final(hedge).wf(),
            final(risk).wf(),
            r is Err ==> *final(self) == *old(self) && *final(hedge) == *old(hedge) && *final(risk)
                == *old(risk),
            !old(self).initialized ==> r == Result::<bool, MarketError>::Err(
                MarketError::NotInitialized,
            ),
            old(self).initialized && !old(self).paused ==> r == Result::<bool, MarketError>::Err(
                MarketError::ContractIsAlreadyUnpaused,
            ),
            old(self).initialized && old(self).paused && !(old(hedge).initialized && old(
                hedge,
            ).paused) ==> r == Result::<bool, MarketError>::Err(MarketError::VaultUnpauseFailed),
            old(self).initialized && old(self).paused && old(hedge).initialized && old(
                hedge,
            ).paused && !(old(risk).initialized && old(risk).paused) ==> r == Result::<
                bool,
                MarketError,
            >::Err(MarketError::VaultUnpauseFailed),
            old(self).initialized && old(self).paused && old(hedge).initialized && old(
                hedge,
            ).paused && old(risk).initialized && old(risk).paused ==> {
                &&& r == Result::<bool, MarketError>::Ok(true)
                &&& *final(self) == (MarketContract { paused: false, ..*old(self) })
                &&& *final(hedge) == (Vault {
                    paused: false,
                    deposit_paused: false,
                    withdraw_paused: false,
                    ..*old(hedge)
                })
                &&& *final(risk) == (Vault {
                    paused: false,
                    deposit_paused: false,
                    withdraw_paused: false,
                    ..*old(risk)
                })
            },
    {
        if !self.initialized {
            return Result::Err(MarketError::NotInitialized);
        }
        if !self.paused {
            return Result::Err(MarketError::ContractIsAlreadyUnpaused);
        }
        if !hedge.initialized || !hedge.is_paused() {
            return Result::Err(MarketError::VaultUnpauseFailed);
        }
        if !risk.initialized || !risk.is_paused() {
            return Result::Err(MarketError::VaultUnpauseFailed);
        }
        self.paused = false;
        match hedge.unpause() {
            Result::Ok(_) => {},
            Result::Err(_) => {
                proof {
                    assert(false);
                }
                return Result::Err(MarketError::VaultUnpauseFailed);
            },
        }
        match risk.unpause() {
            Result::Ok(_) => {},
            Result::Err(_) => {
                proof {
                    assert(false);
                }
                return Result::Err(MarketError::VaultUnpauseFailed);
            },
        }
        Result::Ok(true)
    }
}

} // verus!
