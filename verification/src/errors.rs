//! The closed error taxonomies of the vault and the market.
//!
//! Every externally observable operation returns a typed result.  Guards
//! that the original mixed between panic-class faults and typed errors
//! (pause checks, lock-window checks, balance checks inside the low-level
//! deposit and withdraw paths) are surfaced uniformly as typed errors
//! here; only arithmetic overflow stays a panic-class fault, excluded by
//! precondition.

use vstd::prelude::*;

verus! {

/// Failures of the vault's deposit/withdraw/allowance surface.
#[derive(Clone, Copy, Debug, PartialEq, Eq, Structural)]
pub enum VaultError {
    ERC4626ExceededMaxDeposit,
    ERC4626ExceededMaxMint,
    ERC4626ExceededMaxWithdraw,
    ERC4626ExceededMaxRedeem,
    InvalidAmount,
    ZeroAssets,
    ZeroShares,
    NoAllowance,
    InsufficientAllowance,
    AllowanceExpired,
    InvalidExpiry,
    InvalidExpiryDays,
    AdministratorError,
    CannotApproveOrTransferToSelf,
    VaultPaused,
    DepositPaused,
    WithdrawPaused,
    VaultLocked,
    InsufficientBalance,
}

/// Failures of the vault's lifecycle and pause surface.
#[derive(Clone, Copy, Debug, PartialEq, Eq, Structural)]
pub enum ContractError {
    NotInitialized,
    AlreadyInitialized,
    ContractIsAlreadyPaused,
    ContractIsAlreadyNotPaused,
    DepositIsAlreadyPaused,
    DepositIsAlreadyNotPaused,
    WithdrawIsAlreadyPaused,
    WithdrawIsAlreadyNotPaused,
    InvalidLockTimes,
    ArithmeticError,
}

/// Failures of the market's lifecycle surface.
#[derive(Clone, Copy, Debug, PartialEq, Eq, Structural)]
pub enum MarketError {
    NotInitialized,
    AlreadyInitialized,
    InvalidUnixTimestamp,
    HedgeAndRiskAddressesAreSame,
    InvalidCommisionFee,
    InvalidLockPeriod,
    NotImplementedYet,
    HedgeVaultInitializationFailed,
    HedgeVaultAllowanceFailed,
    RiskVaultInitializationFailed,
    RiskVaultAllowanceFailed,
    ContractIsAlreadyPaused,
    ContractIsAlreadyUnpaused,
    VaultPauseFailed,
    VaultUnpauseFailed,
    LockTooEarly,
    NotLiquidate,
    NotMature,
    LastKeeperTimeNotSet,
    LastOracleTimeNotSet,
    AlreadyMatured,
    AlreadyLiquidated,
    AlreadyLocked,
    EventTimeIsRequired,
    WithdrawalUnpauseFailed,
    InvalidEventThreshold,
    InvalidUnlockPeriod,
    InsufficientAllowance,
    InsufficientAllowanceForFeeTransfer,
    ActualEventTimeNotSet,
    LiquidatedTimeNotSet,
    MaturityTimeNotSet,
}

} // verus!
