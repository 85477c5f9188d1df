//! The tokenized-vault accounting engine.
//!
//! A vault custodies one underlying asset on the token ledger under its
//! own account, tracks a total share supply against per-holder share
//! balances, and exposes the share/asset conversion, deposit/withdraw,
//! share-transfer, share-allowance and pause surfaces.  The host's
//! storage is modeled by the struct's fields; the host readings a call
//! needs (current timestamp, current ledger sequence) are arguments.

use vstd::prelude::*;

verus! {

use crate::allowance::{
    approve_allowance,
    calculate_expiry_ledger,
    spend_allowance,
    spend_check,
    spend_step,
    DAY_IN_LEDGERS,
    MAXIMUM_DAYS,
    MAXIMUM_LEDGERS,
};
use crate::errors::{ContractError, VaultError};
use crate::math::{
    div_trunc,
    in_i128,
    lemma_div_ceil_pos,
    lemma_div_trunc_bounds,
    lemma_mul_div_ceil_ge_floor,
    lemma_mul_div_ceil_inverse_le,
    lemma_mul_div_spec_in_range,
    lemma_pow_lower,
    mul_div,
    mul_div_spec,
    pow_int,
    safe_add_i128,
    safe_add_u32,
    safe_div,
    safe_mul,
    safe_pow,
    safe_sub_i128,
    Rounding,
};
use crate::table::{
    allowance_get,
    allowance_of,
    amount_get,
    amount_of,
    amount_set,
    amounts_nonneg,
    amounts_total,
    keys_unique,
    lemma_amount_le_total,
    lemma_amount_nonneg,
    lemma_two_amounts_le_total,
    pairs_unique,
    AllowanceData,
    AmountEntry,
    PairEntry,
};
use crate::token::TokenLedger;

/// The virtual share offset of the conversion formula, kept as a named
/// constant for extensibility.
pub const DECIMALS_OFFSET: u32 = 0;

/// What `convert_to_shares_simulate` returns: the conversion formula
/// over a hypothetical pool, zero outside its supported range.
pub open spec fn to_shares_simulate_spec(
    assets: int,
    total_assets: int,
    total_shares: int,
    rounding: Rounding,
) -> int {
    if assets <= 0 || total_assets <= assets || total_shares <= 0 {
        0
    } else {
        mul_div_spec(
            assets,
            total_shares + pow_int(10, DECIMALS_OFFSET as nat),
            total_assets + 1,
            rounding,
        )
    }
}

/// What `convert_to_assets_simulate` returns: the inverse conversion
/// formula over a hypothetical pool, zero outside its supported range.
pub open spec fn to_assets_simulate_spec(
    shares: int,
    total_shares: int,
    total_assets: int,
    rounding: Rounding,
) -> int {
    if shares <= 0 || total_shares <= shares || total_assets <= 0 {
        0
    } else {
        mul_div_spec(
            shares,
            total_assets + 1,
            total_shares + pow_int(10, DECIMALS_OFFSET as nat),
            rounding,
        )
    }
}

/// One tokenized vault: cached asset identity, share accounting,
/// share allowances, pause flags and the lock window.
#[derive(Debug)]
pub struct Vault {
    /// The vault's own account on the token ledger, where the pooled
    /// asset units are custodied.
    pub address: u64,
    /// Whether `initialize` has run; the de-facto initialization marker
    /// guarding every other operation.
    pub initialized: bool,
    pub administrator: u64,
    pub asset_address: u64,
    pub asset_name: String,
    pub asset_symbol: String,
    pub asset_decimals: u32,
    pub total_shares: i128,
    pub shares: Vec<AmountEntry>,
    pub allowances: Vec<PairEntry>,
    pub paused: bool,
    pub deposit_paused: bool,
    pub withdraw_paused: bool,
    pub lock_timestamp: u64,
    pub unlock_timestamp: u64,
}

impl Vault {
    /// Well-formedness: the share table has distinct holders and
    /// non-negative balances, the recorded total equals the sum of all
    /// holdings, allowance pairs are distinct, the lock window is
    /// ordered, and an uninitialized vault is empty.
    pub open spec fn wf(self) -> bool {
        &&& keys_unique(self.shares@)
        &&& amounts_nonneg(self.shares@)
        &&& self.total_shares == amounts_total(self.shares@)
        &&& self.total_shares >= 0
        &&& pairs_unique(self.allowances@)
        &&& self.initialized ==> self.lock_timestamp <= self.unlock_timestamp
        &&& !self.initialized ==> self.shares@.len() == 0 && self.allowances@.len() == 0
            && self.total_shares == 0 && !self.paused && !self.deposit_paused
            && !self.withdraw_paused
    }

    /// The share balance of `holder`, absent entries reading as zero.
    pub open spec fn shares_of_spec(self, holder: u64) -> int {
        amount_of(self.shares@, holder)
    }

    /// The scaling factor between vault asset amounts and token ledger
    /// units: ten to the cached asset decimals.
    pub open spec fn units_factor(self) -> int {
        pow_int(10, self.asset_decimals as nat)
    }

    /// True when the scaling factor fits the balance type, so that unit
    /// conversions cannot overflow.
    pub open spec fn decimals_fit(self) -> bool {
        self.units_factor() <= i128::MAX
    }

    /// The pooled asset amount backing the shares: the vault account's
    /// token balance scaled down by the decimals factor.
    pub open spec fn total_assets_spec(self, token: TokenLedger) -> int {
        div_trunc(token.balance_spec(self.address), self.units_factor())
    }

    /// The share amount that `assets` converts to under the given
    /// rounding: `assets * (totalShares + 10^offset) / (totalAssets + 1)`.
    pub open spec fn to_shares_spec(self, token: TokenLedger, assets: int, rounding: Rounding) -> int {
        mul_div_spec(
            assets,
            self.total_shares + pow_int(10, DECIMALS_OFFSET as nat),
            self.total_assets_spec(token) + 1,
            rounding,
        )
    }

    /// The asset amount that `shares` converts to under the given
    /// rounding: `shares * (totalAssets + 1) / (totalShares + 10^offset)`.
    pub open spec fn to_assets_spec(self, token: TokenLedger, shares: int, rounding: Rounding) -> int {
        mul_div_spec(
            shares,
            self.total_assets_spec(token) + 1,
            self.total_shares + pow_int(10, DECIMALS_OFFSET as nat),
            rounding,
        )
    }

    /// Arithmetic-fit condition for converting `assets` to shares.
    pub open spec fn to_shares_fits(self, token: TokenLedger, assets: int) -> bool {
        &&& self.decimals_fit()
        &&& self.total_shares + pow_int(10, DECIMALS_OFFSET as nat) <= i128::MAX
        &&& self.total_assets_spec(token) + 1 <= i128::MAX
        &&& assets > 0 ==> in_i128(
            assets * (self.total_shares + pow_int(10, DECIMALS_OFFSET as nat)),
        )
    }

    /// Arithmetic-fit condition for converting `shares` to assets.
    pub open spec fn to_assets_fits(self, token: TokenLedger, shares: int) -> bool {
        &&& self.decimals_fit()
        &&& self.total_shares + pow_int(10, DECIMALS_OFFSET as nat) <= i128::MAX
        &&& self.total_assets_spec(token) + 1 <= i128::MAX
        &&& shares > 0 ==> in_i128(shares * (self.total_assets_spec(token) + 1))
    }

    /// True while the current time lies inside the lock window, during
    /// which deposits and withdrawals are rejected.
    pub open spec fn locked_at(self, now: u64) -> bool {
        self.lock_timestamp <= now <= self.unlock_timestamp
    }

    /// The identity captured at initialization, unchanged by every later
    /// operation.
    pub open spec fn same_identity(pre: Vault, post: Vault) -> bool {
        &&& post.address == pre.address
        &&& post.initialized == pre.initialized
        &&& post.administrator == pre.administrator
        &&& post.asset_address == pre.asset_address
        &&& post.asset_name == pre.asset_name
        &&& post.asset_symbol == pre.asset_symbol
        &&& post.asset_decimals == pre.asset_decimals
        &&& post.lock_timestamp == pre.lock_timestamp
        &&& post.unlock_timestamp == pre.unlock_timestamp
    }

    /// The three pause flags, together.
    pub open spec fn same_pause_flags(pre: Vault, post: Vault) -> bool {
        &&& post.paused == pre.paused
        &&& post.deposit_paused == pre.deposit_paused
        &&& post.withdraw_paused == pre.withdraw_paused
    }

    /// The share accounting: total supply and every holding.
    pub open spec fn same_holdings(pre: Vault, post: Vault) -> bool {
        &&& post.total_shares == pre.total_shares
        &&& post.shares == pre.shares
    }

    /// A fresh, uninitialized vault custodying at `address`.
    pub fn new(address: u64) -> (r: Vault)
        ensures
            r.wf(),
            !r.initialized,
            r.address == address,
    {
        Vault {
            address,
            initialized: false,
            administrator: 0,
            asset_address: 0,
            asset_name: String::new(),
            asset_symbol: String::new(),
            asset_decimals: 0,
            total_shares: 0,
            shares: Vec::new(),
            allowances: Vec::new(),
            paused: false,
            deposit_paused: false,
            withdraw_paused: false,
            lock_timestamp: 0,
            unlock_timestamp: 0,
        }
    }

    /// Captures the administrator, the asset's identity and metadata and
    /// the lock window; fails with `AlreadyInitialized` on any second
    /// call, leaving all state from the first call unchanged, and with
    /// `InvalidLockTimes` on a misordered lock window.
    pub fn initialize(
        &mut self,
        token: &TokenLedger,
        admin: u64,
        asset_address: u64,
        lock_timestamp: u64,
        unlock_timestamp: u64,
    ) -> (r: Result<(String, String, u32), ContractError>)
        requires
            old(self).wf(),
        ensures
            final(self).wf(),
            old(self).initialized ==> r == Result::<(String, String, u32), ContractError>::Err(
                ContractError::AlreadyInitialized,
            ) && *final(self) == *old(self),
            !old(self).initialized && lock_timestamp > unlock_timestamp ==> r == Result::<
                (String, String, u32),
                ContractError,
            >::Err(ContractError::InvalidLockTimes) && *final(self) == *old(self),
            !old(self).initialized && lock_timestamp <= unlock_timestamp ==> {
                &&& r == Result::<(String, String, u32), ContractError>::Ok(
                    (token.name, token.symbol, token.decimals),
                )
                &&& final(self).initialized
                &&& final(self).administrator == admin
                &&& final(self).asset_address == asset_address
                &&& final(self).asset_name == token.name
                &&& final(self).asset_symbol == token.symbol
                &&& final(self).asset_decimals == token.decimals
                &&& final(self).total_shares == 0
                &&& final(self).lock_timestamp == lock_timestamp
                &&& final(self).unlock_timestamp == unlock_timestamp
                &&& final(self).address == old(self).address
                &&& !final(self).paused
                &&& !final(self).deposit_paused
                &&& !final(self).withdraw_paused
                &&& final(self).shares == old(self).shares
                &&& final(self).allowances == old(self).allowances
            },
    {
        if self.initialized {
            Result::Err(ContractError::AlreadyInitialized)
        } else if lock_timestamp > unlock_timestamp {
            Result::Err(ContractError::InvalidLockTimes)
        } else {
            let name = token.name.clone();
            let symbol = token.symbol.clone();
            let decimals = token.decimals;
            self.asset_address = asset_address;
            self.asset_name = name.clone();
            self.asset_symbol = symbol.clone();
            self.asset_decimals = decimals;
            self.total_shares = 0;
            self.administrator = admin;
            self.lock_timestamp = lock_timestamp;
            self.unlock_timestamp = unlock_timestamp;
            self.initialized = true;
            Result::Ok((name, symbol, decimals))
        }
    }

    /// The administrator captured at initialization.
    pub fn administrator_address(&self) -> (r: Result<u64, ContractError>)
        ensures
            r == if self.initialized {
                Result::<u64, ContractError>::Ok(self.administrator)
            } else {
                Result::<u64, ContractError>::Err(ContractError::NotInitialized)
            },
    {
        if self.initialized {
            Result::Ok(self.administrator)
        } else {
            Result::Err(ContractError::NotInitialized)
        }
    }

    /// The cached asset decimals plus the vault's virtual offset.
    pub fn asset_decimals(&self) -> (r: Result<u32, ContractError>)
        requires
            self.asset_decimals + DECIMALS_OFFSET <= u32::MAX,
        ensures
            r == if self.initialized {
                Result::<u32, ContractError>::Ok((self.asset_decimals + DECIMALS_OFFSET) as u32)
            } else {
                Result::<u32, ContractError>::Err(ContractError::NotInitialized)
            },
    {
        if self.initialized {
            Result::Ok(safe_add_u32(self.asset_decimals, DECIMALS_OFFSET))
        } else {
            Result::Err(ContractError::NotInitialized)
        }
    }

    /// The cached asset symbol.
    pub fn asset_symbol(&self) -> (r: Result<String, ContractError>)
        ensures
            r == if self.initialized {
                Result::<String, ContractError>::Ok(self.asset_symbol)
            } else {
                Result::<String, ContractError>::Err(ContractError::NotInitialized)
            },
    {
        if self.initialized {
            Result::Ok(self.asset_symbol.clone())
        } else {
            Result::Err(ContractError::NotInitialized)
        }
    }

    /// The cached asset name.
    pub fn asset_name(&self) -> (r: Result<String, ContractError>)
        ensures
            r == if self.initialized {
                Result::<String, ContractError>::Ok(self.asset_name)
            } else {
                Result::<String, ContractError>::Err(ContractError::NotInitialized)
            },
    {
        if self.initialized {
            Result::Ok(self.asset_name.clone())
        } else {
            Result::Err(ContractError::NotInitialized)
        }
    }

    /// The underlying asset's account identity.
    pub fn asset_address(&self) -> (r: Result<u64, ContractError>)
        ensures
            r == if self.initialized {
                Result::<u64, ContractError>::Ok(self.asset_address)
            } else {
                Result::<u64, ContractError>::Err(ContractError::NotInitialized)
            },
    {
        if self.initialized {
            Result::Ok(self.asset_address)
        } else {
            Result::Err(ContractError::NotInitialized)
        }
    }

    /// The vault's own account identity.
    pub fn contract_address(&self) -> (r: u64)
        ensures
            r == self.address,
    {
        self.address
    }

    /// The pooled asset amount backing the shares.
    pub fn total_assets(&self, token: &TokenLedger) -> (r: Result<i128, ContractError>)
        requires
            self.wf(),
            token.wf(),
            self.initialized ==> self.decimals_fit(),
        ensures
            r == if self.initialized {
                Result::<i128, ContractError>::Ok(self.total_assets_spec(*token) as i128)
            } else {
                Result::<i128, ContractError>::Err(ContractError::NotInitialized)
            },
    {
        if self.initialized {
            let balance = token.balance(self.address);
            proof {
                lemma_pow_lower(10, self.asset_decimals as nat);
                lemma_amount_nonneg(token.balances@, self.address);
                lemma_div_trunc_bounds(balance as int, self.units_factor());
            }
            let factor = safe_pow(10, self.asset_decimals);
            Result::Ok(safe_div(balance, factor))
        } else {
            Result::Err(ContractError::NotInitialized)
        }
    }

    /// The total share supply.
    pub fn total_shares(&self) -> (r: Result<i128, ContractError>)
        ensures
            r == if self.initialized {
                Result::<i128, ContractError>::Ok(self.total_shares)
            } else {
                Result::<i128, ContractError>::Err(ContractError::NotInitialized)
            },
    {
        if self.initialized {
            Result::Ok(self.total_shares)
        } else {
            Result::Err(ContractError::NotInitialized)
        }
    }

    /// The share balance of `address`.
    pub fn balance_of_shares(&self, address: u64) -> (r: Result<i128, ContractError>)
        requires
            self.wf(),
        ensures
            r == if self.initialized {
                Result::<i128, ContractError>::Ok(self.shares_of_spec(address) as i128)
            } else {
                Result::<i128, ContractError>::Err(ContractError::NotInitialized)
            },
    {
        if self.initialized {
            proof {
                lemma_amount_nonneg(self.shares@, address);
                lemma_amount_le_total(self.shares@, address);
            }
            Result::Ok(amount_get(&self.shares, address))
        } else {
            Result::Err(ContractError::NotInitialized)
        }
    }

    /// Converts `assets` to shares, rounding down; zero for non-positive
    /// input, also on an uninitialized vault.
    pub fn convert_to_shares(&self, token: &TokenLedger, assets: i128) -> (r: Result<
        i128,
        ContractError,
    >)
        requires
            self.wf(),
            token.wf(),
            assets > 0 && self.initialized ==> self.to_shares_fits(*token, assets as int),
        ensures
            assets <= 0 ==> r == Result::<i128, ContractError>::Ok(0),
            assets > 0 && !self.initialized ==> r == Result::<i128, ContractError>::Err(
                ContractError::NotInitialized,
            ),
            assets > 0 && self.initialized ==> r == Result::<i128, ContractError>::Ok(
                self.to_shares_spec(*token, assets as int, Rounding::Floor) as i128,
            ),
    {
        self.convert_to_shares_rounded(token, assets, Rounding::Floor)
    }

    /// Converts `shares` to assets, rounding down; zero for non-positive
    /// input, also on an uninitialized vault.
    pub fn convert_to_assets(&self, token: &TokenLedger, shares: i128) -> (r: Result<
        i128,
        ContractError,
    >)
        requires
            self.wf(),
            token.wf(),
            shares > 0 && self.initialized ==> self.to_assets_fits(*token, shares as int),
        ensures
            shares <= 0 ==> r == Result::<i128, ContractError>::Ok(0),
            shares > 0 && !self.initialized ==> r == Result::<i128, ContractError>::Err(
                ContractError::NotInitialized,
            ),
            shares > 0 && self.initialized ==> r == Result::<i128, ContractError>::Ok(
                self.to_assets_spec(*token, shares as int, Rounding::Floor) as i128,
            ),
    {
        self.convert_to_assets_rounded(token, shares, Rounding::Floor)
    }

    /// Converts `assets` to shares under the given rounding, mirroring
    /// the caller-facing conversion surface.
    fn convert_to_shares_rounded(&self, token: &TokenLedger, assets: i128, rounding: Rounding) -> (r:
        Result<i128, ContractError>)
        requires
            self.wf(),
            token.wf(),
            assets > 0 && self.initialized ==> self.to_shares_fits(*token, assets as int),
        ensures
            assets <= 0 ==> r == Result::<i128, ContractError>::Ok(0),
            assets > 0 && !self.initialized ==> r == Result::<i128, ContractError>::Err(
                ContractError::NotInitialized,
            ),
            assets > 0 && self.initialized ==> r == Result::<i128, ContractError>::Ok(
                self.to_shares_spec(*token, assets as int, rounding) as i128,
            ),
    {
        if assets <= 0 {
            Result::Ok(0)
        } else {
            let tot_shares = match self.total_shares() {
                Result::Ok(v) => v,
                Result::Err(e) => {
                    return Result::Err(e);
                },
            };
            let tot_assets = match self.total_assets(token) {
                Result::Ok(v) => v,
                Result::Err(e) => {
                    return Result::Err(e);
                },
            };
            proof {
                lemma_pow_lower(10, self.asset_decimals as nat);
                lemma_pow_lower(10, DECIMALS_OFFSET as nat);
                lemma_amount_nonneg(token.balances@, self.address);
                lemma_div_trunc_bounds(token.balance_spec(self.address), self.units_factor());
            }
            let num = safe_add_i128(tot_shares, safe_pow(10, DECIMALS_OFFSET));
            let den = safe_add_i128(tot_assets, 1);
            Result::Ok(mul_div(assets, num, den, rounding))
        }
    }

    /// Converts `shares` to assets under the given rounding, mirroring
    /// the caller-facing conversion surface.
    fn convert_to_assets_rounded(&self, token: &TokenLedger, shares: i128, rounding: Rounding) -> (r:
        Result<i128, ContractError>)
        requires
            self.wf(),
            token.wf(),
            shares > 0 && self.initialized ==> self.to_assets_fits(*token, shares as int),
        ensures
            shares <= 0 ==> r == Result::<i128, ContractError>::Ok(0),
            shares > 0 && !self.initialized ==> r == Result::<i128, ContractError>::Err(
                ContractError::NotInitialized,
            ),
            shares > 0 && self.initialized ==> r == Result::<i128, ContractError>::Ok(
                self.to_assets_spec(*token, shares as int, rounding) as i128,
            ),
    {
        if shares <= 0 {
            Result::Ok(0)
        } else {
            let tot_shares = match self.total_shares() {
                Result::Ok(v) => v,
                Result::Err(e) => {
                    return Result::Err(e);
                },
            };
            let tot_assets = match self.total_assets(token) {
                Result::Ok(v) => v,
                Result::Err(e) => {
                    return Result::Err(e);
                },
            };
            proof {
                lemma_pow_lower(10, self.asset_decimals as nat);
                lemma_pow_lower(10, DECIMALS_OFFSET as nat);
                lemma_amount_nonneg(token.balances@, self.address);
                lemma_div_trunc_bounds(token.balance_spec(self.address), self.units_factor());
            }
            let num = safe_add_i128(tot_assets, 1);
            let den = safe_add_i128(tot_shares, safe_pow(10, DECIMALS_OFFSET));
            Result::Ok(mul_div(shares, num, den, rounding))
        }
    }

    /// Converts `assets` to shares against a hypothetical pool, used for
    /// potential-return projections; zero outside `0 < assets <
    /// total_assets` with a positive share supply.
    pub fn convert_to_shares_simulate(
        &self,
        assets: i128,
        total_assets: i128,
        total_shares: i128,
    ) -> (r: Result<i128, ContractError>)
        requires
            assets > 0 && total_assets > assets && total_shares > 0 ==> {
                &&& total_shares + pow_int(10, DECIMALS_OFFSET as nat) <= i128::MAX
                &&& total_assets < i128::MAX
                &&& in_i128(assets * (total_shares + pow_int(10, DECIMALS_OFFSET as nat)))
            },
        ensures
            r == Result::<i128, ContractError>::Ok(
                to_shares_simulate_spec(
                    assets as int,
                    total_assets as int,
                    total_shares as int,
                    Rounding::Floor,
                ) as i128,
            ),
    {
        if assets <= 0 || total_assets <= assets || total_shares <= 0 {
            Result::Ok(0)
        } else {
            proof {
                lemma_pow_lower(10, DECIMALS_OFFSET as nat);
            }
            let num = safe_add_i128(total_shares, safe_pow(10, DECIMALS_OFFSET));
            let den = safe_add_i128(total_assets, 1);
            Result::Ok(mul_div(assets, num, den, Rounding::Floor))
        }
    }

    /// Converts `shares` to assets against a hypothetical pool, used for
    /// potential-return projections; zero outside `0 < shares <
    /// total_shares` with a positive asset total.
    pub fn convert_to_assets_simulate(
        &self,
        shares: i128,
        total_shares: i128,
        total_assets: i128,
    ) -> (r: Result<i128, ContractError>)
        requires
            shares > 0 && total_shares > shares && total_assets > 0 ==> {
                &&& total_shares + pow_int(10, DECIMALS_OFFSET as nat) <= i128::MAX
                &&& total_assets < i128::MAX
                &&& in_i128(shares * (total_assets + 1))
            },
        ensures
            r == Result::<i128, ContractError>::Ok(
                to_assets_simulate_spec(
                    shares as int,
                    total_shares as int,
                    total_assets as int,
                    Rounding::Floor,
                ) as i128,
            ),
    {
        if shares <= 0 || total_shares <= shares || total_assets <= 0 {
            Result::Ok(0)
        } else {
            proof {
                lemma_pow_lower(10, DECIMALS_OFFSET as nat);
            }
            let num = safe_add_i128(total_assets, 1);
            let den = safe_add_i128(total_shares, safe_pow(10, DECIMALS_OFFSET));
            Result::Ok(mul_div(shares, num, den, Rounding::Floor))
        }
    }

    /// The largest deposit any receiver may make: unbounded by design.
    pub fn max_deposit(&self, _address: u64) -> (r: i128)
        ensures
            r == i128::MAX,
    {
        i128::MAX
    }

    /// The largest mint any receiver may make: unbounded by design.
    pub fn max_mint(&self, _address: u64) -> (r: i128)
        ensures
            r == i128::MAX,
    {
        i128::MAX
    }

    /// The largest asset amount `owner` can withdraw: the floor-rounded
    /// value of the owner's shares.
    pub fn max_withdraw(&self, token: &TokenLedger, owner: u64) -> (r: i128)
        requires
            self.wf(),
            token.wf(),
            self.initialized,
            self.to_assets_fits(*token, self.shares_of_spec(owner)),
        ensures
            r == self.to_assets_spec(*token, self.shares_of_spec(owner), Rounding::Floor) as i128,
    {
        proof {
            lemma_amount_nonneg(self.shares@, owner);
            lemma_amount_le_total(self.shares@, owner);
        }
        let owner_shares = match self.balance_of_shares(owner) {
            Result::Ok(v) => v,
            Result::Err(_) => {
                proof {
                    assert(false);
                }
                0
            },
        };
        match self.convert_to_assets_rounded(token, owner_shares, Rounding::Floor) {
            Result::Ok(v) => v,
            Result::Err(_) => {
                proof {
                    assert(false);
                }
                0
            },
        }
    }

    /// The largest share amount `owner` can redeem: the owner's balance.
    pub fn max_redeem(&self, owner: u64) -> (r: i128)
        requires
            self.wf(),
            self.initialized,
        ensures
            r == self.shares_of_spec(owner) as i128,
    {
        match self.balance_of_shares(owner) {
            Result::Ok(v) => v,
            Result::Err(_) => {
                proof {
                    assert(false);
                }
                0
            },
        }
    }

    /// Quotes the shares a deposit of `assets` would mint, rounding down.
    pub fn preview_deposit(&self, token: &TokenLedger, assets: i128) -> (r: Result<
        i128,
        ContractError,
    >)
        requires
            self.wf(),
            token.wf(),
            assets > 0 && self.initialized ==> self.to_shares_fits(*token, assets as int),
        ensures
            r == self.preview_deposit_spec(*token, assets as int),
    {
        if self.initialized {
            self.convert_to_shares_rounded(token, assets, Rounding::Floor)
        } else {
            Result::Err(ContractError::NotInitialized)
        }
    }

    /// Quotes the assets a mint of `shares` would cost, rounding up
    /// against the minter.
    pub fn preview_mint(&self, token: &TokenLedger, shares: i128) -> (r: Result<
        i128,
        ContractError,
    >)
        requires
            self.wf(),
            token.wf(),
            shares > 0 && self.initialized ==> self.to_assets_fits(*token, shares as int),
        ensures
            r == self.preview_mint_spec(*token, shares as int),
    {
        if self.initialized {
            self.convert_to_assets_rounded(token, shares, Rounding::Ceil)
        } else {
            Result::Err(ContractError::NotInitialized)
        }
    }

    /// Quotes the shares a withdrawal of `assets` would burn, rounding up
    /// against the withdrawer.
    pub fn preview_withdraw(&self, token: &TokenLedger, assets: i128) -> (r: Result<
        i128,
        ContractError,
    >)
        requires
            self.wf(),
            token.wf(),
            assets > 0 && self.initialized ==> self.to_shares_fits(*token, assets as int),
        ensures
            r == self.preview_withdraw_spec(*token, assets as int),
    {
        if self.initialized {
            self.convert_to_shares_rounded(token, assets, Rounding::Ceil)
        } else {
            Result::Err(ContractError::NotInitialized)
        }
    }

    /// Quotes the assets a redemption of `shares` would return, rounding
    /// down.
    pub fn preview_redeem(&self, token: &TokenLedger, shares: i128) -> (r: Result<
        i128,
        ContractError,
    >)
        requires
            self.wf(),
            token.wf(),
            shares > 0 && self.initialized ==> self.to_assets_fits(*token, shares as int),
        ensures
            r == self.preview_redeem_spec(*token, shares as int),
    {
        if self.initialized {
            self.convert_to_assets_rounded(token, shares, Rounding::Floor)
        } else {
            Result::Err(ContractError::NotInitialized)
        }
    }

    /// What `preview_deposit` returns.
    pub open spec fn preview_deposit_spec(self, token: TokenLedger, assets: int) -> Result<
        i128,
        ContractError,
    > {
        if !self.initialized {
            Result::Err(ContractError::NotInitialized)
        } else if assets <= 0 {
            Result::Ok(0)
        } else {
            Result::Ok(self.to_shares_spec(token, assets, Rounding::Floor) as i128)
        }
    }

    /// What `preview_mint` returns.
    pub open spec fn preview_mint_spec(self, token: TokenLedger, shares: int) -> Result<
        i128,
        ContractError,
    > {
        if !self.initialized {
            Result::Err(ContractError::NotInitialized)
        } else if shares <= 0 {
            Result::Ok(0)
        } else {
            Result::Ok(self.to_assets_spec(token, shares, Rounding::Ceil) as i128)
        }
    }

    /// What `preview_withdraw` returns.
    pub open spec fn preview_withdraw_spec(self, token: TokenLedger, assets: int) -> Result<
        i128,
        ContractError,
    > {
        if !self.initialized {
            Result::Err(ContractError::NotInitialized)
        } else if assets <= 0 {
            Result::Ok(0)
        } else {
            Result::Ok(self.to_shares_spec(token, assets, Rounding::Ceil) as i128)
        }
    }

    /// What `preview_redeem` returns.
    pub open spec fn preview_redeem_spec(self, token: TokenLedger, shares: int) -> Result<
        i128,
        ContractError,
    > {
        if !self.initialized {
            Result::Err(ContractError::NotInitialized)
        } else if shares <= 0 {
            Result::Ok(0)
        } else {
            Result::Ok(self.to_assets_spec(token, shares, Rounding::Floor) as i128)
        }
    }

    /// How the low-level deposit path resolves once the amounts are
    /// validated: the pause, lock-window and payer-balance guards, in
    /// order.
    pub open spec fn deposit_gate(self, token: TokenLedger, now: u64, caller: u64, assets: int) -> Result<
        (),
        VaultError,
    > {
        if self.paused {
            Result::Err(VaultError::VaultPaused)
        } else if self.deposit_paused {
            Result::Err(VaultError::DepositPaused)
        } else if self.locked_at(now) {
            Result::Err(VaultError::VaultLocked)
        } else if token.balance_spec(caller) < assets * self.units_factor() {
            Result::Err(VaultError::InsufficientBalance)
        } else {
            Result::Ok(())
        }
    }

    /// The share accounting changes of minting `shares` to `receiver`,
    /// with everything else untouched.
    pub open spec fn minted(pre: Vault, post: Vault, receiver: u64, shares: int) -> bool {
        &&& Vault::same_identity(pre, post)
        &&& Vault::same_pause_flags(pre, post)
        &&& post.allowances == pre.allowances
        &&& post.total_shares == pre.total_shares + shares
        &&& post.shares_of_spec(receiver) == pre.shares_of_spec(receiver) + shares
        &&& forall|h: u64| h != receiver ==> post.shares_of_spec(h) == pre.shares_of_spec(h)
    }

    /// The token ledger changes of paying `units` from `payer` into the
    /// vault's account, with everything else untouched.
    pub open spec fn paid_in(self, pre: TokenLedger, post: TokenLedger, payer: u64, units: int) -> bool {
        &&& payer != self.address ==> post.balance_spec(payer) == pre.balance_spec(payer) - units
        &&& payer != self.address ==> post.balance_spec(self.address) == pre.balance_spec(
            self.address,
        ) + units
        &&& payer == self.address ==> post.balance_spec(payer) == pre.balance_spec(payer)
        &&& forall|a: u64|
            a != payer && a != self.address ==> post.balance_spec(a) == pre.balance_spec(a)
        &&& post.supply() == pre.supply()
        &&& post.allowances == pre.allowances
        &&& post.name == pre.name
        &&& post.symbol == pre.symbol
        &&& post.decimals == pre.decimals
    }

    /// The low-level deposit primitive: transfers the scaled asset units
    /// from the payer to the vault's account, then mints the share
    /// amount to the receiver — transfer before mint, so shares never
    /// exist without backing assets.
    fn execute_deposit(
        &mut self,
        token: &mut TokenLedger,
        now: u64,
        caller: u64,
        receiver: u64,
        assets: i128,
        shares: i128,
    ) -> (r: Result<(), VaultError>)
        requires
            old(self).wf(),
            old(token).wf(),
            old(self).initialized,
            assets > 0,
            shares >= 0,
            old(self).decimals_fit(),
            !old(self).paused && !old(self).deposit_paused && !old(self).locked_at(now)
                ==> in_i128(assets * old(self).units_factor()),
            old(self).deposit_gate(*old(token), now, caller, assets as int) is Ok ==> in_i128(
                old(self).total_shares + shares,
            ),
        ensures
            final(self).wf(),
            final(token).wf(),
            r is Err ==> *final(self) == *old(self) && *final(token) == *old(token),
            r == old(self).deposit_gate(*old(token), now, caller, assets as int),
            r is Ok ==> Vault::minted(*old(self), *final(self), receiver, shares as int),
            r is Ok ==> old(self).paid_in(
                *old(token),
                *final(token),
                caller,
                assets * old(self).units_factor(),
            ),
    {
        if self.paused {
            return Result::Err(VaultError::VaultPaused);
        }
        if self.deposit_paused {
            return Result::Err(VaultError::DepositPaused);
        }
        if self.lock_timestamp <= now && now <= self.unlock_timestamp {
            return Result::Err(VaultError::VaultLocked);
        }
        proof {
            lemma_pow_lower(10, self.asset_decimals as nat);
        }
        let factor = safe_pow(10, self.asset_decimals);
        let units = safe_mul(assets, factor);
        let balance = token.balance(caller);
        if balance < units {
            return Result::Err(VaultError::InsufficientBalance);
        }
        token.transfer(caller, self.address, units);
        proof {
            lemma_amount_le_total(self.shares@, receiver);
            lemma_amount_nonneg(self.shares@, receiver);
        }
        let receiver_shares = amount_get(&self.shares, receiver);
        self.total_shares = safe_add_i128(self.total_shares, shares);
        amount_set(&mut self.shares, receiver, safe_add_i128(receiver_shares, shares));
        Result::Ok(())
    }

    /// Deposits `assets` of the underlying from `caller`, minting the
    /// floor-rounded share amount to `receiver` and returning it.
    pub fn deposit(
        &mut self,
        token: &mut TokenLedger,
        now: u64,
        assets: i128,
        caller: u64,
        receiver: u64,
    ) -> (r: Result<i128, VaultError>)
        requires
            old(self).wf(),
            old(token).wf(),
            old(self).initialized && assets > 0 ==> old(self).to_shares_fits(
                *old(token),
                assets as int,
            ),
            old(self).initialized && assets > 0 && !old(self).paused && !old(self).deposit_paused
                && !old(self).locked_at(now) ==> in_i128(assets * old(self).units_factor()),
            old(self).initialized && assets > 0 && old(self).deposit_gate(
                *old(token),
                now,
                caller,
                assets as int,
            ) is Ok ==> in_i128(
                old(self).total_shares + old(self).to_shares_spec(
                    *old(token),
                    assets as int,
                    Rounding::Floor,
                ),
            ),
        ensures
            final(self).wf(),
            final(token).wf(),
            r is Err ==> *final(self) == *old(self) && *final(token) == *old(token),
            !old(self).initialized ==> r == Result::<i128, VaultError>::Err(
                VaultError::AdministratorError,
            ),
            old(self).initialized && assets <= 0 ==> r == Result::<i128, VaultError>::Err(
                VaultError::ZeroAssets,
            ),
            old(self).initialized && assets > 0 ==> r == match old(self).deposit_gate(
                *old(token),
                now,
                caller,
                assets as int,
            ) {
                Result::Ok(_) => Result::<i128, VaultError>::Ok(
                    old(self).to_shares_spec(*old(token), assets as int, Rounding::Floor) as i128,
                ),
                Result::Err(e) => Result::<i128, VaultError>::Err(e),
            },
            old(self).initialized && assets > 0 && old(self).deposit_gate(
                *old(token),
                now,
                caller,
                assets as int,
            ) is Ok ==> Vault::minted(
                *old(self),
                *final(self),
                receiver,
                old(self).to_shares_spec(*old(token), assets as int, Rounding::Floor),
            ) && old(self).paid_in(
                *old(token),
                *final(token),
                caller,
                assets * old(self).units_factor(),
            ),
    {
        if !self.initialized {
            return Result::Err(VaultError::AdministratorError);
        }
        if assets <= 0 {
            return Result::Err(VaultError::ZeroAssets);
        }
        let max_assets = self.max_deposit(receiver);
        if assets > max_assets {
            return Result::Err(VaultError::ERC4626ExceededMaxDeposit);
        }
        let shares = match self.preview_deposit(token, assets) {
            Result::Ok(v) => v,
            Result::Err(_) => {
                proof {
                    assert(false);
                }
                return Result::Err(VaultError::AdministratorError);
            },
        };
        proof {
            let a = assets as int;
            let ts1 = self.total_shares + pow_int(10, DECIMALS_OFFSET as nat);
            let ta = self.total_assets_spec(*token);
            lemma_pow_lower(10, DECIMALS_OFFSET as nat);
            lemma_pow_lower(10, self.asset_decimals as nat);
            lemma_amount_nonneg(token.balances@, self.address);
            lemma_div_trunc_bounds(token.balance_spec(self.address), self.units_factor());
            lemma_mul_div_spec_in_range(a, ts1, ta + 1, Rounding::Floor);
        }
        match self.execute_deposit(token, now, caller, receiver, assets, shares) {
            Result::Ok(_) => Result::Ok(shares),
            Result::Err(e) => Result::Err(e),
        }
    }

    /// Mints exactly `shares` to `receiver`, drawing the ceil-rounded
    /// asset amount from `caller` and returning it.
    pub fn mint(
        &mut self,
        token: &mut TokenLedger,
        now: u64,
        shares: i128,
        caller: u64,
        receiver: u64,
    ) -> (r: Result<i128, VaultError>)
        requires
            old(self).wf(),
            old(token).wf(),
            old(self).initialized && shares > 0 ==> old(self).to_assets_fits(
                *old(token),
                shares as int,
            ),
            old(self).initialized && shares > 0 && !old(self).paused && !old(self).deposit_paused
                && !old(self).locked_at(now) ==> in_i128(
                old(self).to_assets_spec(*old(token), shares as int, Rounding::Ceil) * old(
                    self,
                ).units_factor(),
            ),
            old(self).initialized && shares > 0 && old(self).deposit_gate(
                *old(token),
                now,
                caller,
                old(self).to_assets_spec(*old(token), shares as int, Rounding::Ceil),
            ) is Ok ==> in_i128(old(self).total_shares + shares),
        ensures
            final(self).wf(),
            final(token).wf(),
            r is Err ==> *final(self) == *old(self) && *final(token) == *old(token),
            !old(self).initialized ==> r == Result::<i128, VaultError>::Err(
                VaultError::AdministratorError,
            ),
            old(self).initialized && shares <= 0 ==> r == Result::<i128, VaultError>::Err(
                VaultError::ZeroShares,
            ),
            old(self).initialized && shares > 0 ==> {
                let assets = old(self).to_assets_spec(*old(token), shares as int, Rounding::Ceil);
                r == match old(self).deposit_gate(*old(token), now, caller, assets) {
                    Result::Ok(_) => Result::<i128, VaultError>::Ok(assets as i128),
                    Result::Err(e) => Result::<i128, VaultError>::Err(e),
                }
            },
            old(self).initialized && shares > 0 && old(self).deposit_gate(
                *old(token),
                now,
                caller,
                old(self).to_assets_spec(*old(token), shares as int, Rounding::Ceil),
            ) is Ok ==> Vault::minted(*old(self), *final(self), receiver, shares as int) && old(
                self,
            ).paid_in(
                *old(token),
                *final(token),
                caller,
                old(self).to_assets_spec(*old(token), shares as int, Rounding::Ceil) * old(
                    self,
                ).units_factor(),
            ),
    {
        if !self.initialized {
            return Result::Err(VaultError::AdministratorError);
        }
        if shares <= 0 {
            return Result::Err(VaultError::ZeroShares);
        }
        let max_shares = self.max_mint(receiver);
        if shares > max_shares {
            return Result::Err(VaultError::ERC4626ExceededMaxMint);
        }
        let assets = match self.preview_mint(token, shares) {
            Result::Ok(v) => v,
            Result::Err(_) => {
                proof {
                    assert(false);
                }
                return Result::Err(VaultError::AdministratorError);
            },
        };
        proof {
            let s = shares as int;
            let ts1 = self.total_shares + pow_int(10, DECIMALS_OFFSET as nat);
            let ta = self.total_assets_spec(*token);
            lemma_pow_lower(10, DECIMALS_OFFSET as nat);
            lemma_pow_lower(10, self.asset_decimals as nat);
            lemma_amount_nonneg(token.balances@, self.address);
            lemma_div_trunc_bounds(token.balance_spec(self.address), self.units_factor());
            assert(s * (ta + 1) >= 1) by (nonlinear_arith)
                requires
                    s >= 1 && ta + 1 >= 1,
            ;
            lemma_div_ceil_pos(s * (ta + 1), ts1);
            lemma_mul_div_spec_in_range(s, ta + 1, ts1, Rounding::Ceil);
        }
        match self.execute_deposit(token, now, caller, receiver, assets, shares) {
            Result::Ok(_) => Result::Ok(assets),
            Result::Err(e) => Result::Err(e),
        }
    }

    /// How the low-level withdraw path resolves once the amounts are
    /// validated: the pause, lock-window, allowance and vault-balance
    /// guards, in order.
    pub open spec fn withdraw_gate(
        self,
        token: TokenLedger,
        now: u64,
        sequence: u32,
        caller: u64,
        owner: u64,
        assets: int,
        shares: i128,
    ) -> Result<(), VaultError> {
        if self.paused {
            Result::Err(VaultError::VaultPaused)
        } else if self.withdraw_paused {
            Result::Err(VaultError::WithdrawPaused)
        } else if self.locked_at(now) {
            Result::Err(VaultError::VaultLocked)
        } else {
            let spent = if caller != owner {
                spend_check(allowance_of(self.allowances@, owner, caller), sequence, shares)
            } else {
                Result::Ok(())
            };
            match spent {
                Result::Err(e) => Result::Err(e),
                Result::Ok(_) => if token.balance_spec(self.address) < assets
                    * self.units_factor() {
                    Result::Err(VaultError::InsufficientBalance)
                } else {
                    Result::Ok(())
                },
            }
        }
    }

    /// The share accounting and allowance changes of burning `shares`
    /// from `owner` on the authority of `caller`.
    pub open spec fn withdrawn(pre: Vault, post: Vault, caller: u64, owner: u64, shares: i128) -> bool {
        &&& Vault::same_identity(pre, post)
        &&& Vault::same_pause_flags(pre, post)
        &&& post.total_shares == pre.total_shares - shares
        &&& post.shares_of_spec(owner) == pre.shares_of_spec(owner) - shares
        &&& forall|h: u64| h != owner ==> post.shares_of_spec(h) == pre.shares_of_spec(h)
        &&& caller == owner ==> post.allowances == pre.allowances
        &&& caller != owner ==> (allowance_of(pre.allowances@, owner, caller)
            matches Option::Some(d) && allowance_of(post.allowances@, owner, caller) == spend_step(
            d,
            shares,
        ))
        &&& caller != owner ==> forall|o: u64, p: u64|
            !(o == owner && p == caller) ==> allowance_of(post.allowances@, o, p) == allowance_of(
                pre.allowances@,
                o,
                p,
            )
    }

    /// The token ledger changes of paying `units` out of the vault's
    /// account to `receiver`, with everything else untouched.
    pub open spec fn paid_out(self, pre: TokenLedger, post: TokenLedger, receiver: u64, units: int) -> bool {
        &&& receiver != self.address ==> post.balance_spec(self.address) == pre.balance_spec(
            self.address,
        ) - units
        &&& receiver != self.address ==> post.balance_spec(receiver) == pre.balance_spec(receiver)
            + units
        &&& receiver == self.address ==> post.balance_spec(receiver) == pre.balance_spec(receiver)
        &&& forall|a: u64|
            a != receiver && a != self.address ==> post.balance_spec(a) == pre.balance_spec(a)
        &&& post.supply() == pre.supply()
        &&& post.allowances == pre.allowances
        &&& post.name == pre.name
        &&& post.symbol == pre.symbol
        &&& post.decimals == pre.decimals
    }

    /// The low-level withdraw primitive: spends the owner's allowance
    /// when a third party calls, burns the share amount from the owner,
    /// and only then transfers the scaled asset units out — burn before
    /// transfer, so assets never leave while the shares still exist.
    /// A guard failing anywhere leaves no partial state behind.
    fn execute_withdraw(
        &mut self,
        token: &mut TokenLedger,
        now: u64,
        sequence: u32,
        caller: u64,
        receiver: u64,
        owner: u64,
        assets: i128,
        shares: i128,
    ) -> (r: Result<(), VaultError>)
        requires
            old(self).wf(),
            old(token).wf(),
            old(self).initialized,
            assets >= 0,
            0 <= shares <= old(self).shares_of_spec(owner),
            old(self).decimals_fit(),
            !old(self).paused && !old(self).withdraw_paused && !old(self).locked_at(now) && (caller
                == owner || spend_check(
                allowance_of(old(self).allowances@, owner, caller),
                sequence,
                shares,
            ) is Ok) ==> in_i128(assets * old(self).units_factor()),
        ensures
            final(self).wf(),
            final(token).wf(),
            r is Err ==> *final(self) == *old(self) && *final(token) == *old(token),
            r == old(self).withdraw_gate(
                *old(token),
                now,
                sequence,
                caller,
                owner,
                assets as int,
                shares,
            ),
            r is Ok ==> Vault::withdrawn(*old(self), *final(self), caller, owner, shares),
            r is Ok ==> old(self).paid_out(
                *old(token),
                *final(token),
                receiver,
                assets * old(self).units_factor(),
            ),
    {
        if self.paused {
            return Result::Err(VaultError::VaultPaused);
        }
        if self.withdraw_paused {
            return Result::Err(VaultError::WithdrawPaused);
        }
        if self.lock_timestamp <= now && now <= self.unlock_timestamp {
            return Result::Err(VaultError::VaultLocked);
        }
        if caller != owner {
            // Pre-check the allowance, so that a balance failure below
            // leaves no partial state behind.
            match allowance_get(&self.allowances, owner, caller) {
                Option::None => {
                    return Result::Err(VaultError::NoAllowance);
                },
                Option::Some(d) => {
                    if sequence > d.expiry_ledger {
                        return Result::Err(VaultError::AllowanceExpired);
                    }
                    if shares > d.amount {
                        return Result::Err(VaultError::InsufficientAllowance);
                    }
                },
            }
        }
        proof {
            lemma_pow_lower(10, self.asset_decimals as nat);
        }
        let factor = safe_pow(10, self.asset_decimals);
        let units = safe_mul(assets, factor);
        let balance = token.balance(self.address);
        if balance < units {
            return Result::Err(VaultError::InsufficientBalance);
        }
        if caller != owner {
            match spend_allowance(&mut self.allowances, sequence, owner, caller, shares) {
                Result::Ok(_) => {},
                Result::Err(_) => {
                    proof {
                        assert(false);
                    }
                },
            }
        }
        proof {
            lemma_amount_le_total(self.shares@, owner);
            lemma_amount_nonneg(self.shares@, owner);
        }
        let owner_shares = amount_get(&self.shares, owner);
        self.total_shares = safe_sub_i128(self.total_shares, shares);
        amount_set(&mut self.shares, owner, safe_sub_i128(owner_shares, shares));
        token.transfer(self.address, receiver, units);
        Result::Ok(())
    }

    /// Withdraws exactly `assets` of the underlying to `receiver`,
    /// burning the ceil-rounded share amount from `owner` and returning
    /// it; a caller other than the owner spends the owner's share
    /// allowance by that amount first.
    pub fn withdraw(
        &mut self,
        token: &mut TokenLedger,
        now: u64,
        sequence: u32,
        assets: i128,
        caller: u64,
        receiver: u64,
        owner: u64,
    ) -> (r: Result<i128, VaultError>)
        requires
            old(self).wf(),
            old(token).wf(),
            old(self).initialized && assets > 0 ==> old(self).to_assets_fits(
                *old(token),
                old(self).shares_of_spec(owner),
            ),
            old(self).initialized && assets > 0 && assets <= old(self).to_assets_spec(
                *old(token),
                old(self).shares_of_spec(owner),
                Rounding::Floor,
            ) ==> old(self).to_shares_fits(*old(token), assets as int),
            old(self).initialized && assets > 0 && assets <= old(self).to_assets_spec(
                *old(token),
                old(self).shares_of_spec(owner),
                Rounding::Floor,
            ) && !old(self).paused && !old(self).withdraw_paused && !old(self).locked_at(now)
                ==> in_i128(assets * old(self).units_factor()),
        ensures
            final(self).wf(),
            final(token).wf(),
            r is Err ==> *final(self) == *old(self) && *final(token) == *old(token),
            !old(self).initialized ==> r == Result::<i128, VaultError>::Err(
                VaultError::AdministratorError,
            ),
            old(self).initialized && assets <= 0 ==> r == Result::<i128, VaultError>::Err(
                VaultError::ZeroAssets,
            ),
            old(self).initialized && assets > 0 && assets > old(self).to_assets_spec(
                *old(token),
                old(self).shares_of_spec(owner),
                Rounding::Floor,
            ) ==> r == Result::<i128, VaultError>::Err(VaultError::ERC4626ExceededMaxWithdraw),
            old(self).initialized && assets > 0 && assets <= old(self).to_assets_spec(
                *old(token),
                old(self).shares_of_spec(owner),
                Rounding::Floor,
            ) ==> {
                let shares = old(self).to_shares_spec(*old(token), assets as int, Rounding::Ceil)
                    as i128;
                r == match old(self).withdraw_gate(
                    *old(token),
                    now,
                    sequence,
                    caller,
                    owner,
                    assets as int,
                    shares,
                ) {
                    Result::Ok(_) => Result::<i128, VaultError>::Ok(shares),
                    Result::Err(e) => Result::<i128, VaultError>::Err(e),
                }
            },
            old(self).initialized && assets > 0 && assets <= old(self).to_assets_spec(
                *old(token),
                old(self).shares_of_spec(owner),
                Rounding::Floor,
            ) && old(self).withdraw_gate(
                *old(token),
                now,
                sequence,
                caller,
                owner,
                assets as int,
                old(self).to_shares_spec(*old(token), assets as int, Rounding::Ceil) as i128,
            ) is Ok ==> Vault::withdrawn(
                *old(self),
                *final(self),
                caller,
                owner,
                old(self).to_shares_spec(*old(token), assets as int, Rounding::Ceil) as i128,
            ) && old(self).paid_out(
                *old(token),
                *final(token),
                receiver,
                assets * old(self).units_factor(),
            ),
    {
        if !self.initialized {
            return Result::Err(VaultError::AdministratorError);
        }
        if assets <= 0 {
            return Result::Err(VaultError::ZeroAssets);
        }
        let max_assets = self.max_withdraw(token, owner);
        if assets > max_assets {
            return Result::Err(VaultError::ERC4626ExceededMaxWithdraw);
        }
        let shares = match self.preview_withdraw(token, assets) {
            Result::Ok(v) => v,
            Result::Err(_) => {
                proof {
                    assert(false);
                }
                return Result::Err(VaultError::AdministratorError);
            },
        };
        proof {
            let a = assets as int;
            let o = self.shares_of_spec(owner);
            let ts1 = self.total_shares + pow_int(10, DECIMALS_OFFSET as nat);
            let ta = self.total_assets_spec(*token);
            lemma_pow_lower(10, DECIMALS_OFFSET as nat);
            lemma_pow_lower(10, self.asset_decimals as nat);
            lemma_amount_nonneg(self.shares@, owner);
            lemma_amount_nonneg(token.balances@, self.address);
            lemma_div_trunc_bounds(token.balance_spec(self.address), self.units_factor());
            lemma_mul_div_spec_in_range(a, ts1, ta + 1, Rounding::Ceil);
            lemma_mul_div_ceil_inverse_le(a, o, ta + 1, ts1);
        }
        match self.execute_withdraw(token, now, sequence, caller, receiver, owner, assets, shares) {
            Result::Ok(_) => Result::Ok(shares),
            Result::Err(e) => Result::Err(e),
        }
    }

    /// Redeems exactly `shares` from `owner`, paying the floor-rounded
    /// asset amount to `receiver` and returning it; a caller other than
    /// the owner spends the owner's share allowance by `shares` first.
    pub fn redeem(
        &mut self,
        token: &mut TokenLedger,
        now: u64,
        sequence: u32,
        shares: i128,
        caller: u64,
        receiver: u64,
        owner: u64,
    ) -> (r: Result<i128, VaultError>)
        requires
            old(self).wf(),
            old(token).wf(),
            old(self).initialized && shares > 0 && shares <= old(self).shares_of_spec(owner) ==> old(
                self,
            ).to_assets_fits(*old(token), shares as int),
            old(self).initialized && shares > 0 && shares <= old(self).shares_of_spec(owner) && !old(
                self,
            ).paused && !old(self).withdraw_paused && !old(self).locked_at(now) ==> in_i128(
                old(self).to_assets_spec(*old(token), shares as int, Rounding::Floor) * old(
                    self,
                ).units_factor(),
            ),
        ensures
            final(self).wf(),
            final(token).wf(),
            r is Err ==> *final(self) == *old(self) && *final(token) == *old(token),
            !old(self).initialized ==> r == Result::<i128, VaultError>::Err(
                VaultError::AdministratorError,
            ),
            old(self).initialized && shares <= 0 ==> r == Result::<i128, VaultError>::Err(
                VaultError::ZeroShares,
            ),
            old(self).initialized && shares > 0 && shares > old(self).shares_of_spec(owner) ==> r
                == Result::<i128, VaultError>::Err(VaultError::ERC4626ExceededMaxRedeem),
            old(self).initialized && shares > 0 && shares <= old(self).shares_of_spec(owner) ==> {
                let assets = old(self).to_assets_spec(*old(token), shares as int, Rounding::Floor);
                r == match old(self).withdraw_gate(
                    *old(token),
                    now,
                    sequence,
                    caller,
                    owner,
                    assets,
                    shares,
                ) {
                    Result::Ok(_) => Result::<i128, VaultError>::Ok(assets as i128),
                    Result::Err(e) => Result::<i128, VaultError>::Err(e),
                }
            },
            old(self).initialized && shares > 0 && shares <= old(self).shares_of_spec(owner) && old(
                self,
            ).withdraw_gate(
                *old(token),
                now,
                sequence,
                caller,
                owner,
                old(self).to_assets_spec(*old(token), shares as int, Rounding::Floor),
                shares,
            ) is Ok ==> Vault::withdrawn(*old(self), *final(self), caller, owner, shares) && old(
                self,
            ).paid_out(
                *old(token),
                *final(token),
                receiver,
                old(self).to_assets_spec(*old(token), shares as int, Rounding::Floor) * old(
                    self,
                ).units_factor(),
            ),
    {
        if !self.initialized {
            return Result::Err(VaultError::AdministratorError);
        }
        if shares <= 0 {
            return Result::Err(VaultError::ZeroShares);
        }
        let max_shares = self.max_redeem(owner);
        proof {
            lemma_amount_nonneg(self.shares@, owner);
            lemma_amount_le_total(self.shares@, owner);
        }
        if shares > max_shares {
            return Result::Err(VaultError::ERC4626ExceededMaxRedeem);
        }
        let assets = match self.preview_redeem(token, shares) {
            Result::Ok(v) => v,
            Result::Err(_) => {
                proof {
                    assert(false);
                }
                return Result::Err(VaultError::AdministratorError);
            },
        };
        proof {
            let s = shares as int;
            let ts1 = self.total_shares + pow_int(10, DECIMALS_OFFSET as nat);
            let ta = self.total_assets_spec(*token);
            lemma_pow_lower(10, DECIMALS_OFFSET as nat);
            lemma_pow_lower(10, self.asset_decimals as nat);
            lemma_amount_nonneg(token.balances@, self.address);
            lemma_div_trunc_bounds(token.balance_spec(self.address), self.units_factor());
            lemma_mul_div_spec_in_range(s, ta + 1, ts1, Rounding::Floor);
        }
        match self.execute_withdraw(token, now, sequence, caller, receiver, owner, assets, shares) {
            Result::Ok(_) => Result::Ok(assets),
            Result::Err(e) => Result::Err(e),
        }
    }

    /// Moves `shares_amount` of shares from `owner` directly to
    /// `receiver`: a pure balance move, the total supply unchanged.
    pub fn transfer_shares(&mut self, owner: u64, receiver: u64, shares_amount: i128) -> (r: Result<
        bool,
        VaultError,
    >)
        requires
            old(self).wf(),
        ensures
            final(self).wf(),
            r is Err ==> *final(self) == *old(self),
            !old(self).initialized ==> r == Result::<bool, VaultError>::Err(
                VaultError::AdministratorError,
            ),
            old(self).initialized && shares_amount <= 0 ==> r == Result::<bool, VaultError>::Err(
                VaultError::InvalidAmount,
            ),
            old(self).initialized && shares_amount > 0 && old(self).shares_of_spec(owner)
                < shares_amount ==> r == Result::<bool, VaultError>::Err(VaultError::InvalidAmount),
            old(self).initialized && shares_amount > 0 && old(self).shares_of_spec(owner)
                >= shares_amount && owner == receiver ==> r == Result::<bool, VaultError>::Err(
                VaultError::CannotApproveOrTransferToSelf,
            ),
            old(self).initialized && shares_amount > 0 && old(self).shares_of_spec(owner)
                >= shares_amount && owner != receiver ==> {
                &&& r == Result::<bool, VaultError>::Ok(true)
                &&& Vault::same_identity(*old(self), *final(self))
                &&& Vault::same_pause_flags(*old(self), *final(self))
                &&& final(self).allowances == old(self).allowances
                &&& final(self).total_shares == old(self).total_shares
                &&& final(self).shares_of_spec(owner) == old(self).shares_of_spec(owner)
                    - shares_amount
                &&& final(self).shares_of_spec(receiver) == old(self).shares_of_spec(receiver)
                    + shares_amount
                &&& forall|h: u64|
                    h != owner && h != receiver ==> final(self).shares_of_spec(h) == old(
                        self,
                    ).shares_of_spec(h)
            },
    {
        if !self.initialized {
            return Result::Err(VaultError::AdministratorError);
        }
        if shares_amount <= 0 {
            return Result::Err(VaultError::InvalidAmount);
        }
        proof {
            lemma_amount_nonneg(self.shares@, owner);
            lemma_amount_le_total(self.shares@, owner);
        }
        let owner_shares = amount_get(&self.shares, owner);
        if owner_shares < shares_amount {
            return Result::Err(VaultError::InvalidAmount);
        }
        if owner == receiver {
            return Result::Err(VaultError::CannotApproveOrTransferToSelf);
        }
        proof {
            lemma_two_amounts_le_total(self.shares@, owner, receiver);
            lemma_amount_nonneg(self.shares@, receiver);
        }
        let receiver_shares = amount_get(&self.shares, receiver);
        amount_set(&mut self.shares, owner, safe_sub_i128(owner_shares, shares_amount));
        amount_set(&mut self.shares, receiver, safe_add_i128(receiver_shares, shares_amount));
        Result::Ok(true)
    }

    /// Approves `spender` to move up to `approve_amount` of `owner`'s
    /// shares until `expire_in_days` days' worth of ledgers have passed,
    /// overwriting any prior approval for the pair.
    pub fn approve_shares(
        &mut self,
        sequence: u32,
        owner: u64,
        spender: u64,
        approve_amount: i128,
        expire_in_days: u32,
    ) -> (r: Result<bool, VaultError>)
        requires
            old(self).wf(),
            old(self).initialized && approve_amount > 0 && owner != spender && 1 <= expire_in_days
                <= MAXIMUM_DAYS ==> sequence + MAXIMUM_LEDGERS <= u32::MAX,
        ensures
            final(self).wf(),
            r is Err ==> *final(self) == *old(self),
            !old(self).initialized ==> r == Result::<bool, VaultError>::Err(
                VaultError::AdministratorError,
            ),
            old(self).initialized && approve_amount <= 0 ==> r == Result::<bool, VaultError>::Err(
                VaultError::InvalidAmount,
            ),
            old(self).initialized && approve_amount > 0 && owner == spender ==> r == Result::<
                bool,
                VaultError,
            >::Err(VaultError::CannotApproveOrTransferToSelf),
            old(self).initialized && approve_amount > 0 && owner != spender && (expire_in_days == 0
                || expire_in_days > MAXIMUM_DAYS) ==> r == Result::<bool, VaultError>::Err(
                VaultError::InvalidExpiryDays,
            ),
            old(self).initialized && approve_amount > 0 && owner != spender && 1 <= expire_in_days
                <= MAXIMUM_DAYS ==> {
                &&& r == Result::<bool, VaultError>::Ok(true)
                &&& Vault::same_identity(*old(self), *final(self))
                &&& Vault::same_pause_flags(*old(self), *final(self))
                &&& Vault::same_holdings(*old(self), *final(self))
                &&& allowance_of(final(self).allowances@, owner, spender) == Option::Some(
                    AllowanceData {
                        amount: approve_amount,
                        expiry_ledger: (sequence + expire_in_days * DAY_IN_LEDGERS) as u32,
                    },
                )
                &&& forall|o: u64, p: u64|
                    !(o == owner && p == spender) ==> allowance_of(final(self).allowances@, o, p)
                        == allowance_of(old(self).allowances@, o, p)
            },
    {
        if !self.initialized {
            return Result::Err(VaultError::AdministratorError);
        }
        if approve_amount <= 0 {
            return Result::Err(VaultError::InvalidAmount);
        }
        if owner == spender {
            return Result::Err(VaultError::CannotApproveOrTransferToSelf);
        }
        proof {
            assert(1 <= expire_in_days <= MAXIMUM_DAYS ==> DAY_IN_LEDGERS <= expire_in_days
                * DAY_IN_LEDGERS <= MAXIMUM_DAYS * DAY_IN_LEDGERS) by (nonlinear_arith);
        }
        let expiry_ledger = match calculate_expiry_ledger(sequence, expire_in_days) {
            Result::Ok(v) => v,
            Result::Err(e) => {
                return Result::Err(e);
            },
        };
        match approve_allowance(
            &mut self.allowances,
            sequence,
            owner,
            spender,
            approve_amount,
            expiry_ledger,
        ) {
            Result::Ok(_) => Result::Ok(true),
            Result::Err(e) => {
                proof {
                    assert(false);
                }
                Result::Err(e)
            },
        }
    }

    /// Grants `spender` a transfer allowance of `approve_amount` over
    /// the vault's own holdings on the token ledger, counting until
    /// `expiration_ledger`; the settlement path relies on such grants.
    pub fn approve_asset_allowance(
        &self,
        token: &mut TokenLedger,
        spender: u64,
        approve_amount: i128,
        expiration_ledger: u32,
    ) -> (r: Result<(), VaultError>)
        requires
            old(token).wf(),
        ensures
            final(token).wf(),
            r is Err ==> *final(token) == *old(token),
            !self.initialized ==> r == Result::<(), VaultError>::Err(
                VaultError::AdministratorError,
            ),
            self.initialized && approve_amount <= 0 ==> r == Result::<(), VaultError>::Err(
                VaultError::InvalidAmount,
            ),
            self.initialized && approve_amount > 0 ==> {
                &&& r == Result::<(), VaultError>::Ok(())
                &&& forall|q: u32|
                    final(token).allowance_spec(self.address, spender, q) == if expiration_ledger
                        >= q {
                        approve_amount as int
                    } else {
                        0
                    }
                &&& forall|o: u64, p: u64, q: u32|
                    !(o == self.address && p == spender) ==> final(token).allowance_spec(o, p, q)
                        == old(token).allowance_spec(o, p, q)
                &&& final(token).balances == old(token).balances
                &&& final(token).name == old(token).name
                &&& final(token).symbol == old(token).symbol
                &&& final(token).decimals == old(token).decimals
            },
    {
        if !self.initialized {
            return Result::Err(VaultError::AdministratorError);
        }
        if approve_amount <= 0 {
            return Result::Err(VaultError::InvalidAmount);
        }
        token.approve(self.address, spender, approve_amount, expiration_ledger);
        Result::Ok(())
    }

    /// Whether the vault is globally paused.
    pub fn is_paused(&self) -> (r: bool)
        ensures
            r == self.paused,
    {
        self.paused
    }

    /// Sets the global pause flag; fails when already paused.
    pub fn pause(&mut self) -> (r: Result<bool, ContractError>)
        ensures
            r is Err ==> *final(self) == *old(self),
            !old(self).initialized ==> r == Result::<bool, ContractError>::Err(
                ContractError::NotInitialized,
            ),
            old(self).initialized && old(self).paused ==> r == Result::<bool, ContractError>::Err(
                ContractError::ContractIsAlreadyPaused,
            ),
            old(self).initialized && !old(self).paused ==> {
                &&& r == Result::<bool, ContractError>::Ok(true)
                &&& *final(self) == (Vault { paused: true, ..*old(self) })
            },
    {
        if !self.initialized {
            return Result::Err(ContractError::NotInitialized);
        }
        if self.paused {
            return Result::Err(ContractError::ContractIsAlreadyPaused);
        }
        self.paused = true;
        Result::Ok(true)
    }

    /// Clears the global pause flag together with both operation pauses;
    /// fails when not paused.
    pub fn unpause(&mut self) -> (r: Result<bool, ContractError>)
        ensures
            r is Err ==> *final(self) == *old(self),
            !old(self).initialized ==> r == Result::<bool, ContractError>::Err(
                ContractError::NotInitialized,
            ),
            old(self).initialized && !old(self).paused ==> r == Result::<bool, ContractError>::Err(
                ContractError::ContractIsAlreadyNotPaused,
            ),
            old(self).initialized && old(self).paused ==> {
                &&& r == Result::<bool, ContractError>::Ok(true)
                &&& *final(self) == (Vault {
                    paused: false,
                    deposit_paused: false,
                    withdraw_paused: false,
                    ..*old(self)
                })
            },
    {
        if !self.initialized {
            return Result::Err(ContractError::NotInitialized);
        }
        if self.paused {
            self.paused = false;
            self.deposit_paused = false;
            self.withdraw_paused = false;
            Result::Ok(true)
        } else {
            Result::Err(ContractError::ContractIsAlreadyNotPaused)
        }
    }

    /// Pauses deposits alone; only legal while not globally paused and
    /// not already deposit-paused.
    pub fn pause_deposit(&mut self) -> (r: Result<bool, ContractError>)
        ensures
            r is Err ==> *final(self) == *old(self),
            !old(self).initialized ==> r == Result::<bool, ContractError>::Err(
                ContractError::NotInitialized,
            ),
            old(self).initialized && old(self).paused ==> r == Result::<bool, ContractError>::Err(
                ContractError::ContractIsAlreadyPaused,
            ),
            old(self).initialized && !old(self).paused && old(self).deposit_paused ==> r
                == Result::<bool, ContractError>::Err(ContractError::DepositIsAlreadyPaused),
            old(self).initialized && !old(self).paused && !old(self).deposit_paused ==> {
                &&& r == Result::<bool, ContractError>::Ok(true)
                &&& *final(self) == (Vault { deposit_paused: true, ..*old(self) })
            },
    {
        if !self.initialized {
            return Result::Err(ContractError::NotInitialized);
        }
        if self.paused {
            return Result::Err(ContractError::ContractIsAlreadyPaused);
        }
        if self.deposit_paused {
            return Result::Err(ContractError::DepositIsAlreadyPaused);
        }
        self.deposit_paused = true;
        Result::Ok(true)
    }

    /// Pauses withdrawals alone; only legal while not globally paused
    /// and not already withdraw-paused.
    pub fn pause_withdrawal(&mut self) -> (r: Result<bool, ContractError>)
        ensures
            r is Err ==> *final(self) == *old(self),
            !old(self).initialized ==> r == Result::<bool, ContractError>::Err(
                ContractError::NotInitialized,
            ),
            old(self).initialized && old(self).paused ==> r == Result::<bool, ContractError>::Err(
                ContractError::ContractIsAlreadyPaused,
            ),
            old(self).initialized && !old(self).paused && old(self).withdraw_paused ==> r
                == Result::<bool, ContractError>::Err(ContractError::WithdrawIsAlreadyPaused),
            old(self).initialized && !old(self).paused && !old(self).withdraw_paused ==> {
                &&& r == Result::<bool, ContractError>::Ok(true)
                &&& *final(self) == (Vault { withdraw_paused: true, ..*old(self) })
            },
    {
        if !self.initialized {
            return Result::Err(ContractError::NotInitialized);
        }
        if self.paused {
            return Result::Err(ContractError::ContractIsAlreadyPaused);
        }
        if self.withdraw_paused {
            return Result::Err(ContractError::WithdrawIsAlreadyPaused);
        }
        self.withdraw_paused = true;
        Result::Ok(true)
    }

    /// Lifts a deposit pause taken while globally paused.  As inherited
    /// from the source design, this converts the state into a withdrawal
    /// pause rather than fully unpausing: the withdrawal flag is set as
    /// the global and deposit flags clear.
    pub fn unpause_deposit(&mut self) -> (r: Result<bool, ContractError>)
        ensures
            r is Err ==> *final(self) == *old(self),
            !old(self).initialized ==> r == Result::<bool, ContractError>::Err(
                ContractError::NotInitialized,
            ),
            old(self).initialized && !(old(self).paused && old(self).deposit_paused) ==> r
                == Result::<bool, ContractError>::Err(ContractError::DepositIsAlreadyNotPaused),
            old(self).initialized && old(self).paused && old(self).deposit_paused ==> {
                &&& r == Result::<bool, ContractError>::Ok(true)
                &&& *final(self) == (Vault {
                    paused: false,
                    deposit_paused: false,
                    withdraw_paused: true,
                    ..*old(self)
                })
            },
    {
        if !self.initialized {
            return Result::Err(ContractError::NotInitialized);
        }
        if self.paused && self.deposit_paused {
            self.withdraw_paused = true;
            self.deposit_paused = false;
            self.paused = false;
            Result::Ok(true)
        } else {
            Result::Err(ContractError::DepositIsAlreadyNotPaused)
        }
    }

    /// Lifts a withdrawal pause taken while globally paused, setting the
    /// deposit flag as the global and withdrawal flags clear — the
    /// mirror of `unpause_deposit`, reporting the same error it does.
    pub fn unpause_withdrawal(&mut self) -> (r: Result<bool, ContractError>)
        ensures
            r is Err ==> *final(self) == *old(self),
            !old(self).initialized ==> r == Result::<bool, ContractError>::Err(
                ContractError::NotInitialized,
            ),
            old(self).initialized && !(old(self).paused && old(self).withdraw_paused) ==> r
                == Result::<bool, ContractError>::Err(ContractError::DepositIsAlreadyNotPaused),
            old(self).initialized && old(self).paused && old(self).withdraw_paused ==> {
                &&& r == Result::<bool, ContractError>::Ok(true)
                &&& *final(self) == (Vault {
                    paused: false,
                    deposit_paused: true,
                    withdraw_paused: false,
                    ..*old(self)
                })
            },
    {
        if !self.initialized {
            return Result::Err(ContractError::NotInitialized);
        }
        if self.paused && self.withdraw_paused {
            self.deposit_paused = true;
            self.withdraw_paused = false;
            self.paused = false;
            Result::Ok(true)
        } else {
            Result::Err(ContractError::DepositIsAlreadyNotPaused)
        }
    }

    /// The start of the lock window.
    pub fn lock_timestamp(&self) -> (r: Result<u64, ContractError>)
        ensures
            r == if self.initialized {
                Result::<u64, ContractError>::Ok(self.lock_timestamp)
            } else {
                Result::<u64, ContractError>::Err(ContractError::NotInitialized)
            },
    {
        if self.initialized {
            Result::Ok(self.lock_timestamp)
        } else {
            Result::Err(ContractError::NotInitialized)
        }
    }

    /// Reports whether the archival lifetime could be extended; the
    /// extension itself is a host-side effect outside this model, and
    /// anyone may request it.
    pub fn extend_vault_ttl(&self) -> (r: Result<bool, ContractError>)
        ensures
            r == if self.initialized {
                Result::<bool, ContractError>::Ok(true)
            } else {
                Result::<bool, ContractError>::Err(ContractError::NotInitialized)
            },
    {
        if self.initialized {
            Result::Ok(true)
        } else {
            Result::Err(ContractError::NotInitialized)
        }
    }

    /// The end of the lock window.
    pub fn unlock_timestamp(&self) -> (r: Result<u64, ContractError>)
        ensures
            r == if self.initialized {
                Result::<u64, ContractError>::Ok(self.unlock_timestamp)
            } else {
                Result::<u64, ContractError>::Err(ContractError::NotInitialized)
            },
    {
        if self.initialized {
            Result::Ok(self.unlock_timestamp)
        } else {
            Result::Err(ContractError::NotInitialized)
        }
    }
}

/// Conservation of shares: in every well-formed vault — the state every
/// operation requires and re-establishes — the recorded total share
/// supply equals the sum of all per-holder share balances.
pub proof fn lemma_share_conservation(v: Vault)
    requires
        v.wf(),
    ensures
        v.total_shares == amounts_total(v.shares@),
{
}

/// Rounding direction of the quoting surface: the asset price that
/// `preview_mint` quotes for a share amount (rounded up) is never below
/// the plain floor-rounded conversion of the same amount, so minting
/// never lets the depositor pay less than the floor-rounded fair price.
/// `preview_deposit` and `convert_to_shares` use the floor conversion
/// itself, so their quotes coincide.
pub proof fn lemma_preview_mint_never_cheaper(v: Vault, token: TokenLedger, shares: int)
    requires
        v.wf(),
    ensures
        v.to_assets_spec(token, shares, Rounding::Ceil) >= v.to_assets_spec(
            token,
            shares,
            Rounding::Floor,
        ),
        v.initialized ==> v.preview_deposit_spec(token, shares) == v.convert_result(token, shares),
{
    lemma_pow_lower(10, DECIMALS_OFFSET as nat);
    lemma_mul_div_ceil_ge_floor(
        shares,
        v.total_assets_spec(token) + 1,
        v.total_shares + pow_int(10, DECIMALS_OFFSET as nat),
    );
}

impl Vault {
    /// What `convert_to_shares` returns, spelled out for comparison with
    /// the quoting surface.
    pub open spec fn convert_result(self, token: TokenLedger, assets: int) -> Result<
        i128,
        ContractError,
    > {
        if assets <= 0 {
            Result::Ok(0)
        } else if !self.initialized {
            Result::Err(ContractError::NotInitialized)
        } else {
            Result::Ok(self.to_shares_spec(token, assets, Rounding::Floor) as i128)
        }
    }
}

} // verus!
