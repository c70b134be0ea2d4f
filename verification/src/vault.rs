use vstd::prelude::*;

use crate::access::Access;
use crate::errors::ErrorCode;
use crate::identity::Identity;
use crate::math::{Rounding, MAX_DECIMALS};
use crate::shares_math::{
    assets_of, preview_deposit_internal, preview_mint_internal, preview_redeem_internal,
    preview_withdraw_internal, shares_of, to_assets_fits, to_shares_fits,
};

verus! {

/// Pool-wide configuration of the vault: created once at pool
/// initialization and immutable thereafter.
#[derive(Clone, Copy, Debug, PartialEq, Eq, Structural)]
pub struct Config {
    /// The principal empowered to manage configuration and grant admin
    /// rights.
    pub owner: Identity,
    /// Identity of the single fungible asset the pool custodies.
    pub asset_mint: Identity,
    /// Share precision minus asset precision: the exponent of the
    /// virtual-liquidity offset used by every conversion.
    pub decimals_offset: u8,
}

impl Config {
    /// Every configuration the core creates keeps its offset within the
    /// admissible exponent range; nothing mutates it afterwards.
    pub open spec fn wf(self) -> bool {
        self.decimals_offset <= MAX_DECIMALS
    }
}

/// Notification record: the vault configuration was created.
#[derive(Clone, Copy, Debug, PartialEq, Eq, Structural)]
pub struct ConfigInitialized {
    pub owner: Identity,
}

/// The effects a deposit-side operation asks of the custody collaborator:
/// pull `assets_in` of the base asset from the user into the vault and mint
/// `shares_out` shares to the user, applied so that no intermediate state
/// is observable.
#[derive(Clone, Copy, Debug, PartialEq, Eq, Structural)]
pub struct DepositEffects {
    pub assets_in: u64,
    pub shares_out: u64,
}

/// The effects a withdraw-side operation asks of the custody collaborator:
/// push `assets_out` of the base asset from the vault to the user and burn
/// `shares_in` of the user's shares, applied so that no intermediate state
/// is observable.
#[derive(Clone, Copy, Debug, PartialEq, Eq, Structural)]
pub struct WithdrawEffects {
    pub assets_out: u64,
    pub shares_in: u64,
}

/// Creates the vault: the configuration record, and the owner's access
/// record holding every permission and every admin permission. The decimals
/// offset is the precision headroom left by the asset; an asset more
/// precise than the share unit admits no valid offset and is rejected.
pub fn process_initialize(owner: Identity, asset_mint: Identity, asset_mint_decimals: u8) -> (r:
    Result<(Config, Access, ConfigInitialized), ErrorCode>)
    ensures
        r is Ok <==> asset_mint_decimals <= MAX_DECIMALS,
        r matches Ok(t) ==> t.0 == (Config {
            owner,
            asset_mint,
            decimals_offset: (MAX_DECIMALS - asset_mint_decimals) as u8,
        }) && t.0.wf() && t.1 == (Access {
            account: owner,
            permissions: u128::MAX,
            permission_admins: u128::MAX,
        }) && t.2 == (ConfigInitialized { owner }),
        r matches Err(e) ==> e == ErrorCode::InvalidAssetConfiguration,
{
    if asset_mint_decimals > MAX_DECIMALS {
        return Err(ErrorCode::InvalidAssetConfiguration);
    }
    let config = Config { owner, asset_mint, decimals_offset: MAX_DECIMALS - asset_mint_decimals };
    let access = Access { account: owner, permissions: u128::MAX, permission_admins: u128::MAX };
    Ok((config, access, ConfigInitialized { owner }))
}

/// Plans a deposit: the caller supplies `assets`, and receives the
/// floor-rounded share amount against the supplied pool snapshot. Fails
/// with `ConfigMismatch` when the supplied asset identity is not the
/// configured one, and with `ArithmeticOverflow` when the conversion leaves
/// the native width.
pub fn process_deposit(
    config: &Config,
    asset_mint: Identity,
    total_assets: u64,
    total_shares: u64,
    assets: u64,
) -> (r: Result<DepositEffects, ErrorCode>)
    requires
        config.wf(),
    ensures
        r is Ok <==> config.asset_mint == asset_mint && to_shares_fits(
            assets as nat,
            total_assets as nat,
            total_shares as nat,
            config.decimals_offset as nat,
            Rounding::Floor,
        ),
        r matches Ok(eff) ==> eff.assets_in == assets && eff.shares_out == shares_of(
            assets as nat,
            total_assets as nat,
            total_shares as nat,
            config.decimals_offset as nat,
            Rounding::Floor,
        ),
        r matches Err(e) ==> e == (if config.asset_mint != asset_mint {
            ErrorCode::ConfigMismatch
        } else {
            ErrorCode::ArithmeticOverflow
        }),
{
    if asset_mint != config.asset_mint {
        return Err(ErrorCode::ConfigMismatch);
    }
    let shares = preview_deposit_internal(assets, total_assets, total_shares, config.decimals_offset)?;
    Ok(DepositEffects { assets_in: assets, shares_out: shares })
}

/// Plans a mint: the caller asks for `shares`, and owes the
/// ceiling-rounded asset amount against the supplied pool snapshot.
pub fn process_mint(
    config: &Config,
    asset_mint: Identity,
    total_assets: u64,
    total_shares: u64,
    shares: u64,
) -> (r: Result<DepositEffects, ErrorCode>)
    requires
        config.wf(),
    ensures
        r is Ok <==> config.asset_mint == asset_mint && to_assets_fits(
            shares as nat,
            total_assets as nat,
            total_shares as nat,
            config.decimals_offset as nat,
            Rounding::Ceiling,
        ),
        r matches Ok(eff) ==> eff.shares_out == shares && eff.assets_in == assets_of(
            shares as nat,
            total_assets as nat,
            total_shares as nat,
            config.decimals_offset as nat,
            Rounding::Ceiling,
        ),
        r matches Err(e) ==> e == (if config.asset_mint != asset_mint {
            ErrorCode::ConfigMismatch
        } else {
            ErrorCode::ArithmeticOverflow
        }),
{
    if asset_mint != config.asset_mint {
        return Err(ErrorCode::ConfigMismatch);
    }
    let assets = preview_mint_internal(shares, total_assets, total_shares, config.decimals_offset)?;
    Ok(DepositEffects { assets_in: assets, shares_out: shares })
}

/// Plans a withdrawal: the caller asks for `assets` back, and owes the
/// ceiling-rounded share amount against the supplied pool snapshot.
pub fn process_withdraw(
    config: &Config,
    asset_mint: Identity,
    total_assets: u64,
    total_shares: u64,
    assets: u64,
) -> (r: Result<WithdrawEffects, ErrorCode>)
    requires
        config.wf(),
    ensures
        r is Ok <==> config.asset_mint == asset_mint && to_shares_fits(
            assets as nat,
            total_assets as nat,
            total_shares as nat,
            config.decimals_offset as nat,
            Rounding::Ceiling,
        ),
        r matches Ok(eff) ==> eff.assets_out == assets && eff.shares_in == shares_of(
            assets as nat,
            total_assets as nat,
            total_shares as nat,
            config.decimals_offset as nat,
            Rounding::Ceiling,
        ),
        r matches Err(e) ==> e == (if config.asset_mint != asset_mint {
            ErrorCode::ConfigMismatch
        } else {
            ErrorCode::ArithmeticOverflow
        }),
{
    if asset_mint != config.asset_mint {
        return Err(ErrorCode::ConfigMismatch);
    }
    let shares = preview_withdraw_internal(assets, total_assets, total_shares, config.decimals_offset)?;
    Ok(WithdrawEffects { assets_out: assets, shares_in: shares })
}

/// Plans a redemption: the caller surrenders `shares`, and receives the
/// floor-rounded asset amount against the supplied pool snapshot.
pub fn process_redeem(
    config: &Config,
    asset_mint: Identity,
    total_assets: u64,
    total_shares: u64,
    shares: u64,
) -> (r: Result<WithdrawEffects, ErrorCode>)
    requires
        config.wf(),
    ensures
        r is Ok <==> config.asset_mint == asset_mint && to_assets_fits(
            shares as nat,
            total_assets as nat,
            total_shares as nat,
            config.decimals_offset as nat,
            Rounding::Floor,
        ),
        r matches Ok(eff) ==> eff.shares_in == shares && eff.assets_out == assets_of(
            shares as nat,
            total_assets as nat,
            total_shares as nat,
            config.decimals_offset as nat,
            Rounding::Floor,
        ),
        r matches Err(e) ==> e == (if config.asset_mint != asset_mint {
            ErrorCode::ConfigMismatch
        } else {
            ErrorCode::ArithmeticOverflow
        }),
{
    if asset_mint != config.asset_mint {
        return Err(ErrorCode::ConfigMismatch);
    }
    let assets = preview_redeem_internal(shares, total_assets, total_shares, config.decimals_offset)?;
    Ok(WithdrawEffects { assets_out: assets, shares_in: shares })
}

/// Read-only preview of a deposit: the shares a deposit of `assets` would
/// receive, with no authorization and no effect.
pub fn process_preview_deposit(
    config: &Config,
    total_assets: u64,
    total_shares: u64,
    assets: u64,
) -> (r: Result<u64, ErrorCode>)
    requires
        config.wf(),
    ensures
        r is Ok <==> to_shares_fits(
            assets as nat,
            total_assets as nat,
            total_shares as nat,
            config.decimals_offset as nat,
            Rounding::Floor,
        ),
        r matches Ok(v) ==> v == shares_of(
            assets as nat,
            total_assets as nat,
            total_shares as nat,
            config.decimals_offset as nat,
            Rounding::Floor,
        ),
        r matches Err(e) ==> e == ErrorCode::ArithmeticOverflow,
{
    preview_deposit_internal(assets, total_assets, total_shares, config.decimals_offset)
}

/// Read-only preview of a mint: the assets a mint of `shares` would owe.
pub fn process_preview_mint(
    config: &Config,
    total_assets: u64,
    total_shares: u64,
    shares: u64,
) -> (r: Result<u64, ErrorCode>)
    requires
        config.wf(),
    ensures
        r is Ok <==> to_assets_fits(
            shares as nat,
            total_assets as nat,
            total_shares as nat,
            config.decimals_offset as nat,
            Rounding::Ceiling,
        ),
        r matches Ok(v) ==> v == assets_of(
            shares as nat,
            total_assets as nat,
            total_shares as nat,
            config.decimals_offset as nat,
            Rounding::Ceiling,
        ),
        r matches Err(e) ==> e == ErrorCode::ArithmeticOverflow,
{
    preview_mint_internal(shares, total_assets, total_shares, config.decimals_offset)
}

/// Read-only preview of a withdrawal: the shares a withdrawal of `assets`
/// would owe.
pub fn process_preview_withdraw(
    config: &Config,
    total_assets: u64,
    total_shares: u64,
    assets: u64,
) -> (r: Result<u64, ErrorCode>)
    requires
        config.wf(),
    ensures
        r is Ok <==> to_shares_fits(
            assets as nat,
            total_assets as nat,
            total_shares as nat,
            config.decimals_offset as nat,
            Rounding::Ceiling,
        ),
        r matches Ok(v) ==> v == shares_of(
            assets as nat,
            total_assets as nat,
            total_shares as nat,
            config.decimals_offset as nat,
            Rounding::Ceiling,
        ),
        r matches Err(e) ==> e == ErrorCode::ArithmeticOverflow,
{
    preview_withdraw_internal(assets, total_assets, total_shares, config.decimals_offset)
}

/// Read-only preview of a redemption: the assets a redemption of `shares`
/// would receive.
pub fn process_preview_redeem(
    config: &Config,
    total_assets: u64,
    total_shares: u64,
    shares: u64,
) -> (r: Result<u64, ErrorCode>)
    requires
        config.wf(),
    ensures
        r is Ok <==> to_assets_fits(
            shares as nat,
            total_assets as nat,
            total_shares as nat,
            config.decimals_offset as nat,
            Rounding::Floor,
        ),
        r matches Ok(v) ==> v == assets_of(
            shares as nat,
            total_assets as nat,
            total_shares as nat,
            config.decimals_offset as nat,
            Rounding::Floor,
        ),
        r matches Err(e) ==> e == ErrorCode::ArithmeticOverflow,
{
    preview_redeem_internal(shares, total_assets, total_shares, config.decimals_offset)
}

} // verus!
