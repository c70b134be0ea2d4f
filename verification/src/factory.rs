use vstd::prelude::*;

use crate::access::{only_owner, only_permission, Access};
use crate::errors::ErrorCode;
use crate::identity::Identity;

verus! {

/// The permission bit that entitles a principal to fee-free token creation.
pub const WHITELIST_PERMISSION: u128 = 1;

/// The creation fee a fresh factory configuration starts with.
pub const DEFAULT_CREATION_FEE: u64 = 100_000_000;

/// Pool-wide configuration of the token factory: one owner, and the fee
/// terms for token creation, both mutable by the owner alone.
#[derive(Clone, Copy, Debug, PartialEq, Eq, Structural)]
pub struct Config {
    /// The principal empowered to manage configuration and grant admin
    /// rights.
    pub owner: Identity,
    /// The principal that receives creation fees.
    pub fee_recipient: Identity,
    /// The fee charged for a non-whitelisted token creation.
    pub creation_fee: u64,
}

/// Notification record: the factory configuration was created.
#[derive(Clone, Copy, Debug, PartialEq, Eq, Structural)]
pub struct ConfigInitialized {
    pub owner: Identity,
    pub fee_recipient: Identity,
    pub creation_fee: u64,
}

/// Notification record: the fee recipient was changed.
#[derive(Clone, Copy, Debug, PartialEq, Eq, Structural)]
pub struct FeeRecipientUpdated {
    pub fee_recipient: Identity,
}

/// Notification record: the creation fee was changed.
#[derive(Clone, Copy, Debug, PartialEq, Eq, Structural)]
pub struct CreationFeeUpdated {
    pub creation_fee: u64,
}

/// Naming of a token to be created; carried through to the metadata
/// collaborator untouched.
#[derive(Clone, Debug)]
pub struct TokenMetadataArgs {
    pub name: String,
    pub symbol: String,
    pub uri: String,
}

/// A fee transfer the creation flow asks of the custody collaborator.
#[derive(Clone, Copy, Debug, PartialEq, Eq, Structural)]
pub struct FeePayment {
    pub recipient: Identity,
    pub amount: u64,
}

/// Creates the factory: the configuration record with the owner as initial
/// fee recipient and the default creation fee, and the owner's access
/// record holding every permission and every admin permission.
pub fn process_initialize(owner: Identity) -> (r: (Config, Access, ConfigInitialized))
    ensures
        r.0 == (Config { owner, fee_recipient: owner, creation_fee: DEFAULT_CREATION_FEE }),
        r.1 == (Access { account: owner, permissions: u128::MAX, permission_admins: u128::MAX }),
        r.2 == (ConfigInitialized {
            owner,
            fee_recipient: owner,
            creation_fee: DEFAULT_CREATION_FEE,
        }),
{
    let config = Config { owner, fee_recipient: owner, creation_fee: DEFAULT_CREATION_FEE };
    let access = Access { account: owner, permissions: u128::MAX, permission_admins: u128::MAX };
    let event = ConfigInitialized { owner, fee_recipient: owner, creation_fee: DEFAULT_CREATION_FEE };
    (config, access, event)
}

/// Points creation fees at a new recipient, touching nothing else.
pub fn process_update_fee_recipient(config: &mut Config, fee_recipient: Identity) -> (e:
    FeeRecipientUpdated)
    ensures
        final(config).owner == old(config).owner,
        final(config).fee_recipient == fee_recipient,
        final(config).creation_fee == old(config).creation_fee,
        e == (FeeRecipientUpdated { fee_recipient }),
{
    config.fee_recipient = fee_recipient;
    FeeRecipientUpdated { fee_recipient }
}

/// Sets a new creation fee, touching nothing else.
pub fn process_update_creation_fee(config: &mut Config, creation_fee: u64) -> (e:
    CreationFeeUpdated)
    ensures
        final(config).owner == old(config).owner,
        final(config).fee_recipient == old(config).fee_recipient,
        final(config).creation_fee == creation_fee,
        e == (CreationFeeUpdated { creation_fee }),
{
    config.creation_fee = creation_fee;
    CreationFeeUpdated { creation_fee }
}

/// The fee-recipient update as a caller sees it: owner-gated, and the
/// configuration is untouched when the caller is not the owner.
pub fn update_fee_recipient(config: &mut Config, caller: Identity, fee_recipient: Identity) -> (r:
    Result<FeeRecipientUpdated, ErrorCode>)
    ensures
        r is Ok <==> caller == old(config).owner,
        r is Ok ==> *final(config) == (Config {
            owner: old(config).owner,
            fee_recipient,
            creation_fee: old(config).creation_fee,
        }) && r == Ok::<FeeRecipientUpdated, ErrorCode>(FeeRecipientUpdated { fee_recipient }),
        r is Err ==> *final(config) == *old(config) && r == Err::<FeeRecipientUpdated, ErrorCode>(
            ErrorCode::UnauthorizedOwner,
        ),
{
    only_owner(config.owner, caller)?;
    Ok(process_update_fee_recipient(config, fee_recipient))
}

/// The creation-fee update as a caller sees it: owner-gated, and the
/// configuration is untouched when the caller is not the owner.
pub fn update_creation_fee(config: &mut Config, caller: Identity, creation_fee: u64) -> (r: Result<
    CreationFeeUpdated,
    ErrorCode,
>)
    ensures
        r is Ok <==> caller == old(config).owner,
        r is Ok ==> *final(config) == (Config {
            owner: old(config).owner,
            fee_recipient: old(config).fee_recipient,
            creation_fee,
        }) && r == Ok::<CreationFeeUpdated, ErrorCode>(CreationFeeUpdated { creation_fee }),
        r is Err ==> *final(config) == *old(config) && r == Err::<CreationFeeUpdated, ErrorCode>(
            ErrorCode::UnauthorizedOwner,
        ),
{
    only_owner(config.owner, caller)?;
    Ok(process_update_creation_fee(config, creation_fee))
}

/// The current creation fee; callable without authentication.
pub fn process_get_fee(config: &Config) -> (r: u64)
    ensures
        r == config.creation_fee,
{
    config.creation_fee
}

/// Plans a token creation: verifies that the supplied fee recipient is the
/// configured one, and returns the fee transfer owed, if any. Minting the
/// token, writing its metadata and topping up its reserve follow outside.
pub fn process_create_token(config: &Config, fee_recipient: Identity, collect_fee: bool) -> (r:
    Result<Option<FeePayment>, ErrorCode>)
    ensures
        r is Ok <==> fee_recipient == config.fee_recipient,
        r matches Ok(p) ==> p == (if collect_fee {
            Some(FeePayment { recipient: config.fee_recipient, amount: config.creation_fee })
        } else {
            Option::<FeePayment>::None
        }),
        r matches Err(e) ==> e == ErrorCode::ConfigMismatch,
{
    if fee_recipient != config.fee_recipient {
        return Err(ErrorCode::ConfigMismatch);
    }
    if collect_fee {
        Ok(Some(FeePayment { recipient: config.fee_recipient, amount: config.creation_fee }))
    } else {
        Ok(None)
    }
}

/// The public creation flow: anyone may create a token, paying the
/// configured fee to the configured recipient.
pub fn create_token(config: &Config, fee_recipient: Identity) -> (r: Result<
    Option<FeePayment>,
    ErrorCode,
>)
    ensures
        r is Ok <==> fee_recipient == config.fee_recipient,
        r matches Ok(p) ==> p == Some(FeePayment {
            recipient: config.fee_recipient,
            amount: config.creation_fee,
        }),
        r matches Err(e) ==> e == ErrorCode::ConfigMismatch,
{
    process_create_token(config, fee_recipient, true)
}

/// The whitelisted creation flow: gated on the caller holding the
/// whitelist permission, and fee-free when it passes.
pub fn create_token_whitelisted(
    access: Option<&Access>,
    config: &Config,
    fee_recipient: Identity,
) -> (r: Result<Option<FeePayment>, ErrorCode>)
    ensures
        r is Ok <==> (access is Some && access->0.spec_has_permission(WHITELIST_PERMISSION))
            && fee_recipient == config.fee_recipient,
        r matches Ok(p) ==> p is None,
        r matches Err(e) ==> e == (if !(access is Some && access->0.spec_has_permission(
            WHITELIST_PERMISSION,
        )) {
            ErrorCode::UnauthorizedPermission
        } else {
            ErrorCode::ConfigMismatch
        }),
{
    only_permission(access, WHITELIST_PERMISSION)?;
    process_create_token(config, fee_recipient, false)
}

} // verus!
