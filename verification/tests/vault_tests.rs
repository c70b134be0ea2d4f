use vault_core::account::reserve_top_up;
use vault_core::errors::ErrorCode;
use vault_core::identity::Identity;
use vault_core::math::MAX_DECIMALS;
use vault_core::vault::{
    process_deposit, process_initialize, process_mint, process_preview_deposit,
    process_preview_mint, process_preview_redeem, process_preview_withdraw, process_redeem,
    process_withdraw, Config, ConfigInitialized, DepositEffects, WithdrawEffects,
};

fn ident(tag: u64) -> Identity {
    Identity::new(tag, tag, 0, 0)
}

fn test_config() -> Config {
    Config { owner: ident(1), asset_mint: ident(2), decimals_offset: 0 }
}

#[test]
fn initialize_builds_config_and_owner_record() {
    let (config, access, event) = process_initialize(ident(1), ident(2), 9).unwrap();
    assert_eq!(
        config,
        Config { owner: ident(1), asset_mint: ident(2), decimals_offset: MAX_DECIMALS - 9 }
    );
    assert_eq!(access.account, ident(1));
    assert_eq!(access.permissions, u128::MAX);
    assert_eq!(access.permission_admins, u128::MAX);
    assert_eq!(event, ConfigInitialized { owner: ident(1) });
}

#[test]
fn initialize_rejects_excess_precision() {
    assert_eq!(
        process_initialize(ident(1), ident(2), MAX_DECIMALS + 1),
        Err(ErrorCode::InvalidAssetConfiguration)
    );
}

#[test]
fn initialize_accepts_maximal_precision() {
    let (config, _, _) = process_initialize(ident(1), ident(2), MAX_DECIMALS).unwrap();
    assert_eq!(config.decimals_offset, 0);
}

#[test]
fn deposit_plan_floors_the_share_amount() {
    let config = test_config();
    let effects = process_deposit(&config, ident(2), 10, 3, 7).unwrap();
    assert_eq!(effects, DepositEffects { assets_in: 7, shares_out: 2 });
}

#[test]
fn deposit_rejects_foreign_asset() {
    let config = test_config();
    assert_eq!(
        process_deposit(&config, ident(99), 10, 3, 7),
        Err(ErrorCode::ConfigMismatch)
    );
}

#[test]
fn mint_plan_ceils_the_asset_amount() {
    let config = test_config();
    let effects = process_mint(&config, ident(2), 10, 3, 5).unwrap();
    assert_eq!(effects, DepositEffects { assets_in: 14, shares_out: 5 });
}

#[test]
fn withdraw_plan_ceils_the_share_amount() {
    let config = test_config();
    let effects = process_withdraw(&config, ident(2), 10, 3, 7).unwrap();
    assert_eq!(effects, WithdrawEffects { assets_out: 7, shares_in: 3 });
}

#[test]
fn redeem_plan_floors_the_asset_amount() {
    let config = test_config();
    let effects = process_redeem(&config, ident(2), 10, 3, 5).unwrap();
    assert_eq!(effects, WithdrawEffects { assets_out: 13, shares_in: 5 });
}

#[test]
fn withdraw_and_redeem_reject_foreign_asset() {
    let config = test_config();
    assert_eq!(
        process_withdraw(&config, ident(99), 10, 3, 7),
        Err(ErrorCode::ConfigMismatch)
    );
    assert_eq!(
        process_redeem(&config, ident(99), 10, 3, 5),
        Err(ErrorCode::ConfigMismatch)
    );
}

#[test]
fn deposit_overflow_propagates() {
    let config = test_config();
    assert_eq!(
        process_deposit(&config, ident(2), u64::MAX, 3, 7),
        Err(ErrorCode::ArithmeticOverflow)
    );
}

#[test]
fn previews_match_the_plans() {
    let config = test_config();
    assert_eq!(process_preview_deposit(&config, 10, 3, 7), Ok(2));
    assert_eq!(process_preview_withdraw(&config, 10, 3, 7), Ok(3));
    assert_eq!(process_preview_mint(&config, 10, 3, 5), Ok(14));
    assert_eq!(process_preview_redeem(&config, 10, 3, 5), Ok(13));
}

#[test]
fn preview_on_empty_pool() {
    let config = test_config();
    assert_eq!(process_preview_deposit(&config, 0, 0, 1000), Ok(1000));
}

#[test]
fn reserve_top_up_covers_the_shortfall() {
    assert_eq!(reserve_top_up(100, 40), 60);
    assert_eq!(reserve_top_up(100, 100), 0);
    assert_eq!(reserve_top_up(100, 150), 0);
    assert_eq!(reserve_top_up(0, 0), 0);
}
