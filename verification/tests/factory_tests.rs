use vault_core::access::Access;
use vault_core::errors::ErrorCode;
use vault_core::factory::{
    create_token, create_token_whitelisted, process_create_token, process_get_fee,
    process_initialize, update_creation_fee, update_fee_recipient, Config, ConfigInitialized,
    CreationFeeUpdated, FeePayment, FeeRecipientUpdated, DEFAULT_CREATION_FEE,
    WHITELIST_PERMISSION,
};
use vault_core::identity::Identity;

fn ident(tag: u64) -> Identity {
    Identity::new(0, 0, 0, tag)
}

#[test]
fn factory_initialize_defaults() {
    let (config, access, event) = process_initialize(ident(1));
    assert_eq!(
        config,
        Config { owner: ident(1), fee_recipient: ident(1), creation_fee: DEFAULT_CREATION_FEE }
    );
    assert_eq!(access.account, ident(1));
    assert_eq!(access.permissions, u128::MAX);
    assert_eq!(access.permission_admins, u128::MAX);
    assert_eq!(
        event,
        ConfigInitialized {
            owner: ident(1),
            fee_recipient: ident(1),
            creation_fee: DEFAULT_CREATION_FEE
        }
    );
}

#[test]
fn fee_recipient_update_is_owner_gated() {
    let (mut config, _, _) = process_initialize(ident(1));
    assert_eq!(
        update_fee_recipient(&mut config, ident(2), ident(3)),
        Err(ErrorCode::UnauthorizedOwner)
    );
    assert_eq!(config.fee_recipient, ident(1));
    assert_eq!(
        update_fee_recipient(&mut config, ident(1), ident(3)),
        Ok(FeeRecipientUpdated { fee_recipient: ident(3) })
    );
    assert_eq!(config.fee_recipient, ident(3));
    assert_eq!(config.owner, ident(1));
}

#[test]
fn creation_fee_update_is_owner_gated() {
    let (mut config, _, _) = process_initialize(ident(1));
    assert_eq!(
        update_creation_fee(&mut config, ident(2), 5),
        Err(ErrorCode::UnauthorizedOwner)
    );
    assert_eq!(config.creation_fee, DEFAULT_CREATION_FEE);
    assert_eq!(
        update_creation_fee(&mut config, ident(1), 5),
        Ok(CreationFeeUpdated { creation_fee: 5 })
    );
    assert_eq!(config.creation_fee, 5);
}

#[test]
fn get_fee_reads_the_config() {
    let (mut config, _, _) = process_initialize(ident(1));
    assert_eq!(process_get_fee(&config), DEFAULT_CREATION_FEE);
    update_creation_fee(&mut config, ident(1), 77).unwrap();
    assert_eq!(process_get_fee(&config), 77);
}

#[test]
fn create_token_charges_the_fee() {
    let (config, _, _) = process_initialize(ident(1));
    assert_eq!(
        create_token(&config, ident(1)),
        Ok(Some(FeePayment { recipient: ident(1), amount: DEFAULT_CREATION_FEE }))
    );
}

#[test]
fn create_token_rejects_wrong_recipient() {
    let (config, _, _) = process_initialize(ident(1));
    assert_eq!(create_token(&config, ident(2)), Err(ErrorCode::ConfigMismatch));
    assert_eq!(
        process_create_token(&config, ident(2), false),
        Err(ErrorCode::ConfigMismatch)
    );
}

#[test]
fn whitelisted_creation_is_fee_free() {
    let (config, _, _) = process_initialize(ident(1));
    let member = Access {
        account: ident(2),
        permissions: WHITELIST_PERMISSION,
        permission_admins: 0,
    };
    assert_eq!(create_token_whitelisted(Some(&member), &config, ident(1)), Ok(None));
}

#[test]
fn whitelisted_creation_requires_the_permission() {
    let (config, _, _) = process_initialize(ident(1));
    let outsider = Access { account: ident(2), permissions: 0, permission_admins: 0 };
    assert_eq!(
        create_token_whitelisted(Some(&outsider), &config, ident(1)),
        Err(ErrorCode::UnauthorizedPermission)
    );
    assert_eq!(
        create_token_whitelisted(None, &config, ident(1)),
        Err(ErrorCode::UnauthorizedPermission)
    );
}
