use vault_core::access::{
    grant_permission, grant_permission_admin, initialize_access_record, only_owner,
    only_permission, only_permission_admin, process_grant_permission, process_revoke_permission,
    revoke_permission, revoke_permission_admin, Access, AccessInitialized, PermissionGranted,
};
use vault_core::errors::ErrorCode;
use vault_core::identity::Identity;

fn principal(tag: u64) -> Identity {
    Identity::new(tag, 0, 0, 0)
}

#[test]
fn bitmask_tests_require_every_bit() {
    let record = Access { account: principal(1), permissions: 0b1010, permission_admins: 0 };
    assert!(record.has_permission(0b1000));
    assert!(record.has_permission(0b1010));
    assert!(!record.has_permission(0b0100));
    assert!(!record.has_permission(0b1110));
}

#[test]
fn permission_and_admin_masks_are_independent() {
    let mut record = Access { account: principal(1), permissions: 0, permission_admins: 0 };
    record.grant_permission(0b100);
    assert_eq!(record.permissions, 0b100);
    assert_eq!(record.permission_admins, 0);
    record.grant_admin_permission(0b1);
    assert_eq!(record.permissions, 0b100);
    assert_eq!(record.permission_admins, 0b1);
    assert!(record.has_permission(0b100));
    assert!(!record.has_admin_permission(0b100));
    assert!(record.has_admin_permission(0b1));
    assert!(!record.has_permission(0b1));
}

#[test]
fn revoking_twice_is_idempotent() {
    let mut record = Access { account: principal(2), permissions: 0b111, permission_admins: 0b11 };
    record.revoke_permission(0b010);
    assert_eq!(record.permissions, 0b101);
    record.revoke_permission(0b010);
    assert_eq!(record.permissions, 0b101);
    record.revoke_admin_permission(0b01);
    record.revoke_admin_permission(0b01);
    assert_eq!(record.permission_admins, 0b10);
}

#[test]
fn granting_twice_is_idempotent() {
    let mut record = Access { account: principal(2), permissions: 0, permission_admins: 0 };
    record.grant_permission(0b10);
    record.grant_permission(0b10);
    assert_eq!(record.permissions, 0b10);
}

#[test]
fn grant_and_revoke_report_events() {
    let mut record = Access { account: principal(3), permissions: 0, permission_admins: 0 };
    let granted = record.grant_permission(0b1);
    assert_eq!(granted, PermissionGranted { account: principal(3), permission: 0b1 });
    let revoked = record.revoke_permission(0b1);
    assert_eq!(revoked.account, principal(3));
    assert_eq!(revoked.permission, 0b1);
    assert_eq!(record.permissions, 0);
}

#[test]
fn check_permission_errors() {
    let record = Access { account: principal(4), permissions: 0b1, permission_admins: 0 };
    assert_eq!(record.check_permission(0b1), Ok(()));
    assert_eq!(record.check_permission(0b10), Err(ErrorCode::UnauthorizedPermission));
    assert_eq!(record.check_admin_permission(0b1), Err(ErrorCode::UnauthorizedAdminPermission));
}

#[test]
fn owner_gate() {
    assert_eq!(only_owner(principal(1), principal(1)), Ok(()));
    assert_eq!(only_owner(principal(1), principal(2)), Err(ErrorCode::UnauthorizedOwner));
}

#[test]
fn permission_gate_requires_a_record() {
    let record = Access { account: principal(5), permissions: 0b1, permission_admins: 0 };
    assert_eq!(only_permission(Some(&record), 0b1), Ok(()));
    assert_eq!(only_permission(None, 0b1), Err(ErrorCode::UnauthorizedPermission));
    assert_eq!(only_permission(Some(&record), 0b10), Err(ErrorCode::UnauthorizedPermission));
}

#[test]
fn admin_gate() {
    let record = Access { account: principal(5), permissions: 0, permission_admins: 0b100 };
    assert_eq!(only_permission_admin(&record, 0b100), Ok(()));
    assert_eq!(only_permission_admin(&record, 0b1), Err(ErrorCode::UnauthorizedAdminPermission));
}

#[test]
fn initialize_access_record_rejects_existing() {
    let existing = Access { account: principal(6), permissions: 0, permission_admins: 0 };
    assert_eq!(
        initialize_access_record(principal(6), Some(&existing)),
        Err(ErrorCode::AlreadyInitialized)
    );
    let (fresh, event) = initialize_access_record(principal(6), None).unwrap();
    assert_eq!(fresh, Access { account: principal(6), permissions: 0, permission_admins: 0 });
    assert_eq!(event, AccessInitialized { account: principal(6) });
}

#[test]
fn granting_creates_absent_records() {
    let (record, created, event) = process_grant_permission(principal(7), None, 0b11);
    assert_eq!(record, Access { account: principal(7), permissions: 0b11, permission_admins: 0 });
    assert_eq!(created, Some(AccessInitialized { account: principal(7) }));
    assert_eq!(event, PermissionGranted { account: principal(7), permission: 0b11 });
}

#[test]
fn revoking_creates_absent_records_as_a_no_op() {
    let (record, created, event) = process_revoke_permission(principal(8), None, 0b11);
    assert_eq!(record, Access { account: principal(8), permissions: 0, permission_admins: 0 });
    assert!(created.is_some());
    assert_eq!(event.permission, 0b11);
}

#[test]
fn admin_of_a_bit_can_grant_and_revoke_that_bit() {
    let admin = Access { account: principal(9), permissions: 0, permission_admins: 0b100 };
    let target = Access { account: principal(10), permissions: 0, permission_admins: 0 };
    let (updated, _, _) = grant_permission(&admin, principal(10), Some(target), 0b100).unwrap();
    assert_eq!(updated.permissions, 0b100);
    assert_eq!(updated.permission_admins, 0);
    let (reverted, _, _) =
        revoke_permission(&admin, principal(10), Some(updated), 0b100).unwrap();
    assert_eq!(reverted.permissions, 0);
}

#[test]
fn admin_of_one_bit_cannot_touch_another() {
    let admin = Access { account: principal(9), permissions: 0, permission_admins: 0b100 };
    assert_eq!(
        grant_permission(&admin, principal(10), None, 0b1),
        Err(ErrorCode::UnauthorizedAdminPermission)
    );
    assert_eq!(
        revoke_permission(&admin, principal(10), None, 0b1),
        Err(ErrorCode::UnauthorizedAdminPermission)
    );
}

#[test]
fn admin_permission_changes_are_owner_gated() {
    let owner = principal(1);
    let intruder = principal(2);
    assert_eq!(
        grant_permission_admin(owner, intruder, principal(3), None, 0b1),
        Err(ErrorCode::UnauthorizedOwner)
    );
    let (record, _, event) =
        grant_permission_admin(owner, owner, principal(3), None, 0b1).unwrap();
    assert_eq!(record.permission_admins, 0b1);
    assert_eq!(record.permissions, 0);
    assert_eq!(event.permission, 0b1);
    let (record, _, _) =
        revoke_permission_admin(owner, owner, principal(3), Some(record), 0b1).unwrap();
    assert_eq!(record.permission_admins, 0);
    assert_eq!(
        revoke_permission_admin(owner, intruder, principal(3), Some(record), 0b1),
        Err(ErrorCode::UnauthorizedOwner)
    );
}
