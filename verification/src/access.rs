use vstd::prelude::*;

use crate::errors::ErrorCode;
use crate::identity::Identity;

verus! {

/// The capability record of one principal: which operations it may perform
/// (`permissions`) and which permission bits it may grant to or revoke from
/// other principals (`permission_admins`). The two masks are independent: a
/// principal can administer a bit it does not itself hold.
#[derive(Clone, Copy, Debug, PartialEq, Eq, Structural)]
pub struct Access {
    /// The principal this record describes; set at creation, never changed.
    pub account: Identity,
    /// Bitmask of operation rights held by the principal.
    pub permissions: u128,
    /// Bitmask of permission bits the principal may grant or revoke in
    /// other principals' `permissions`.
    pub permission_admins: u128,
}

/// Notification record: an access record was created for a principal.
#[derive(Clone, Copy, Debug, PartialEq, Eq, Structural)]
pub struct AccessInitialized {
    pub account: Identity,
}

/// Notification record: permission bits were granted to a principal.
#[derive(Clone, Copy, Debug, PartialEq, Eq, Structural)]
pub struct PermissionGranted {
    pub account: Identity,
    pub permission: u128,
}

/// Notification record: permission bits were revoked from a principal.
#[derive(Clone, Copy, Debug, PartialEq, Eq, Structural)]
pub struct PermissionRevoked {
    pub account: Identity,
    pub permission: u128,
}

/// Notification record: admin-permission bits were granted to a principal.
#[derive(Clone, Copy, Debug, PartialEq, Eq, Structural)]
pub struct AdminPermissionGranted {
    pub account: Identity,
    pub permission: u128,
}

/// Notification record: admin-permission bits were revoked from a
/// principal.
#[derive(Clone, Copy, Debug, PartialEq, Eq, Structural)]
pub struct AdminPermissionRevoked {
    pub account: Identity,
    pub permission: u128,
}

/// The mask `held` contains every bit of `wanted`.
pub open spec fn has_bits(held: u128, wanted: u128) -> bool {
    held & wanted == wanted
}

impl Access {
    /// The record holds every permission bit of `permission`.
    pub open spec fn spec_has_permission(self, permission: u128) -> bool {
        has_bits(self.permissions, permission)
    }

    /// The record holds every admin-permission bit of `permission`.
    pub open spec fn spec_has_admin_permission(self, permission: u128) -> bool {
        has_bits(self.permission_admins, permission)
    }

    /// A fresh record for `account` with both masks empty, together with
    /// the notification record of its creation.
    pub fn initialize(account: Identity) -> (r: (Access, AccessInitialized))
        ensures
            r.0 == (Access { account, permissions: 0, permission_admins: 0 }),
            r.1 == (AccessInitialized { account }),
    {
        (Access { account, permissions: 0, permission_admins: 0 }, AccessInitialized { account })
    }

    /// Pure bitmask test on `permissions`.
    pub fn has_permission(&self, permission: u128) -> (r: bool)
        ensures
            r == self.spec_has_permission(permission),
    {
        self.permissions & permission == permission
    }

    /// Pure bitmask test on `permission_admins`.
    pub fn has_admin_permission(&self, permission: u128) -> (r: bool)
        ensures
            r == self.spec_has_admin_permission(permission),
    {
        self.permission_admins & permission == permission
    }

    /// Succeeds exactly when the record holds every bit of `permission`.
    pub fn check_permission(&self, permission: u128) -> (r: Result<(), ErrorCode>)
        ensures
            r is Ok <==> self.spec_has_permission(permission),
            r matches Err(e) ==> e == ErrorCode::UnauthorizedPermission,
    {
        if !self.has_permission(permission) {
            return Err(ErrorCode::UnauthorizedPermission);
        }
        Ok(())
    }

    /// Succeeds exactly when the record holds every admin bit of
    /// `permission`.
    pub fn check_admin_permission(&self, permission: u128) -> (r: Result<(), ErrorCode>)
        ensures
            r is Ok <==> self.spec_has_admin_permission(permission),
            r matches Err(e) ==> e == ErrorCode::UnauthorizedAdminPermission,
    {
        if !self.has_admin_permission(permission) {
            return Err(ErrorCode::UnauthorizedAdminPermission);
        }
        Ok(())
    }

    /// Sets the given bits in `permissions`, touching nothing else, and
    /// returns the notification record. Idempotent, and never fails.
    pub fn grant_permission(&mut self, permission: u128) -> (e: PermissionGranted)
        ensures
            final(self).account == old(self).account,
            final(self).permissions == old(self).permissions | permission,
            final(self).permission_admins == old(self).permission_admins,
            e == (PermissionGranted { account: old(self).account, permission }),
    {
        self.permissions = self.permissions | permission;
        PermissionGranted { account: self.account, permission }
    }

    /// Clears the given bits in `permissions`, touching nothing else, and
    /// returns the notification record. Idempotent, and never fails.
    pub fn revoke_permission(&mut self, permission: u128) -> (e: PermissionRevoked)
        ensures
            final(self).account == old(self).account,
            final(self).permissions == old(self).permissions & !permission,
            final(self).permission_admins == old(self).permission_admins,
            e == (PermissionRevoked { account: old(self).account, permission }),
    {
        self.permissions = self.permissions & !permission;
        PermissionRevoked { account: self.account, permission }
    }

    /// Sets the given bits in `permission_admins`, touching nothing else,
    /// and returns the notification record. Idempotent, and never fails.
    pub fn grant_admin_permission(&mut self, permission: u128) -> (e: AdminPermissionGranted)
        ensures
            final(self).account == old(self).account,
            final(self).permissions == old(self).permissions,
            final(self).permission_admins == old(self).permission_admins | permission,
            e == (AdminPermissionGranted { account: old(self).account, permission }),
    {
        self.permission_admins = self.permission_admins | permission;
        AdminPermissionGranted { account: self.account, permission }
    }

    /// Clears the given bits in `permission_admins`, touching nothing else,
    /// and returns the notification record. Idempotent, and never fails.
    pub fn revoke_admin_permission(&mut self, permission: u128) -> (e: AdminPermissionRevoked)
        ensures
            final(self).account == old(self).account,
            final(self).permissions == old(self).permissions,
            final(self).permission_admins == old(self).permission_admins & !permission,
            e == (AdminPermissionRevoked { account: old(self).account, permission }),
    {
        self.permission_admins = self.permission_admins & !permission;
        AdminPermissionRevoked { account: self.account, permission }
    }
}

/// Owner gate: succeeds exactly when the caller is the configured owner.
pub fn only_owner(owner: Identity, account: Identity) -> (r: Result<(), ErrorCode>)
    ensures
        r is Ok <==> account == owner,
        r matches Err(e) ==> e == ErrorCode::UnauthorizedOwner,
{
    if account != owner {
        return Err(ErrorCode::UnauthorizedOwner);
    }
    Ok(())
}

/// Permission gate over a possibly-absent record: fails when the caller has
/// no access record at all or its record lacks a bit of `permission`.
pub fn only_permission(access: Option<&Access>, permission: u128) -> (r: Result<(), ErrorCode>)
    ensures
        r is Ok <==> access is Some && access->0.spec_has_permission(permission),
        r matches Err(e) ==> e == ErrorCode::UnauthorizedPermission,
{
    match access {
        Some(a) => a.check_permission(permission),
        None => Err(ErrorCode::UnauthorizedPermission),
    }
}

/// Admin-permission gate: fails when the caller's record lacks an admin bit
/// of `permission`.
pub fn only_permission_admin(access: &Access, permission: u128) -> (r: Result<(), ErrorCode>)
    ensures
        r is Ok <==> access.spec_has_admin_permission(permission),
        r matches Err(e) ==> e == ErrorCode::UnauthorizedAdminPermission,
{
    access.check_admin_permission(permission)
}

/// Creates the access record for a principal that has none, with both masks
/// empty; fails with `AlreadyInitialized` when a record already exists.
pub fn initialize_access_record(principal: Identity, existing: Option<&Access>) -> (r: Result<
    (Access, AccessInitialized),
    ErrorCode,
>)
    ensures
        r is Ok <==> existing is None,
        r matches Ok(p) ==> p.0 == (Access {
            account: principal,
            permissions: 0,
            permission_admins: 0,
        }) && p.1 == (AccessInitialized { account: principal }),
        r matches Err(e) ==> e == ErrorCode::AlreadyInitialized,
{
    match existing {
        Some(_) => Err(ErrorCode::AlreadyInitialized),
        None => Ok(Access::initialize(principal)),
    }
}

/// The access record that results from granting permission bits, over a
/// present-or-absent prior record: an absent record is first created with
/// empty masks.
pub open spec fn granted(to: Identity, existing: Option<Access>, permission: u128) -> Access {
    match existing {
        Some(a) => Access {
            account: a.account,
            permissions: a.permissions | permission,
            permission_admins: a.permission_admins,
        },
        None => Access { account: to, permissions: permission, permission_admins: 0 },
    }
}

/// The access record that results from revoking permission bits, over a
/// present-or-absent prior record.
pub open spec fn revoked(to: Identity, existing: Option<Access>, permission: u128) -> Access {
    match existing {
        Some(a) => Access {
            account: a.account,
            permissions: a.permissions & !permission,
            permission_admins: a.permission_admins,
        },
        None => Access { account: to, permissions: 0, permission_admins: 0 },
    }
}

/// The access record that results from granting admin-permission bits.
pub open spec fn admin_granted(to: Identity, existing: Option<Access>, permission: u128) -> Access {
    match existing {
        Some(a) => Access {
            account: a.account,
            permissions: a.permissions,
            permission_admins: a.permission_admins | permission,
        },
        None => Access { account: to, permissions: 0, permission_admins: permission },
    }
}

/// The access record that results from revoking admin-permission bits.
pub open spec fn admin_revoked(to: Identity, existing: Option<Access>, permission: u128) -> Access {
    match existing {
        Some(a) => Access {
            account: a.account,
            permissions: a.permissions,
            permission_admins: a.permission_admins & !permission,
        },
        None => Access { account: to, permissions: 0, permission_admins: 0 },
    }
}

/// The creation notification owed when the prior record was absent.
pub open spec fn creation_event(to: Identity, existing: Option<Access>) -> Option<
    AccessInitialized,
> {
    match existing {
        Some(_) => None,
        None => Some(AccessInitialized { account: to }),
    }
}

/// Fetches the access record of `principal`, or creates a fresh zero-mask
/// one when none exists; reports the creation so the caller can emit it.
pub fn fetch_or_create(principal: Identity, existing: Option<Access>) -> (r: (
    Access,
    Option<AccessInitialized>,
))
    ensures
        existing matches Some(a) ==> r.0 == a,
        existing is None ==> r.0 == (Access {
            account: principal,
            permissions: 0,
            permission_admins: 0,
        }),
        r.1 == creation_event(principal, existing),
{
    match existing {
        Some(a) => (a, None),
        None => {
            let (fresh, ev) = Access::initialize(principal);
            (fresh, Some(ev))
        },
    }
}

/// Grants permission bits to `to`, creating its record first when absent.
/// Returns the updated record and the notifications owed for the changes.
pub fn process_grant_permission(to: Identity, to_access: Option<Access>, permission: u128) -> (r: (
    Access,
    Option<AccessInitialized>,
    PermissionGranted,
))
    ensures
        r.0 == granted(to, to_access, permission),
        r.1 == creation_event(to, to_access),
        r.2 == (PermissionGranted { account: granted(to, to_access, permission).account, permission }),
{
    let (mut record, created) = fetch_or_create(to, to_access);
    proof {
        assert(0u128 | permission == permission) by (bit_vector);
    }
    let ev = record.grant_permission(permission);
    (record, created, ev)
}

/// Revokes permission bits from `to`, creating its record first when
/// absent; revoking bits already clear is a no-op that still succeeds and
/// is still reported.
pub fn process_revoke_permission(to: Identity, to_access: Option<Access>, permission: u128) -> (r: (
    Access,
    Option<AccessInitialized>,
    PermissionRevoked,
))
    ensures
        r.0 == revoked(to, to_access, permission),
        r.1 == creation_event(to, to_access),
        r.2 == (PermissionRevoked { account: revoked(to, to_access, permission).account, permission }),
{
    let (mut record, created) = fetch_or_create(to, to_access);
    proof {
        assert(0u128 & !permission == 0u128) by (bit_vector);
    }
    let ev = record.revoke_permission(permission);
    (record, created, ev)
}

/// Grants admin-permission bits to `to`, creating its record first when
/// absent.
pub fn process_grant_permission_admin(
    to: Identity,
    to_access: Option<Access>,
    permission: u128,
) -> (r: (Access, Option<AccessInitialized>, AdminPermissionGranted))
    ensures
        r.0 == admin_granted(to, to_access, permission),
        r.1 == creation_event(to, to_access),
        r.2 == (AdminPermissionGranted {
            account: admin_granted(to, to_access, permission).account,
            permission,
        }),
{
    let (mut record, created) = fetch_or_create(to, to_access);
    proof {
        assert(0u128 | permission == permission) by (bit_vector);
    }
    let ev = record.grant_admin_permission(permission);
    (record, created, ev)
}

/// Revokes admin-permission bits from `to`, creating its record first when
/// absent.
pub fn process_revoke_permission_admin(
    to: Identity,
    to_access: Option<Access>,
    permission: u128,
) -> (r: (Access, Option<AccessInitialized>, AdminPermissionRevoked))
    ensures
        r.0 == admin_revoked(to, to_access, permission),
        r.1 == creation_event(to, to_access),
        r.2 == (AdminPermissionRevoked {
            account: admin_revoked(to, to_access, permission).account,
            permission,
        }),
{
    let (mut record, created) = fetch_or_create(to, to_access);
    proof {
        assert(0u128 & !permission == 0u128) by (bit_vector);
    }
    let ev = record.revoke_admin_permission(permission);
    (record, created, ev)
}

/// The grant-permission operation as a caller sees it: the caller's own
/// admin mask must contain the exact bits being granted, and nothing is
/// changed otherwise.
pub fn grant_permission(
    admin_access: &Access,
    to: Identity,
    to_access: Option<Access>,
    permission: u128,
) -> (r: Result<(Access, Option<AccessInitialized>, PermissionGranted), ErrorCode>)
    ensures
        r is Ok <==> admin_access.spec_has_admin_permission(permission),
        r matches Ok(t) ==> t.0 == granted(to, to_access, permission) && t.1 == creation_event(
            to,
            to_access,
        ) && t.2 == (PermissionGranted {
            account: granted(to, to_access, permission).account,
            permission,
        }),
        r matches Err(e) ==> e == ErrorCode::UnauthorizedAdminPermission,
{
    only_permission_admin(admin_access, permission)?;
    Ok(process_grant_permission(to, to_access, permission))
}

/// The revoke-permission operation as a caller sees it: gated on the
/// caller's admin mask exactly like granting.
pub fn revoke_permission(
    admin_access: &Access,
    to: Identity,
    to_access: Option<Access>,
    permission: u128,
) -> (r: Result<(Access, Option<AccessInitialized>, PermissionRevoked), ErrorCode>)
    ensures
        r is Ok <==> admin_access.spec_has_admin_permission(permission),
        r matches Ok(t) ==> t.0 == revoked(to, to_access, permission) && t.1 == creation_event(
            to,
            to_access,
        ) && t.2 == (PermissionRevoked {
            account: revoked(to, to_access, permission).account,
            permission,
        }),
        r matches Err(e) ==> e == ErrorCode::UnauthorizedAdminPermission,
{
    only_permission_admin(admin_access, permission)?;
    Ok(process_revoke_permission(to, to_access, permission))
}

/// The grant-admin-permission operation as a caller sees it: administering
/// admin masks requires full owner authority, not merely admin rights on
/// the bits involved.
pub fn grant_permission_admin(
    owner: Identity,
    caller: Identity,
    to: Identity,
    to_access: Option<Access>,
    permission: u128,
) -> (r: Result<(Access, Option<AccessInitialized>, AdminPermissionGranted), ErrorCode>)
    ensures
        r is Ok <==> caller == owner,
        r matches Ok(t) ==> t.0 == admin_granted(to, to_access, permission) && t.1
            == creation_event(to, to_access) && t.2 == (AdminPermissionGranted {
            account: admin_granted(to, to_access, permission).account,
            permission,
        }),
        r matches Err(e) ==> e == ErrorCode::UnauthorizedOwner,
{
    only_owner(owner, caller)?;
    Ok(process_grant_permission_admin(to, to_access, permission))
}

/// The revoke-admin-permission operation as a caller sees it: owner-gated
/// like granting admin permissions.
pub fn revoke_permission_admin(
    owner: Identity,
    caller: Identity,
    to: Identity,
    to_access: Option<Access>,
    permission: u128,
) -> (r: Result<(Access, Option<AccessInitialized>, AdminPermissionRevoked), ErrorCode>)
    ensures
        r is Ok <==> caller == owner,
        r matches Ok(t) ==> t.0 == admin_revoked(to, to_access, permission) && t.1
            == creation_event(to, to_access) && t.2 == (AdminPermissionRevoked {
            account: admin_revoked(to, to_access, permission).account,
            permission,
        }),
        r matches Err(e) ==> e == ErrorCode::UnauthorizedOwner,
{
    only_owner(owner, caller)?;
    Ok(process_revoke_permission_admin(to, to_access, permission))
}

/// Granting is idempotent: granting bits already held changes nothing.
pub proof fn lemma_grant_idempotent(mask: u128, permission: u128)
    by (bit_vector)
    ensures
        (mask | permission) | permission == mask | permission,
{
}

/// Revoking is idempotent: revoking bits already clear changes nothing.
pub proof fn lemma_revoke_idempotent(mask: u128, permission: u128)
    by (bit_vector)
    ensures
        (mask & !permission) & !permission == mask & !permission,
{
}

/// Granting bits makes the test for exactly those bits succeed.
pub proof fn lemma_grant_gives_bits(mask: u128, permission: u128)
    ensures
        has_bits(mask | permission, permission),
{
    assert((mask | permission) & permission == permission) by (bit_vector);
}

/// Revoking bits makes any non-empty test on them fail.
pub proof fn lemma_revoke_removes_bits(mask: u128, permission: u128)
    requires
        permission != 0,
    ensures
        !has_bits(mask & !permission, permission),
{
    assert((mask & !permission) & permission != permission) by (bit_vector)
        requires
            permission != 0,
    ;
}

/// Bits disjoint from the granted ones are unaffected: possession of any
/// disjoint mask is the same before and after the grant.
pub proof fn lemma_grant_preserves_disjoint(mask: u128, changed: u128, other: u128)
    requires
        changed & other == 0,
    ensures
        has_bits(mask | changed, other) <==> has_bits(mask, other),
{
    assert(((mask | changed) & other == other) == (mask & other == other)) by (bit_vector)
        requires
            changed & other == 0,
    ;
}

/// Bits disjoint from the revoked ones are unaffected.
pub proof fn lemma_revoke_preserves_disjoint(mask: u128, changed: u128, other: u128)
    requires
        changed & other == 0,
    ensures
        has_bits(mask & !changed, other) <==> has_bits(mask, other),
{
    assert(((mask & !changed) & other == other) == (mask & other == other)) by (bit_vector)
        requires
            changed & other == 0,
    ;
}

/// Distinct single bits never satisfy each other's test: a record whose
/// admin mask is exactly bit `k` is not authorized for a different bit `j`.
pub proof fn lemma_distinct_single_bits(k: u128, j: u128)
    requires
        k < 128,
        j < 128,
        j != k,
    ensures
        !has_bits(1u128 << k, 1u128 << j),
{
    assert((1u128 << k) & (1u128 << j) != (1u128 << j)) by (bit_vector)
        requires
            k < 128 && j < 128 && j != k,
    ;
}

} // verus!
