use vstd::prelude::*;

verus! {

/// Failure taxonomy of the vault core. Every error is terminal for the
/// enclosing operation: the core performs no recovery or retry, and an
/// operation that fails leaves every record unchanged.
#[derive(Clone, Copy, Debug, PartialEq, Eq, Structural)]
pub enum ErrorCode {
    /// The caller is not the pool owner.
    UnauthorizedOwner,
    /// The caller holds no access record, or the required permission bit is
    /// unset in it.
    UnauthorizedPermission,
    /// The required bit is unset in the caller's admin permissions.
    UnauthorizedAdminPermission,
    /// A multiply-then-divide had a zero divisor or a result that does not
    /// fit the native 64-bit width.
    ArithmeticOverflow,
    /// The asset precision exceeds the configured maximum, so no valid
    /// decimals offset exists.
    InvalidAssetConfiguration,
    /// A caller-supplied identity does not match the configuration record.
    ConfigMismatch,
    /// An access record already exists for the principal.
    AlreadyInitialized,
}

} // verus!
