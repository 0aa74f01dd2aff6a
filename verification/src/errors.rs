use vstd::prelude::*;

verus! {

/// Terminal, transaction-aborting failures. Every fallible step surfaces its
/// error immediately; the host discards all state on a rejected transaction.
#[derive(Clone, Copy, Debug, PartialEq, Eq, Structural)]
pub enum ErrorCode {
    /// Donations are paused.
    Paused,
    /// Amount must be greater than zero.
    InvalidAmount,
    /// Nickname exceeds maximum length.
    NicknameTooLong,
    /// Description exceeds maximum length.
    DescriptionTooLong,
    /// Arithmetic overflow.
    Overflow,
    /// Caller identity does not match the required owner or admin.
    Unauthorized,
    /// Donor index address or contents do not match what was derived.
    InvalidDonorIndex,
    /// Donor index slot exists but is not owned by this program.
    InvalidDonorIndexOwner,
}

} // verus!
