use vstd::prelude::*;

verus! {

/// Every way an invocation can fail. Each failure aborts the invocation
/// immediately and leaves the account buffer untouched; no error is ever
/// recovered from or silently replaced by a default.
#[derive(Clone, Copy, Debug, PartialEq, Eq, Structural)]
pub enum ProcessError {
    /// The caller is not the account's declared owner.
    OwnershipViolation,
    /// The account buffer cannot be decoded as a state record.
    MalformedState,
    /// The instruction buffer is truncated or carries an unrecognized
    /// operation tag.
    MalformedInstruction,
    /// The requested arithmetic leaves the representable range. Overflow is
    /// checked explicitly and surfaced as this error, never left to wrap or
    /// panic.
    ArithmeticFault,
}

} // verus!
