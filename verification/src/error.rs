use vstd::prelude::*;

verus! {

/// Why an escrow operation refused an invocation.
///
/// Every error is a terminal rejection of the whole invocation: the host
/// discards all partial effects, so a failed call leaves every record and
/// every balance exactly as it was.
#[derive(Clone, Copy, Debug, PartialEq, Eq, Structural)]
pub enum EscrowError {
    /// The operation selector or its argument payload cannot be parsed.
    InvalidInstruction,
    /// A record does not hold the minimum balance that keeps it persistent.
    NotRentExempt,
    /// The taker's offer does not equal the deposited amount.
    ExpectedAmountMismatch,
    /// Amount arithmetic would exceed the numeric range.
    AmountOverflow,
    /// The call came before the time window opens.
    EscrowUnlockTime,
    /// The call came after the time window closed.
    EscrowTimeout,
    /// The record was already initialized.
    AccountAlreadyInitialized,
    /// The record was never initialized, or was already destroyed.
    UninitializedAccount,
    /// The caller does not hold the authority the operation demands.
    IncorrectProgramId,
    /// The caller supplied fewer account handles than the operation needs.
    NotEnoughAccountKeys,
}

} // verus!
