//! The inbound account-list contract: each operation receives an ordered
//! list of account handles from the caller, and supplying fewer than the
//! operation consumes is a hard error before any logic runs.

use vstd::prelude::*;

use crate::error::EscrowError;
use crate::instruction::EscrowInstruction;

verus! {

/// How many account handles each operation consumes, in the fixed order the
/// wire contract assigns them: the parties, the token accounts the legs
/// touch, the escrow record, and the host programs asked to act.
pub open spec fn required_account_count_spec(instruction: EscrowInstruction) -> int {
    match instruction {
        EscrowInstruction::InitEscrow { .. } => 6,
        EscrowInstruction::Exchange { .. } => 9,
        EscrowInstruction::ResetTimeLock { .. } => 2,
        EscrowInstruction::Cancel { .. } => 5,
    }
}

/// How many account handles the given operation consumes.
pub fn required_account_count(instruction: &EscrowInstruction) -> (n: usize)
    ensures
        n == required_account_count_spec(*instruction),
{
    match instruction {
        EscrowInstruction::InitEscrow { .. } => 6,
        EscrowInstruction::Exchange { .. } => 9,
        EscrowInstruction::ResetTimeLock { .. } => 2,
        EscrowInstruction::Cancel { .. } => 5,
    }
}

/// Rejects an invocation whose caller supplied fewer account handles than
/// the selected operation consumes.
pub fn check_account_count(instruction: &EscrowInstruction, supplied: usize) -> (r: Result<
    (),
    EscrowError,
>)
    ensures
        r is Ok <==> supplied >= required_account_count_spec(*instruction),
        r is Err ==> r == Err::<(), EscrowError>(EscrowError::NotEnoughAccountKeys),
{
    if supplied < required_account_count(instruction) {
        Err(EscrowError::NotEnoughAccountKeys)
    } else {
        Ok(())
    }
}

} // verus!
