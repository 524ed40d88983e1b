use vstd::prelude::*;

use vstd::bytes::spec_u64_from_le_bytes;
use vstd::bytes::u64_from_le_bytes;
use vstd::slice::slice_index_get;
use vstd::slice::slice_subrange;

use crate::error::EscrowError;

verus! {

/// The operation a caller selects, decoded from the instruction payload.
///
/// The payload is one selector byte followed by the operation's typed
/// arguments; an amount travels as eight little-endian bytes.
#[derive(Clone, Copy, Debug, PartialEq, Eq, Structural)]
pub enum EscrowInstruction {
    /// Create the escrow, demanding `amount` in return for the deposit.
    InitEscrow { amount: u64 },
    /// Execute the swap, offering `amount` for the deposit.
    Exchange { amount: u64 },
    /// Restart the time window from the current clock reading.
    ResetTimeLock {},
    /// Return the deposit to the initializer and destroy the record.
    Cancel {},
}

impl EscrowInstruction {
    /// What `unpack_amount` reads: the first eight bytes, little-endian.
    pub open spec fn unpack_amount_spec(input: Seq<u8>) -> Result<u64, EscrowError> {
        if input.len() >= 8 {
            Ok(spec_u64_from_le_bytes(input.subrange(0, 8)))
        } else {
            Err(EscrowError::InvalidInstruction)
        }
    }

    /// What `unpack` decodes: the selector byte picks the operation, and
    /// the bytes after it carry its arguments.
    pub open spec fn unpack_spec(input: Seq<u8>) -> Result<EscrowInstruction, EscrowError> {
        if input.len() == 0 {
            Err(EscrowError::InvalidInstruction)
        } else {
            let rest = input.subrange(1, input.len() as int);
            if input[0] == 0 {
                match Self::unpack_amount_spec(rest) {
                    Ok(amount) => Ok(EscrowInstruction::InitEscrow { amount }),
                    Err(e) => Err(e),
                }
            } else if input[0] == 1 {
                match Self::unpack_amount_spec(rest) {
                    Ok(amount) => Ok(EscrowInstruction::Exchange { amount }),
                    Err(e) => Err(e),
                }
            } else if input[0] == 2 {
                Ok(EscrowInstruction::ResetTimeLock {})
            } else if input[0] == 3 {
                Ok(EscrowInstruction::Cancel {})
            } else {
                Err(EscrowError::InvalidInstruction)
            }
        }
    }

    /// Decodes an instruction payload; any byte past what the selected
    /// operation consumes is ignored, as the wire format allows.
    pub fn unpack(input: &[u8]) -> (r: Result<Self, EscrowError>)
        ensures
            r == Self::unpack_spec(input@),
    {
        if input.len() == 0 {
            return Err(EscrowError::InvalidInstruction);
        }
        let tag = *slice_index_get(input, 0);
        let rest = slice_subrange(input, 1, input.len());
        match tag {
            0 => match Self::unpack_amount(rest) {
                Ok(amount) => Ok(EscrowInstruction::InitEscrow { amount }),
                Err(e) => Err(e),
            },
            1 => match Self::unpack_amount(rest) {
                Ok(amount) => Ok(EscrowInstruction::Exchange { amount }),
                Err(e) => Err(e),
            },
            2 => Ok(EscrowInstruction::ResetTimeLock {}),
            3 => Ok(EscrowInstruction::Cancel {}),
            _ => Err(EscrowError::InvalidInstruction),
        }
    }

    /// Reads an amount: the first eight bytes of `input`, little-endian.
    pub fn unpack_amount(input: &[u8]) -> (r: Result<u64, EscrowError>)
        ensures
            r == Self::unpack_amount_spec(input@),
    {
        if input.len() < 8 {
            return Err(EscrowError::InvalidInstruction);
        }
        let bytes = slice_subrange(input, 0, 8);
        Ok(u64_from_le_bytes(bytes))
    }
}

} // verus!
