use escrow::EscrowError;
use escrow::EscrowInstruction;

fn payload(tag: u8, amount: u64) -> Vec<u8> {
    let mut bytes = vec![tag];
    bytes.extend_from_slice(&amount.to_le_bytes());
    bytes
}

#[test]
fn unpack_init_escrow() {
    let r = EscrowInstruction::unpack(&payload(0, 500));
    assert_eq!(r, Ok(EscrowInstruction::InitEscrow { amount: 500 }));
}

#[test]
fn unpack_exchange() {
    let r = EscrowInstruction::unpack(&payload(1, 499));
    assert_eq!(r, Ok(EscrowInstruction::Exchange { amount: 499 }));
}

#[test]
fn unpack_reset_time_lock() {
    let r = EscrowInstruction::unpack(&[2]);
    assert_eq!(r, Ok(EscrowInstruction::ResetTimeLock {}));
}

#[test]
fn unpack_cancel() {
    let r = EscrowInstruction::unpack(&[3]);
    assert_eq!(r, Ok(EscrowInstruction::Cancel {}));
}

#[test]
fn unpack_empty_payload() {
    let r = EscrowInstruction::unpack(&[]);
    assert_eq!(r, Err(EscrowError::InvalidInstruction));
}

#[test]
fn unpack_unknown_selector() {
    assert_eq!(
        EscrowInstruction::unpack(&payload(4, 500)),
        Err(EscrowError::InvalidInstruction)
    );
    assert_eq!(
        EscrowInstruction::unpack(&[255]),
        Err(EscrowError::InvalidInstruction)
    );
}

#[test]
fn unpack_truncated_amount() {
    let mut bytes = vec![0u8];
    bytes.extend_from_slice(&[1, 2, 3, 4, 5, 6, 7]);
    assert_eq!(
        EscrowInstruction::unpack(&bytes),
        Err(EscrowError::InvalidInstruction)
    );
}

#[test]
fn unpack_ignores_trailing_bytes() {
    let mut bytes = payload(1, 77);
    bytes.extend_from_slice(&[9, 9, 9]);
    assert_eq!(
        EscrowInstruction::unpack(&bytes),
        Ok(EscrowInstruction::Exchange { amount: 77 })
    );
    assert_eq!(
        EscrowInstruction::unpack(&[2, 1, 2, 3]),
        Ok(EscrowInstruction::ResetTimeLock {})
    );
}

#[test]
fn unpack_amount_little_endian() {
    let bytes = [1u8, 2, 0, 0, 0, 0, 0, 0];
    assert_eq!(EscrowInstruction::unpack_amount(&bytes), Ok(513));
}

#[test]
fn unpack_amount_largest() {
    let bytes = [0xFFu8; 8];
    assert_eq!(EscrowInstruction::unpack_amount(&bytes), Ok(u64::MAX));
}

#[test]
fn unpack_amount_short_input() {
    assert_eq!(
        EscrowInstruction::unpack_amount(&[1, 2, 3]),
        Err(EscrowError::InvalidInstruction)
    );
}
