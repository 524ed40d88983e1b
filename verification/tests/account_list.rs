use escrow::EscrowError;
use escrow::EscrowInstruction;
use escrow::accounts::{check_account_count, required_account_count};

#[test]
fn each_operation_has_its_arity() {
    assert_eq!(
        required_account_count(&EscrowInstruction::InitEscrow { amount: 1 }),
        6
    );
    assert_eq!(
        required_account_count(&EscrowInstruction::Exchange { amount: 1 }),
        9
    );
    assert_eq!(
        required_account_count(&EscrowInstruction::ResetTimeLock {}),
        2
    );
    assert_eq!(required_account_count(&EscrowInstruction::Cancel {}), 5);
}

#[test]
fn missing_accounts_are_refused() {
    let r = check_account_count(&EscrowInstruction::InitEscrow { amount: 1 }, 5);
    assert_eq!(r, Err(EscrowError::NotEnoughAccountKeys));
    let r = check_account_count(&EscrowInstruction::Exchange { amount: 1 }, 0);
    assert_eq!(r, Err(EscrowError::NotEnoughAccountKeys));
}

#[test]
fn sufficient_accounts_pass() {
    assert_eq!(
        check_account_count(&EscrowInstruction::InitEscrow { amount: 1 }, 6),
        Ok(())
    );
    assert_eq!(
        check_account_count(&EscrowInstruction::Cancel {}, 7),
        Ok(())
    );
}
