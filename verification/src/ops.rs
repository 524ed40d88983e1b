use vstd::prelude::*;

use crate::effects::Authority;
use crate::effects::CloseRequest;
use crate::effects::SetAuthorityRequest;
use crate::effects::TransferRequest;
use crate::error::EscrowError;
use crate::state::EscrowRecord;

verus! {

/// Clock ticks between the initializing call and the opening of the window.
pub const UNLOCK_OFFSET: u64 = 100;

/// Clock ticks the window stays open once it has opened.
pub const TIMEOUT_OFFSET: u64 = 1000;

/// Everything the host is asked to perform, as one atomic unit, when an
/// exchange succeeds.  The host either applies all of it or none of it; the
/// escrow record itself is destroyed in the same unit, its reclaimed rent
/// refunded to `record_rent_destination`.
#[derive(Clone, Copy, Debug, PartialEq, Eq, Structural)]
pub struct ExchangeEffects {
    /// The taker's asset moves to the initializer's receive account.
    pub pay_initializer: TransferRequest,
    /// The full temporary holding balance moves to the taker.
    pub pay_taker: TransferRequest,
    /// The emptied temporary holding account is closed, its rent refunded
    /// to the initializer.
    pub close_temp_holding: CloseRequest,
    /// Who receives the destroyed record's reclaimed rent.
    pub record_rent_destination: u64,
}

/// Everything the host is asked to perform when a cancel succeeds.  The
/// escrow record is destroyed in the same atomic unit, its reclaimed rent
/// refunded to `record_rent_destination`.
#[derive(Clone, Copy, Debug, PartialEq, Eq, Structural)]
pub struct CancelEffects {
    /// The full temporary holding balance moves back to the initializer.
    pub refund_initializer: TransferRequest,
    /// Who receives the destroyed record's reclaimed rent.
    pub record_rent_destination: u64,
}

/// What `initialize` does, as a function of its inputs.
pub open spec fn initialize_spec(
    record: EscrowRecord,
    initializer_identity: u64,
    temp_holding_identity: u64,
    initializer_receive_identity: u64,
    expected_amount: u64,
    now: u64,
    program_identity: u64,
) -> Result<(EscrowRecord, SetAuthorityRequest), EscrowError> {
    if record.initialized {
        Err(EscrowError::AccountAlreadyInitialized)
    } else if now + UNLOCK_OFFSET + TIMEOUT_OFFSET > u64::MAX {
        Err(EscrowError::AmountOverflow)
    } else {
        Ok((
            EscrowRecord {
                initialized: true,
                initializer_identity: initializer_identity,
                temp_holding_identity: temp_holding_identity,
                initializer_receive_identity: initializer_receive_identity,
                expected_amount: expected_amount,
                unlock_time: (now + UNLOCK_OFFSET) as u64,
                timeout_time: (now + UNLOCK_OFFSET + TIMEOUT_OFFSET) as u64,
            },
            SetAuthorityRequest {
                target: temp_holding_identity,
                current_authority: initializer_identity,
                new_authority: Authority::ProgramDerived(program_identity),
            },
        ))
    }
}

/// Creates the escrow: persists all record fields, opens the time window
/// `UNLOCK_OFFSET` ticks from `now` for `TIMEOUT_OFFSET` ticks, and asks the
/// host to hand the temporary holding account to the program-derived
/// authority, so that only this program's later logic can move the deposit.
pub fn initialize(
    record: &mut EscrowRecord,
    initializer_identity: u64,
    temp_holding_identity: u64,
    initializer_receive_identity: u64,
    expected_amount: u64,
    now: u64,
    program_identity: u64,
) -> (r: Result<SetAuthorityRequest, EscrowError>)
    ensures
        match initialize_spec(
            *old(record),
            initializer_identity,
            temp_holding_identity,
            initializer_receive_identity,
            expected_amount,
            now,
            program_identity,
        ) {
            Ok((rec, req)) => r == Ok::<SetAuthorityRequest, EscrowError>(req) && *final(record)
                == rec,
            Err(e) => r == Err::<SetAuthorityRequest, EscrowError>(e) && *final(record) == *old(
                record,
            ),
        },
        r is Ok <==> !old(record).initialized && now + UNLOCK_OFFSET + TIMEOUT_OFFSET
            <= u64::MAX,
        r is Ok ==> final(record).initialized && final(record).unlock_time == now + UNLOCK_OFFSET
            && final(record).timeout_time == now + UNLOCK_OFFSET + TIMEOUT_OFFSET,
        r is Ok ==> final(record).timeout_time - final(record).unlock_time == TIMEOUT_OFFSET,
        old(record).initialized ==> r == Err::<SetAuthorityRequest, EscrowError>(
            EscrowError::AccountAlreadyInitialized,
        ),
        r is Err ==> *final(record) == *old(record),
        old(record).wf() ==> final(record).wf(),
{
    if record.initialized {
        return Err(EscrowError::AccountAlreadyInitialized);
    }
    if now > u64::MAX - UNLOCK_OFFSET - TIMEOUT_OFFSET {
        return Err(EscrowError::AmountOverflow);
    }
    let unlock_time = now + UNLOCK_OFFSET;
    let timeout_time = unlock_time + TIMEOUT_OFFSET;
    *record = EscrowRecord {
        initialized: true,
        initializer_identity: initializer_identity,
        temp_holding_identity: temp_holding_identity,
        initializer_receive_identity: initializer_receive_identity,
        expected_amount: expected_amount,
        unlock_time: unlock_time,
        timeout_time: timeout_time,
    };
    Ok(
        SetAuthorityRequest {
            target: temp_holding_identity,
            current_authority: initializer_identity,
            new_authority: Authority::ProgramDerived(program_identity),
        },
    )
}

/// What `exchange` does, as a function of its inputs.
pub open spec fn exchange_spec(
    record: EscrowRecord,
    taker_identity: u64,
    taker_source_identity: u64,
    taker_receive_identity: u64,
    taker_offered_amount: u64,
    temp_holding_balance: u64,
    now: u64,
    program_identity: u64,
) -> Result<ExchangeEffects, EscrowError> {
    if !record.initialized {
        Err(EscrowError::UninitializedAccount)
    } else if taker_offered_amount != temp_holding_balance {
        Err(EscrowError::ExpectedAmountMismatch)
    } else if now < record.unlock_time {
        Err(EscrowError::EscrowUnlockTime)
    } else if now > record.timeout_time {
        Err(EscrowError::EscrowTimeout)
    } else {
        Ok(
            ExchangeEffects {
                pay_initializer: TransferRequest {
                    source: taker_source_identity,
                    destination: record.initializer_receive_identity,
                    amount: record.expected_amount,
                    authority: Authority::Party(taker_identity),
                },
                pay_taker: TransferRequest {
                    source: record.temp_holding_identity,
                    destination: taker_receive_identity,
                    amount: temp_holding_balance,
                    authority: Authority::ProgramDerived(program_identity),
                },
                close_temp_holding: CloseRequest {
                    target: record.temp_holding_identity,
                    rent_destination: record.initializer_identity,
                    authority: Authority::ProgramDerived(program_identity),
                },
                record_rent_destination: record.initializer_identity,
            },
        )
    }
}

/// Performs the three-leg swap: inside the window, and only when the taker's
/// offer equals the deposited balance, it asks the host to (a) pay the
/// initializer the expected amount from the taker's source account, (b) pay
/// the taker the full temporary holding balance, and (c) close the temporary
/// holding account — one atomic unit in which the record is destroyed too.
/// On any error nothing is requested, so every balance and the record stay
/// unchanged.
pub fn exchange(
    record: &EscrowRecord,
    taker_identity: u64,
    taker_source_identity: u64,
    taker_receive_identity: u64,
    taker_offered_amount: u64,
    temp_holding_balance: u64,
    now: u64,
    program_identity: u64,
) -> (r: Result<ExchangeEffects, EscrowError>)
    ensures
        r == exchange_spec(
            *record,
            taker_identity,
            taker_source_identity,
            taker_receive_identity,
            taker_offered_amount,
            temp_holding_balance,
            now,
            program_identity,
        ),
        r is Ok <==> record.initialized && taker_offered_amount == temp_holding_balance
            && record.unlock_time <= now <= record.timeout_time,
        r == Err::<ExchangeEffects, EscrowError>(EscrowError::ExpectedAmountMismatch)
            <==> record.initialized && taker_offered_amount != temp_holding_balance,
        r == Err::<ExchangeEffects, EscrowError>(EscrowError::EscrowUnlockTime)
            <==> record.initialized && taker_offered_amount == temp_holding_balance && now
            < record.unlock_time,
        r == Err::<ExchangeEffects, EscrowError>(EscrowError::EscrowTimeout) <==> record.initialized
            && taker_offered_amount == temp_holding_balance && now >= record.unlock_time && now
            > record.timeout_time,
        r matches Ok(e) ==> e.pay_initializer == (TransferRequest {
            source: taker_source_identity,
            destination: record.initializer_receive_identity,
            amount: record.expected_amount,
            authority: Authority::Party(taker_identity),
        }) && e.pay_taker == (TransferRequest {
            source: record.temp_holding_identity,
            destination: taker_receive_identity,
            amount: temp_holding_balance,
            authority: Authority::ProgramDerived(program_identity),
        }) && e.close_temp_holding == (CloseRequest {
            target: record.temp_holding_identity,
            rent_destination: record.initializer_identity,
            authority: Authority::ProgramDerived(program_identity),
        }) && e.record_rent_destination == record.initializer_identity,
{
    if !record.initialized {
        return Err(EscrowError::UninitializedAccount);
    }
    if taker_offered_amount != temp_holding_balance {
        return Err(EscrowError::ExpectedAmountMismatch);
    }
    if now < record.unlock_time {
        return Err(EscrowError::EscrowUnlockTime);
    }
    if now > record.timeout_time {
        return Err(EscrowError::EscrowTimeout);
    }
    Ok(
        ExchangeEffects {
            pay_initializer: TransferRequest {
                source: taker_source_identity,
                destination: record.initializer_receive_identity,
                amount: record.expected_amount,
                authority: Authority::Party(taker_identity),
            },
            pay_taker: TransferRequest {
                source: record.temp_holding_identity,
                destination: taker_receive_identity,
                amount: temp_holding_balance,
                authority: Authority::ProgramDerived(program_identity),
            },
            close_temp_holding: CloseRequest {
                target: record.temp_holding_identity,
                rent_destination: record.initializer_identity,
                authority: Authority::ProgramDerived(program_identity),
            },
            record_rent_destination: record.initializer_identity,
        },
    )
}

/// What `cancel` does, as a function of its inputs.
pub open spec fn cancel_spec(
    record: EscrowRecord,
    caller_identity: u64,
    temp_holding_balance: u64,
    program_identity: u64,
) -> Result<CancelEffects, EscrowError> {
    if !record.initialized {
        Err(EscrowError::UninitializedAccount)
    } else if caller_identity != record.initializer_identity {
        Err(EscrowError::IncorrectProgramId)
    } else {
        Ok(
            CancelEffects {
                refund_initializer: TransferRequest {
                    source: record.temp_holding_identity,
                    destination: record.initializer_identity,
                    amount: temp_holding_balance,
                    authority: Authority::ProgramDerived(program_identity),
                },
                record_rent_destination: record.initializer_identity,
            },
        )
    }
}

/// Returns the full temporary holding balance to the initializer, through
/// the program-derived authority, and destroys the record in the same atomic
/// unit.  Only the recorded initializer may cancel; there is deliberately no
/// time-window check, so cancellation is possible at any clock value.
pub fn cancel(
    record: &EscrowRecord,
    caller_identity: u64,
    temp_holding_balance: u64,
    program_identity: u64,
) -> (r: Result<CancelEffects, EscrowError>)
    ensures
        r == cancel_spec(*record, caller_identity, temp_holding_balance, program_identity),
        r is Ok <==> record.initialized && caller_identity == record.initializer_identity,
        r matches Ok(e) ==> e.refund_initializer == (TransferRequest {
            source: record.temp_holding_identity,
            destination: record.initializer_identity,
            amount: temp_holding_balance,
            authority: Authority::ProgramDerived(program_identity),
        }) && e.record_rent_destination == record.initializer_identity,
        record.initialized && caller_identity != record.initializer_identity ==> r == Err::<
            CancelEffects,
            EscrowError,
        >(EscrowError::IncorrectProgramId),
{
    if !record.initialized {
        return Err(EscrowError::UninitializedAccount);
    }
    if caller_identity != record.initializer_identity {
        return Err(EscrowError::IncorrectProgramId);
    }
    Ok(
        CancelEffects {
            refund_initializer: TransferRequest {
                source: record.temp_holding_identity,
                destination: record.initializer_identity,
                amount: temp_holding_balance,
                authority: Authority::ProgramDerived(program_identity),
            },
            record_rent_destination: record.initializer_identity,
        },
    )
}

/// What `reset_time_lock` does, as a function of its inputs.
pub open spec fn reset_time_lock_spec(record: EscrowRecord, caller_identity: u64, now: u64) -> Result<
    EscrowRecord,
    EscrowError,
> {
    if !record.initialized {
        Err(EscrowError::UninitializedAccount)
    } else if caller_identity != record.initializer_identity {
        Err(EscrowError::IncorrectProgramId)
    } else if now + UNLOCK_OFFSET + TIMEOUT_OFFSET > u64::MAX {
        Err(EscrowError::AmountOverflow)
    } else {
        Ok(
            EscrowRecord {
                unlock_time: (now + UNLOCK_OFFSET) as u64,
                timeout_time: (now + UNLOCK_OFFSET + TIMEOUT_OFFSET) as u64,
                ..record
            },
        )
    }
}

/// Restarts the time window from the current clock reading, keeping every
/// other field of the record exactly as it was.  Only the recorded
/// initializer may reset the window.
pub fn reset_time_lock(record: &mut EscrowRecord, caller_identity: u64, now: u64) -> (r: Result<
    (),
    EscrowError,
>)
    ensures
        match reset_time_lock_spec(*old(record), caller_identity, now) {
            Ok(rec) => r == Ok::<(), EscrowError>(()) && *final(record) == rec,
            Err(e) => r == Err::<(), EscrowError>(e) && *final(record) == *old(record),
        },
        r is Ok <==> old(record).initialized && caller_identity == old(
            record,
        ).initializer_identity && now + UNLOCK_OFFSET + TIMEOUT_OFFSET <= u64::MAX,
        r is Ok ==> *final(record) == (EscrowRecord {
            unlock_time: (now + UNLOCK_OFFSET) as u64,
            timeout_time: (now + UNLOCK_OFFSET + TIMEOUT_OFFSET) as u64,
            ..*old(record)
        }),
        r is Ok ==> final(record).timeout_time - final(record).unlock_time == TIMEOUT_OFFSET,
        r is Err ==> *final(record) == *old(record),
        old(record).wf() ==> final(record).wf(),
{
    if !record.initialized {
        return Err(EscrowError::UninitializedAccount);
    }
    if caller_identity != record.initializer_identity {
        return Err(EscrowError::IncorrectProgramId);
    }
    if now > u64::MAX - UNLOCK_OFFSET - TIMEOUT_OFFSET {
        return Err(EscrowError::AmountOverflow);
    }
    let unlock_time = now + UNLOCK_OFFSET;
    let timeout_time = unlock_time + TIMEOUT_OFFSET;
    record.unlock_time = unlock_time;
    record.timeout_time = timeout_time;
    Ok(())
}

/// Once a record has been initialized, initializing it again always fails
/// with `AccountAlreadyInitialized`, whatever the new arguments and whatever
/// the clock says — so the record that the first call produced stands.
pub proof fn lemma_initialize_only_once(
    record: EscrowRecord,
    initializer_identity: u64,
    temp_holding_identity: u64,
    initializer_receive_identity: u64,
    expected_amount: u64,
    now: u64,
    program_identity: u64,
    second_initializer_identity: u64,
    second_temp_holding_identity: u64,
    second_initializer_receive_identity: u64,
    second_expected_amount: u64,
    second_now: u64,
    second_program_identity: u64,
)
    requires
        initialize_spec(
            record,
            initializer_identity,
            temp_holding_identity,
            initializer_receive_identity,
            expected_amount,
            now,
            program_identity,
        ) is Ok,
    ensures
        initialize_spec(
            initialize_spec(
                record,
                initializer_identity,
                temp_holding_identity,
                initializer_receive_identity,
                expected_amount,
                now,
                program_identity,
            )->Ok_0.0,
            second_initializer_identity,
            second_temp_holding_identity,
            second_initializer_receive_identity,
            second_expected_amount,
            second_now,
            second_program_identity,
        ) == Err::<(EscrowRecord, SetAuthorityRequest), EscrowError>(
            EscrowError::AccountAlreadyInitialized,
        ),
{
}

} // verus!
