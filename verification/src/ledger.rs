//! How the host's token service, which owns every balance, carries out the
//! requests a successful operation returns.  Balances are viewed as a map
//! from each account identity the host knows to the quantity it holds; the
//! rent (storage) balances that closing refunds are a separate currency and
//! are not modelled.

use vstd::prelude::*;

use crate::effects::CloseRequest;
use crate::effects::TransferRequest;
use crate::error::EscrowError;
use crate::ops::CancelEffects;
use crate::ops::ExchangeEffects;
use crate::ops::cancel_spec;
use crate::ops::exchange_spec;
use crate::state::EscrowRecord;

verus! {

/// Whether the token service accepts a transfer: both endpoints exist and
/// the source holds at least the amount.
pub open spec fn transfer_applies(balances: Map<u64, nat>, t: TransferRequest) -> bool {
    &&& balances.contains_key(t.source)
    &&& balances.contains_key(t.destination)
    &&& t.amount <= balances[t.source]
}

/// The balances after the host's token service performs one transfer.
pub open spec fn apply_transfer(balances: Map<u64, nat>, t: TransferRequest) -> Map<u64, nat>
    recommends
        transfer_applies(balances, t),
{
    if t.source == t.destination {
        balances
    } else {
        balances.insert(t.source, (balances[t.source] - t.amount) as nat).insert(
            t.destination,
            (balances[t.destination] + t.amount) as nat,
        )
    }
}

/// The balances after the host's token service closes one account: the
/// account ceases to exist.
pub open spec fn apply_close(balances: Map<u64, nat>, c: CloseRequest) -> Map<u64, nat> {
    balances.remove(c.target)
}

/// The balances after the host performs a successful exchange's requests,
/// in their stated order, as one atomic unit.
pub open spec fn apply_exchange_effects(balances: Map<u64, nat>, e: ExchangeEffects) -> Map<
    u64,
    nat,
> {
    apply_close(
        apply_transfer(apply_transfer(balances, e.pay_initializer), e.pay_taker),
        e.close_temp_holding,
    )
}

/// A successful exchange settles exactly as promised: the initializer's
/// receive account gains exactly the expected amount, the taker's receive
/// account gains exactly the prior temporary holding balance, and the
/// temporary holding account ceases to exist.  (The record itself is
/// destroyed in the same atomic unit.)  Stated for the ordinary case of four
/// pairwise distinct token accounts; with coinciding accounts — say the
/// taker paying out of the very account the initializer is paid into — the
/// deltas cancel instead.
pub proof fn lemma_exchange_settlement(
    record: EscrowRecord,
    taker_identity: u64,
    taker_source_identity: u64,
    taker_receive_identity: u64,
    taker_offered_amount: u64,
    temp_holding_balance: u64,
    now: u64,
    program_identity: u64,
    balances: Map<u64, nat>,
    e: ExchangeEffects,
)
    requires
        exchange_spec(
            record,
            taker_identity,
            taker_source_identity,
            taker_receive_identity,
            taker_offered_amount,
            temp_holding_balance,
            now,
            program_identity,
        ) == Ok::<ExchangeEffects, EscrowError>(e),
        balances.contains_key(taker_source_identity),
        balances.contains_key(taker_receive_identity),
        balances.contains_key(record.initializer_receive_identity),
        balances.contains_key(record.temp_holding_identity),
        balances[taker_source_identity] >= record.expected_amount,
        balances[record.temp_holding_identity] == temp_holding_balance,
        taker_source_identity != taker_receive_identity,
        taker_source_identity != record.initializer_receive_identity,
        taker_source_identity != record.temp_holding_identity,
        taker_receive_identity != record.initializer_receive_identity,
        taker_receive_identity != record.temp_holding_identity,
        record.initializer_receive_identity != record.temp_holding_identity,
    ensures
        apply_exchange_effects(balances, e)[record.initializer_receive_identity]
            == balances[record.initializer_receive_identity] + record.expected_amount,
        apply_exchange_effects(balances, e)[taker_receive_identity]
            == balances[taker_receive_identity] + temp_holding_balance,
        !apply_exchange_effects(balances, e).contains_key(record.temp_holding_identity),
        apply_exchange_effects(balances, e)[taker_source_identity]
            == balances[taker_source_identity] - record.expected_amount,
{
}

/// A successful cancel refunds in full: the initializer's account gains
/// exactly the temporary holding balance, which is left empty for the host
/// to close.  No clock reading enters `cancel_spec` at all, so this holds
/// regardless of the clock value.  (The record is destroyed in the same
/// atomic unit.)  Stated for the ordinary case of the holding account being
/// distinct from the initializer's.
pub proof fn lemma_cancel_refund(
    record: EscrowRecord,
    caller_identity: u64,
    temp_holding_balance: u64,
    program_identity: u64,
    balances: Map<u64, nat>,
    e: CancelEffects,
)
    requires
        cancel_spec(record, caller_identity, temp_holding_balance, program_identity) == Ok::<
            CancelEffects,
            EscrowError,
        >(e),
        balances.contains_key(record.temp_holding_identity),
        balances.contains_key(record.initializer_identity),
        balances[record.temp_holding_identity] == temp_holding_balance,
        record.temp_holding_identity != record.initializer_identity,
    ensures
        apply_transfer(balances, e.refund_initializer)[record.initializer_identity]
            == balances[record.initializer_identity] + temp_holding_balance,
        apply_transfer(balances, e.refund_initializer)[record.temp_holding_identity] == 0,
        e.record_rent_destination == record.initializer_identity,
{
}

} // verus!
