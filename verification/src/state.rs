use vstd::prelude::*;

verus! {

/// One pending token swap and its time window.
///
/// The record is persisted by the host runtime; parties and accounts appear
/// here as the opaque numeric identities under which the host knows them.
/// It is created blank, filled exactly once by `initialize`, and destroyed
/// on a successful exchange or an explicit cancel.
#[derive(Clone, Copy, Debug, PartialEq, Eq, Structural)]
pub struct EscrowRecord {
    /// Set exactly once; guards against re-initialization and against
    /// operating on a record that was never filled.
    pub initialized: bool,
    /// The party that created the escrow.
    pub initializer_identity: u64,
    /// The intermediate account holding the initializer's deposited asset,
    /// owned by the program-derived authority while the escrow is pending.
    pub temp_holding_identity: u64,
    /// The account that should receive the counterparty's asset.
    pub initializer_receive_identity: u64,
    /// The quantity the initializer demands in return.
    pub expected_amount: u64,
    /// Earliest clock reading at which the swap may execute.
    pub unlock_time: u64,
    /// Latest clock reading after which the swap may no longer execute.
    pub timeout_time: u64,
}

impl EscrowRecord {
    /// An initialized record always has an open window ahead of its start.
    pub open spec fn wf(self) -> bool {
        self.initialized ==> self.unlock_time < self.timeout_time
    }

    /// The blank record as the host's account-creation service allocates it:
    /// zeroed storage, not yet initialized.
    pub fn blank() -> (r: EscrowRecord)
        ensures
            !r.initialized,
            r.initializer_identity == 0,
            r.temp_holding_identity == 0,
            r.initializer_receive_identity == 0,
            r.expected_amount == 0,
            r.unlock_time == 0,
            r.timeout_time == 0,
            r.wf(),
    {
        EscrowRecord {
            initialized: false,
            initializer_identity: 0,
            temp_holding_identity: 0,
            initializer_receive_identity: 0,
            expected_amount: 0,
            unlock_time: 0,
            timeout_time: 0,
        }
    }
}

} // verus!
