use vstd::prelude::*;

verus! {

/// Who authorizes a requested host action.
///
/// A program-derived authority is a deterministic, keyless address computed
/// by the host from a fixed derivation label and the owning program's
/// identity.  Carrying the program identity here passes that verification
/// path explicitly: the host recomputes the derivation and produces the
/// authorization proof on the program's behalf, so no request relies on an
/// implicit global capability.
#[derive(Clone, Copy, Debug, PartialEq, Eq, Structural)]
pub enum Authority {
    /// The named party signs for itself.
    Party(u64),
    /// The authority derived from the named program's identity signs.
    ProgramDerived(u64),
}

/// A request that the host's token service move `amount` from `source` to
/// `destination`, authorized as stated.
#[derive(Clone, Copy, Debug, PartialEq, Eq, Structural)]
pub struct TransferRequest {
    pub source: u64,
    pub destination: u64,
    pub amount: u64,
    pub authority: Authority,
}

/// A request that the host's token service close the `target` account,
/// refunding its reclaimed rent balance to `rent_destination`.
#[derive(Clone, Copy, Debug, PartialEq, Eq, Structural)]
pub struct CloseRequest {
    pub target: u64,
    pub rent_destination: u64,
    pub authority: Authority,
}

/// A request that the host's token service hand ownership of the `target`
/// account from `current_authority` to `new_authority`.
#[derive(Clone, Copy, Debug, PartialEq, Eq, Structural)]
pub struct SetAuthorityRequest {
    pub target: u64,
    pub current_authority: u64,
    pub new_authority: Authority,
}

} // verus!
