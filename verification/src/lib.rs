//! A verified model of a token-escrow swap program.
//!
//! One escrow record tracks a pending swap between an initializer and an
//! unknown future taker, gated by a time window.  Every operation is a pure
//! function from the current record, the caller-supplied arguments and the
//! host clock reading to a new record plus the side-effect requests the host
//! is asked to perform, or an error.  The host runtime that owns all durable
//! state (accounts and balances) applies the requests atomically; the logic
//! that decides them is verified here.

pub mod accounts;
pub mod effects;
pub mod error;
pub mod instruction;
pub mod ledger;
pub mod ops;
pub mod state;

pub use effects::Authority;
pub use effects::CloseRequest;
pub use effects::SetAuthorityRequest;
pub use effects::TransferRequest;
pub use error::EscrowError;
pub use instruction::EscrowInstruction;
pub use state::EscrowRecord;
