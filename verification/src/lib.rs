//! Milestone-based escrow: funds committed by a depositor are released to a
//! recipient one milestone at a time, and every transition is proved against
//! a mathematical model of the escrow record.
//!
//! - [`milestone`]: milestones, the sums over a schedule, and its validation.
//! - [`escrow`]: the escrow record, its invariant and its guarded transitions.
//! - [`ledger`]: the registry as a map from identifier to record, and what
//!   each operation makes of it.
//! - [`vault`]: the registry itself, [`VaultixEscrow`], whose operations are
//!   proved to do what the ledger says.
//! - [`laws`]: what holds of the operations, one after another.
//! - [`agreement`]: the creation of multi-party agreements and their
//!   identifiers.
//! - [`address`], [`error`]: the identities of the parties and the reasons
//!   for a refusal.
//!
//! Nothing here reads a clock, asks for a signature, stores a record or
//! moves funds. An operation is told who calls and what time it is, and
//! answers with the new record and the transfer that the caller owes.

pub mod address;
pub mod agreement;
pub mod error;
pub mod escrow;
pub mod laws;
pub mod ledger;
pub mod milestone;
pub mod vault;

pub use address::Address;
pub use agreement::{
    EscrowAgreement, EscrowContract, EscrowDataKey, EscrowError, EscrowState, EscrowStorage, Party,
};
pub use error::Error;
pub use escrow::{Escrow, EscrowStatus, Transfer};
pub use milestone::{Milestone, MilestoneStatus};
pub use vault::VaultixEscrow;
