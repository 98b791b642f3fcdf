//! The reasons for which an escrow operation is refused.

use vstd::prelude::*;

verus! {

/// Why an operation on a milestone escrow was refused.
///
/// A refused operation never changes a stored record.
#[derive(Clone, Copy, Debug, PartialEq, Eq, Structural)]
pub enum Error {
    /// No record is stored under the identifier.
    EscrowNotFound,
    /// A record is already stored under the identifier.
    EscrowAlreadyExists,
    /// The index is past the last milestone.
    MilestoneNotFound,
    /// The milestone was released before, or a release stands in the way of
    /// a cancellation.
    MilestoneAlreadyReleased,
    /// The caller is not the party that the operation is reserved for.
    UnauthorizedAccess,
    /// An amount is zero or negative, or a sum of amounts does not fit.
    InvalidMilestoneAmount,
    /// A stated total differs from the sum of the milestone amounts.
    TotalAmountMismatch,
    /// The paying account does not hold the amount.
    InsufficientBalance,
    /// The escrow is not in the state that the operation needs.
    EscrowNotActive,
    /// More milestones were given than an escrow may hold.
    VectorTooLarge,
    /// Depositor and recipient are the same party.
    SelfDealing,
}

} // verus!
