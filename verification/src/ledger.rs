//! The mathematical model of the registry: a map from escrow identifiers
//! to records, and what each operation makes of it.

use vstd::prelude::*;
use crate::error::Error;
use crate::escrow::{opening, EscrowView};
use crate::milestone::MilestoneView;

verus! {

/// The registry as a map from identifier to record.
pub type Ledger = Map<u64, EscrowView>;

/// Every record satisfies the record invariant and is stored under its
/// own identifier.
pub open spec fn consistent(ledger: Ledger) -> bool {
    forall|id: u64| #[trigger]
        ledger.contains_key(id) ==> ledger[id].wf() && ledger[id].id == id
}

/// The ledger after an operation: the new one where the operation
/// succeeded, the old one where it was refused.
pub open spec fn settled(ledger: Ledger, outcome: Result<Ledger, Error>) -> Ledger {
    match outcome {
        Ok(next) => next,
        Err(_) => ledger,
    }
}

/// The ledger with the record under `id` replaced by what a transition
/// answered, or the reason for which the transition was refused.
pub open spec fn replaced(ledger: Ledger, id: u64, transition: Result<EscrowView, Error>) -> Result<
    Ledger,
    Error,
> {
    match transition {
        Ok(record) => Ok(ledger.insert(id, record)),
        Err(reason) => Err(reason),
    }
}

/// What the creation of an escrow under `id` makes of the ledger.
pub open spec fn create(
    ledger: Ledger,
    caller: Seq<char>,
    id: u64,
    depositor: Seq<char>,
    recipient: Seq<char>,
    schedule: Seq<MilestoneView>,
    token: Seq<char>,
) -> Result<Ledger, Error> {
    if ledger.contains_key(id) {
        Err(Error::EscrowAlreadyExists)
    } else {
        replaced(ledger, id, opening(caller, id, depositor, recipient, schedule, token))
    }
}

/// What the release of milestone `index` of the escrow under `id` makes
/// of the ledger.
pub open spec fn release(ledger: Ledger, caller: Seq<char>, id: u64, index: int) -> Result<
    Ledger,
    Error,
> {
    if !ledger.contains_key(id) {
        Err(Error::EscrowNotFound)
    } else {
        replaced(ledger, id, ledger[id].release(caller, index))
    }
}

/// What a confirmation of delivery by `buyer` of milestone `index` of the
/// escrow under `id` makes of the ledger.
pub open spec fn confirm(
    ledger: Ledger,
    caller: Seq<char>,
    id: u64,
    index: int,
    buyer: Seq<char>,
) -> Result<Ledger, Error> {
    if !ledger.contains_key(id) {
        Err(Error::EscrowNotFound)
    } else {
        replaced(ledger, id, ledger[id].confirm(caller, index, buyer))
    }
}

/// What the cancellation of the escrow under `id` makes of the ledger.
pub open spec fn cancel(ledger: Ledger, caller: Seq<char>, id: u64) -> Result<Ledger, Error> {
    if !ledger.contains_key(id) {
        Err(Error::EscrowNotFound)
    } else {
        replaced(ledger, id, ledger[id].cancel(caller))
    }
}

/// What the completion of the escrow under `id` makes of the ledger.
pub open spec fn complete(ledger: Ledger, caller: Seq<char>, id: u64) -> Result<Ledger, Error> {
    if !ledger.contains_key(id) {
        Err(Error::EscrowNotFound)
    } else {
        replaced(ledger, id, ledger[id].complete(caller))
    }
}

/// What a query for the escrow under `id` answers.
pub open spec fn get(ledger: Ledger, id: u64) -> Result<EscrowView, Error> {
    if ledger.contains_key(id) {
        Ok(ledger[id])
    } else {
        Err(Error::EscrowNotFound)
    }
}

} // verus!
