//! The escrow registry and the operations that callers invoke on it.

use std::collections::HashMap;
use vstd::prelude::*;
use vstd::std_specs::hash::group_hash_axioms;
use crate::address::Address;
use crate::error::Error;
use crate::escrow::{Escrow, EscrowView, Transfer};
use crate::ledger;
use crate::milestone::Milestone;

verus! {

/// A registry of milestone escrows, each stored under the identifier that
/// its creator chose.
///
/// Every operation that changes a record names the `caller` on whose
/// authority it is asked for. An operation either succeeds and stores the
/// new record, or is refused and leaves the registry as it was. Funds are
/// never moved here: an operation that calls for a movement returns it as a
/// [`Transfer`] for the caller to carry out.
pub struct VaultixEscrow {
    records: HashMap<u64, Escrow>,
}

impl View for VaultixEscrow {
    type V = Map<u64, EscrowView>;

    closed spec fn view(&self) -> Map<u64, EscrowView> {
        Map::new(|id: u64| self.records@.contains_key(id), |id: u64| self.records@[id]@)
    }
}

impl VaultixEscrow {
    /// A registry that holds no escrow.
    pub fn new() -> (vault: VaultixEscrow)
        ensures
            vault@ == Map::<u64, EscrowView>::empty(),
            ledger::consistent(vault@),
    {
        let vault = VaultixEscrow { records: HashMap::new() };
        assert(vault@ =~= Map::<u64, EscrowView>::empty());
        vault
    }

    /// Creates an escrow under `escrow_id` on behalf of `caller` and
    /// returns the deposit of the committed total that the depositor owes.
    ///
    /// Refused, in this order: when the identifier is taken; when the
    /// caller is not the depositor; when the schedule fails validation;
    /// when the schedule holds no milestone; when depositor and recipient
    /// are the same party.
    pub fn create_escrow(
        &mut self,
        caller: &Address,
        escrow_id: u64,
        depositor: Address,
        recipient: Address,
        milestones: Vec<Milestone>,
        token: Address,
    ) -> (result: Result<Transfer, Error>)
        ensures
            match ledger::create(
                old(self)@,
                caller@,
                escrow_id,
                depositor@,
                recipient@,
                milestones.deep_view(),
                token@,
            ) {
                Ok(next) => {
                    &&& result matches Ok(transfer)
                    &&& transfer@ == next[escrow_id].deposit()
                    &&& final(self)@ == next
                },
                Err(reason) => {
                    &&& result matches Err(error)
                    &&& error == reason
                    &&& final(self)@ == old(self)@
                },
            },
            ledger::consistent(old(self)@) ==> ledger::consistent(final(self)@),
    {
        broadcast use group_hash_axioms;

        if self.records.contains_key(&escrow_id) {
            return Err(Error::EscrowAlreadyExists);
        }
        let escrow = match Escrow::open(caller, escrow_id, depositor, recipient, milestones, token) {
            Ok(escrow) => escrow,
            Err(error) => {
                return Err(error);
            },
        };
        let transfer = escrow.deposit();
        self.put(escrow_id, escrow);
        Ok(transfer)
    }

    /// Releases milestone `milestone_index` of the escrow under
    /// `escrow_id` on behalf of `caller`. The release is recorded; no funds
    /// move.
    ///
    /// Refused, in this order: when no escrow is stored under the
    /// identifier; when the caller is not its depositor; when the escrow is
    /// not active; when the index is past the last milestone; when the
    /// milestone is released already; when the released total would not
    /// fit.
    pub fn release_milestone(&mut self, caller: &Address, escrow_id: u64, milestone_index: u32) -> (result:
        Result<(), Error>)
        ensures
            match ledger::release(old(self)@, caller@, escrow_id, milestone_index as int) {
                Ok(next) => result is Ok && final(self)@ == next,
                Err(reason) => result == Err::<(), Error>(reason) && final(self)@ == old(self)@,
            },
            ledger::consistent(old(self)@) ==> ledger::consistent(final(self)@),
    {
        let mut escrow = match self.take(escrow_id) {
            Some(escrow) => escrow,
            None => {
                return Err(Error::EscrowNotFound);
            },
        };
        let result = escrow.release_milestone(caller, milestone_index);
        self.put(escrow_id, escrow);
        assert(self@ =~= old(self)@.insert(escrow_id, escrow@));
        result
    }

    /// Confirms delivery of milestone `milestone_index` of the escrow under
    /// `escrow_id`: releases the milestone and returns the payout of its
    /// amount to the recipient.
    ///
    /// Refused, in this order: when no escrow is stored under the
    /// identifier; when the caller is not `buyer`; then as a release asked
    /// for by `buyer`.
    pub fn confirm_delivery(
        &mut self,
        caller: &Address,
        escrow_id: u64,
        milestone_index: u32,
        buyer: Address,
    ) -> (result: Result<Transfer, Error>)
        ensures
            match ledger::confirm(old(self)@, caller@, escrow_id, milestone_index as int, buyer@) {
                Ok(next) => {
                    &&& result matches Ok(transfer)
                    &&& transfer@ == old(self)@[escrow_id].payout(milestone_index as int)
                    &&& final(self)@ == next
                },
                Err(reason) => {
                    &&& result matches Err(error)
                    &&& error == reason
                    &&& final(self)@ == old(self)@
                },
            },
            ledger::consistent(old(self)@) ==> ledger::consistent(final(self)@),
    {
        let mut escrow = match self.take(escrow_id) {
            Some(escrow) => escrow,
            None => {
                return Err(Error::EscrowNotFound);
            },
        };
        let result = escrow.confirm_delivery(caller, milestone_index, buyer);
        self.put(escrow_id, escrow);
        assert(self@ =~= old(self)@.insert(escrow_id, escrow@));
        result
    }

    /// Cancels the escrow under `escrow_id` on behalf of `caller`.
    ///
    /// Refused, in this order: when no escrow is stored under the
    /// identifier; when the caller is not its depositor; when anything has
    /// been released.
    pub fn cancel_escrow(&mut self, caller: &Address, escrow_id: u64) -> (result: Result<(), Error>)
        ensures
            match ledger::cancel(old(self)@, caller@, escrow_id) {
                Ok(next) => result is Ok && final(self)@ == next,
                Err(reason) => result == Err::<(), Error>(reason) && final(self)@ == old(self)@,
            },
            ledger::consistent(old(self)@) ==> ledger::consistent(final(self)@),
    {
        let mut escrow = match self.take(escrow_id) {
            Some(escrow) => escrow,
            None => {
                return Err(Error::EscrowNotFound);
            },
        };
        let result = escrow.cancel(caller);
        self.put(escrow_id, escrow);
        assert(self@ =~= old(self)@.insert(escrow_id, escrow@));
        result
    }

    /// Completes the escrow under `escrow_id` on behalf of `caller`.
    ///
    /// Refused, in this order: when no escrow is stored under the
    /// identifier; when the caller is not its depositor; when a milestone
    /// is still pending.
    pub fn complete_escrow(&mut self, caller: &Address, escrow_id: u64) -> (result: Result<
        (),
        Error,
    >)
        ensures
            match ledger::complete(old(self)@, caller@, escrow_id) {
                Ok(next) => result is Ok && final(self)@ == next,
                Err(reason) => result == Err::<(), Error>(reason) && final(self)@ == old(self)@,
            },
            ledger::consistent(old(self)@) ==> ledger::consistent(final(self)@),
    {
        let mut escrow = match self.take(escrow_id) {
            Some(escrow) => escrow,
            None => {
                return Err(Error::EscrowNotFound);
            },
        };
        let result = escrow.complete(caller);
        self.put(escrow_id, escrow);
        assert(self@ =~= old(self)@.insert(escrow_id, escrow@));
        result
    }

    /// Puts a record back under its own identifier, in place of what was
    /// stored there. The registry stays consistent when the record
    /// satisfies the record invariant, which [`Escrow::is_well_formed`]
    /// decides.
    pub fn restore(&mut self, escrow: Escrow)
        ensures
            final(self)@ == old(self)@.insert(escrow.id, escrow@),
            ledger::consistent(old(self)@) && escrow@.wf() ==> ledger::consistent(final(self)@),
    {
        self.put(escrow.id, escrow);
    }

    /// A copy of the escrow stored under `escrow_id`.
    pub fn get_escrow(&self, escrow_id: u64) -> (result: Result<Escrow, Error>)
        ensures
            match ledger::get(self@, escrow_id) {
                Ok(record) => result matches Ok(escrow) && escrow@ == record,
                Err(reason) => result matches Err(error) && error == reason,
            },
    {
        broadcast use group_hash_axioms;

        match self.records.get(&escrow_id) {
            Some(escrow) => Ok(escrow.clone()),
            None => Err(Error::EscrowNotFound),
        }
    }

    /// Takes the record under `escrow_id` out of the registry, if there
    /// is one.
    fn take(&mut self, escrow_id: u64) -> (taken: Option<Escrow>)
        ensures
            match taken {
                Some(escrow) => {
                    &&& old(self)@.contains_key(escrow_id)
                    &&& escrow@ == old(self)@[escrow_id]
                    &&& final(self)@ == old(self)@.remove(escrow_id)
                },
                None => !old(self)@.contains_key(escrow_id) && final(self)@ == old(self)@,
            },
    {
        broadcast use group_hash_axioms;

        let taken = self.records.remove(&escrow_id);
        assert(self@ =~= old(self)@.remove(escrow_id));
        assert(taken is None ==> self@ =~= old(self)@);
        taken
    }

    /// Stores a record under `escrow_id`, in place of what was there.
    fn put(&mut self, escrow_id: u64, escrow: Escrow)
        ensures
            final(self)@ == old(self)@.insert(escrow_id, escrow@),
    {
        broadcast use group_hash_axioms;

        let ghost record = escrow@;
        self.records.insert(escrow_id, escrow);
        assert(self@ =~= old(self)@.insert(escrow_id, record));
    }
}

} // verus!
