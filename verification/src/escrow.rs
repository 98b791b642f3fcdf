//! The escrow record, its mathematical model, and its guarded transitions.

use vstd::prelude::*;
use crate::address::Address;
use crate::error::Error;
use crate::laws::{
    cancellation_keeps_invariant, completion_keeps_invariant, opening_establishes_invariant,
    release_keeps_invariant,
};
use crate::milestone::{
    all_positive, all_released, as_pending, committed, lemma_committed_nonnegative,
    lemma_released_bounds, none_released, released, released_total, validation,
    pending_schedule, validate_milestones, verify_all_released, Milestone, MilestoneStatus,
    MilestoneView, MAX_MILESTONES,
};

verus! {

/// Where an escrow stands. `Completed` and `Cancelled` are final.
#[derive(Clone, Copy, Debug, PartialEq, Eq, Structural)]
pub enum EscrowStatus {
    Active,
    Completed,
    Cancelled,
}

/// The custody record of one escrow.
#[derive(Debug, PartialEq, Eq)]
pub struct Escrow {
    pub id: u64,
    pub depositor: Address,
    pub recipient: Address,
    pub total_amount: i128,
    pub total_released: i128,
    pub milestones: Vec<Milestone>,
    pub token: Address,
    pub status: EscrowStatus,
}

/// The mathematical model of an [`Escrow`].
pub struct EscrowView {
    pub id: u64,
    pub depositor: Seq<char>,
    pub recipient: Seq<char>,
    pub total_amount: int,
    pub total_released: int,
    pub milestones: Seq<MilestoneView>,
    pub token: Seq<char>,
    pub status: EscrowStatus,
}

impl View for Escrow {
    type V = EscrowView;

    open spec fn view(&self) -> EscrowView {
        EscrowView {
            id: self.id,
            depositor: self.depositor@,
            recipient: self.recipient@,
            total_amount: self.total_amount as int,
            total_released: self.total_released as int,
            milestones: self.milestones.deep_view(),
            token: self.token@,
            status: self.status,
        }
    }
}

/// A movement of funds that an operation asks its caller to carry out.
#[derive(Debug, PartialEq, Eq)]
pub enum Transfer {
    /// From the depositor into custody.
    Deposit { token: Address, from: Address, amount: i128 },
    /// Out of custody to the recipient.
    Payout { token: Address, to: Address, amount: i128 },
}

/// The mathematical model of a [`Transfer`].
pub enum TransferView {
    Deposit { token: Seq<char>, from: Seq<char>, amount: int },
    Payout { token: Seq<char>, to: Seq<char>, amount: int },
}

impl View for Transfer {
    type V = TransferView;

    open spec fn view(&self) -> TransferView {
        match self {
            Transfer::Deposit { token, from, amount } => TransferView::Deposit {
                token: token@,
                from: from@,
                amount: *amount as int,
            },
            Transfer::Payout { token, to, amount } => TransferView::Payout {
                token: token@,
                to: to@,
                amount: *amount as int,
            },
        }
    }
}

impl EscrowView {
    /// The invariant of every record that creation and the transitions
    /// produce.
    pub open spec fn wf(self) -> bool {
        &&& 1 <= self.milestones.len() <= MAX_MILESTONES
        &&& all_positive(self.milestones)
        &&& self.total_amount == committed(self.milestones)
        &&& self.total_amount <= i128::MAX
        &&& self.total_released == released(self.milestones)
        &&& self.depositor != self.recipient
        &&& self.status == EscrowStatus::Completed ==> all_released(self.milestones)
        &&& self.status == EscrowStatus::Cancelled ==> none_released(self.milestones)
    }

    /// The record with the milestone at `index` released and its amount
    /// added to the released total.
    pub open spec fn with_released(self, index: int) -> EscrowView {
        EscrowView {
            total_released: self.total_released + self.milestones[index].amount,
            milestones: self.milestones.update(index, self.milestones[index].as_released()),
            ..self
        }
    }

    /// The record with another status.
    pub open spec fn with_status(self, status: EscrowStatus) -> EscrowView {
        EscrowView { status, ..self }
    }

    /// What a release of the milestone at `index` answers when `caller`
    /// asks for it: the new record, or the first of the reasons to refuse.
    pub open spec fn release(self, caller: Seq<char>, index: int) -> Result<EscrowView, Error> {
        if authorization(caller, self.depositor) is Err {
            Err(Error::UnauthorizedAccess)
        } else if self.status != EscrowStatus::Active {
            Err(Error::EscrowNotActive)
        } else if index < 0 || index >= self.milestones.len() {
            Err(Error::MilestoneNotFound)
        } else if self.milestones[index].status == MilestoneStatus::Released {
            Err(Error::MilestoneAlreadyReleased)
        } else if !(i128::MIN <= self.total_released + self.milestones[index].amount
            <= i128::MAX) {
            Err(Error::InvalidMilestoneAmount)
        } else {
            Ok(self.with_released(index))
        }
    }

    /// What a confirmation of delivery answers: as a release, but `caller`
    /// has to be the named `buyer`, and the buyer the depositor.
    pub open spec fn confirm(self, caller: Seq<char>, index: int, buyer: Seq<char>) -> Result<
        EscrowView,
        Error,
    > {
        if authorization(caller, buyer) is Err {
            Err(Error::UnauthorizedAccess)
        } else {
            self.release(buyer, index)
        }
    }

    /// What a cancellation answers when `caller` asks for it.
    pub open spec fn cancel(self, caller: Seq<char>) -> Result<EscrowView, Error> {
        if authorization(caller, self.depositor) is Err {
            Err(Error::UnauthorizedAccess)
        } else if self.total_released > 0 {
            Err(Error::MilestoneAlreadyReleased)
        } else {
            Ok(self.with_status(EscrowStatus::Cancelled))
        }
    }

    /// What a completion answers when `caller` asks for it.
    pub open spec fn complete(self, caller: Seq<char>) -> Result<EscrowView, Error> {
        if authorization(caller, self.depositor) is Err {
            Err(Error::UnauthorizedAccess)
        } else if !all_released(self.milestones) {
            Err(Error::EscrowNotActive)
        } else {
            Ok(self.with_status(EscrowStatus::Completed))
        }
    }

    /// The payout that a confirmed delivery of the milestone at `index`
    /// asks for.
    pub open spec fn payout(self, index: int) -> TransferView {
        TransferView::Payout {
            token: self.token,
            to: self.recipient,
            amount: self.milestones[index].amount,
        }
    }

    /// The deposit that the creation of this record asks for.
    pub open spec fn deposit(self) -> TransferView {
        TransferView::Deposit {
            token: self.token,
            from: self.depositor,
            amount: self.total_amount,
        }
    }
}

/// What the authorization gate answers: `caller` passes only as the
/// principal that the operation is reserved for.
pub open spec fn authorization(caller: Seq<char>, principal: Seq<char>) -> Result<(), Error> {
    if caller == principal {
        Ok(())
    } else {
        Err(Error::UnauthorizedAccess)
    }
}

/// The authorization gate: lets `caller` pass only as `principal`.
pub fn authorize(caller: &Address, principal: &Address) -> (result: Result<(), Error>)
    ensures
        result == authorization(caller@, principal@),
{
    if *caller == *principal {
        Ok(())
    } else {
        Err(Error::UnauthorizedAccess)
    }
}

/// The record that a creation stores: active, nothing released, every
/// milestone pending.
pub open spec fn opened(
    id: u64,
    depositor: Seq<char>,
    recipient: Seq<char>,
    schedule: Seq<MilestoneView>,
    token: Seq<char>,
) -> EscrowView {
    EscrowView {
        id,
        depositor,
        recipient,
        total_amount: committed(schedule),
        total_released: 0,
        milestones: as_pending(schedule),
        token,
        status: EscrowStatus::Active,
    }
}

/// What opening an escrow answers when `caller` asks for it: the record
/// to store, or the first of the reasons to refuse.
pub open spec fn opening(
    caller: Seq<char>,
    id: u64,
    depositor: Seq<char>,
    recipient: Seq<char>,
    schedule: Seq<MilestoneView>,
    token: Seq<char>,
) -> Result<EscrowView, Error> {
    if authorization(caller, depositor) is Err {
        Err(Error::UnauthorizedAccess)
    } else if validation(schedule) is Err {
        Err(validation(schedule)->Err_0)
    } else if schedule.len() == 0 {
        Err(Error::InvalidMilestoneAmount)
    } else if depositor == recipient {
        Err(Error::SelfDealing)
    } else {
        Ok(opened(id, depositor, recipient, schedule, token))
    }
}

impl Escrow {
    /// Opens an escrow on behalf of `caller`.
    ///
    /// The caller has to be the depositor, the schedule has to pass
    /// validation and hold at least one milestone, and depositor and
    /// recipient have to differ; the first check that fails names the
    /// error, and a schedule without milestones is refused as holding an
    /// invalid amount. The record that is returned is active, has nothing
    /// released, and holds every milestone as pending.
    pub fn open(
        caller: &Address,
        id: u64,
        depositor: Address,
        recipient: Address,
        milestones: Vec<Milestone>,
        token: Address,
    ) -> (result: Result<Escrow, Error>)
        ensures
            match opening(caller@, id, depositor@, recipient@, milestones.deep_view(), token@) {
                Ok(record) => result matches Ok(escrow) && escrow@ == record,
                Err(reason) => result matches Err(error) && error == reason,
            },
            result matches Ok(escrow) ==> escrow@.wf(),
    {
        proof {
            if opening(caller@, id, depositor@, recipient@, milestones.deep_view(), token@) is Ok {
                opening_establishes_invariant(
                    caller@,
                    id,
                    depositor@,
                    recipient@,
                    milestones.deep_view(),
                    token@,
                );
            }
        }
        if let Err(error) = authorize(caller, &depositor) {
            return Err(error);
        }
        let total_amount = match validate_milestones(&milestones) {
            Ok(total) => total,
            Err(error) => {
                return Err(error);
            },
        };
        if milestones.len() == 0 {
            return Err(Error::InvalidMilestoneAmount);
        }
        if depositor == recipient {
            return Err(Error::SelfDealing);
        }
        proof {
            lemma_committed_nonnegative(milestones.deep_view());
        }
        let milestones = pending_schedule(&milestones);
        Ok(
            Escrow {
                id,
                depositor,
                recipient,
                total_amount,
                total_released: 0,
                milestones,
                token,
                status: EscrowStatus::Active,
            },
        )
    }

    /// Releases the milestone at `milestone_index` on behalf of `caller`,
    /// who has to be the depositor. No funds move: the release is recorded.
    ///
    /// A refused release leaves the record as it was.
    pub fn release_milestone(&mut self, caller: &Address, milestone_index: u32) -> (result: Result<
        (),
        Error,
    >)
        ensures
            match old(self)@.release(caller@, milestone_index as int) {
                Ok(record) => result is Ok && final(self)@ == record,
                Err(reason) => result == Err::<(), Error>(reason) && *final(self) == *old(self),
            },
            old(self)@.wf() ==> final(self)@.wf(),
    {
        proof {
            if self@.wf() && self@.release(caller@, milestone_index as int) is Ok {
                release_keeps_invariant(self@, caller@, milestone_index as int);
            }
        }
        if let Err(error) = authorize(caller, &self.depositor) {
            return Err(error);
        }
        if self.status != EscrowStatus::Active {
            return Err(Error::EscrowNotActive);
        }
        let index = milestone_index as usize;
        if index >= self.milestones.len() {
            return Err(Error::MilestoneNotFound);
        }
        if self.milestones[index].status == MilestoneStatus::Released {
            return Err(Error::MilestoneAlreadyReleased);
        }
        let amount = self.milestones[index].amount;
        let total_released = match self.total_released.checked_add(amount) {
            Some(sum) => sum,
            None => {
                return Err(Error::InvalidMilestoneAmount);
            },
        };
        self.milestones[index].status = MilestoneStatus::Released;
        self.total_released = total_released;
        proof {
            assert(self.milestones.deep_view() =~= old(self)@.with_released(
                milestone_index as int,
            ).milestones);
        }
        Ok(())
    }

    /// Confirms delivery of the milestone at `milestone_index`: `caller`
    /// has to be the named `buyer` and the buyer the depositor. The
    /// milestone is released as by [`Escrow::release_milestone`], and the
    /// payout of its amount to the recipient is returned for the caller to
    /// carry out.
    ///
    /// A refused confirmation leaves the record as it was.
    pub fn confirm_delivery(&mut self, caller: &Address, milestone_index: u32, buyer: Address) -> (result:
        Result<Transfer, Error>)
        ensures
            match old(self)@.confirm(caller@, milestone_index as int, buyer@) {
                Ok(record) => {
                    &&& result matches Ok(transfer)
                    &&& transfer@ == old(self)@.payout(milestone_index as int)
                    &&& final(self)@ == record
                },
                Err(reason) => {
                    &&& result matches Err(error)
                    &&& error == reason
                    &&& *final(self) == *old(self)
                },
            },
            old(self)@.wf() ==> final(self)@.wf(),
    {
        if let Err(error) = authorize(caller, &buyer) {
            return Err(error);
        }
        match self.release_milestone(&buyer, milestone_index) {
            Ok(()) => {},
            Err(error) => {
                return Err(error);
            },
        }
        proof {
            let schedule = old(self)@.milestones;
            let index = milestone_index as int;
            assert(self.milestones.deep_view() == schedule.update(
                index,
                old(self)@.with_released(index).milestones[index],
            ));
            assert(self.milestones.deep_view().len() == self.milestones@.len());
            assert(self.milestones.deep_view()[index] == self.milestones@[index]@);
        }
        Ok(
            Transfer::Payout {
                token: self.token.clone(),
                to: self.recipient.clone(),
                amount: self.milestones[milestone_index as usize].amount,
            },
        )
    }

    /// Cancels the escrow on behalf of `caller`, who has to be the
    /// depositor. Nothing may have been released.
    ///
    /// A refused cancellation leaves the record as it was.
    pub fn cancel(&mut self, caller: &Address) -> (result: Result<(), Error>)
        ensures
            match old(self)@.cancel(caller@) {
                Ok(record) => result is Ok && final(self)@ == record,
                Err(reason) => result == Err::<(), Error>(reason) && *final(self) == *old(self),
            },
            old(self)@.wf() ==> final(self)@.wf(),
    {
        proof {
            if self@.wf() && self@.cancel(caller@) is Ok {
                cancellation_keeps_invariant(self@, caller@);
            }
        }
        if let Err(error) = authorize(caller, &self.depositor) {
            return Err(error);
        }
        if self.total_released > 0 {
            return Err(Error::MilestoneAlreadyReleased);
        }
        self.status = EscrowStatus::Cancelled;
        Ok(())
    }

    /// Completes the escrow on behalf of `caller`, who has to be the
    /// depositor. Every milestone has to be released.
    ///
    /// A refused completion leaves the record as it was.
    pub fn complete(&mut self, caller: &Address) -> (result: Result<(), Error>)
        ensures
            match old(self)@.complete(caller@) {
                Ok(record) => result is Ok && final(self)@ == record,
                Err(reason) => result == Err::<(), Error>(reason) && *final(self) == *old(self),
            },
            old(self)@.wf() ==> final(self)@.wf(),
    {
        proof {
            if self@.wf() && self@.complete(caller@) is Ok {
                completion_keeps_invariant(self@, caller@);
            }
        }
        if let Err(error) = authorize(caller, &self.depositor) {
            return Err(error);
        }
        if !verify_all_released(&self.milestones) {
            return Err(Error::EscrowNotActive);
        }
        self.status = EscrowStatus::Completed;
        Ok(())
    }

    /// Whether the record satisfies the invariant of the records that
    /// creation and the transitions produce: one to twenty milestones,
    /// each with a positive amount; the committed total their sum and the
    /// released total the sum of the released ones; depositor and
    /// recipient different parties; completed only with every milestone
    /// released, cancelled only with none.
    pub fn is_well_formed(&self) -> (ok: bool)
        ensures
            ok == self@.wf(),
    {
        let total = match validate_milestones(&self.milestones) {
            Ok(total) => total,
            Err(_) => {
                return false;
            },
        };
        proof {
            lemma_committed_nonnegative(self.milestones.deep_view());
            lemma_released_bounds(self.milestones.deep_view());
        }
        if self.milestones.len() == 0 {
            return false;
        }
        if total != self.total_amount {
            return false;
        }
        let released = released_total(&self.milestones);
        if released != self.total_released {
            return false;
        }
        if self.depositor == self.recipient {
            return false;
        }
        match self.status {
            EscrowStatus::Active => true,
            EscrowStatus::Completed => verify_all_released(&self.milestones),
            EscrowStatus::Cancelled => released == 0,
        }
    }

    /// The deposit of the committed total that the creation of this escrow
    /// asks for.
    pub fn deposit(&self) -> (transfer: Transfer)
        ensures
            transfer@ == self@.deposit(),
    {
        Transfer::Deposit {
            token: self.token.clone(),
            from: self.depositor.clone(),
            amount: self.total_amount,
        }
    }
}

impl Clone for Escrow {
    fn clone(&self) -> (copy: Escrow)
        ensures
            copy@ == self@,
    {
        let mut milestones: Vec<Milestone> = Vec::new();
        let mut i: usize = 0;
        while i < self.milestones.len()
            invariant
                i <= self.milestones.len(),
                milestones.len() == i,
                forall|j: int| 0 <= j < i ==> (#[trigger] milestones[j])@ == self.milestones[j]@,
            decreases self.milestones.len() - i,
        {
            milestones.push(self.milestones[i].clone());
            i += 1;
        }
        proof {
            assert(milestones.deep_view() =~= self.milestones.deep_view());
        }
        Escrow {
            id: self.id,
            depositor: self.depositor.clone(),
            recipient: self.recipient.clone(),
            total_amount: self.total_amount,
            total_released: self.total_released,
            milestones,
            token: self.token.clone(),
            status: self.status,
        }
    }
}

} // verus!
