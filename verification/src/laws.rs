//! What holds of the operations: the record invariant and what follows
//! from it, and how successive operations bear on one another.

use vstd::prelude::*;
use crate::error::Error;
use crate::escrow::{opened, opening, EscrowStatus, EscrowView};
use crate::ledger;
use crate::ledger::Ledger;
use crate::milestone::{
    all_positive, all_released, committed, lemma_as_pending, lemma_committed_nonnegative,
    lemma_release_adds, lemma_released_bounds, none_released, validation, MilestoneStatus,
    MilestoneView, MAX_MILESTONES,
};

verus! {

/// The step from one record to the next that a successful operation may
/// take: the parties, the token, the identifier, the committed total and
/// the amounts stay; the released total does not fall; a released
/// milestone stays released.
pub open spec fn advances(before: EscrowView, after: EscrowView) -> bool {
    &&& after.id == before.id
    &&& after.depositor == before.depositor
    &&& after.recipient == before.recipient
    &&& after.token == before.token
    &&& after.total_amount == before.total_amount
    &&& after.total_released >= before.total_released
    &&& after.milestones.len() == before.milestones.len()
    &&& forall|i: int|
        0 <= i < before.milestones.len() ==> {
            &&& (#[trigger] after.milestones[i]).amount == before.milestones[i].amount
            &&& after.milestones[i].description == before.milestones[i].description
            &&& before.milestones[i].status == MilestoneStatus::Released
                ==> after.milestones[i].status == MilestoneStatus::Released
        }
}

/// A record that is opened satisfies the record invariant, commits the
/// exact sum of the amounts given, and has nothing released.
pub proof fn opening_establishes_invariant(
    caller: Seq<char>,
    id: u64,
    depositor: Seq<char>,
    recipient: Seq<char>,
    schedule: Seq<MilestoneView>,
    token: Seq<char>,
)
    requires
        opening(caller, id, depositor, recipient, schedule, token) is Ok,
    ensures
        ({
            let record = opening(caller, id, depositor, recipient, schedule, token)->Ok_0;
            &&& record.wf()
            &&& record.id == id
            &&& record.status == EscrowStatus::Active
            &&& record.total_amount == committed(schedule)
            &&& record.total_released == 0
            &&& none_released(record.milestones)
        }),
{
    lemma_as_pending(schedule);
}

/// A release keeps the record invariant, adds exactly the amount of the
/// milestone to the released total, and takes no other step than one that
/// [`advances`] the record.
pub proof fn release_keeps_invariant(record: EscrowView, caller: Seq<char>, index: int)
    requires
        record.wf(),
        record.release(caller, index) is Ok,
    ensures
        ({
            let next = record.release(caller, index)->Ok_0;
            &&& next.wf()
            &&& advances(record, next)
            &&& next.status == EscrowStatus::Active
            &&& next.total_released == record.total_released + record.milestones[index].amount
            &&& next.total_released > record.total_released
            &&& next.milestones[index].status == MilestoneStatus::Released
        }),
{
    let next = record.release(caller, index)->Ok_0;
    lemma_release_adds(record.milestones, index);
    assert(record.milestones[index].amount > 0);
    assert forall|i: int| 0 <= i < next.milestones.len() implies (#[trigger] next.milestones[i]).amount
        > 0 by {
        assert(record.milestones[i].amount > 0);
    }
}

/// On a record that satisfies the invariant a release is never refused
/// for want of room in the released total.
pub proof fn release_never_overflows(record: EscrowView, caller: Seq<char>, index: int)
    requires
        record.wf(),
    ensures
        record.release(caller, index) != Err::<EscrowView, Error>(Error::InvalidMilestoneAmount),
{
    if 0 <= index < record.milestones.len() && record.milestones[index].status
        == MilestoneStatus::Pending {
        let updated = record.milestones.update(index, record.milestones[index].as_released());
        lemma_release_adds(record.milestones, index);
        assert(record.milestones[index].amount > 0);
        assert forall|i: int| 0 <= i < updated.len() implies (#[trigger] updated[i]).amount > 0 by {
            assert(record.milestones[i].amount > 0);
        }
        lemma_released_bounds(updated);
        lemma_released_bounds(record.milestones);
    }
}

/// A confirmation of delivery is a release asked for by the buyer.
pub proof fn confirmation_keeps_invariant(
    record: EscrowView,
    caller: Seq<char>,
    index: int,
    buyer: Seq<char>,
)
    requires
        record.wf(),
        record.confirm(caller, index, buyer) is Ok,
    ensures
        caller == buyer,
        buyer == record.depositor,
        record.confirm(caller, index, buyer) == record.release(buyer, index),
        record.confirm(caller, index, buyer)->Ok_0.wf(),
        advances(record, record.confirm(caller, index, buyer)->Ok_0),
{
    release_keeps_invariant(record, buyer, index);
}

/// A cancellation keeps the record invariant and changes the status only.
pub proof fn cancellation_keeps_invariant(record: EscrowView, caller: Seq<char>)
    requires
        record.wf(),
        record.cancel(caller) is Ok,
    ensures
        record.cancel(caller)->Ok_0.wf(),
        advances(record, record.cancel(caller)->Ok_0),
        record.cancel(caller)->Ok_0 == record.with_status(EscrowStatus::Cancelled),
{
    lemma_released_bounds(record.milestones);
}

/// A completion keeps the record invariant and changes the status only.
pub proof fn completion_keeps_invariant(record: EscrowView, caller: Seq<char>)
    requires
        record.wf(),
        record.complete(caller) is Ok,
    ensures
        record.complete(caller)->Ok_0.wf(),
        advances(record, record.complete(caller)->Ok_0),
        record.complete(caller)->Ok_0 == record.with_status(EscrowStatus::Completed),
{
    lemma_released_bounds(record.milestones);
}

/// The ledger that holds no escrow is consistent.
pub proof fn empty_ledger_is_consistent()
    ensures
        ledger::consistent(Map::<u64, EscrowView>::empty()),
{
}

/// Every operation keeps a consistent ledger consistent, whether it
/// succeeds or is refused, and each record that it changes [`advances`].
pub proof fn operations_keep_ledger_consistent(
    before: Ledger,
    caller: Seq<char>,
    id: u64,
    index: int,
    buyer: Seq<char>,
    depositor: Seq<char>,
    recipient: Seq<char>,
    schedule: Seq<MilestoneView>,
    token: Seq<char>,
)
    requires
        ledger::consistent(before),
    ensures
        ledger::consistent(
            ledger::settled(
                before,
                ledger::create(before, caller, id, depositor, recipient, schedule, token),
            ),
        ),
        ledger::consistent(ledger::settled(before, ledger::release(before, caller, id, index))),
        ledger::consistent(
            ledger::settled(before, ledger::confirm(before, caller, id, index, buyer)),
        ),
        ledger::consistent(ledger::settled(before, ledger::cancel(before, caller, id))),
        ledger::consistent(ledger::settled(before, ledger::complete(before, caller, id))),
        ledger::release(before, caller, id, index) matches Ok(next) ==> advances(
            before[id],
            next[id],
        ),
        ledger::confirm(before, caller, id, index, buyer) matches Ok(next) ==> advances(
            before[id],
            next[id],
        ),
        ledger::cancel(before, caller, id) matches Ok(next) ==> advances(before[id], next[id]),
        ledger::complete(before, caller, id) matches Ok(next) ==> advances(before[id], next[id]),
{
    if ledger::create(before, caller, id, depositor, recipient, schedule, token) is Ok {
        opening_establishes_invariant(caller, id, depositor, recipient, schedule, token);
    }
    if ledger::release(before, caller, id, index) is Ok {
        release_keeps_invariant(before[id], caller, index);
    }
    if ledger::confirm(before, caller, id, index, buyer) is Ok {
        confirmation_keeps_invariant(before[id], caller, index, buyer);
    }
    if ledger::cancel(before, caller, id) is Ok {
        cancellation_keeps_invariant(before[id], caller);
    }
    if ledger::complete(before, caller, id) is Ok {
        completion_keeps_invariant(before[id], caller);
    }
}

/// An operation on the escrow under one identifier leaves the escrows
/// under every other identifier as they are, and removes none.
pub proof fn other_escrows_are_untouched(
    before: Ledger,
    caller: Seq<char>,
    id: u64,
    index: int,
    buyer: Seq<char>,
    depositor: Seq<char>,
    recipient: Seq<char>,
    schedule: Seq<MilestoneView>,
    token: Seq<char>,
    other: u64,
)
    requires
        other != id,
    ensures
        ({
            let created = ledger::settled(
                before,
                ledger::create(before, caller, id, depositor, recipient, schedule, token),
            );
            let released = ledger::settled(before, ledger::release(before, caller, id, index));
            let confirmed = ledger::settled(
                before,
                ledger::confirm(before, caller, id, index, buyer),
            );
            let cancelled = ledger::settled(before, ledger::cancel(before, caller, id));
            let completed = ledger::settled(before, ledger::complete(before, caller, id));
            &&& ledger::get(created, other) == ledger::get(before, other)
            &&& ledger::get(released, other) == ledger::get(before, other)
            &&& ledger::get(confirmed, other) == ledger::get(before, other)
            &&& ledger::get(cancelled, other) == ledger::get(before, other)
            &&& ledger::get(completed, other) == ledger::get(before, other)
            &&& before.contains_key(id) ==> created.contains_key(id) && released.contains_key(id)
                && confirmed.contains_key(id) && cancelled.contains_key(id)
                && completed.contains_key(id)
        }),
{
}

/// A creation that the depositor asks for under a free identifier, with
/// a recipient other than the depositor and a schedule of one to twenty
/// positive amounts whose sum fits, succeeds: the record is stored as
/// opened, and its committed total is the exact sum of the amounts.
pub proof fn valid_creation_succeeds(
    before: Ledger,
    caller: Seq<char>,
    id: u64,
    depositor: Seq<char>,
    recipient: Seq<char>,
    schedule: Seq<MilestoneView>,
    token: Seq<char>,
)
    requires
        !before.contains_key(id),
        caller == depositor,
        depositor != recipient,
        1 <= schedule.len() <= MAX_MILESTONES,
        all_positive(schedule),
        committed(schedule) <= i128::MAX,
    ensures
        ledger::create(before, caller, id, depositor, recipient, schedule, token) == Ok::<
            Ledger,
            Error,
        >(before.insert(id, opened(id, depositor, recipient, schedule, token))),
        opened(id, depositor, recipient, schedule, token).total_amount == committed(schedule),
        opened(id, depositor, recipient, schedule, token).wf(),
{
    opening_establishes_invariant(caller, id, depositor, recipient, schedule, token);
}

/// A creation with more than twenty milestones that the depositor asks
/// for under a free identifier is refused as too large, and nothing is
/// stored.
pub proof fn oversized_creation_is_refused(
    before: Ledger,
    caller: Seq<char>,
    id: u64,
    depositor: Seq<char>,
    recipient: Seq<char>,
    schedule: Seq<MilestoneView>,
    token: Seq<char>,
)
    requires
        !before.contains_key(id),
        caller == depositor,
        schedule.len() > MAX_MILESTONES,
    ensures
        ledger::create(before, caller, id, depositor, recipient, schedule, token) == Err::<
            Ledger,
            Error,
        >(Error::VectorTooLarge),
        ledger::settled(
            before,
            ledger::create(before, caller, id, depositor, recipient, schedule, token),
        ) == before,
{
}

/// A creation with at most twenty milestones, one of which has an amount
/// of zero or less, that the depositor asks for under a free identifier is
/// refused for the invalid amount, and nothing is stored.
pub proof fn creation_with_nonpositive_amount_is_refused(
    before: Ledger,
    caller: Seq<char>,
    id: u64,
    depositor: Seq<char>,
    recipient: Seq<char>,
    schedule: Seq<MilestoneView>,
    token: Seq<char>,
    at: int,
)
    requires
        !before.contains_key(id),
        caller == depositor,
        schedule.len() <= MAX_MILESTONES,
        0 <= at < schedule.len(),
        schedule[at].amount <= 0,
    ensures
        ledger::create(before, caller, id, depositor, recipient, schedule, token) == Err::<
            Ledger,
            Error,
        >(Error::InvalidMilestoneAmount),
        ledger::settled(
            before,
            ledger::create(before, caller, id, depositor, recipient, schedule, token),
        ) == before,
{
}

/// A creation in which depositor and recipient are the same party, asked
/// for by that party under a free identifier with a schedule of at least
/// one milestone that passes validation, is refused as self-dealing, and
/// nothing is stored.
pub proof fn self_dealing_is_refused(
    before: Ledger,
    caller: Seq<char>,
    id: u64,
    depositor: Seq<char>,
    recipient: Seq<char>,
    schedule: Seq<MilestoneView>,
    token: Seq<char>,
)
    requires
        !before.contains_key(id),
        caller == depositor,
        validation(schedule) is Ok,
        schedule.len() >= 1,
        depositor == recipient,
    ensures
        ledger::create(before, caller, id, depositor, recipient, schedule, token) == Err::<
            Ledger,
            Error,
        >(Error::SelfDealing),
        ledger::settled(
            before,
            ledger::create(before, caller, id, depositor, recipient, schedule, token),
        ) == before,
{
}

/// Once an escrow is stored under an identifier, every further creation
/// under that identifier is refused as existing already, whatever it
/// asks for, and the stored record stays as it is.
pub proof fn second_creation_is_refused(
    before: Ledger,
    id: u64,
    caller: Seq<char>,
    depositor: Seq<char>,
    recipient: Seq<char>,
    schedule: Seq<MilestoneView>,
    token: Seq<char>,
    second_caller: Seq<char>,
    second_depositor: Seq<char>,
    second_recipient: Seq<char>,
    second_schedule: Seq<MilestoneView>,
    second_token: Seq<char>,
)
    requires
        ledger::create(before, caller, id, depositor, recipient, schedule, token) is Ok,
    ensures
        ({
            let first = ledger::create(
                before,
                caller,
                id,
                depositor,
                recipient,
                schedule,
                token,
            )->Ok_0;
            let second = ledger::create(
                first,
                second_caller,
                id,
                second_depositor,
                second_recipient,
                second_schedule,
                second_token,
            );
            &&& second == Err::<Ledger, Error>(Error::EscrowAlreadyExists)
            &&& ledger::settled(first, second) == first
            &&& ledger::get(ledger::settled(first, second), id) == ledger::get(first, id)
        }),
{
}

/// After a milestone has been released, by a release or by a confirmed
/// delivery, the depositor's next attempt on the same milestone is refused
/// as released already, by either way, and the released total has grown
/// by the amount of the milestone exactly once.
pub proof fn second_release_is_refused(before: Ledger, caller: Seq<char>, id: u64, index: int)
    requires
        ledger::release(before, caller, id, index) is Ok,
    ensures
        ({
            let first = ledger::release(before, caller, id, index)->Ok_0;
            &&& ledger::release(first, caller, id, index) == Err::<Ledger, Error>(
                Error::MilestoneAlreadyReleased,
            )
            &&& ledger::confirm(first, caller, id, index, caller) == Err::<Ledger, Error>(
                Error::MilestoneAlreadyReleased,
            )
            &&& ledger::settled(first, ledger::release(first, caller, id, index))[id].total_released
                == before[id].total_released + before[id].milestones[index].amount
        }),
{
}

/// As [`second_release_is_refused`], where the first release was a
/// confirmed delivery.
pub proof fn release_after_confirmation_is_refused(
    before: Ledger,
    caller: Seq<char>,
    id: u64,
    index: int,
    buyer: Seq<char>,
)
    requires
        ledger::confirm(before, caller, id, index, buyer) is Ok,
    ensures
        ({
            let first = ledger::confirm(before, caller, id, index, buyer)->Ok_0;
            &&& ledger::release(first, caller, id, index) == Err::<Ledger, Error>(
                Error::MilestoneAlreadyReleased,
            )
            &&& ledger::confirm(first, caller, id, index, buyer) == Err::<Ledger, Error>(
                Error::MilestoneAlreadyReleased,
            )
            &&& ledger::settled(
                first,
                ledger::confirm(first, caller, id, index, buyer),
            )[id].total_released == before[id].total_released
                + before[id].milestones[index].amount
        }),
{
}

/// A completion succeeds only when every milestone is released. Asked
/// for by the depositor of a stored escrow, it succeeds exactly then, and
/// is refused as not active while a milestone is pending.
pub proof fn completion_needs_every_release(before: Ledger, caller: Seq<char>, id: u64)
    ensures
        ledger::complete(before, caller, id) is Ok ==> all_released(before[id].milestones),
        before.contains_key(id) && caller == before[id].depositor ==> {
            &&& ledger::complete(before, caller, id) is Ok <==> all_released(
                before[id].milestones,
            )
            &&& !all_released(before[id].milestones) ==> ledger::complete(before, caller, id)
                == Err::<Ledger, Error>(Error::EscrowNotActive)
        },
{
}

/// In a consistent ledger, a cancellation succeeds only while nothing is
/// released. Asked for by the depositor of a stored escrow, it succeeds
/// exactly then, and is refused as released already otherwise.
pub proof fn cancellation_needs_no_release(before: Ledger, caller: Seq<char>, id: u64)
    requires
        ledger::consistent(before),
    ensures
        ledger::cancel(before, caller, id) is Ok ==> before[id].total_released == 0,
        before.contains_key(id) && caller == before[id].depositor ==> {
            &&& ledger::cancel(before, caller, id) is Ok <==> before[id].total_released == 0
            &&& before[id].total_released != 0 ==> ledger::cancel(before, caller, id) == Err::<
                Ledger,
                Error,
            >(Error::MilestoneAlreadyReleased)
        },
{
    if before.contains_key(id) {
        lemma_released_bounds(before[id].milestones);
    }
}

/// In a consistent ledger, once a milestone has been released, by a
/// release or by a confirmed delivery, the depositor's cancellation is
/// refused as released already.
pub proof fn cancellation_after_release_is_refused(
    before: Ledger,
    caller: Seq<char>,
    id: u64,
    index: int,
)
    requires
        ledger::consistent(before),
        ledger::release(before, caller, id, index) is Ok,
    ensures
        ledger::cancel(ledger::release(before, caller, id, index)->Ok_0, caller, id) == Err::<
            Ledger,
            Error,
        >(Error::MilestoneAlreadyReleased),
        ledger::confirm(before, caller, id, index, caller) == ledger::release(
            before,
            caller,
            id,
            index,
        ),
{
    release_keeps_invariant(before[id], caller, index);
    lemma_released_bounds(before[id].milestones);
}

/// In a consistent ledger, an escrow that is completed or cancelled keeps
/// that status through every operation, and its milestones and totals
/// change no more.
pub proof fn final_status_is_permanent(
    before: Ledger,
    caller: Seq<char>,
    id: u64,
    index: int,
    buyer: Seq<char>,
)
    requires
        ledger::consistent(before),
        before.contains_key(id),
        before[id].status != EscrowStatus::Active,
    ensures
        ledger::settled(before, ledger::release(before, caller, id, index)) == before,
        ledger::settled(before, ledger::confirm(before, caller, id, index, buyer)) == before,
        ledger::settled(before, ledger::cancel(before, caller, id)) =~= before,
        ledger::settled(before, ledger::complete(before, caller, id)) =~= before,
{
    let record = before[id];
    lemma_released_bounds(record.milestones);
    lemma_committed_nonnegative(record.milestones);
    assert(record.milestones[0].status == MilestoneStatus::Pending || record.milestones[0].status
        == MilestoneStatus::Released);
    if ledger::cancel(before, caller, id) is Ok {
        assert(record.status == EscrowStatus::Cancelled);
        assert(record.with_status(EscrowStatus::Cancelled) == record);
        assert(before.insert(id, record) =~= before);
    }
    if ledger::complete(before, caller, id) is Ok {
        assert(record.status == EscrowStatus::Completed);
        assert(record.with_status(EscrowStatus::Completed) == record);
        assert(before.insert(id, record) =~= before);
    }
}

} // verus!
