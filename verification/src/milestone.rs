//! Milestones, their mathematical model, and the validation of a schedule.

use vstd::prelude::*;
use crate::error::Error;

verus! {

/// The most milestones that one escrow may hold.
pub const MAX_MILESTONES: usize = 20;

/// Whether the amount of a milestone is still held or has been released.
#[derive(Clone, Copy, Debug, PartialEq, Eq, Structural)]
pub enum MilestoneStatus {
    Pending,
    Released,
}

/// One tranche of an escrow. Its position in the schedule is its identity.
#[derive(Debug, PartialEq, Eq)]
pub struct Milestone {
    pub amount: i128,
    pub status: MilestoneStatus,
    pub description: String,
}

/// The mathematical model of a [`Milestone`].
pub struct MilestoneView {
    pub amount: int,
    pub status: MilestoneStatus,
    pub description: Seq<char>,
}

impl MilestoneView {
    /// The milestone with its status set to released.
    pub open spec fn as_released(self) -> MilestoneView {
        MilestoneView { status: MilestoneStatus::Released, ..self }
    }

    /// The milestone with its status set to pending.
    pub open spec fn as_pending(self) -> MilestoneView {
        MilestoneView { status: MilestoneStatus::Pending, ..self }
    }
}

impl View for Milestone {
    type V = MilestoneView;

    open spec fn view(&self) -> MilestoneView {
        MilestoneView {
            amount: self.amount as int,
            status: self.status,
            description: self.description@,
        }
    }
}

impl DeepView for Milestone {
    type V = MilestoneView;

    open spec fn deep_view(&self) -> MilestoneView {
        self@
    }
}

impl Clone for Milestone {
    fn clone(&self) -> (copy: Milestone)
        ensures
            copy@ == self@,
    {
        Milestone {
            amount: self.amount,
            status: self.status,
            description: self.description.clone(),
        }
    }
}

/// The sum of the amounts of a schedule.
pub open spec fn committed(schedule: Seq<MilestoneView>) -> int
    decreases schedule.len(),
{
    if schedule.len() == 0 {
        0
    } else {
        committed(schedule.drop_last()) + schedule.last().amount
    }
}

/// The sum of the amounts of the released milestones of a schedule.
pub open spec fn released(schedule: Seq<MilestoneView>) -> int
    decreases schedule.len(),
{
    if schedule.len() == 0 {
        0
    } else if schedule.last().status == MilestoneStatus::Released {
        released(schedule.drop_last()) + schedule.last().amount
    } else {
        released(schedule.drop_last())
    }
}

/// Every amount of the schedule is strictly positive.
pub open spec fn all_positive(schedule: Seq<MilestoneView>) -> bool {
    forall|i: int| 0 <= i < schedule.len() ==> (#[trigger] schedule[i]).amount > 0
}

/// Every milestone of the schedule has been released.
pub open spec fn all_released(schedule: Seq<MilestoneView>) -> bool {
    forall|i: int|
        0 <= i < schedule.len() ==> (#[trigger] schedule[i]).status == MilestoneStatus::Released
}

/// No milestone of the schedule has been released.
pub open spec fn none_released(schedule: Seq<MilestoneView>) -> bool {
    forall|i: int|
        0 <= i < schedule.len() ==> (#[trigger] schedule[i]).status == MilestoneStatus::Pending
}

/// The schedule with every milestone set back to pending.
pub open spec fn as_pending(schedule: Seq<MilestoneView>) -> Seq<MilestoneView> {
    Seq::new(schedule.len(), |i: int| schedule[i].as_pending())
}

/// What validation answers for a schedule: the committed total, or the
/// first of the reasons to refuse it.
pub open spec fn validation(schedule: Seq<MilestoneView>) -> Result<i128, Error> {
    if schedule.len() > MAX_MILESTONES {
        Err(Error::VectorTooLarge)
    } else if !all_positive(schedule) || committed(schedule) > i128::MAX {
        Err(Error::InvalidMilestoneAmount)
    } else {
        Ok(committed(schedule) as i128)
    }
}

/// Adding the next milestone to a prefix of a schedule adds its amount to
/// the committed sum.
pub proof fn lemma_committed_step(schedule: Seq<MilestoneView>, i: int)
    requires
        0 <= i < schedule.len(),
    ensures
        committed(schedule.take(i + 1)) == committed(schedule.take(i)) + schedule[i].amount,
{
    assert(schedule.take(i + 1).drop_last() =~= schedule.take(i));
}

/// Adding the next milestone to a prefix of a schedule adds its amount to
/// the released sum if and only if that milestone is released.
pub proof fn lemma_released_step(schedule: Seq<MilestoneView>, i: int)
    requires
        0 <= i < schedule.len(),
    ensures
        released(schedule.take(i + 1)) == released(schedule.take(i)) + if schedule[i].status
            == MilestoneStatus::Released {
            schedule[i].amount
        } else {
            0
        },
{
    assert(schedule.take(i + 1).drop_last() =~= schedule.take(i));
}

/// With positive amounts, a prefix of a schedule commits no more than the
/// whole schedule.
pub proof fn lemma_committed_prefix(schedule: Seq<MilestoneView>, k: int)
    requires
        all_positive(schedule),
        0 <= k <= schedule.len(),
    ensures
        0 <= committed(schedule.take(k)) <= committed(schedule),
    decreases schedule.len() - k,
{
    if k == schedule.len() {
        assert(schedule.take(k) =~= schedule);
        lemma_committed_nonnegative(schedule);
    } else {
        lemma_committed_prefix(schedule, k + 1);
        lemma_committed_step(schedule, k);
        lemma_committed_nonnegative(schedule.take(k));
    }
}

/// With positive amounts the committed sum is not negative, and it is zero
/// only for the empty schedule.
pub proof fn lemma_committed_nonnegative(schedule: Seq<MilestoneView>)
    requires
        all_positive(schedule),
    ensures
        committed(schedule) >= 0,
        schedule.len() > 0 ==> committed(schedule) > 0,
    decreases schedule.len(),
{
    if schedule.len() > 0 {
        lemma_committed_nonnegative(schedule.drop_last());
    }
}

/// With positive amounts, the released sum lies between zero and the
/// committed sum; it is zero exactly when nothing is released, and it is
/// the committed sum exactly when everything is released.
pub proof fn lemma_released_bounds(schedule: Seq<MilestoneView>)
    requires
        all_positive(schedule),
    ensures
        0 <= released(schedule) <= committed(schedule),
        released(schedule) == 0 <==> none_released(schedule),
        released(schedule) == committed(schedule) <==> all_released(schedule),
    decreases schedule.len(),
{
    if schedule.len() > 0 {
        let front = schedule.drop_last();
        let last = schedule.len() - 1;
        assert(schedule[last].amount > 0);
        assert forall|i: int| 0 <= i < front.len() implies (#[trigger] front[i]).amount > 0 by {
            assert(front[i] == schedule[i]);
        }
        lemma_released_bounds(front);
        if none_released(schedule) {
            assert(schedule[last].status == MilestoneStatus::Pending);
            assert forall|i: int| 0 <= i < front.len() implies (#[trigger] front[i]).status
                == MilestoneStatus::Pending by {
                assert(front[i] == schedule[i]);
            }
        }
        if none_released(front) && schedule[last].status == MilestoneStatus::Pending {
            assert forall|i: int| 0 <= i < schedule.len() implies (#[trigger] schedule[i]).status
                == MilestoneStatus::Pending by {
                if i < last {
                    assert(front[i] == schedule[i]);
                }
            }
        }
        if all_released(schedule) {
            assert(schedule[last].status == MilestoneStatus::Released);
            assert forall|i: int| 0 <= i < front.len() implies (#[trigger] front[i]).status
                == MilestoneStatus::Released by {
                assert(front[i] == schedule[i]);
            }
        }
        if all_released(front) && schedule[last].status == MilestoneStatus::Released {
            assert forall|i: int| 0 <= i < schedule.len() implies (#[trigger] schedule[i]).status
                == MilestoneStatus::Released by {
                if i < last {
                    assert(front[i] == schedule[i]);
                }
            }
        }
    }
}

/// Releasing a pending milestone adds its amount to the released sum and
/// leaves the committed sum as it was.
pub proof fn lemma_release_adds(schedule: Seq<MilestoneView>, index: int)
    requires
        0 <= index < schedule.len(),
        schedule[index].status == MilestoneStatus::Pending,
    ensures
        released(schedule.update(index, schedule[index].as_released())) == released(schedule)
            + schedule[index].amount,
        committed(schedule.update(index, schedule[index].as_released())) == committed(schedule),
    decreases schedule.len(),
{
    let updated = schedule.update(index, schedule[index].as_released());
    if index == schedule.len() - 1 {
        assert(updated.drop_last() =~= schedule.drop_last());
    } else {
        let front = schedule.drop_last();
        assert(updated.drop_last() =~= front.update(index, front[index].as_released()));
        lemma_release_adds(front, index);
    }
}

/// Setting every milestone back to pending keeps the committed sum and
/// the amounts, and leaves nothing released.
pub proof fn lemma_as_pending(schedule: Seq<MilestoneView>)
    ensures
        committed(as_pending(schedule)) == committed(schedule),
        released(as_pending(schedule)) == 0,
        none_released(as_pending(schedule)),
        all_positive(schedule) ==> all_positive(as_pending(schedule)),
    decreases schedule.len(),
{
    if schedule.len() > 0 {
        assert(as_pending(schedule).drop_last() =~= as_pending(schedule.drop_last()));
        lemma_as_pending(schedule.drop_last());
    }
    if all_positive(schedule) {
        assert forall|i: int| 0 <= i < schedule.len() implies (#[trigger] as_pending(
            schedule,
        )[i]).amount > 0 by {
            assert(schedule[i].amount > 0);
        }
    }
}

/// Checks a schedule and computes the total that it commits.
///
/// A schedule of more than [`MAX_MILESTONES`] entries is refused as too
/// large. Otherwise it is refused as holding an invalid amount when an
/// amount is zero or negative or when the total does not fit in an `i128`.
/// The empty schedule passes and commits nothing.
pub fn validate_milestones(milestones: &Vec<Milestone>) -> (result: Result<i128, Error>)
    ensures
        result == validation(milestones.deep_view()),
{
    if milestones.len() > MAX_MILESTONES {
        return Err(Error::VectorTooLarge);
    }
    let ghost schedule = milestones.deep_view();
    let mut total: i128 = 0;
    let mut i: usize = 0;
    while i < milestones.len()
        invariant
            i <= milestones.len() <= MAX_MILESTONES,
            schedule == milestones.deep_view(),
            all_positive(schedule.take(i as int)),
            total == committed(schedule.take(i as int)),
        decreases milestones.len() - i,
    {
        let amount = milestones[i].amount;
        assert(schedule[i as int].amount == amount);
        if amount <= 0 {
            return Err(Error::InvalidMilestoneAmount);
        }
        proof {
            lemma_committed_step(schedule, i as int);
        }
        match total.checked_add(amount) {
            Some(sum) => {
                total = sum;
            },
            None => {
                proof {
                    if all_positive(schedule) {
                        lemma_committed_prefix(schedule, i + 1);
                    }
                }
                return Err(Error::InvalidMilestoneAmount);
            },
        }
        i += 1;
    }
    proof {
        assert(schedule.take(i as int) =~= schedule);
    }
    Ok(total)
}

/// Whether every milestone of the schedule has been released.
pub fn verify_all_released(milestones: &Vec<Milestone>) -> (all: bool)
    ensures
        all == all_released(milestones.deep_view()),
{
    let ghost schedule = milestones.deep_view();
    let mut i: usize = 0;
    while i < milestones.len()
        invariant
            i <= milestones.len(),
            schedule == milestones.deep_view(),
            all_released(schedule.take(i as int)),
        decreases milestones.len() - i,
    {
        if milestones[i].status != MilestoneStatus::Released {
            assert(schedule[i as int].status != MilestoneStatus::Released);
            return false;
        }
        i += 1;
    }
    proof {
        assert(schedule.take(i as int) =~= schedule);
    }
    true
}

/// The sum of the amounts of the released milestones of a schedule whose
/// amounts are positive and whose committed sum fits.
pub(crate) fn released_total(milestones: &Vec<Milestone>) -> (total: i128)
    requires
        all_positive(milestones.deep_view()),
        committed(milestones.deep_view()) <= i128::MAX,
    ensures
        total == released(milestones.deep_view()),
{
    let ghost schedule = milestones.deep_view();
    let mut total: i128 = 0;
    let mut i: usize = 0;
    while i < milestones.len()
        invariant
            i <= milestones.len(),
            schedule == milestones.deep_view(),
            all_positive(schedule),
            committed(schedule) <= i128::MAX,
            total == released(schedule.take(i as int)),
            0 <= total <= committed(schedule.take(i as int)),
        decreases milestones.len() - i,
    {
        proof {
            lemma_released_step(schedule, i as int);
            lemma_committed_step(schedule, i as int);
            lemma_committed_prefix(schedule, i + 1);
            assert(schedule[i as int].amount > 0);
        }
        if milestones[i].status == MilestoneStatus::Released {
            total = total + milestones[i].amount;
        }
        i += 1;
    }
    proof {
        assert(schedule.take(i as int) =~= schedule);
    }
    total
}

/// A copy of the schedule in which every milestone is pending, whatever
/// status the given entries carry.
pub fn pending_schedule(milestones: &Vec<Milestone>) -> (fresh: Vec<Milestone>)
    ensures
        fresh.deep_view() == as_pending(milestones.deep_view()),
{
    let mut fresh: Vec<Milestone> = Vec::new();
    let mut i: usize = 0;
    while i < milestones.len()
        invariant
            i <= milestones.len(),
            fresh.len() == i,
            forall|j: int|
                0 <= j < i ==> (#[trigger] fresh[j])@ == as_pending(milestones.deep_view())[j],
        decreases milestones.len() - i,
    {
        let entry = &milestones[i];
        fresh.push(
            Milestone {
                amount: entry.amount,
                status: MilestoneStatus::Pending,
                description: entry.description.clone(),
            },
        );
        i += 1;
    }
    proof {
        assert(fresh.deep_view() =~= as_pending(milestones.deep_view()));
    }
    fresh
}

} // verus!
