//! What holds of a whole list of milestones: its totals, its validation, and
//! the changes of status that sweep over every entry at once.

use crate::types::{milestone_views, Error, Milestone, MilestoneStatus, MilestoneView};
use vstd::prelude::*;

verus! {

/// The most milestones one escrow may have.
pub const MAX_MILESTONES: usize = 20;

/// The sum of all amounts in the list.
pub open spec fn total_of(milestones: Seq<MilestoneView>) -> int
    decreases milestones.len(),
{
    if milestones.len() == 0 {
        0
    } else {
        total_of(milestones.drop_last()) + milestones.last().amount
    }
}

/// The sum of the amounts of the released milestones in the list.
pub open spec fn released_of(milestones: Seq<MilestoneView>) -> int
    decreases milestones.len(),
{
    if milestones.len() == 0 {
        0
    } else {
        released_of(milestones.drop_last()) + if milestones.last().status
            == MilestoneStatus::Released {
            milestones.last().amount
        } else {
            0
        }
    }
}

/// Whether every amount in the list is strictly positive.
pub open spec fn all_positive(milestones: Seq<MilestoneView>) -> bool {
    forall|i: int| 0 <= i < milestones.len() ==> (#[trigger] milestones[i]).amount > 0
}

/// Whether every milestone in the list has been released.
pub open spec fn all_released(milestones: Seq<MilestoneView>) -> bool {
    forall|i: int|
        0 <= i < milestones.len() ==> (#[trigger] milestones[i]).status
            == MilestoneStatus::Released
}

/// The sum of the list taken entry by entry from the front, stopping at the
/// first entry that is not positive (`ZeroAmount`) or that carries the running
/// sum past 128 bits (`AmountOverflow`).
pub open spec fn checked_total(milestones: Seq<MilestoneView>) -> Result<int, Error>
    decreases milestones.len(),
{
    if milestones.len() == 0 {
        Ok(0)
    } else {
        match checked_total(milestones.drop_last()) {
            Err(e) => Err(e),
            Ok(front) => {
                if milestones.last().amount <= 0 {
                    Err(Error::ZeroAmount)
                } else if front + milestones.last().amount > i128::MAX {
                    Err(Error::AmountOverflow)
                } else {
                    Ok(front + milestones.last().amount)
                }
            },
        }
    }
}

/// What validating a list of milestones yields: `TooManyMilestones` for more
/// than twenty entries, else the checked total.
pub open spec fn validation_outcome(milestones: Seq<MilestoneView>) -> Result<int, Error> {
    if milestones.len() > MAX_MILESTONES {
        Err(Error::TooManyMilestones)
    } else {
        checked_total(milestones)
    }
}

/// The checked total of a list succeeds exactly when every amount is positive
/// and the plain sum fits in 128 bits, and it then is the plain sum.
pub proof fn lemma_checked_total(milestones: Seq<MilestoneView>)
    ensures
        checked_total(milestones) is Ok <==> all_positive(milestones) && total_of(milestones)
            <= i128::MAX,
        checked_total(milestones) is Ok ==> checked_total(milestones) == Ok::<int, Error>(
            total_of(milestones),
        ),
        all_positive(milestones) ==> total_of(milestones) >= 0,
        !(checked_total(milestones) is Ok) ==> checked_total(milestones) == Err::<int, Error>(
            Error::ZeroAmount,
        ) || checked_total(milestones) == Err::<int, Error>(Error::AmountOverflow),
    decreases milestones.len(),
{
    if milestones.len() > 0 {
        let front = milestones.drop_last();
        lemma_checked_total(front);
        assert forall|i: int| 0 <= i < front.len() implies front[i] == milestones[i] by {}
        if checked_total(milestones) is Ok {
            assert forall|i: int|
                0 <= i < milestones.len() implies (#[trigger] milestones[i]).amount > 0 by {}
        }
    }
}

/// The released sum lies between zero and the total when no amount is
/// negative.
pub proof fn lemma_released_within_total(milestones: Seq<MilestoneView>)
    requires
        forall|i: int| 0 <= i < milestones.len() ==> (#[trigger] milestones[i]).amount >= 0,
    ensures
        0 <= released_of(milestones) <= total_of(milestones),
    decreases milestones.len(),
{
    if milestones.len() > 0 {
        let front = milestones.drop_last();
        assert forall|i: int| 0 <= i < front.len() implies (#[trigger] front[i]).amount >= 0 by {}
        lemma_released_within_total(front);
    }
}

/// Changing the status of one entry leaves the total alone and moves the
/// released sum by that entry's amount, if at all.
pub proof fn lemma_status_update(
    milestones: Seq<MilestoneView>,
    index: int,
    status: MilestoneStatus,
)
    requires
        0 <= index < milestones.len(),
    ensures
        total_of(milestones.update(index, milestones[index].with_status(status))) == total_of(
            milestones,
        ),
        released_of(milestones.update(index, milestones[index].with_status(status)))
            == released_of(milestones) - (if milestones[index].status
            == MilestoneStatus::Released {
            milestones[index].amount
        } else {
            0
        }) + (if status == MilestoneStatus::Released {
            milestones[index].amount
        } else {
            0
        }),
    decreases milestones.len(),
{
    let updated = milestones.update(index, milestones[index].with_status(status));
    if index == milestones.len() - 1 {
        assert(updated.drop_last() =~= milestones.drop_last());
    } else {
        lemma_status_update(milestones.drop_last(), index, status);
        assert(updated.drop_last() =~= milestones.drop_last().update(
            index,
            milestones.drop_last()[index].with_status(status),
        ));
    }
}

/// The sums of a front part of a list of positive amounts are not more than
/// the sums of the whole list.
pub proof fn lemma_front_sums(milestones: Seq<MilestoneView>, n: int)
    requires
        0 <= n <= milestones.len(),
        all_positive(milestones),
    ensures
        0 <= released_of(milestones.take(n)) <= total_of(milestones.take(n)) <= total_of(
            milestones,
        ),
    decreases milestones.len(),
{
    assert forall|i: int| 0 <= i < n implies (#[trigger] milestones.take(n)[i]).amount >= 0 by {}
    lemma_released_within_total(milestones.take(n));
    if n < milestones.len() {
        let front = milestones.drop_last();
        assert forall|i: int| 0 <= i < front.len() implies (#[trigger] front[i]).amount > 0 by {}
        assert(front.take(n) =~= milestones.take(n));
        lemma_front_sums(front, n);
    } else {
        assert(milestones.take(n) =~= milestones);
    }
}

/// When everything is released the released sum is the total, and when the
/// amounts are positive the converse holds too.
pub proof fn lemma_all_released(milestones: Seq<MilestoneView>)
    ensures
        all_released(milestones) ==> released_of(milestones) == total_of(milestones),
        all_positive(milestones) && released_of(milestones) == total_of(milestones)
            ==> all_released(milestones),
    decreases milestones.len(),
{
    if milestones.len() > 0 {
        let front = milestones.drop_last();
        lemma_all_released(front);
        assert forall|i: int| 0 <= i < front.len() implies front[i] == milestones[i] by {}
        if all_positive(milestones) && released_of(milestones) == total_of(milestones) {
            assert forall|i: int| 0 <= i < front.len() implies (#[trigger] front[i]).amount
                >= 0 by {}
            lemma_released_within_total(front);
            assert forall|i: int|
                0 <= i < milestones.len() implies (#[trigger] milestones[i]).status
                    == MilestoneStatus::Released by {}
        }
    }
}

/// A change of status that is applied to every milestone of an escrow at
/// once.
#[derive(Clone, Copy, PartialEq, Eq, Debug, Structural)]
pub enum Sweep {
    /// A new escrow starts with every milestone pending.
    Reset,
    /// A dispute is raised: what was pending is now disputed.
    Dispute,
    /// A dispute is settled for the recipient: everything is released.
    Award,
    /// A dispute is settled for the depositor: what was not released stays
    /// unreleased, as disputed.
    Withhold,
}

impl Sweep {
    /// The status that this sweep gives a milestone of status `status`.
    pub open spec fn target(self, status: MilestoneStatus) -> MilestoneStatus {
        match self {
            Sweep::Reset => MilestoneStatus::Pending,
            Sweep::Dispute => if status == MilestoneStatus::Pending {
                MilestoneStatus::Disputed
            } else {
                status
            },
            Sweep::Award => MilestoneStatus::Released,
            Sweep::Withhold => if status == MilestoneStatus::Released {
                MilestoneStatus::Released
            } else {
                MilestoneStatus::Disputed
            },
        }
    }

    /// The status that this sweep gives a milestone of status `status`.
    pub fn apply(self, status: MilestoneStatus) -> (next: MilestoneStatus)
        ensures
            next == self.target(status),
    {
        match self {
            Sweep::Reset => MilestoneStatus::Pending,
            Sweep::Dispute => match status {
                MilestoneStatus::Pending => MilestoneStatus::Disputed,
                other => other,
            },
            Sweep::Award => MilestoneStatus::Released,
            Sweep::Withhold => match status {
                MilestoneStatus::Released => MilestoneStatus::Released,
                _ => MilestoneStatus::Disputed,
            },
        }
    }
}

/// The list after `sweep` has gone over every entry: amounts and labels stay,
/// each status moves to its target.
pub open spec fn swept(milestones: Seq<MilestoneView>, sweep: Sweep) -> Seq<MilestoneView> {
    Seq::new(
        milestones.len(),
        |i: int| milestones[i].with_status(sweep.target(milestones[i].status)),
    )
}

/// A sweep never changes the total. It leaves nothing released when it
/// resets, everything released when it awards, and the released sum as it was
/// otherwise.
pub proof fn lemma_swept_sums(milestones: Seq<MilestoneView>, sweep: Sweep)
    ensures
        total_of(swept(milestones, sweep)) == total_of(milestones),
        released_of(swept(milestones, sweep)) == match sweep {
            Sweep::Reset => 0,
            Sweep::Award => total_of(milestones),
            _ => released_of(milestones),
        },
    decreases milestones.len(),
{
    if milestones.len() > 0 {
        lemma_swept_sums(milestones.drop_last(), sweep);
        assert(swept(milestones, sweep).drop_last() =~= swept(milestones.drop_last(), sweep));
    }
}

/// Applies `sweep` to every milestone of the list.
pub fn sweep_milestones(milestones: &Vec<Milestone>, sweep: Sweep) -> (result: Vec<Milestone>)
    ensures
        milestone_views(result@) == swept(milestone_views(milestones@), sweep),
{
    let mut result: Vec<Milestone> = Vec::new();
    let mut i: usize = 0;
    while i < milestones.len()
        invariant
            i <= milestones.len(),
            result.len() == i,
            forall|j: int|
                0 <= j < i ==> (#[trigger] result[j])@ == milestones[j]@.with_status(
                    sweep.target(milestones[j].status),
                ),
        decreases milestones.len() - i,
    {
        let next = sweep.apply(milestones[i].status);
        result.push(milestones[i].with_status(next));
        i += 1;
    }
    result
}

/// Validates a list of milestones and returns the sum of their amounts.
///
/// A list of more than twenty entries is rejected with `TooManyMilestones`.
/// Otherwise the entries are taken in order: the first one whose amount is
/// not positive is rejected with `ZeroAmount`, the first one that carries the
/// running sum past 128 bits with `AmountOverflow`. So a list is accepted
/// exactly when it has at most twenty entries, all of positive amount, whose
/// sum fits in 128 bits.
pub fn validate_milestones(milestones: &Vec<Milestone>) -> (result: Result<i128, Error>)
    ensures
        match result {
            Ok(total) => validation_outcome(milestone_views(milestones@)) == Ok::<int, Error>(
                total as int,
            ) && total == total_of(milestone_views(milestones@)),
            Err(e) => validation_outcome(milestone_views(milestones@)) == Err::<int, Error>(e),
        },
        result is Ok <==> milestones.len() <= MAX_MILESTONES && all_positive(
            milestone_views(milestones@),
        ) && total_of(milestone_views(milestones@)) <= i128::MAX,
        result == Err::<i128, Error>(Error::TooManyMilestones) <==> milestones.len()
            > MAX_MILESTONES,
{
    let ghost views = milestone_views(milestones@);
    proof {
        lemma_checked_total(views);
    }
    if milestones.len() > MAX_MILESTONES {
        return Err(Error::TooManyMilestones);
    }
    let mut total: i128 = 0;
    let mut i: usize = 0;
    while i < milestones.len()
        invariant
            i <= milestones.len() <= MAX_MILESTONES,
            views == milestone_views(milestones@),
            checked_total(views.take(i as int)) == Ok::<int, Error>(total as int),
        decreases milestones.len() - i,
    {
        let amount = milestones[i].amount;
        proof {
            assert(views.take(i + 1).drop_last() =~= views.take(i as int));
        }
        if amount <= 0 {
            proof {
                lemma_checked_total_fails_on(views, i + 1);
            }
            return Err(Error::ZeroAmount);
        }
        total = match total.checked_add(amount) {
            Some(sum) => sum,
            None => {
                proof {
                    lemma_checked_total_fails_on(views, i + 1);
                    lemma_checked_total(views);
                }
                return Err(Error::AmountOverflow);
            },
        };
        i += 1;
    }
    assert(views.take(i as int) =~= views);
    Ok(total)
}

/// An error in the checked total of a front part of a list is the error of
/// the whole list.
pub proof fn lemma_checked_total_fails_on(milestones: Seq<MilestoneView>, n: int)
    requires
        0 <= n <= milestones.len(),
        checked_total(milestones.take(n)) is Err,
    ensures
        checked_total(milestones) == checked_total(milestones.take(n)),
    decreases milestones.len(),
{
    if n < milestones.len() {
        let front = milestones.drop_last();
        assert(front.take(n) =~= milestones.take(n));
        lemma_checked_total_fails_on(front, n);
    } else {
        assert(milestones.take(n) =~= milestones);
    }
}

/// Whether every milestone in the list has been released.
pub fn verify_all_released(milestones: &Vec<Milestone>) -> (released: bool)
    ensures
        released == all_released(milestone_views(milestones@)),
{
    let mut i: usize = 0;
    while i < milestones.len()
        invariant
            i <= milestones.len(),
            forall|j: int|
                0 <= j < i ==> (#[trigger] milestone_views(milestones@)[j]).status
                    == MilestoneStatus::Released,
        decreases milestones.len() - i,
    {
        if milestones[i].status != MilestoneStatus::Released {
            assert(milestone_views(milestones@)[i as int].status != MilestoneStatus::Released);
            return false;
        }
        i += 1;
    }
    true
}

} // verus!
