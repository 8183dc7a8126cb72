//! The invariant of an escrow: every change that an operation makes to an
//! escrow keeps it, and a record from elsewhere can be tested for it.

use crate::milestones::{
    all_positive, lemma_checked_total, lemma_front_sums, lemma_released_within_total,
    lemma_status_update, lemma_swept_sums, released_of, swept, total_of, validate_milestones,
    validation_outcome, Sweep,
};
use crate::model::new_escrow;
use crate::types::{
    milestone_views, Error, Escrow, EscrowView, MilestoneStatus, MilestoneView,
};
use vstd::prelude::*;

verus! {

/// The released sum of an escrow never leaves the range from nothing to the
/// total amount.
pub proof fn lemma_released_in_range(escrow: EscrowView)
    requires
        escrow.inv(),
    ensures
        0 <= escrow.total_released <= escrow.total_amount,
{
    lemma_released_within_total(escrow.milestones);
}

/// An escrow made from distinct parties and a list of milestones that passes
/// validation satisfies the invariant.
pub proof fn lemma_new_escrow_inv(
    depositor: Seq<char>,
    recipient: Seq<char>,
    token: Seq<char>,
    milestones: Seq<MilestoneView>,
    deadline: nat,
)
    requires
        depositor != recipient,
        validation_outcome(milestones) is Ok,
    ensures
        new_escrow(depositor, recipient, token, milestones, deadline).inv(),
        validation_outcome(milestones) == Ok::<int, Error>(total_of(milestones)),
{
    lemma_checked_total(milestones);
    lemma_swept_sums(milestones, Sweep::Reset);
}

/// The release of a milestone that was not released keeps the invariant.
pub proof fn lemma_release_inv(escrow: EscrowView, index: int)
    requires
        escrow.inv(),
        0 <= index < escrow.milestones.len(),
        escrow.milestones[index].status != MilestoneStatus::Released,
    ensures
        escrow.release(index).inv(),
        escrow.total_released + escrow.milestones[index].amount <= escrow.total_amount,
{
    lemma_status_update(escrow.milestones, index, MilestoneStatus::Released);
    let after = escrow.release(index);
    lemma_released_within_total(after.milestones);
}

/// Raising a dispute and settling it either way keep the invariant.
pub proof fn lemma_dispute_inv(escrow: EscrowView)
    requires
        escrow.inv(),
    ensures
        escrow.dispute().inv(),
        escrow.award().inv(),
        escrow.withhold().inv(),
{
    lemma_swept_sums(escrow.milestones, Sweep::Dispute);
    lemma_swept_sums(escrow.milestones, Sweep::Award);
    lemma_swept_sums(escrow.milestones, Sweep::Withhold);
}

impl Escrow {
    /// Whether this record satisfies the invariant of the escrows on a
    /// ledger: distinct parties, at most twenty milestones with positive
    /// amounts, a total amount that is their sum, and a released sum that is
    /// the sum of the released ones.
    pub fn is_consistent(&self) -> (consistent: bool)
        ensures
            consistent == self@.inv(),
    {
        let ghost views = milestone_views(self.milestones@);
        if self.depositor.same(&self.recipient) {
            return false;
        }
        match validate_milestones(&self.milestones) {
            Ok(total) => {
                if total != self.total_amount {
                    return false;
                }
            },
            Err(_) => {
                return false;
            },
        }
        let mut released: i128 = 0;
        let mut i: usize = 0;
        while i < self.milestones.len()
            invariant
                i <= self.milestones.len(),
                views == milestone_views(self.milestones@),
                all_positive(views),
                total_of(views) <= i128::MAX,
                released == released_of(views.take(i as int)),
            decreases self.milestones.len() - i,
        {
            proof {
                assert(views.take(i + 1).drop_last() =~= views.take(i as int));
                lemma_front_sums(views, i + 1);
            }
            if self.milestones[i].status == MilestoneStatus::Released {
                released = released + self.milestones[i].amount;
            }
            i += 1;
        }
        assert(views.take(i as int) =~= views);
        released == self.total_released
    }
}

} // verus!
