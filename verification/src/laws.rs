//! What holds of the ledger whatever is asked of it.

use crate::amounts::lemma_fee_within_amount;
use crate::effects::{ReceiptView, TransferKind, TransferView};
use crate::invariants::{
    lemma_dispute_inv, lemma_new_escrow_inv, lemma_release_inv, lemma_released_in_range,
};
use crate::milestones::{
    all_positive, lemma_all_released, lemma_checked_total, total_of, validation_outcome,
    MAX_MILESTONES,
};
use crate::model::{
    accounted, disbursed, in_custody, issued, may_follow, moved, moves, run, stage, LedgerView,
    Request,
};
use crate::types::{Error, EscrowStatus, MilestoneStatus, MilestoneView};
use vstd::prelude::*;

verus! {

/// What two lists of transfers move together is the sum of what each moves.
pub proof fn lemma_moved_concat(
    first: Seq<TransferView>,
    second: Seq<TransferView>,
    id: u64,
    kind: TransferKind,
)
    ensures
        moved(first + second, id, kind) == moved(first, id, kind) + moved(second, id, kind),
    decreases second.len(),
{
    if second.len() > 0 {
        lemma_moved_concat(first, second.drop_last(), id, kind);
        assert((first + second).drop_last() =~= first + second.drop_last());
    }
}

/// What a list of at most two transfers moves.
pub proof fn lemma_moved_few(transfers: Seq<TransferView>, id: u64, kind: TransferKind)
    requires
        transfers.len() <= 2,
    ensures
        moved(transfers, id, kind) == if transfers.len() == 0 {
            0
        } else if transfers.len() == 1 {
            moves(transfers[0], id, kind)
        } else {
            moves(transfers[0], id, kind) + moves(transfers[1], id, kind)
        },
    decreases transfers.len(),
{
    if transfers.len() > 0 {
        lemma_moved_few(transfers.drop_last(), id, kind);
    }
}

/// Every request leaves the ledger's invariant standing: fee rates stay
/// between 0 and 10000 basis points, the parties of an escrow stay distinct,
/// its milestones stay at most twenty with positive amounts, its total stays
/// their sum and its released sum stays the sum of the released ones.
pub proof fn law_invariant_holds(ledger: LedgerView, request: Request)
    requires
        ledger.inv(),
    ensures
        ledger.after(request).inv(),
{
    match request {
        Request::CreateEscrow { escrow_id, depositor, recipient, token, milestones, deadline } => {
            if ledger.step(request) is Ok {
                lemma_new_escrow_inv(depositor, recipient, token, milestones, deadline);
            }
        },
        Request::ReleaseMilestone { escrow_id, index } => {
            if ledger.step(request) is Ok {
                lemma_release_inv(ledger.escrows[escrow_id], index);
            }
        },
        Request::ConfirmDelivery { escrow_id, index, buyer } => {
            if ledger.step(request) is Ok {
                lemma_release_inv(ledger.escrows[escrow_id], index);
            }
        },
        Request::RaiseDispute { escrow_id, caller } => {
            if ledger.step(request) is Ok {
                lemma_dispute_inv(ledger.escrows[escrow_id]);
            }
        },
        Request::ResolveDispute { escrow_id, winner } => {
            if ledger.step(request) is Ok {
                lemma_dispute_inv(ledger.escrows[escrow_id]);
            }
        },
        _ => {},
    }
}

/// Every ledger that a history of requests leads to from the empty ledger
/// satisfies the invariant, and no escrow on it has released less than
/// nothing or more than its total amount.
pub proof fn law_reachable_ledgers(history: Seq<Request>, id: u64)
    ensures
        run(LedgerView::empty(), history).inv(),
        run(LedgerView::empty(), history).escrows.contains_key(id) ==> 0 <= run(
            LedgerView::empty(),
            history,
        ).escrows[id].total_released <= run(LedgerView::empty(), history).escrows[id].total_amount,
    decreases history.len(),
{
    if history.len() > 0 {
        law_reachable_ledgers(history.drop_last(), id);
        law_invariant_holds(run(LedgerView::empty(), history.drop_last()), history.last());
    }
    let reached = run(LedgerView::empty(), history);
    if reached.escrows.contains_key(id) {
        lemma_released_in_range(reached.escrows[id]);
    }
}

/// One request keeps the books: if the transfers issued so far are what the
/// books of an escrow say, they still are with the transfers of the request
/// added.
pub proof fn law_step_keeps_the_books(
    ledger: LedgerView,
    issued_so_far: Seq<TransferView>,
    request: Request,
    id: u64,
)
    requires
        ledger.inv(),
        accounted(ledger, issued_so_far, id),
    ensures
        accounted(ledger.after(request), issued_so_far + ledger.issues(request), id),
{
    let transfers = ledger.issues(request);
    lemma_moved_concat(issued_so_far, transfers, id, TransferKind::Deposit);
    lemma_moved_concat(issued_so_far, transfers, id, TransferKind::Payout);
    lemma_moved_concat(issued_so_far, transfers, id, TransferKind::Fee);
    lemma_moved_concat(issued_so_far, transfers, id, TransferKind::Refund);
    lemma_moved_few(transfers, id, TransferKind::Deposit);
    lemma_moved_few(transfers, id, TransferKind::Payout);
    lemma_moved_few(transfers, id, TransferKind::Fee);
    lemma_moved_few(transfers, id, TransferKind::Refund);
    if ledger.step(request) is Ok {
        match request {
            Request::ResolveDispute { escrow_id, .. } | Request::CancelEscrow { escrow_id } => {
                lemma_released_in_range(ledger.escrows[escrow_id]);
            },
            Request::CompleteEscrow { escrow_id } => {
                lemma_all_released(ledger.escrows[escrow_id].milestones);
            },
            _ => {},
        }
    }
}

/// The books are kept through every history: the transfers that any history
/// of requests issues from the empty ledger are what the books of every
/// escrow say.
pub proof fn law_books_are_kept(history: Seq<Request>, id: u64)
    ensures
        accounted(run(LedgerView::empty(), history), issued(LedgerView::empty(), history), id),
    decreases history.len(),
{
    if history.len() > 0 {
        let earlier = history.drop_last();
        law_books_are_kept(earlier, id);
        law_reachable_ledgers(earlier, id);
        law_step_keeps_the_books(
            run(LedgerView::empty(), earlier),
            issued(LedgerView::empty(), earlier),
            history.last(),
            id,
        );
    }
}

/// Money is conserved: after any history of requests from the empty ledger,
/// the payouts and fees ever issued on account of an escrow add up to what
/// the escrow has released.
pub proof fn law_money_conservation(history: Seq<Request>, id: u64)
    ensures
        disbursed(issued(LedgerView::empty(), history), id) == run(
            LedgerView::empty(),
            history,
        ).released(id),
{
    law_books_are_kept(history, id);
}

/// Custody covers every escrow that was funded: after any history of
/// requests from the empty ledger, what custody holds on account of an escrow
/// that has deposited its amount is what the escrow has not released while it
/// is active or disputed, and nothing once it is completed, cancelled or
/// resolved.
///
/// An escrow that was never funded holds nothing, and leaves custody short of
/// its whole amount if it is disputed and resolved all the same.
pub proof fn law_custody(history: Seq<Request>, id: u64)
    requires
        run(LedgerView::empty(), history).escrows.contains_key(id),
    ensures
        ({
            let escrow = run(LedgerView::empty(), history).escrows[id];
            let transfers = issued(LedgerView::empty(), history);
            let funded = moved(transfers, id, TransferKind::Deposit) == escrow.total_amount;
            &&& funded ==> in_custody(transfers, id) == if escrow.status == EscrowStatus::Active
                || escrow.status == EscrowStatus::Disputed {
                escrow.outstanding()
            } else {
                0
            }
            &&& !funded ==> in_custody(transfers, id) == if escrow.status
                == EscrowStatus::Resolved {
                -escrow.total_amount
            } else {
                0
            }
        }),
{
    law_books_are_kept(history, id);
}

/// The total amount of a new escrow is the exact sum of the amounts of its
/// milestones, and a list of at most twenty milestones with positive amounts
/// whose sum fits in 128 bits is accepted on an unpaused ledger for an unused
/// identifier and two distinct parties.
pub proof fn law_created_total(
    ledger: LedgerView,
    escrow_id: u64,
    depositor: Seq<char>,
    recipient: Seq<char>,
    token: Seq<char>,
    milestones: Seq<MilestoneView>,
    deadline: nat,
)
    ensures
        ledger.create_escrow(escrow_id, depositor, recipient, token, milestones, deadline)
            matches Ok((next, _)) ==> {
            &&& next.escrows.contains_key(escrow_id)
            &&& next.escrows[escrow_id].total_amount == total_of(milestones)
            &&& next.escrows[escrow_id].total_released == 0
            &&& next.escrows[escrow_id].status == EscrowStatus::Created
        },
        !ledger.paused() && !ledger.escrows.contains_key(escrow_id) && depositor != recipient
            && milestones.len() <= MAX_MILESTONES && all_positive(milestones) && total_of(
            milestones,
        ) <= i128::MAX ==> ledger.create_escrow(
            escrow_id,
            depositor,
            recipient,
            token,
            milestones,
            deadline,
        ) is Ok,
{
    lemma_checked_total(milestones);
}

/// A milestone cannot be released twice: after a release has been accepted,
/// the same release is rejected with `MilestoneAlreadyReleased`, and the
/// ledger stays as the first release left it.
pub proof fn law_release_once(ledger: LedgerView, escrow_id: u64, index: int)
    requires
        ledger.release_milestone(escrow_id, index) is Ok,
    ensures
        ledger.after(Request::ReleaseMilestone { escrow_id, index }).release_milestone(
            escrow_id,
            index,
        ) == Err::<(LedgerView, ReceiptView), Error>(Error::MilestoneAlreadyReleased),
        ledger.after(Request::ReleaseMilestone { escrow_id, index }).after(
            Request::ReleaseMilestone { escrow_id, index },
        ) == ledger.after(Request::ReleaseMilestone { escrow_id, index }),
{
}

/// The same holds of a confirmed delivery: a second confirmation of the same
/// milestone is rejected with `MilestoneAlreadyReleased`.
pub proof fn law_confirm_once(ledger: LedgerView, escrow_id: u64, index: int, buyer: Seq<char>)
    requires
        ledger.confirm_delivery(escrow_id, index, buyer) is Ok,
    ensures
        ledger.after(Request::ConfirmDelivery { escrow_id, index, buyer }).confirm_delivery(
            escrow_id,
            index,
            buyer,
        ) == Err::<(LedgerView, ReceiptView), Error>(Error::MilestoneAlreadyReleased),
{
}

/// On a ledger that is not paused, an escrow under an unused identifier whose
/// depositor is also its recipient is rejected with `SelfDealing`, whatever
/// its milestones are.
pub proof fn law_self_dealing(
    ledger: LedgerView,
    escrow_id: u64,
    party: Seq<char>,
    token: Seq<char>,
    milestones: Seq<MilestoneView>,
    deadline: nat,
)
    requires
        !ledger.paused(),
        !ledger.escrows.contains_key(escrow_id),
    ensures
        ledger.create_escrow(escrow_id, party, party, token, milestones, deadline) == Err::<
            (LedgerView, ReceiptView),
            Error,
        >(Error::SelfDealing),
{
}

/// While the ledger is paused, no escrow is created or funded: both calls are
/// rejected with `ContractPaused`, whatever their arguments. Once the pause is
/// lifted neither call is rejected for it any more, and pausing a ledger and
/// lifting the pause brings back the very ledger that was paused, so that
/// every call comes to what it would have come to before.
pub proof fn law_pause_gating(
    ledger: LedgerView,
    escrow_id: u64,
    depositor: Seq<char>,
    recipient: Seq<char>,
    token: Seq<char>,
    milestones: Seq<MilestoneView>,
    deadline: nat,
)
    requires
        ledger.config is Some,
    ensures
        ledger.set_paused(true) is Ok,
        ledger.set_paused(false) is Ok,
        ledger.after(Request::SetPaused { paused: true }).create_escrow(
            escrow_id,
            depositor,
            recipient,
            token,
            milestones,
            deadline,
        ) == Err::<(LedgerView, ReceiptView), Error>(Error::ContractPaused),
        ledger.after(Request::SetPaused { paused: true }).deposit_funds(escrow_id) == Err::<
            (LedgerView, ReceiptView),
            Error,
        >(Error::ContractPaused),
        ledger.after(Request::SetPaused { paused: false }).create_escrow(
            escrow_id,
            depositor,
            recipient,
            token,
            milestones,
            deadline,
        ) != Err::<(LedgerView, ReceiptView), Error>(Error::ContractPaused),
        ledger.after(Request::SetPaused { paused: false }).deposit_funds(escrow_id) != Err::<
            (LedgerView, ReceiptView),
            Error,
        >(Error::ContractPaused),
        !ledger.paused() ==> ledger.after(Request::SetPaused { paused: true }).after(
            Request::SetPaused { paused: false },
        ) == ledger,
{
    lemma_checked_total(milestones);
}

/// A list of more than twenty milestones is rejected with
/// `TooManyMilestones`, and a list of twenty milestones or fewer passes
/// validation if its amounts are positive and their sum fits in 128 bits.
pub proof fn law_milestone_limit(milestones: Seq<MilestoneView>)
    ensures
        milestones.len() > MAX_MILESTONES ==> validation_outcome(milestones) == Err::<int, Error>(
            Error::TooManyMilestones,
        ),
        milestones.len() <= MAX_MILESTONES && all_positive(milestones) && total_of(milestones)
            <= i128::MAX ==> validation_outcome(milestones) == Ok::<int, Error>(
            total_of(milestones),
        ),
        validation_outcome(milestones) is Ok ==> milestones.len() <= MAX_MILESTONES
            && all_positive(milestones),
{
    lemma_checked_total(milestones);
}

/// No request removes an escrow or changes its terms: the parties, the
/// token, the total amount, the deadline, and the number, the amounts and the
/// labels of the milestones stay as they were created.
pub proof fn law_terms_are_fixed(ledger: LedgerView, request: Request, id: u64)
    requires
        ledger.escrows.contains_key(id),
    ensures
        ledger.after(request).escrows.contains_key(id),
        ({
            let before = ledger.escrows[id];
            let after = ledger.after(request).escrows[id];
            &&& after.depositor == before.depositor
            &&& after.recipient == before.recipient
            &&& after.token_address == before.token_address
            &&& after.total_amount == before.total_amount
            &&& after.deadline == before.deadline
            &&& after.milestones.len() == before.milestones.len()
            &&& forall|i: int|
                0 <= i < before.milestones.len() ==> (#[trigger] after.milestones[i]).amount
                    == before.milestones[i].amount && after.milestones[i].description
                    == before.milestones[i].description
        }),
{
}

/// The status of an escrow only moves forward: a request leaves it as it is
/// or takes it along one of the edges created to active, cancelled or
/// disputed, active to completed, cancelled or disputed, and disputed to
/// resolved. Every edge leads to a later stage, so no status comes back, and
/// nothing leaves completed, cancelled or resolved.
pub proof fn law_status_moves_forward(ledger: LedgerView, request: Request, id: u64)
    requires
        ledger.escrows.contains_key(id),
    ensures
        ledger.after(request).escrows.contains_key(id),
        ledger.after(request).escrows[id].status == ledger.escrows[id].status || may_follow(
            ledger.escrows[id].status,
            ledger.after(request).escrows[id].status,
        ),
        forall|from: EscrowStatus, to: EscrowStatus| #[trigger]
            may_follow(from, to) ==> stage(from) < stage(to),
{
}

/// A completed, cancelled or resolved escrow is closed: no request changes
/// anything about it, and none moves a token on its account.
pub proof fn law_closed_escrows_are_final(ledger: LedgerView, request: Request, id: u64)
    requires
        ledger.escrows.contains_key(id),
        stage(ledger.escrows[id].status) == 3,
    ensures
        ledger.after(request).escrows.contains_key(id),
        ledger.after(request).escrows[id] == ledger.escrows[id],
        forall|i: int|
            0 <= i < ledger.issues(request).len() ==> (#[trigger] ledger.issues(
                request,
            )[i]).escrow_id != id,
{
}

/// On account of an escrow that is only created nothing moves but its
/// deposit, and nothing is paid out, in payouts or in fees, but for an escrow
/// that is active or disputed.
pub proof fn law_funds_move_when_due(ledger: LedgerView, request: Request, id: u64, i: int)
    requires
        ledger.escrows.contains_key(id),
        0 <= i < ledger.issues(request).len(),
        ledger.issues(request)[i].escrow_id == id,
    ensures
        ledger.escrows[id].status == EscrowStatus::Created ==> ledger.issues(request)[i].kind
            == TransferKind::Deposit,
        ledger.issues(request)[i].kind == TransferKind::Payout || ledger.issues(request)[i].kind
            == TransferKind::Fee ==> ledger.escrows[id].status == EscrowStatus::Active
            || ledger.escrows[id].status == EscrowStatus::Disputed,
        ledger.issues(request)[i].kind == TransferKind::Fee ==> ledger.escrows[id].status
            == EscrowStatus::Active,
{
}

/// An escrow that is completed has released its whole amount.
pub proof fn law_completed_is_paid_in_full(ledger: LedgerView, escrow_id: u64)
    requires
        ledger.inv(),
        ledger.complete_escrow(escrow_id) is Ok,
    ensures
        ledger.after(Request::CompleteEscrow { escrow_id }).escrows[escrow_id].total_released
            == ledger.escrows[escrow_id].total_amount,
        ledger.after(Request::CompleteEscrow { escrow_id }).escrows[escrow_id].status
            == EscrowStatus::Completed,
{
    lemma_all_released(ledger.escrows[escrow_id].milestones);
}

/// A release splits the amount of the milestone between the recipient and
/// the treasury and loses nothing: the fee is the amount times the rate of
/// the moment over 10000, rounded down, it is not negative and not more than
/// the amount, and payout and fee together are the amount.
pub proof fn law_release_splits_the_amount(ledger: LedgerView, escrow_id: u64, index: int)
    requires
        ledger.inv(),
        ledger.release_milestone(escrow_id, index) is Ok,
    ensures
        ({
            let amount = ledger.escrows[escrow_id].milestones[index].amount;
            let rate = ledger.config->0.fee_bps;
            let transfers = ledger.issues(Request::ReleaseMilestone { escrow_id, index });
            let fee = (amount * rate) / 10000;
            &&& 0 <= fee <= amount
            &&& transfers[0].kind == TransferKind::Payout
            &&& transfers[0].party == ledger.escrows[escrow_id].recipient
            &&& transfers[0].amount == amount - fee
            &&& fee == 0 ==> transfers.len() == 1
            &&& fee > 0 ==> transfers.len() == 2 && transfers[1].kind == TransferKind::Fee
                && transfers[1].party == ledger.config->0.treasury && transfers[1].amount == fee
        }),
{
    let amount = ledger.escrows[escrow_id].milestones[index].amount;
    lemma_fee_within_amount(amount, ledger.config->0.fee_bps);
}

/// Who must authorize what: the depositor creates, funds, releases, cancels
/// and completes; the buyer who confirms a delivery is the depositor; a
/// dispute is raised by the one of the two parties who calls; only the
/// administrator settles it; the treasury changes the fee and the pause flag;
/// and a new treasury or administrator answers for itself.
pub proof fn law_authorization(ledger: LedgerView, request: Request)
    requires
        ledger.step(request) is Ok,
    ensures
        ({
            let authorizer = ledger.step(request)->Ok_0.1.authorizer;
            match request {
                Request::Initialize { treasury, .. } => authorizer == treasury,
                Request::UpdateFee { .. } | Request::SetPaused { .. } => authorizer
                    == ledger.config->0.treasury,
                Request::Init { admin } => authorizer == admin,
                Request::CreateEscrow { depositor, .. } => authorizer == depositor,
                Request::DepositFunds { escrow_id }
                | Request::ReleaseMilestone { escrow_id, .. }
                | Request::CancelEscrow { escrow_id }
                | Request::CompleteEscrow { escrow_id } => authorizer
                    == ledger.escrows[escrow_id].depositor,
                Request::ConfirmDelivery { escrow_id, buyer, .. } => authorizer == buyer && buyer
                    == ledger.escrows[escrow_id].depositor,
                Request::RaiseDispute { escrow_id, caller } => authorizer == caller
                    && ledger.escrows[escrow_id].is_party(caller),
                Request::ResolveDispute { .. } => ledger.admin == Some(authorizer),
            }
        }),
{
}

/// The administrator is registered once and for all: no request changes an
/// administrator that is registered.
pub proof fn law_administrator_is_fixed(ledger: LedgerView, request: Request)
    requires
        ledger.admin is Some,
    ensures
        ledger.after(request).admin == ledger.admin,
{
}

/// A milestone that has been released stays released, whatever is asked.
pub proof fn law_released_stays(ledger: LedgerView, request: Request, id: u64, index: int)
    requires
        ledger.escrows.contains_key(id),
        0 <= index < ledger.escrows[id].milestones.len(),
        ledger.escrows[id].milestones[index].status == MilestoneStatus::Released,
    ensures
        ledger.after(request).escrows[id].milestones[index].status == MilestoneStatus::Released,
{
}

} // verus!
