//! The escrow state machine as mathematics: the state of a ledger, and for
//! every operation the function from the state and the operation's arguments
//! to either a rejection or the next state with the receipt for the host.
//!
//! Every operation tests its conditions in one fixed order: the pause flag,
//! the existence of the record, the caller's standing, the status of the
//! escrow, and then the rules of the operation itself.

use crate::amounts::fee_of;
use crate::effects::{EventView, Receipt, ReceiptView, TransferKind, TransferView};
use crate::milestones::{
    all_positive, all_released, released_of, swept, total_of, validation_outcome, Sweep,
    MAX_MILESTONES,
};
use crate::types::{
    Error, EscrowStatus, EscrowView, MilestoneStatus, MilestoneView, Resolution,
};
use vstd::prelude::*;

verus! {

/// The treasury, its fee rate and the pause flag.
pub struct ConfigView {
    pub treasury: Seq<char>,
    pub fee_bps: int,
    pub paused: bool,
}

/// The whole state of a ledger.
pub struct LedgerView {
    /// Absent until the treasury is first set up.
    pub config: Option<ConfigView>,
    /// Absent until the administrator is registered.
    pub admin: Option<Seq<char>>,
    pub escrows: Map<u64, EscrowView>,
}

/// What an operation comes to: a rejection, or the next state and the receipt.
pub type Outcome = Result<(LedgerView, ReceiptView), Error>;

/// Whether a call that returned `result` and took the ledger from `before` to
/// `after` did what `outcome` says: it was rejected with the same error and
/// left the ledger as it was, or it took the ledger to the next state and
/// handed out the receipt.
pub open spec fn settled(
    outcome: Outcome,
    before: LedgerView,
    after: LedgerView,
    result: Result<Receipt, Error>,
) -> bool {
    match result {
        Ok(receipt) => outcome == Ok::<(LedgerView, ReceiptView), Error>((after, receipt@)),
        Err(e) => outcome == Err::<(LedgerView, ReceiptView), Error>(e) && after == before,
    }
}

impl EscrowView {
    /// What holds of every escrow on a ledger, after every operation.
    pub open spec fn inv(self) -> bool {
        &&& self.depositor != self.recipient
        &&& self.milestones.len() <= MAX_MILESTONES
        &&& all_positive(self.milestones)
        &&& self.total_amount == total_of(self.milestones)
        &&& self.total_released == released_of(self.milestones)
        &&& self.total_amount <= i128::MAX
    }

    /// Whether `who` is the depositor or the recipient.
    pub open spec fn is_party(self, who: Seq<char>) -> bool {
        who == self.depositor || who == self.recipient
    }

    /// What is still in custody for an active escrow: the part of the total
    /// that has not been released.
    pub open spec fn outstanding(self) -> int {
        self.total_amount - self.total_released
    }

    /// This escrow with another status.
    pub open spec fn with_status(self, status: EscrowStatus) -> EscrowView {
        EscrowView { status, ..self }
    }

    /// This escrow after the milestone at `index` has been released.
    pub open spec fn release(self, index: int) -> EscrowView {
        EscrowView {
            milestones: self.milestones.update(
                index,
                self.milestones[index].with_status(MilestoneStatus::Released),
            ),
            total_released: self.total_released + self.milestones[index].amount,
            ..self
        }
    }

    /// This escrow after a dispute has been raised.
    pub open spec fn dispute(self) -> EscrowView {
        EscrowView {
            milestones: swept(self.milestones, Sweep::Dispute),
            status: EscrowStatus::Disputed,
            resolution: Resolution::Unresolved,
            ..self
        }
    }

    /// This escrow after its dispute has been settled for the recipient.
    pub open spec fn award(self) -> EscrowView {
        EscrowView {
            milestones: swept(self.milestones, Sweep::Award),
            total_released: self.total_amount,
            status: EscrowStatus::Resolved,
            resolution: Resolution::Recipient,
            ..self
        }
    }

    /// This escrow after its dispute has been settled for the depositor.
    pub open spec fn withhold(self) -> EscrowView {
        EscrowView {
            milestones: swept(self.milestones, Sweep::Withhold),
            status: EscrowStatus::Resolved,
            resolution: Resolution::Depositor,
            ..self
        }
    }

    /// A payment of `amount` from custody to `party` on account of the escrow
    /// `escrow_id`.
    pub open spec fn pays(
        self,
        escrow_id: u64,
        kind: TransferKind,
        party: Seq<char>,
        amount: int,
    ) -> TransferView {
        TransferView { kind, escrow_id, token: self.token_address, party, amount }
    }
}

/// The escrow that `create_escrow` records.
pub open spec fn new_escrow(
    depositor: Seq<char>,
    recipient: Seq<char>,
    token: Seq<char>,
    milestones: Seq<MilestoneView>,
    deadline: nat,
) -> EscrowView {
    EscrowView {
        depositor,
        recipient,
        token_address: token,
        total_amount: total_of(milestones),
        total_released: 0,
        milestones: swept(milestones, Sweep::Reset),
        status: EscrowStatus::Created,
        deadline,
        resolution: Resolution::Unresolved,
    }
}

/// Whether `fee_bps` is a fee rate: between nothing and everything.
pub open spec fn valid_fee(fee_bps: int) -> bool {
    0 <= fee_bps <= 10000
}

/// A receipt that asks for an authorization and nothing else.
pub open spec fn authorization_only(authorizer: Seq<char>) -> ReceiptView {
    ReceiptView { authorizer, transfers: Seq::empty(), event: None }
}

impl LedgerView {
    /// The ledger before anything has happened.
    pub open spec fn empty() -> LedgerView {
        LedgerView { config: None, admin: None, escrows: Map::empty() }
    }

    /// What holds of a ledger after every operation.
    pub open spec fn inv(self) -> bool {
        &&& self.config matches Some(c) ==> valid_fee(c.fee_bps)
        &&& forall|id: u64| #[trigger]
            self.escrows.contains_key(id) ==> self.escrows[id].inv()
    }

    /// Whether the ledger is paused. A ledger without a treasury is not.
    pub open spec fn paused(self) -> bool {
        self.config matches Some(c) && c.paused
    }

    /// This ledger with the escrow `id` set to `escrow`.
    pub open spec fn with_escrow(self, id: u64, escrow: EscrowView) -> LedgerView {
        LedgerView { escrows: self.escrows.insert(id, escrow), ..self }
    }

    /// Sets the treasury and the fee rate (fifty basis points where none is
    /// given), for the first time or again. The pause flag stays as it is.
    pub open spec fn initialize(self, treasury: Seq<char>, fee_bps: Option<int>) -> Outcome {
        let fee = match fee_bps {
            Some(f) => f,
            None => 50,
        };
        if !valid_fee(fee) {
            Err(Error::InvalidFeeConfiguration)
        } else {
            Ok(
                (
                    LedgerView {
                        config: Some(ConfigView { treasury, fee_bps: fee, paused: self.paused() }),
                        ..self
                    },
                    authorization_only(treasury),
                ),
            )
        }
    }

    /// Changes the fee rate.
    pub open spec fn update_fee(self, new_fee_bps: int) -> Outcome {
        match self.config {
            None => Err(Error::TreasuryNotInitialized),
            Some(c) => if !valid_fee(new_fee_bps) {
                Err(Error::InvalidFeeConfiguration)
            } else {
                Ok(
                    (
                        LedgerView {
                            config: Some(ConfigView { fee_bps: new_fee_bps, ..c }),
                            ..self
                        },
                        authorization_only(c.treasury),
                    ),
                )
            },
        }
    }

    /// Sets the pause flag.
    pub open spec fn set_paused(self, paused: bool) -> Outcome {
        match self.config {
            None => Err(Error::TreasuryNotInitialized),
            Some(c) => Ok(
                (
                    LedgerView { config: Some(ConfigView { paused, ..c }), ..self },
                    authorization_only(c.treasury),
                ),
            ),
        }
    }

    /// Registers the administrator, once.
    pub open spec fn init(self, admin: Seq<char>) -> Outcome {
        if self.admin is Some {
            Err(Error::AlreadyInitialized)
        } else {
            Ok((LedgerView { admin: Some(admin), ..self }, authorization_only(admin)))
        }
    }

    /// Records a new escrow, unfunded, with every milestone pending.
    pub open spec fn create_escrow(
        self,
        escrow_id: u64,
        depositor: Seq<char>,
        recipient: Seq<char>,
        token: Seq<char>,
        milestones: Seq<MilestoneView>,
        deadline: nat,
    ) -> Outcome {
        if self.paused() {
            Err(Error::ContractPaused)
        } else if self.escrows.contains_key(escrow_id) {
            Err(Error::EscrowAlreadyExists)
        } else if depositor == recipient {
            Err(Error::SelfDealing)
        } else {
            match validation_outcome(milestones) {
                Err(e) => Err(e),
                Ok(_) => Ok(
                    (
                        self.with_escrow(
                            escrow_id,
                            new_escrow(depositor, recipient, token, milestones, deadline),
                        ),
                        ReceiptView {
                            authorizer: depositor,
                            transfers: Seq::empty(),
                            event: Some(
                                EventView::EscrowCreated {
                                    escrow_id,
                                    depositor,
                                    recipient,
                                    token,
                                    total_amount: total_of(milestones),
                                    deadline,
                                },
                            ),
                        },
                    ),
                ),
            }
        }
    }

    /// Takes the whole amount of a created escrow into custody.
    pub open spec fn deposit_funds(self, escrow_id: u64) -> Outcome {
        if self.paused() {
            Err(Error::ContractPaused)
        } else if !self.escrows.contains_key(escrow_id) {
            Err(Error::EscrowNotFound)
        } else {
            let escrow = self.escrows[escrow_id];
            if escrow.status != EscrowStatus::Created {
                Err(Error::EscrowAlreadyFunded)
            } else {
                Ok(
                    (
                        self.with_escrow(escrow_id, escrow.with_status(EscrowStatus::Active)),
                        ReceiptView {
                            authorizer: escrow.depositor,
                            transfers: seq![
                                escrow.pays(
                                    escrow_id,
                                    TransferKind::Deposit,
                                    escrow.depositor,
                                    escrow.total_amount,
                                ),
                            ],
                            event: Some(
                                EventView::FundsDeposited {
                                    escrow_id,
                                    amount: escrow.total_amount,
                                },
                            ),
                        },
                    ),
                )
            }
        }
    }

    /// Releases one milestone on the depositor's word: the recipient gets the
    /// amount less the platform fee, the treasury the fee.
    pub open spec fn release_milestone(self, escrow_id: u64, index: int) -> Outcome {
        if self.paused() {
            Err(Error::ContractPaused)
        } else if !self.escrows.contains_key(escrow_id) {
            Err(Error::EscrowNotFound)
        } else {
            let escrow = self.escrows[escrow_id];
            if escrow.status != EscrowStatus::Active {
                Err(Error::EscrowNotActive)
            } else if !(0 <= index < escrow.milestones.len()) {
                Err(Error::MilestoneNotFound)
            } else if escrow.milestones[index].status == MilestoneStatus::Released {
                Err(Error::MilestoneAlreadyReleased)
            } else {
                match self.config {
                    None => Err(Error::TreasuryNotInitialized),
                    Some(c) => {
                        let amount = escrow.milestones[index].amount;
                        if !(i128::MIN <= amount * c.fee_bps <= i128::MAX) {
                            Err(Error::AmountOverflow)
                        } else {
                            let fee = fee_of(amount, c.fee_bps);
                            let payout = escrow.pays(
                                escrow_id,
                                TransferKind::Payout,
                                escrow.recipient,
                                amount - fee,
                            );
                            Ok(
                                (
                                    self.with_escrow(escrow_id, escrow.release(index)),
                                    ReceiptView {
                                        authorizer: escrow.depositor,
                                        transfers: if fee > 0 {
                                            seq![
                                                payout,
                                                escrow.pays(
                                                    escrow_id,
                                                    TransferKind::Fee,
                                                    c.treasury,
                                                    fee,
                                                ),
                                            ]
                                        } else {
                                            seq![payout]
                                        },
                                        event: Some(
                                            EventView::MilestoneReleased {
                                                escrow_id,
                                                milestone_index: index,
                                                payout: amount - fee,
                                                fee,
                                            },
                                        ),
                                    },
                                ),
                            )
                        }
                    },
                }
            }
        }
    }

    /// Releases one milestone on the buyer's confirmation: the recipient gets
    /// the whole amount, and no fee is taken.
    pub open spec fn confirm_delivery(
        self,
        escrow_id: u64,
        index: int,
        buyer: Seq<char>,
    ) -> Outcome {
        if self.paused() {
            Err(Error::ContractPaused)
        } else if !self.escrows.contains_key(escrow_id) {
            Err(Error::EscrowNotFound)
        } else {
            let escrow = self.escrows[escrow_id];
            if buyer != escrow.depositor {
                Err(Error::UnauthorizedAccess)
            } else if escrow.status != EscrowStatus::Active {
                Err(Error::EscrowNotActive)
            } else if !(0 <= index < escrow.milestones.len()) {
                Err(Error::MilestoneNotFound)
            } else if escrow.milestones[index].status == MilestoneStatus::Released {
                Err(Error::MilestoneAlreadyReleased)
            } else {
                let amount = escrow.milestones[index].amount;
                Ok(
                    (
                        self.with_escrow(escrow_id, escrow.release(index)),
                        ReceiptView {
                            authorizer: buyer,
                            transfers: seq![
                                escrow.pays(
                                    escrow_id,
                                    TransferKind::Payout,
                                    escrow.recipient,
                                    amount,
                                ),
                            ],
                            event: Some(
                                EventView::MilestoneReleased {
                                    escrow_id,
                                    milestone_index: index,
                                    payout: amount,
                                    fee: 0,
                                },
                            ),
                        },
                    ),
                )
            }
        }
    }

    /// Puts an escrow in dispute on the word of one of its parties.
    pub open spec fn raise_dispute(self, escrow_id: u64, caller: Seq<char>) -> Outcome {
        if self.paused() {
            Err(Error::ContractPaused)
        } else if !self.escrows.contains_key(escrow_id) {
            Err(Error::EscrowNotFound)
        } else {
            let escrow = self.escrows[escrow_id];
            if !escrow.is_party(caller) {
                Err(Error::UnauthorizedAccess)
            } else if escrow.status == EscrowStatus::Disputed {
                Err(Error::AlreadyInDispute)
            } else if escrow.status != EscrowStatus::Active && escrow.status
                != EscrowStatus::Created {
                Err(Error::InvalidEscrowStatus)
            } else {
                Ok(
                    (
                        self.with_escrow(escrow_id, escrow.dispute()),
                        ReceiptView {
                            authorizer: caller,
                            transfers: Seq::empty(),
                            event: Some(EventView::DisputeRaised { escrow_id, caller }),
                        },
                    ),
                )
            }
        }
    }

    /// Settles a dispute on the administrator's word: whatever has not been
    /// released goes to the winner.
    pub open spec fn resolve_dispute(self, escrow_id: u64, winner: Seq<char>) -> Outcome {
        match self.admin {
            None => Err(Error::AdminNotInitialized),
            Some(admin) => if !self.escrows.contains_key(escrow_id) {
                Err(Error::EscrowNotFound)
            } else {
                let escrow = self.escrows[escrow_id];
                if escrow.status != EscrowStatus::Disputed {
                    Err(Error::InvalidEscrowStatus)
                } else if !escrow.is_party(winner) {
                    Err(Error::InvalidWinner)
                } else {
                    let kind = if winner == escrow.recipient {
                        TransferKind::Payout
                    } else {
                        TransferKind::Refund
                    };
                    Ok(
                        (
                            self.with_escrow(
                                escrow_id,
                                if winner == escrow.recipient {
                                    escrow.award()
                                } else {
                                    escrow.withhold()
                                },
                            ),
                            ReceiptView {
                                authorizer: admin,
                                transfers: if escrow.outstanding() > 0 {
                                    seq![escrow.pays(escrow_id, kind, winner, escrow.outstanding())]
                                } else {
                                    Seq::empty()
                                },
                                event: Some(
                                    EventView::DisputeResolved {
                                        escrow_id,
                                        winner,
                                        amount: escrow.outstanding(),
                                    },
                                ),
                            },
                        ),
                    )
                }
            },
        }
    }

    /// Calls an escrow off before anything has been released, and gives the
    /// depositor back what was deposited.
    pub open spec fn cancel_escrow(self, escrow_id: u64) -> Outcome {
        if self.paused() {
            Err(Error::ContractPaused)
        } else if !self.escrows.contains_key(escrow_id) {
            Err(Error::EscrowNotFound)
        } else {
            let escrow = self.escrows[escrow_id];
            if escrow.status != EscrowStatus::Active && escrow.status != EscrowStatus::Created {
                Err(Error::InvalidEscrowStatus)
            } else if escrow.total_released > 0 {
                Err(Error::MilestoneAlreadyReleased)
            } else {
                let funded = escrow.status == EscrowStatus::Active;
                Ok(
                    (
                        self.with_escrow(escrow_id, escrow.with_status(EscrowStatus::Cancelled)),
                        ReceiptView {
                            authorizer: escrow.depositor,
                            transfers: if funded {
                                seq![
                                    escrow.pays(
                                        escrow_id,
                                        TransferKind::Refund,
                                        escrow.depositor,
                                        escrow.total_amount,
                                    ),
                                ]
                            } else {
                                Seq::empty()
                            },
                            event: Some(
                                EventView::EscrowCancelled {
                                    escrow_id,
                                    refund: if funded {
                                        escrow.total_amount
                                    } else {
                                        0
                                    },
                                },
                            ),
                        },
                    ),
                )
            }
        }
    }

    /// Closes an active escrow whose milestones have all been released.
    pub open spec fn complete_escrow(self, escrow_id: u64) -> Outcome {
        if !self.escrows.contains_key(escrow_id) {
            Err(Error::EscrowNotFound)
        } else {
            let escrow = self.escrows[escrow_id];
            if escrow.status != EscrowStatus::Active {
                Err(Error::InvalidEscrowStatus)
            } else if !all_released(escrow.milestones) {
                Err(Error::EscrowNotActive)
            } else {
                Ok(
                    (
                        self.with_escrow(escrow_id, escrow.with_status(EscrowStatus::Completed)),
                        ReceiptView {
                            authorizer: escrow.depositor,
                            transfers: Seq::empty(),
                            event: Some(EventView::EscrowCompleted { escrow_id }),
                        },
                    ),
                )
            }
        }
    }
}

/// One call of an operation, with its arguments.
pub enum Request {
    Initialize { treasury: Seq<char>, fee_bps: Option<int> },
    UpdateFee { new_fee_bps: int },
    SetPaused { paused: bool },
    Init { admin: Seq<char> },
    CreateEscrow {
        escrow_id: u64,
        depositor: Seq<char>,
        recipient: Seq<char>,
        token: Seq<char>,
        milestones: Seq<MilestoneView>,
        deadline: nat,
    },
    DepositFunds { escrow_id: u64 },
    ReleaseMilestone { escrow_id: u64, index: int },
    ConfirmDelivery { escrow_id: u64, index: int, buyer: Seq<char> },
    RaiseDispute { escrow_id: u64, caller: Seq<char> },
    ResolveDispute { escrow_id: u64, winner: Seq<char> },
    CancelEscrow { escrow_id: u64 },
    CompleteEscrow { escrow_id: u64 },
}

impl LedgerView {
    /// What `request` comes to on this ledger.
    pub open spec fn step(self, request: Request) -> Outcome {
        match request {
            Request::Initialize { treasury, fee_bps } => self.initialize(treasury, fee_bps),
            Request::UpdateFee { new_fee_bps } => self.update_fee(new_fee_bps),
            Request::SetPaused { paused } => self.set_paused(paused),
            Request::Init { admin } => self.init(admin),
            Request::CreateEscrow {
                escrow_id,
                depositor,
                recipient,
                token,
                milestones,
                deadline,
            } => self.create_escrow(escrow_id, depositor, recipient, token, milestones, deadline),
            Request::DepositFunds { escrow_id } => self.deposit_funds(escrow_id),
            Request::ReleaseMilestone { escrow_id, index } => self.release_milestone(
                escrow_id,
                index,
            ),
            Request::ConfirmDelivery { escrow_id, index, buyer } => self.confirm_delivery(
                escrow_id,
                index,
                buyer,
            ),
            Request::RaiseDispute { escrow_id, caller } => self.raise_dispute(escrow_id, caller),
            Request::ResolveDispute { escrow_id, winner } => self.resolve_dispute(
                escrow_id,
                winner,
            ),
            Request::CancelEscrow { escrow_id } => self.cancel_escrow(escrow_id),
            Request::CompleteEscrow { escrow_id } => self.complete_escrow(escrow_id),
        }
    }

    /// The ledger after `request`: the next state where the request is
    /// accepted, this one where it is rejected.
    pub open spec fn after(self, request: Request) -> LedgerView {
        match self.step(request) {
            Ok((next, _)) => next,
            Err(_) => self,
        }
    }

    /// The transfers that `request` issues: those of its receipt where it is
    /// accepted, none where it is rejected.
    pub open spec fn issues(self, request: Request) -> Seq<TransferView> {
        match self.step(request) {
            Ok((_, receipt)) => receipt.transfers,
            Err(_) => Seq::empty(),
        }
    }

    /// What the escrow `id` has released: nothing where there is no such
    /// escrow.
    pub open spec fn released(self, id: u64) -> int {
        if self.escrows.contains_key(id) {
            self.escrows[id].total_released
        } else {
            0
        }
    }
}

/// The ledger after every request of a history, taken in order from `start`.
pub open spec fn run(start: LedgerView, history: Seq<Request>) -> LedgerView
    decreases history.len(),
{
    if history.len() == 0 {
        start
    } else {
        run(start, history.drop_last()).after(history.last())
    }
}

/// All transfers that a history issues from `start`, in order.
pub open spec fn issued(start: LedgerView, history: Seq<Request>) -> Seq<TransferView>
    decreases history.len(),
{
    if history.len() == 0 {
        Seq::empty()
    } else {
        issued(start, history.drop_last()) + run(start, history.drop_last()).issues(
            history.last(),
        )
    }
}

/// What one transfer moves for the reason `kind` on account of the escrow
/// `id`: its amount, or nothing where it is of another kind or for another
/// escrow.
pub open spec fn moves(transfer: TransferView, id: u64, kind: TransferKind) -> int {
    if transfer.escrow_id == id && transfer.kind == kind {
        transfer.amount
    } else {
        0
    }
}

/// What a list of transfers moves for the reason `kind` on account of the
/// escrow `id`.
pub open spec fn moved(transfers: Seq<TransferView>, id: u64, kind: TransferKind) -> int
    decreases transfers.len(),
{
    if transfers.len() == 0 {
        0
    } else {
        moved(transfers.drop_last(), id, kind) + moves(transfers.last(), id, kind)
    }
}

/// What a list of transfers pays out on account of the escrow `id`: its
/// payouts to the recipient and its fees to the treasury.
pub open spec fn disbursed(transfers: Seq<TransferView>, id: u64) -> int {
    moved(transfers, id, TransferKind::Payout) + moved(transfers, id, TransferKind::Fee)
}

/// What custody holds on account of the escrow `id` once the transfers of the
/// list are done: what was deposited, less what was paid out and what was
/// given back.
pub open spec fn in_custody(transfers: Seq<TransferView>, id: u64) -> int {
    moved(transfers, id, TransferKind::Deposit) - disbursed(transfers, id) - moved(
        transfers,
        id,
        TransferKind::Refund,
    )
}

/// Whether the transfers issued so far are what the books of the escrow `id`
/// say.
///
/// Payouts and fees are what the escrow has released. An escrow was funded
/// with its whole amount or not at all; it is funded when it is active or
/// completed and unfunded while it is only created. Nothing is given back
/// but by a cancellation, which gives back what was deposited, and by the
/// settlement of a dispute, after which payouts, fees and refunds come to
/// the whole amount.
pub open spec fn accounted(ledger: LedgerView, transfers: Seq<TransferView>, id: u64) -> bool {
    let deposited = moved(transfers, id, TransferKind::Deposit);
    let refunded = moved(transfers, id, TransferKind::Refund);
    if !ledger.escrows.contains_key(id) {
        deposited == 0 && disbursed(transfers, id) == 0 && refunded == 0
    } else {
        let escrow = ledger.escrows[id];
        &&& disbursed(transfers, id) == escrow.total_released
        &&& deposited == 0 || deposited == escrow.total_amount
        &&& match escrow.status {
            EscrowStatus::Created => deposited == 0 && refunded == 0 && escrow.total_released
                == 0,
            EscrowStatus::Active => deposited == escrow.total_amount && refunded == 0,
            EscrowStatus::Completed => deposited == escrow.total_amount && refunded == 0
                && escrow.total_released == escrow.total_amount,
            EscrowStatus::Cancelled => refunded == deposited && escrow.total_released == 0,
            EscrowStatus::Disputed => refunded == 0 && (deposited == escrow.total_amount
                || escrow.total_released == 0),
            EscrowStatus::Resolved => refunded + escrow.total_released == escrow.total_amount,
        }
    }
}

/// Whether an escrow may pass from the status `from` to the status `to`.
pub open spec fn may_follow(from: EscrowStatus, to: EscrowStatus) -> bool {
    match from {
        EscrowStatus::Created => to == EscrowStatus::Active || to == EscrowStatus::Cancelled || to
            == EscrowStatus::Disputed,
        EscrowStatus::Active => to == EscrowStatus::Completed || to == EscrowStatus::Cancelled
            || to == EscrowStatus::Disputed,
        EscrowStatus::Disputed => to == EscrowStatus::Resolved,
        EscrowStatus::Completed | EscrowStatus::Cancelled | EscrowStatus::Resolved => false,
    }
}

/// How far a status is along the life of an escrow.
pub open spec fn stage(status: EscrowStatus) -> nat {
    match status {
        EscrowStatus::Created => 0,
        EscrowStatus::Active => 1,
        EscrowStatus::Disputed => 2,
        EscrowStatus::Completed | EscrowStatus::Cancelled | EscrowStatus::Resolved => 3,
    }
}

} // verus!
