//! What an operation asks of the host around the ledger: whose authorization
//! to check, which tokens to move, which event to announce.

use crate::types::Identity;
use vstd::prelude::*;

verus! {

/// Why tokens move.
#[derive(Clone, Copy, PartialEq, Eq, Debug, Structural)]
pub enum TransferKind {
    /// From the depositor into custody, against the depositor's allowance.
    Deposit,
    /// From custody to the recipient.
    Payout,
    /// From custody to the treasury.
    Fee,
    /// From custody back to the depositor.
    Refund,
}

/// One movement of tokens between custody and a party.
#[derive(Debug, PartialEq, Eq)]
pub struct Transfer {
    pub kind: TransferKind,
    /// The escrow on whose account the tokens move.
    pub escrow_id: u64,
    pub token: Identity,
    /// Who pays into custody (a deposit) or is paid from it (all others).
    pub party: Identity,
    pub amount: i128,
}

/// A transfer as a mathematical value.
pub struct TransferView {
    pub kind: TransferKind,
    pub escrow_id: u64,
    pub token: Seq<char>,
    pub party: Seq<char>,
    pub amount: int,
}

impl View for Transfer {
    type V = TransferView;

    open spec fn view(&self) -> TransferView {
        TransferView {
            kind: self.kind,
            escrow_id: self.escrow_id,
            token: self.token@,
            party: self.party@,
            amount: self.amount as int,
        }
    }
}

impl Clone for Transfer {
    fn clone(&self) -> (copy: Self)
        ensures
            copy@ == self@,
    {
        Transfer {
            kind: self.kind,
            escrow_id: self.escrow_id,
            token: self.token.clone(),
            party: self.party.clone(),
            amount: self.amount,
        }
    }
}

/// The views of a list of transfers, in order.
pub open spec fn transfer_views(transfers: Seq<Transfer>) -> Seq<TransferView> {
    Seq::new(transfers.len(), |i: int| transfers[i]@)
}

/// The first part of every event's topic.
pub const EVENT_NAMESPACE: &'static str = "Vaultix";

/// What a state-changing operation on an escrow announces.
#[derive(Debug, PartialEq, Eq)]
pub enum Event {
    EscrowCreated {
        escrow_id: u64,
        depositor: Identity,
        recipient: Identity,
        token: Identity,
        total_amount: i128,
        deadline: u64,
    },
    FundsDeposited { escrow_id: u64, amount: i128 },
    MilestoneReleased { escrow_id: u64, milestone_index: u32, payout: i128, fee: i128 },
    DisputeRaised { escrow_id: u64, caller: Identity },
    DisputeResolved { escrow_id: u64, winner: Identity, amount: i128 },
    EscrowCancelled { escrow_id: u64, refund: i128 },
    EscrowCompleted { escrow_id: u64 },
}

/// An event as a mathematical value.
pub enum EventView {
    EscrowCreated {
        escrow_id: u64,
        depositor: Seq<char>,
        recipient: Seq<char>,
        token: Seq<char>,
        total_amount: int,
        deadline: nat,
    },
    FundsDeposited { escrow_id: u64, amount: int },
    MilestoneReleased { escrow_id: u64, milestone_index: int, payout: int, fee: int },
    DisputeRaised { escrow_id: u64, caller: Seq<char> },
    DisputeResolved { escrow_id: u64, winner: Seq<char>, amount: int },
    EscrowCancelled { escrow_id: u64, refund: int },
    EscrowCompleted { escrow_id: u64 },
}

impl View for Event {
    type V = EventView;

    open spec fn view(&self) -> EventView {
        match *self {
            Event::EscrowCreated {
                escrow_id,
                depositor,
                recipient,
                token,
                total_amount,
                deadline,
            } => EventView::EscrowCreated {
                escrow_id,
                depositor: depositor@,
                recipient: recipient@,
                token: token@,
                total_amount: total_amount as int,
                deadline: deadline as nat,
            },
            Event::FundsDeposited { escrow_id, amount } => EventView::FundsDeposited {
                escrow_id,
                amount: amount as int,
            },
            Event::MilestoneReleased {
                escrow_id,
                milestone_index,
                payout,
                fee,
            } => EventView::MilestoneReleased {
                escrow_id,
                milestone_index: milestone_index as int,
                payout: payout as int,
                fee: fee as int,
            },
            Event::DisputeRaised { escrow_id, caller } => EventView::DisputeRaised {
                escrow_id,
                caller: caller@,
            },
            Event::DisputeResolved { escrow_id, winner, amount } => EventView::DisputeResolved {
                escrow_id,
                winner: winner@,
                amount: amount as int,
            },
            Event::EscrowCancelled { escrow_id, refund } => EventView::EscrowCancelled {
                escrow_id,
                refund: refund as int,
            },
            Event::EscrowCompleted { escrow_id } => EventView::EscrowCompleted { escrow_id },
        }
    }
}

impl EventView {
    /// The escrow that the event is about.
    pub open spec fn escrow_id(self) -> u64 {
        match self {
            EventView::EscrowCreated { escrow_id, .. } => escrow_id,
            EventView::FundsDeposited { escrow_id, .. } => escrow_id,
            EventView::MilestoneReleased { escrow_id, .. } => escrow_id,
            EventView::DisputeRaised { escrow_id, .. } => escrow_id,
            EventView::DisputeResolved { escrow_id, .. } => escrow_id,
            EventView::EscrowCancelled { escrow_id, .. } => escrow_id,
            EventView::EscrowCompleted { escrow_id } => escrow_id,
        }
    }
}

impl Event {
    /// The escrow that the event is about: the third part of its topic.
    pub fn escrow_id(&self) -> (id: u64)
        ensures
            id == self@.escrow_id(),
    {
        match self {
            Event::EscrowCreated { escrow_id, .. } => *escrow_id,
            Event::FundsDeposited { escrow_id, .. } => *escrow_id,
            Event::MilestoneReleased { escrow_id, .. } => *escrow_id,
            Event::DisputeRaised { escrow_id, .. } => *escrow_id,
            Event::DisputeResolved { escrow_id, .. } => *escrow_id,
            Event::EscrowCancelled { escrow_id, .. } => *escrow_id,
            Event::EscrowCompleted { escrow_id } => *escrow_id,
        }
    }

    /// The name of the event: the second part of its topic.
    pub fn name(&self) -> (name: &'static str)
        ensures
            name@ == match self@ {
                EventView::EscrowCreated { .. } => "EscrowCreated"@,
                EventView::FundsDeposited { .. } => "FundsDeposited"@,
                EventView::MilestoneReleased { .. } => "MilestoneReleased"@,
                EventView::DisputeRaised { .. } => "DisputeRaised"@,
                EventView::DisputeResolved { .. } => "DisputeResolved"@,
                EventView::EscrowCancelled { .. } => "EscrowCancelled"@,
                EventView::EscrowCompleted { .. } => "EscrowCompleted"@,
            },
    {
        match self {
            Event::EscrowCreated { .. } => "EscrowCreated",
            Event::FundsDeposited { .. } => "FundsDeposited",
            Event::MilestoneReleased { .. } => "MilestoneReleased",
            Event::DisputeRaised { .. } => "DisputeRaised",
            Event::DisputeResolved { .. } => "DisputeResolved",
            Event::EscrowCancelled { .. } => "EscrowCancelled",
            Event::EscrowCompleted { .. } => "EscrowCompleted",
        }
    }
}

/// The view of an optional event.
pub open spec fn optional_event(event: Option<Event>) -> Option<EventView> {
    match event {
        Some(e) => Some(e@),
        None => None,
    }
}

/// What the host must do for an operation that the ledger has accepted.
///
/// The ledger's new state stands only if the host finds that `authorizer`
/// has authorized the call and carries out every transfer, in order.
#[derive(Debug, PartialEq, Eq)]
pub struct Receipt {
    /// The principal whose authorization the operation needs.
    pub authorizer: Identity,
    /// The token movements to carry out, in order.
    pub transfers: Vec<Transfer>,
    /// The event to announce, if the operation was on an escrow.
    pub event: Option<Event>,
}

/// A receipt as a mathematical value.
pub struct ReceiptView {
    pub authorizer: Seq<char>,
    pub transfers: Seq<TransferView>,
    pub event: Option<EventView>,
}

impl View for Receipt {
    type V = ReceiptView;

    open spec fn view(&self) -> ReceiptView {
        ReceiptView {
            authorizer: self.authorizer@,
            transfers: transfer_views(self.transfers@),
            event: optional_event(self.event),
        }
    }
}

} // verus!
