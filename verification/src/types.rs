//! The records the ledger keeps and the mathematical view of each.

use vstd::prelude::*;

verus! {

/// Where a single milestone stands.
#[derive(Clone, Copy, PartialEq, Eq, Debug, Structural)]
pub enum MilestoneStatus {
    Pending,
    Released,
    Disputed,
}

/// Where an escrow stands in its life cycle.
#[derive(Clone, Copy, PartialEq, Eq, Debug, Structural)]
pub enum EscrowStatus {
    /// Recorded, not yet funded.
    Created,
    /// Funded; the funds are in custody.
    Active,
    /// Every milestone has been released.
    Completed,
    /// Called off by the depositor before any release.
    Cancelled,
    /// A party has raised a dispute.
    Disputed,
    /// The administrator has settled the dispute.
    Resolved,
}

/// In whose favour a dispute was settled.
#[derive(Clone, Copy, PartialEq, Eq, Debug, Structural)]
pub enum Resolution {
    /// No dispute has been settled.
    Unresolved,
    Depositor,
    Recipient,
}

/// Why an operation was rejected.
#[derive(Clone, Copy, PartialEq, Eq, Debug, Structural)]
pub enum Error {
    /// The ledger has no escrow of that identifier.
    EscrowNotFound,
    /// The identifier is in use.
    EscrowAlreadyExists,
    /// The escrow has no milestone of that index.
    MilestoneNotFound,
    /// The milestone has been released, or the escrow has released one.
    MilestoneAlreadyReleased,
    /// The caller is not the party that the operation is for.
    UnauthorizedAccess,
    /// An amount that a milestone cannot have. No operation of the ledger
    /// reports it: an amount that is not positive is a `ZeroAmount`, one that
    /// is too large an `AmountOverflow`.
    InvalidMilestoneAmount,
    /// A sum or a fee does not fit in 128 bits.
    AmountOverflow,
    /// The escrow is not active, or not yet wholly released.
    EscrowNotActive,
    /// More than twenty milestones.
    TooManyMilestones,
    /// A milestone amount that is zero or negative.
    ZeroAmount,
    /// Depositor and recipient are the same.
    SelfDealing,
    /// The escrow is past its funding.
    EscrowAlreadyFunded,
    /// No treasury has been set.
    TreasuryNotInitialized,
    /// A fee rate outside 0..=10000 basis points.
    InvalidFeeConfiguration,
    /// No administrator has been registered.
    AdminNotInitialized,
    /// An administrator has been registered already.
    AlreadyInitialized,
    /// The escrow is in a status that the operation does not start from.
    InvalidEscrowStatus,
    /// The escrow is in dispute already.
    AlreadyInDispute,
    /// The winner is neither the depositor nor the recipient.
    InvalidWinner,
    /// The ledger is paused.
    ContractPaused,
}

/// A principal or a token, named by the host's textual key for it.
///
/// Two identities are the same principal exactly when their keys are equal.
#[derive(Debug, PartialEq, Eq, Hash)]
pub struct Identity {
    pub key: String,
}

impl View for Identity {
    type V = Seq<char>;

    open spec fn view(&self) -> Seq<char> {
        self.key@
    }
}

impl Clone for Identity {
    fn clone(&self) -> (copy: Self)
        ensures
            copy@ == self@,
    {
        Identity { key: self.key.clone() }
    }
}

impl Identity {
    /// The identity with the given key.
    pub fn new(key: &str) -> (identity: Self)
        ensures
            identity@ == key@,
    {
        Identity { key: key.to_owned() }
    }

    /// The key of this identity.
    pub fn as_str(&self) -> (key: &str)
        ensures
            key@ == self@,
    {
        self.key.as_str()
    }

    /// Whether `self` and `other` name the same principal.
    pub fn same(&self, other: &Identity) -> (equal: bool)
        ensures
            equal == (self@ == other@),
    {
        self.key == other.key
    }
}

/// The view of an optional identity.
pub open spec fn optional_key(identity: Option<Identity>) -> Option<Seq<char>> {
    match identity {
        Some(i) => Some(i@),
        None => None,
    }
}

/// One tranche of an escrow.
#[derive(Debug, PartialEq, Eq)]
pub struct Milestone {
    /// What the recipient is owed for this tranche.
    pub amount: i128,
    pub status: MilestoneStatus,
    /// A short label.
    pub description: String,
}

/// A milestone as a mathematical value.
pub struct MilestoneView {
    pub amount: int,
    pub status: MilestoneStatus,
    pub description: Seq<char>,
}

impl View for Milestone {
    type V = MilestoneView;

    open spec fn view(&self) -> MilestoneView {
        MilestoneView {
            amount: self.amount as int,
            status: self.status,
            description: self.description@,
        }
    }
}

impl Clone for Milestone {
    fn clone(&self) -> (copy: Self)
        ensures
            copy@ == self@,
    {
        Milestone {
            amount: self.amount,
            status: self.status,
            description: self.description.clone(),
        }
    }
}

impl Milestone {
    /// This milestone with another status.
    pub fn with_status(&self, status: MilestoneStatus) -> (milestone: Self)
        ensures
            milestone@ == self@.with_status(status),
    {
        Milestone { amount: self.amount, status, description: self.description.clone() }
    }
}

impl MilestoneView {
    /// This milestone with another status.
    pub open spec fn with_status(self, status: MilestoneStatus) -> MilestoneView {
        MilestoneView { status, ..self }
    }
}

/// The views of a list of milestones, in order.
pub open spec fn milestone_views(milestones: Seq<Milestone>) -> Seq<MilestoneView> {
    Seq::new(milestones.len(), |i: int| milestones[i]@)
}

/// Copies a list of milestones.
fn clone_milestones(milestones: &Vec<Milestone>) -> (copy: Vec<Milestone>)
    ensures
        milestone_views(copy@) == milestone_views(milestones@),
{
    let mut copy: Vec<Milestone> = Vec::new();
    let mut i: usize = 0;
    while i < milestones.len()
        invariant
            i <= milestones.len(),
            copy.len() == i,
            forall|j: int| 0 <= j < i ==> copy[j]@ == milestones[j]@,
        decreases milestones.len() - i,
    {
        copy.push(milestones[i].clone());
        i += 1;
    }
    copy
}

/// One escrow: who pays whom, in which token, in which tranches, and how far
/// the payment has come.
#[derive(Debug, PartialEq, Eq)]
pub struct Escrow {
    pub depositor: Identity,
    pub recipient: Identity,
    pub token_address: Identity,
    /// The sum of all milestone amounts, fixed at creation.
    pub total_amount: i128,
    /// The sum of the amounts of the milestones released so far.
    pub total_released: i128,
    pub milestones: Vec<Milestone>,
    pub status: EscrowStatus,
    /// A timestamp by which the parties mean to be done.
    pub deadline: u64,
    pub resolution: Resolution,
}

/// An escrow as a mathematical value.
pub struct EscrowView {
    pub depositor: Seq<char>,
    pub recipient: Seq<char>,
    pub token_address: Seq<char>,
    pub total_amount: int,
    pub total_released: int,
    pub milestones: Seq<MilestoneView>,
    pub status: EscrowStatus,
    pub deadline: nat,
    pub resolution: Resolution,
}

impl View for Escrow {
    type V = EscrowView;

    open spec fn view(&self) -> EscrowView {
        EscrowView {
            depositor: self.depositor@,
            recipient: self.recipient@,
            token_address: self.token_address@,
            total_amount: self.total_amount as int,
            total_released: self.total_released as int,
            milestones: milestone_views(self.milestones@),
            status: self.status,
            deadline: self.deadline as nat,
            resolution: self.resolution,
        }
    }
}

impl Clone for Escrow {
    fn clone(&self) -> (copy: Self)
        ensures
            copy@ == self@,
    {
        Escrow {
            depositor: self.depositor.clone(),
            recipient: self.recipient.clone(),
            token_address: self.token_address.clone(),
            total_amount: self.total_amount,
            total_released: self.total_released,
            milestones: clone_milestones(&self.milestones),
            status: self.status,
            deadline: self.deadline,
            resolution: self.resolution,
        }
    }
}

} // verus!
