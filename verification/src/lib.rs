//! A milestone-based escrow ledger.
//!
//! A depositor locks funds for a recipient; the funds are paid out one
//! milestone at a time, are refunded on cancellation, or are awarded by an
//! administrator after a dispute. The ledger decides; it never moves tokens,
//! checks signatures or writes to disk itself. Every state-changing operation
//! returns a [`effects::Receipt`] that names the principal whose authorization
//! the operation needs, the token transfers to carry out and the event to
//! announce, and the host around the ledger does those things.

pub mod amounts;
pub mod effects;
pub mod invariants;
pub mod laws;
pub mod ledger;
pub mod milestones;
pub mod model;
pub mod types;

pub use crate::amounts::calculate_fee;
pub use crate::effects::{Event, Receipt, Transfer, TransferKind};
pub use crate::ledger::VaultixEscrow;
pub use crate::milestones::validate_milestones;
pub use crate::types::{
    Error, Escrow, EscrowStatus, Identity, Milestone, MilestoneStatus, Resolution,
};
