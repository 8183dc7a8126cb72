//! The ledger itself: the configuration, the administrator and the escrow
//! records, with one method for every operation of the state machine.

use crate::amounts::{calculate_fee, BPS_DENOMINATOR, DEFAULT_FEE_BPS};
use crate::effects::{Event, Receipt, Transfer, TransferKind};
use crate::invariants::{
    lemma_dispute_inv, lemma_new_escrow_inv, lemma_release_inv, lemma_released_in_range,
};
use crate::milestones::{sweep_milestones, validate_milestones, verify_all_released, Sweep};
use crate::model::{settled, ConfigView, LedgerView};
use crate::types::{
    milestone_views, optional_key, Error, Escrow, EscrowStatus, Identity, Milestone,
    MilestoneStatus, Resolution,
};
use std::collections::HashMap;
use vstd::prelude::*;

verus! {

broadcast use vstd::std_specs::hash::group_hash_axioms;

/// The treasury, its fee rate and the pause flag.
#[derive(Debug)]
struct GlobalConfig {
    /// Who receives the platform fees and may change this configuration.
    treasury: Identity,
    /// The platform fee in basis points, from 0 to 10000.
    fee_bps: i128,
    /// While set, no escrow is created, funded, released, disputed or
    /// cancelled.
    paused: bool,
}

impl View for GlobalConfig {
    type V = ConfigView;

    closed spec fn view(&self) -> ConfigView {
        ConfigView { treasury: self.treasury@, fee_bps: self.fee_bps as int, paused: self.paused }
    }
}

/// The view of an optional configuration.
spec fn optional_config(config: Option<GlobalConfig>) -> Option<ConfigView> {
    match config {
        Some(c) => Some(c@),
        None => None,
    }
}

impl Clone for GlobalConfig {
    fn clone(&self) -> (copy: Self)
        ensures
            copy@ == self@,
    {
        GlobalConfig {
            treasury: self.treasury.clone(),
            fee_bps: self.fee_bps,
            paused: self.paused,
        }
    }
}

/// A milestone-based escrow ledger.
///
/// The ledger keeps the treasury with its fee rate and pause flag, the
/// administrator, and one record for every escrow. Its state is a
/// [`LedgerView`], and each operation does to that state what the function of
/// the same name on `LedgerView` says. An operation that is rejected leaves
/// the ledger as it was. One that is accepted changes the ledger at once and
/// returns a [`Receipt`]; a host that cannot do what the receipt asks keeps a
/// copy of the ledger from before the call and goes on with that.
#[derive(Debug)]
pub struct VaultixEscrow {
    config: Option<GlobalConfig>,
    admin: Option<Identity>,
    escrows: HashMap<u64, Escrow>,
}

impl View for VaultixEscrow {
    type V = LedgerView;

    closed spec fn view(&self) -> LedgerView {
        LedgerView {
            config: optional_config(self.config),
            admin: optional_key(self.admin),
            escrows: Map::new(
                |id: u64| self.escrows@.contains_key(id),
                |id: u64| self.escrows@[id]@,
            ),
        }
    }
}

impl Clone for VaultixEscrow {
    fn clone(&self) -> (copy: Self)
        ensures
            copy@ == self@,
    {
        proof {
            use_type_invariant(self);
        }
        let copy = VaultixEscrow {
            config: match &self.config {
                Some(config) => Some(config.clone()),
                None => None,
            },
            admin: match &self.admin {
                Some(admin) => Some(admin.clone()),
                None => None,
            },
            escrows: self.escrows.clone(),
        };
        copy
    }
}

/// A receipt that asks for the authorization of `authorizer` and nothing else.
fn authorization_receipt(authorizer: &Identity) -> (receipt: Receipt)
    ensures
        receipt@ == crate::model::authorization_only(authorizer@),
{
    let receipt = Receipt { authorizer: authorizer.clone(), transfers: Vec::new(), event: None };
    assert(receipt@.transfers =~= Seq::empty());
    receipt
}

/// A movement of `amount` of the escrow's token between custody and `party`.
fn transfer_for(
    escrow: &Escrow,
    escrow_id: u64,
    kind: TransferKind,
    party: &Identity,
    amount: i128,
) -> (transfer: Transfer)
    ensures
        transfer@ == escrow@.pays(escrow_id, kind, party@, amount as int),
{
    Transfer {
        kind,
        escrow_id,
        token: escrow.token_address.clone(),
        party: party.clone(),
        amount,
    }
}

impl VaultixEscrow {
    /// Whether the ledger is in a state that its operations can have left.
    #[verifier::type_invariant]
    spec fn wf(&self) -> bool {
        self@.inv()
    }

    /// A ledger without treasury, administrator or escrows.
    pub fn new() -> (ledger: Self)
        ensures
            ledger@ == LedgerView::empty(),
            ledger@.inv(),
    {
        let ledger = VaultixEscrow { config: None, admin: None, escrows: HashMap::new() };
        assert(ledger@.escrows =~= Map::empty());
        ledger
    }

    /// Sets the treasury and the fee rate, for the first time or again.
    ///
    /// Without a rate the fee is fifty basis points. A rate outside 0..=10000
    /// is rejected with `InvalidFeeConfiguration`. The pause flag is left as
    /// it is. The new treasury itself must authorize the call.
    pub fn initialize(&mut self, treasury: Identity, fee_bps: Option<i128>) -> (result: Result<
        Receipt,
        Error,
    >)
        ensures
            final(self)@.inv(),
            settled(
                old(self)@.initialize(
                    treasury@,
                    match fee_bps {
                        Some(f) => Some(f as int),
                        None => None,
                    },
                ),
                old(self)@,
                final(self)@,
                result,
            ),
    {
        proof {
            use_type_invariant(&*self);
        }
        let fee = match fee_bps {
            Some(f) => f,
            None => DEFAULT_FEE_BPS,
        };
        if fee < 0 || fee > BPS_DENOMINATOR {
            return Err(Error::InvalidFeeConfiguration);
        }
        let paused = self.is_paused();
        let receipt = authorization_receipt(&treasury);
        self.config = Some(GlobalConfig { treasury, fee_bps: fee, paused });
        Ok(receipt)
    }

    /// Changes the fee rate.
    ///
    /// Fails with `TreasuryNotInitialized` on a ledger without a treasury and
    /// with `InvalidFeeConfiguration` for a rate outside 0..=10000. The
    /// treasury must authorize the call.
    pub fn update_fee(&mut self, new_fee_bps: i128) -> (result: Result<Receipt, Error>)
        ensures
            final(self)@.inv(),
            settled(old(self)@.update_fee(new_fee_bps as int), old(self)@, final(self)@, result),
    {
        proof {
            use_type_invariant(&*self);
        }
        let (treasury, paused) = match &self.config {
            Some(config) => (config.treasury.clone(), config.paused),
            None => {
                return Err(Error::TreasuryNotInitialized);
            },
        };
        if new_fee_bps < 0 || new_fee_bps > BPS_DENOMINATOR {
            return Err(Error::InvalidFeeConfiguration);
        }
        let receipt = authorization_receipt(&treasury);
        self.config = Some(GlobalConfig { treasury, fee_bps: new_fee_bps, paused });
        Ok(receipt)
    }

    /// Sets or clears the pause flag.
    ///
    /// Fails with `TreasuryNotInitialized` on a ledger without a treasury.
    /// The treasury must authorize the call.
    pub fn set_paused(&mut self, paused: bool) -> (result: Result<Receipt, Error>)
        ensures
            final(self)@.inv(),
            settled(old(self)@.set_paused(paused), old(self)@, final(self)@, result),
    {
        proof {
            use_type_invariant(&*self);
        }
        let (treasury, fee_bps) = match &self.config {
            Some(config) => (config.treasury.clone(), config.fee_bps),
            None => {
                return Err(Error::TreasuryNotInitialized);
            },
        };
        let receipt = authorization_receipt(&treasury);
        self.config = Some(GlobalConfig { treasury, fee_bps, paused });
        Ok(receipt)
    }

    /// Whether the ledger is paused. A ledger without a treasury is not.
    pub fn is_paused(&self) -> (paused: bool)
        ensures
            paused == self@.paused(),
    {
        match &self.config {
            Some(config) => config.paused,
            None => false,
        }
    }

    /// The treasury and the fee rate, or `TreasuryNotInitialized` where no
    /// treasury has been set.
    pub fn get_config(&self) -> (result: Result<(Identity, i128), Error>)
        ensures
            match result {
                Ok((treasury, fee_bps)) => self@.config matches Some(c) && c.treasury == treasury@
                    && c.fee_bps == fee_bps,
                Err(e) => e == Error::TreasuryNotInitialized && self@.config is None,
            },
    {
        match &self.config {
            Some(config) => Ok((config.treasury.clone(), config.fee_bps)),
            None => Err(Error::TreasuryNotInitialized),
        }
    }

    /// Registers the administrator, who alone settles disputes.
    ///
    /// Fails with `AlreadyInitialized` once an administrator is registered.
    /// The administrator itself must authorize the call.
    pub fn init(&mut self, admin: Identity) -> (result: Result<Receipt, Error>)
        ensures
            final(self)@.inv(),
            settled(old(self)@.init(admin@), old(self)@, final(self)@, result),
    {
        proof {
            use_type_invariant(&*self);
        }
        if self.admin.is_some() {
            return Err(Error::AlreadyInitialized);
        }
        let receipt = authorization_receipt(&admin);
        self.admin = Some(admin);
        Ok(receipt)
    }

    /// The administrator, or `AdminNotInitialized` where none is registered.
    pub fn get_admin(&self) -> (result: Result<Identity, Error>)
        ensures
            match result {
                Ok(admin) => self@.admin == Some(admin@),
                Err(e) => e == Error::AdminNotInitialized && self@.admin is None,
            },
    {
        match &self.admin {
            Some(admin) => Ok(admin.clone()),
            None => Err(Error::AdminNotInitialized),
        }
    }

    /// The escrow `escrow_id`, or `EscrowNotFound`.
    pub fn get_escrow(&self, escrow_id: u64) -> (result: Result<Escrow, Error>)
        ensures
            match result {
                Ok(escrow) => self@.escrows.contains_key(escrow_id) && self@.escrows[escrow_id]
                    == escrow@ && escrow@.inv(),
                Err(e) => e == Error::EscrowNotFound && !self@.escrows.contains_key(escrow_id),
            },
    {
        proof {
            use_type_invariant(self);
        }
        match self.escrows.get(&escrow_id) {
            Some(escrow) => Ok(escrow.clone()),
            None => Err(Error::EscrowNotFound),
        }
    }

    /// The status of the escrow `escrow_id`, or `EscrowNotFound`.
    pub fn get_state(&self, escrow_id: u64) -> (result: Result<EscrowStatus, Error>)
        ensures
            match result {
                Ok(status) => self@.escrows.contains_key(escrow_id)
                    && self@.escrows[escrow_id].status == status,
                Err(e) => e == Error::EscrowNotFound && !self@.escrows.contains_key(escrow_id),
            },
    {
        match self.escrows.get(&escrow_id) {
            Some(escrow) => Ok(escrow.status),
            None => Err(Error::EscrowNotFound),
        }
    }

    /// Takes over a record that was kept elsewhere, under an identifier that
    /// the ledger does not use yet.
    ///
    /// The record is taken as it is, in whatever status it has, if it
    /// satisfies the invariant of the escrows on a ledger; a record that does
    /// not is refused, and so is one for an identifier in use.
    pub fn restore_escrow(&mut self, escrow_id: u64, escrow: Escrow) -> (accepted: bool)
        ensures
            final(self)@.inv(),
            accepted == (escrow@.inv() && !old(self)@.escrows.contains_key(escrow_id)),
            final(self)@ == if accepted {
                old(self)@.with_escrow(escrow_id, escrow@)
            } else {
                old(self)@
            },
    {
        proof {
            use_type_invariant(&*self);
        }
        if self.escrows.contains_key(&escrow_id) || !escrow.is_consistent() {
            return false;
        }
        self.store(escrow_id, escrow);
        true
    }

    /// Puts `escrow` in the place of the record `escrow_id`.
    ///
    /// The records leave the ledger while they change and come back changed,
    /// so that the ledger satisfies its invariant at every point.
    fn store(&mut self, escrow_id: u64, escrow: Escrow)
        requires
            escrow@.inv(),
        ensures
            final(self)@ == old(self)@.with_escrow(escrow_id, escrow@),
            final(self)@.inv(),
    {
        proof {
            use_type_invariant(&*self);
        }
        let ghost before = self@;
        let mut escrows: HashMap<u64, Escrow> = HashMap::new();
        std::mem::swap(&mut escrows, &mut self.escrows);
        escrows.insert(escrow_id, escrow);
        proof {
            assert forall|id: u64|
                escrows@.contains_key(id) implies (#[trigger] escrows@[id])@.inv() by {
                if id != escrow_id {
                    assert(before.escrows.contains_key(id));
                }
            }
        }
        self.escrows = escrows;
        assert(self@.escrows =~= before.escrows.insert(escrow_id, escrow@));
    }

    /// Records a new escrow between `depositor` and `recipient`.
    ///
    /// The escrow starts unfunded, with nothing released and every milestone
    /// pending, whatever status the given milestones carry. The call fails
    /// with `ContractPaused` on a paused ledger, else with
    /// `EscrowAlreadyExists` where `escrow_id` is in use, else with
    /// `SelfDealing` where the two parties are the same, else with what the
    /// validation of the milestones finds. The depositor must authorize the
    /// call.
    pub fn create_escrow(
        &mut self,
        escrow_id: u64,
        depositor: Identity,
        recipient: Identity,
        token_address: Identity,
        milestones: Vec<Milestone>,
        deadline: u64,
    ) -> (result: Result<Receipt, Error>)
        ensures
            final(self)@.inv(),
            settled(
                old(self)@.create_escrow(
                    escrow_id,
                    depositor@,
                    recipient@,
                    token_address@,
                    milestone_views(milestones@),
                    deadline as nat,
                ),
                old(self)@,
                final(self)@,
                result,
            ),
    {
        proof {
            use_type_invariant(&*self);
        }
        if self.is_paused() {
            return Err(Error::ContractPaused);
        }
        if self.escrows.contains_key(&escrow_id) {
            return Err(Error::EscrowAlreadyExists);
        }
        if depositor.same(&recipient) {
            return Err(Error::SelfDealing);
        }
        let total_amount = match validate_milestones(&milestones) {
            Ok(total) => total,
            Err(e) => {
                return Err(e);
            },
        };
        proof {
            lemma_new_escrow_inv(
                depositor@,
                recipient@,
                token_address@,
                milestone_views(milestones@),
                deadline as nat,
            );
        }
        let receipt = Receipt {
            authorizer: depositor.clone(),
            transfers: Vec::new(),
            event: Some(
                Event::EscrowCreated {
                    escrow_id,
                    depositor: depositor.clone(),
                    recipient: recipient.clone(),
                    token: token_address.clone(),
                    total_amount,
                    deadline,
                },
            ),
        };
        assert(receipt@.transfers =~= Seq::empty());
        let escrow = Escrow {
            depositor,
            recipient,
            token_address,
            total_amount,
            total_released: 0,
            milestones: sweep_milestones(&milestones, Sweep::Reset),
            status: EscrowStatus::Created,
            deadline,
            resolution: Resolution::Unresolved,
        };
        self.store(escrow_id, escrow);
        Ok(receipt)
    }

    /// Funds a created escrow: its whole amount is to be taken from the
    /// depositor into custody, and the escrow becomes active.
    ///
    /// The call fails with `ContractPaused` on a paused ledger, else with
    /// `EscrowNotFound`, else with `EscrowAlreadyFunded` where the escrow is
    /// in any status but `Created`. The depositor must authorize the call.
    pub fn deposit_funds(&mut self, escrow_id: u64) -> (result: Result<Receipt, Error>)
        ensures
            final(self)@.inv(),
            settled(old(self)@.deposit_funds(escrow_id), old(self)@, final(self)@, result),
    {
        proof {
            use_type_invariant(&*self);
        }
        if self.is_paused() {
            return Err(Error::ContractPaused);
        }
        let mut escrow = match self.escrows.get(&escrow_id) {
            Some(found) => found.clone(),
            None => {
                return Err(Error::EscrowNotFound);
            },
        };
        if escrow.status != EscrowStatus::Created {
            return Err(Error::EscrowAlreadyFunded);
        }
        let mut transfers: Vec<Transfer> = Vec::new();
        transfers.push(
            transfer_for(
                &escrow,
                escrow_id,
                TransferKind::Deposit,
                &escrow.depositor,
                escrow.total_amount,
            ),
        );
        let receipt = Receipt {
            authorizer: escrow.depositor.clone(),
            transfers,
            event: Some(Event::FundsDeposited { escrow_id, amount: escrow.total_amount }),
        };
        assert(receipt@.transfers =~= seq![
            escrow@.pays(
                escrow_id,
                TransferKind::Deposit,
                escrow@.depositor,
                escrow@.total_amount,
            ),
        ]);
        escrow.status = EscrowStatus::Active;
        self.store(escrow_id, escrow);
        Ok(receipt)
    }

    /// Releases one milestone on the depositor's word, with the platform fee
    /// taken out.
    ///
    /// The fee is computed from the amount of the milestone at the ledger's
    /// present rate. The recipient is to be paid the amount less the fee, the
    /// treasury the fee if there is one; the milestone becomes released and
    /// its amount is added to what the escrow has released.
    ///
    /// The call fails with `ContractPaused` on a paused ledger, else with
    /// `EscrowNotFound`, else with `EscrowNotActive` where the escrow is not
    /// active, else with `MilestoneNotFound` where it has no milestone of
    /// that index, else with `MilestoneAlreadyReleased`, else with
    /// `TreasuryNotInitialized` on a ledger without a treasury, else with
    /// `AmountOverflow` where the fee cannot be computed in 128 bits. The
    /// depositor must authorize the call.
    pub fn release_milestone(&mut self, escrow_id: u64, milestone_index: u32) -> (result: Result<
        Receipt,
        Error,
    >)
        ensures
            final(self)@.inv(),
            settled(
                old(self)@.release_milestone(escrow_id, milestone_index as int),
                old(self)@,
                final(self)@,
                result,
            ),
    {
        proof {
            use_type_invariant(&*self);
        }
        if self.is_paused() {
            return Err(Error::ContractPaused);
        }
        let mut escrow = match self.escrows.get(&escrow_id) {
            Some(found) => found.clone(),
            None => {
                return Err(Error::EscrowNotFound);
            },
        };
        if escrow.status != EscrowStatus::Active {
            return Err(Error::EscrowNotActive);
        }
        let index = milestone_index as usize;
        if index >= escrow.milestones.len() {
            return Err(Error::MilestoneNotFound);
        }
        if escrow.milestones[index].status == MilestoneStatus::Released {
            return Err(Error::MilestoneAlreadyReleased);
        }
        let (treasury, fee_bps) = match &self.config {
            Some(config) => (config.treasury.clone(), config.fee_bps),
            None => {
                return Err(Error::TreasuryNotInitialized);
            },
        };
        let amount = escrow.milestones[index].amount;
        let ghost before = escrow@;
        proof {
            lemma_release_inv(before, index as int);
        }
        let fee = match calculate_fee(amount, fee_bps) {
            Ok(fee) => fee,
            Err(e) => {
                return Err(e);
            },
        };
        let payout = amount - fee;
        let mut transfers: Vec<Transfer> = Vec::new();
        transfers.push(
            transfer_for(&escrow, escrow_id, TransferKind::Payout, &escrow.recipient, payout),
        );
        if fee > 0 {
            transfers.push(transfer_for(&escrow, escrow_id, TransferKind::Fee, &treasury, fee));
        }
        let receipt = Receipt {
            authorizer: escrow.depositor.clone(),
            transfers,
            event: Some(Event::MilestoneReleased { escrow_id, milestone_index, payout, fee }),
        };
        proof {
            let paid = before.pays(
                escrow_id,
                TransferKind::Payout,
                before.recipient,
                payout as int,
            );
            if fee > 0 {
                assert(receipt@.transfers =~= seq![
                    paid,
                    before.pays(escrow_id, TransferKind::Fee, treasury@, fee as int),
                ]);
            } else {
                assert(receipt@.transfers =~= seq![paid]);
            }
        }
        let released = escrow.milestones[index].with_status(MilestoneStatus::Released);
        escrow.milestones.set(index, released);
        escrow.total_released = escrow.total_released + amount;
        assert(escrow@.milestones =~= before.release(index as int).milestones);
        self.store(escrow_id, escrow);
        Ok(receipt)
    }

    /// Releases one milestone on the buyer's confirmation of delivery, with
    /// no fee taken.
    ///
    /// The recipient is to be paid the whole amount of the milestone; the
    /// milestone becomes released and its amount is added to what the escrow
    /// has released.
    ///
    /// The call fails with `ContractPaused` on a paused ledger, else with
    /// `EscrowNotFound`, else with `UnauthorizedAccess` where `buyer` is not
    /// the depositor, else with `EscrowNotActive`, `MilestoneNotFound` or
    /// `MilestoneAlreadyReleased` as a release does. The buyer must authorize
    /// the call.
    pub fn confirm_delivery(
        &mut self,
        escrow_id: u64,
        milestone_index: u32,
        buyer: Identity,
    ) -> (result: Result<Receipt, Error>)
        ensures
            final(self)@.inv(),
            settled(
                old(self)@.confirm_delivery(escrow_id, milestone_index as int, buyer@),
                old(self)@,
                final(self)@,
                result,
            ),
    {
        proof {
            use_type_invariant(&*self);
        }
        if self.is_paused() {
            return Err(Error::ContractPaused);
        }
        let mut escrow = match self.escrows.get(&escrow_id) {
            Some(found) => found.clone(),
            None => {
                return Err(Error::EscrowNotFound);
            },
        };
        if !buyer.same(&escrow.depositor) {
            return Err(Error::UnauthorizedAccess);
        }
        if escrow.status != EscrowStatus::Active {
            return Err(Error::EscrowNotActive);
        }
        let index = milestone_index as usize;
        if index >= escrow.milestones.len() {
            return Err(Error::MilestoneNotFound);
        }
        if escrow.milestones[index].status == MilestoneStatus::Released {
            return Err(Error::MilestoneAlreadyReleased);
        }
        let amount = escrow.milestones[index].amount;
        let ghost before = escrow@;
        proof {
            lemma_release_inv(before, index as int);
        }
        let mut transfers: Vec<Transfer> = Vec::new();
        transfers.push(
            transfer_for(&escrow, escrow_id, TransferKind::Payout, &escrow.recipient, amount),
        );
        let receipt = Receipt {
            authorizer: buyer,
            transfers,
            event: Some(
                Event::MilestoneReleased { escrow_id, milestone_index, payout: amount, fee: 0 },
            ),
        };
        assert(receipt@.transfers =~= seq![
            before.pays(escrow_id, TransferKind::Payout, before.recipient, amount as int),
        ]);
        let released = escrow.milestones[index].with_status(MilestoneStatus::Released);
        escrow.milestones.set(index, released);
        escrow.total_released = escrow.total_released + amount;
        assert(escrow@.milestones =~= before.release(index as int).milestones);
        self.store(escrow_id, escrow);
        Ok(receipt)
    }

    /// Puts an escrow in dispute on the word of its depositor or recipient.
    ///
    /// Every pending milestone becomes disputed, and any earlier resolution
    /// is cleared.
    ///
    /// The call fails with `ContractPaused` on a paused ledger, else with
    /// `EscrowNotFound`, else with `UnauthorizedAccess` where `caller` is
    /// neither party, else with `AlreadyInDispute` where the escrow is
    /// disputed, else with `InvalidEscrowStatus` where it is neither created
    /// nor active. The caller must authorize the call.
    pub fn raise_dispute(&mut self, escrow_id: u64, caller: Identity) -> (result: Result<
        Receipt,
        Error,
    >)
        ensures
            final(self)@.inv(),
            settled(old(self)@.raise_dispute(escrow_id, caller@), old(self)@, final(self)@, result),
    {
        proof {
            use_type_invariant(&*self);
        }
        if self.is_paused() {
            return Err(Error::ContractPaused);
        }
        let mut escrow = match self.escrows.get(&escrow_id) {
            Some(found) => found.clone(),
            None => {
                return Err(Error::EscrowNotFound);
            },
        };
        if !caller.same(&escrow.depositor) && !caller.same(&escrow.recipient) {
            return Err(Error::UnauthorizedAccess);
        }
        if escrow.status == EscrowStatus::Disputed {
            return Err(Error::AlreadyInDispute);
        }
        if escrow.status != EscrowStatus::Active && escrow.status != EscrowStatus::Created {
            return Err(Error::InvalidEscrowStatus);
        }
        proof {
            lemma_dispute_inv(escrow@);
        }
        let receipt = Receipt {
            authorizer: caller.clone(),
            transfers: Vec::new(),
            event: Some(Event::DisputeRaised { escrow_id, caller }),
        };
        assert(receipt@.transfers =~= Seq::empty());
        escrow.milestones = sweep_milestones(&escrow.milestones, Sweep::Dispute);
        escrow.status = EscrowStatus::Disputed;
        escrow.resolution = Resolution::Unresolved;
        self.store(escrow_id, escrow);
        Ok(receipt)
    }

    /// Settles a dispute on the administrator's word.
    ///
    /// What the escrow has not released goes to the winner. For the
    /// recipient, every milestone becomes released and the escrow has then
    /// released its whole amount. For the depositor, every milestone that was
    /// not released becomes disputed and the released sum stays. The escrow
    /// becomes resolved and records the winner.
    ///
    /// The call fails with `AdminNotInitialized` on a ledger without an
    /// administrator, else with `EscrowNotFound`, else with
    /// `InvalidEscrowStatus` where the escrow is not disputed, else with
    /// `InvalidWinner` where `winner` is neither party. The administrator
    /// must authorize the call.
    pub fn resolve_dispute(&mut self, escrow_id: u64, winner: Identity) -> (result: Result<
        Receipt,
        Error,
    >)
        ensures
            final(self)@.inv(),
            settled(
                old(self)@.resolve_dispute(escrow_id, winner@),
                old(self)@,
                final(self)@,
                result,
            ),
    {
        proof {
            use_type_invariant(&*self);
        }
        let admin = match &self.admin {
            Some(admin) => admin.clone(),
            None => {
                return Err(Error::AdminNotInitialized);
            },
        };
        let mut escrow = match self.escrows.get(&escrow_id) {
            Some(found) => found.clone(),
            None => {
                return Err(Error::EscrowNotFound);
            },
        };
        if escrow.status != EscrowStatus::Disputed {
            return Err(Error::InvalidEscrowStatus);
        }
        let for_recipient = winner.same(&escrow.recipient);
        if !for_recipient && !winner.same(&escrow.depositor) {
            return Err(Error::InvalidWinner);
        }
        let ghost before = escrow@;
        proof {
            lemma_dispute_inv(before);
            lemma_released_in_range(before);
        }
        let outstanding = escrow.total_amount - escrow.total_released;
        let kind = if for_recipient {
            TransferKind::Payout
        } else {
            TransferKind::Refund
        };
        let mut transfers: Vec<Transfer> = Vec::new();
        if outstanding > 0 {
            transfers.push(transfer_for(&escrow, escrow_id, kind, &winner, outstanding));
        }
        let receipt = Receipt {
            authorizer: admin,
            transfers,
            event: Some(Event::DisputeResolved { escrow_id, winner, amount: outstanding }),
        };
        proof {
            if outstanding > 0 {
                assert(receipt@.transfers =~= seq![
                    before.pays(escrow_id, kind, winner@, outstanding as int),
                ]);
            } else {
                assert(receipt@.transfers =~= Seq::empty());
            }
        }
        if for_recipient {
            escrow.milestones = sweep_milestones(&escrow.milestones, Sweep::Award);
            escrow.total_released = escrow.total_amount;
            escrow.resolution = Resolution::Recipient;
        } else {
            escrow.milestones = sweep_milestones(&escrow.milestones, Sweep::Withhold);
            escrow.resolution = Resolution::Depositor;
        }
        escrow.status = EscrowStatus::Resolved;
        self.store(escrow_id, escrow);
        Ok(receipt)
    }

    /// Calls an escrow off before anything has been released.
    ///
    /// Where the escrow was funded, its whole amount is to be paid back to
    /// the depositor. The escrow becomes cancelled.
    ///
    /// The call fails with `ContractPaused` on a paused ledger, else with
    /// `EscrowNotFound`, else with `InvalidEscrowStatus` where the escrow is
    /// neither created nor active, else with `MilestoneAlreadyReleased` where
    /// it has released anything. The depositor must authorize the call.
    pub fn cancel_escrow(&mut self, escrow_id: u64) -> (result: Result<Receipt, Error>)
        ensures
            final(self)@.inv(),
            settled(old(self)@.cancel_escrow(escrow_id), old(self)@, final(self)@, result),
    {
        proof {
            use_type_invariant(&*self);
        }
        if self.is_paused() {
            return Err(Error::ContractPaused);
        }
        let mut escrow = match self.escrows.get(&escrow_id) {
            Some(found) => found.clone(),
            None => {
                return Err(Error::EscrowNotFound);
            },
        };
        if escrow.status != EscrowStatus::Active && escrow.status != EscrowStatus::Created {
            return Err(Error::InvalidEscrowStatus);
        }
        if escrow.total_released > 0 {
            return Err(Error::MilestoneAlreadyReleased);
        }
        let ghost before = escrow@;
        let funded = escrow.status == EscrowStatus::Active;
        let mut transfers: Vec<Transfer> = Vec::new();
        let mut refund: i128 = 0;
        if funded {
            refund = escrow.total_amount;
            transfers.push(
                transfer_for(
                    &escrow,
                    escrow_id,
                    TransferKind::Refund,
                    &escrow.depositor,
                    escrow.total_amount,
                ),
            );
        }
        let receipt = Receipt {
            authorizer: escrow.depositor.clone(),
            transfers,
            event: Some(Event::EscrowCancelled { escrow_id, refund }),
        };
        proof {
            if funded {
                assert(receipt@.transfers =~= seq![
                    before.pays(
                        escrow_id,
                        TransferKind::Refund,
                        before.depositor,
                        before.total_amount,
                    ),
                ]);
            } else {
                assert(receipt@.transfers =~= Seq::empty());
            }
        }
        escrow.status = EscrowStatus::Cancelled;
        self.store(escrow_id, escrow);
        Ok(receipt)
    }

    /// Closes an active escrow whose milestones have all been released.
    ///
    /// The call fails with `EscrowNotFound`, else with `InvalidEscrowStatus`
    /// where the escrow is not active, else with `EscrowNotActive` where a
    /// milestone has not been released. The depositor must authorize the
    /// call.
    pub fn complete_escrow(&mut self, escrow_id: u64) -> (result: Result<Receipt, Error>)
        ensures
            final(self)@.inv(),
            settled(old(self)@.complete_escrow(escrow_id), old(self)@, final(self)@, result),
    {
        proof {
            use_type_invariant(&*self);
        }
        let mut escrow = match self.escrows.get(&escrow_id) {
            Some(found) => found.clone(),
            None => {
                return Err(Error::EscrowNotFound);
            },
        };
        if escrow.status != EscrowStatus::Active {
            return Err(Error::InvalidEscrowStatus);
        }
        if !verify_all_released(&escrow.milestones) {
            return Err(Error::EscrowNotActive);
        }
        let receipt = Receipt {
            authorizer: escrow.depositor.clone(),
            transfers: Vec::new(),
            event: Some(Event::EscrowCompleted { escrow_id }),
        };
        assert(receipt@.transfers =~= Seq::empty());
        escrow.status = EscrowStatus::Completed;
        self.store(escrow_id, escrow);
        Ok(receipt)
    }
}

} // verus!
