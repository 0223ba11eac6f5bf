//! The client's record of its towers, of the active retriers, and of what it
//! has written to the durable store.

use vstd::prelude::*;
use crate::ids::{Locator, TowerId};
use crate::locator_set::LocatorSet;
use crate::status::{MisbehaviorProof, RetrierStatus, TowerStatus};
use crate::tower_map::TowerMap;

verus! {

/// The terms of a subscription, as a tower states them when the client
/// registers.
#[derive(Clone, Copy, Debug, PartialEq, Eq, Structural)]
pub struct RegistrationReceipt {
    pub available_slots: u32,
    pub subscription_start: u32,
    pub subscription_expiry: u32,
}

/// Why a registration receipt was turned down.
#[derive(Clone, Copy, Debug, PartialEq, Eq, Structural)]
pub enum SubscriptionError {
    /// The subscription would not end later than the current one.
    Expiry,
    /// The subscription would not hold more slots than the current one.
    Slots,
}

impl SubscriptionError {
    pub fn is_expiry(&self) -> (r: bool)
        ensures
            r == (*self is Expiry),
    {
        matches!(self, SubscriptionError::Expiry)
    }
}

/// A write to the durable store. The client records every write that a
/// transition calls for, in order; whoever owns the store carries them out.
#[derive(Clone, Copy, Debug, PartialEq, Eq, Structural)]
pub enum StoreOp {
    /// Store or update the record of a tower.
    StoreTower { tower_id: TowerId, receipt: RegistrationReceipt },
    /// Delete a tower and all that belongs to it.
    RemoveTower { tower_id: TowerId },
    /// Keep an appointment as pending for a tower.
    StorePendingAppointment { tower_id: TowerId, locator: Locator },
    /// Delete the pending row of an appointment.
    RemovePendingAppointment { tower_id: TowerId, locator: Locator },
    /// Keep an appointment as invalid for a tower.
    AddInvalidAppointment { tower_id: TowerId, locator: Locator },
    /// Keep the receipt that a tower gave for an appointment.
    AddAppointmentReceipt { tower_id: TowerId, locator: Locator, available_slots: u32 },
    /// Keep the proof that a tower misbehaved.
    FlagMisbehavingTower { tower_id: TowerId, proof: MisbehaviorProof },
}

/// What the client holds in memory of one tower.
#[derive(Debug)]
pub struct Tower {
    pub status: TowerStatus,
    pub available_slots: u32,
    pub subscription_start: u32,
    pub subscription_expiry: u32,
    /// Appointments that the tower has not accepted yet. Mirrors the pending
    /// rows of the durable store.
    pub pending_appointments: LocatorSet,
    /// Appointments that the tower rejected. Mirrors the invalid rows of the
    /// durable store.
    pub invalid_appointments: LocatorSet,
}

/// Mathematical model of a [`Tower`].
#[verifier::ext_equal]
pub struct TowerView {
    pub status: TowerStatus,
    pub available_slots: u32,
    pub subscription_start: u32,
    pub subscription_expiry: u32,
    pub pending: Set<Locator>,
    pub invalid: Set<Locator>,
}

impl View for Tower {
    type V = TowerView;

    open spec fn view(&self) -> TowerView {
        TowerView {
            status: self.status,
            available_slots: self.available_slots,
            subscription_start: self.subscription_start,
            subscription_expiry: self.subscription_expiry,
            pending: self.pending_appointments@,
            invalid: self.invalid_appointments@,
        }
    }
}

impl TowerView {
    /// A tower as it stands right after a first registration.
    pub open spec fn registered(receipt: RegistrationReceipt) -> TowerView {
        TowerView {
            status: TowerStatus::Reachable,
            available_slots: receipt.available_slots,
            subscription_start: receipt.subscription_start,
            subscription_expiry: receipt.subscription_expiry,
            pending: Set::empty(),
            invalid: Set::empty(),
        }
    }

    /// The tower under the terms of `receipt`.
    pub open spec fn renewed(self, receipt: RegistrationReceipt) -> TowerView {
        TowerView {
            status: self.status,
            available_slots: receipt.available_slots,
            subscription_start: receipt.subscription_start,
            subscription_expiry: receipt.subscription_expiry,
            pending: self.pending,
            invalid: self.invalid,
        }
    }

    pub open spec fn with_status(self, status: TowerStatus) -> TowerView {
        TowerView {
            status,
            available_slots: self.available_slots,
            subscription_start: self.subscription_start,
            subscription_expiry: self.subscription_expiry,
            pending: self.pending,
            invalid: self.invalid,
        }
    }

    pub open spec fn with_available_slots(self, available_slots: u32) -> TowerView {
        TowerView {
            status: self.status,
            available_slots,
            subscription_start: self.subscription_start,
            subscription_expiry: self.subscription_expiry,
            pending: self.pending,
            invalid: self.invalid,
        }
    }

    pub open spec fn with_pending(self, pending: Set<Locator>) -> TowerView {
        TowerView {
            status: self.status,
            available_slots: self.available_slots,
            subscription_start: self.subscription_start,
            subscription_expiry: self.subscription_expiry,
            pending,
            invalid: self.invalid,
        }
    }

    pub open spec fn with_invalid(self, invalid: Set<Locator>) -> TowerView {
        TowerView {
            status: self.status,
            available_slots: self.available_slots,
            subscription_start: self.subscription_start,
            subscription_expiry: self.subscription_expiry,
            pending: self.pending,
            invalid,
        }
    }
}

/// Mathematical model of a [`ClientState`].
#[verifier::ext_equal]
pub struct ClientView {
    /// The towers the client is registered with.
    pub towers: Map<TowerId, TowerView>,
    /// The retriers that are running or idle, by tower, as callers see them.
    pub retriers: Map<TowerId, RetrierStatus>,
    /// The writes to the durable store that were called for and not yet
    /// handed over, oldest first.
    pub store_ops: Seq<StoreOp>,
}

impl ClientView {
    pub open spec fn empty() -> ClientView {
        ClientView { towers: Map::empty(), retriers: Map::empty(), store_ops: Seq::empty() }
    }

    pub open spec fn with_towers(self, towers: Map<TowerId, TowerView>) -> ClientView {
        ClientView { towers, retriers: self.retriers, store_ops: self.store_ops }
    }

    pub open spec fn with_retriers(self, retriers: Map<TowerId, RetrierStatus>) -> ClientView {
        ClientView { towers: self.towers, retriers, store_ops: self.store_ops }
    }

    pub open spec fn with_store_ops(self, store_ops: Seq<StoreOp>) -> ClientView {
        ClientView { towers: self.towers, retriers: self.retriers, store_ops }
    }

    /// The state after a tower was changed in memory and the store told of it.
    pub open spec fn with_tower(self, tower_id: TowerId, tower: TowerView, op: StoreOp) -> ClientView {
        ClientView {
            towers: self.towers.insert(tower_id, tower),
            retriers: self.retriers,
            store_ops: self.store_ops.push(op),
        }
    }

    /// The status of a tower, if the tower is known.
    pub open spec fn tower_status(self, tower_id: TowerId) -> Option<TowerStatus> {
        if self.towers.contains_key(tower_id) {
            Some(self.towers[tower_id].status)
        } else {
            None
        }
    }

    /// The pending rows of the store for a tower: none for an unknown tower.
    pub open spec fn pending(self, tower_id: TowerId) -> Set<Locator> {
        if self.towers.contains_key(tower_id) {
            self.towers[tower_id].pending
        } else {
            Set::empty()
        }
    }

    /// Why `receipt` would be turned down for `tower_id`, if it would.
    pub open spec fn registration_error(
        self,
        tower_id: TowerId,
        receipt: RegistrationReceipt,
    ) -> Option<SubscriptionError> {
        if !self.towers.contains_key(tower_id) {
            None
        } else if receipt.subscription_expiry <= self.towers[tower_id].subscription_expiry {
            Some(SubscriptionError::Expiry)
        } else if receipt.available_slots <= self.towers[tower_id].available_slots {
            Some(SubscriptionError::Slots)
        } else {
            None
        }
    }

    pub open spec fn add_update_tower(
        self,
        tower_id: TowerId,
        receipt: RegistrationReceipt,
    ) -> ClientView {
        if self.registration_error(tower_id, receipt) is Some {
            self
        } else if self.towers.contains_key(tower_id) {
            self.with_tower(
                tower_id,
                self.towers[tower_id].renewed(receipt),
                StoreOp::StoreTower { tower_id, receipt },
            )
        } else {
            self.with_tower(
                tower_id,
                TowerView::registered(receipt),
                StoreOp::StoreTower { tower_id, receipt },
            )
        }
    }

    pub open spec fn remove_tower(self, tower_id: TowerId) -> ClientView {
        if self.towers.contains_key(tower_id) {
            ClientView {
                towers: self.towers.remove(tower_id),
                retriers: self.retriers,
                store_ops: self.store_ops.push(StoreOp::RemoveTower { tower_id }),
            }
        } else {
            self
        }
    }

    pub open spec fn set_tower_status(self, tower_id: TowerId, status: TowerStatus) -> ClientView {
        if self.towers.contains_key(tower_id) {
            self.with_towers(self.towers.insert(tower_id, self.towers[tower_id].with_status(status)))
        } else {
            self
        }
    }

    pub open spec fn add_pending_appointment(self, tower_id: TowerId, locator: Locator) -> ClientView {
        if self.towers.contains_key(tower_id) {
            let tower = self.towers[tower_id];
            self.with_tower(
                tower_id,
                tower.with_pending(tower.pending.insert(locator)),
                StoreOp::StorePendingAppointment { tower_id, locator },
            )
        } else {
            self
        }
    }

    pub open spec fn remove_pending_appointment(
        self,
        tower_id: TowerId,
        locator: Locator,
    ) -> ClientView {
        if self.towers.contains_key(tower_id) {
            let tower = self.towers[tower_id];
            self.with_tower(
                tower_id,
                tower.with_pending(tower.pending.remove(locator)),
                StoreOp::RemovePendingAppointment { tower_id, locator },
            )
        } else {
            self
        }
    }

    pub open spec fn add_invalid_appointment(self, tower_id: TowerId, locator: Locator) -> ClientView {
        if self.towers.contains_key(tower_id) {
            let tower = self.towers[tower_id];
            self.with_tower(
                tower_id,
                tower.with_invalid(tower.invalid.insert(locator)),
                StoreOp::AddInvalidAppointment { tower_id, locator },
            )
        } else {
            self
        }
    }

    pub open spec fn add_appointment_receipt(
        self,
        tower_id: TowerId,
        locator: Locator,
        available_slots: u32,
    ) -> ClientView {
        if self.towers.contains_key(tower_id) {
            self.with_tower(
                tower_id,
                self.towers[tower_id].with_available_slots(available_slots),
                StoreOp::AddAppointmentReceipt { tower_id, locator, available_slots },
            )
        } else {
            self
        }
    }

    pub open spec fn flag_misbehaving_tower(
        self,
        tower_id: TowerId,
        proof: MisbehaviorProof,
    ) -> ClientView {
        if self.towers.contains_key(tower_id) {
            self.with_tower(
                tower_id,
                self.towers[tower_id].with_status(TowerStatus::Misbehaving(proof)),
                StoreOp::FlagMisbehavingTower { tower_id, proof },
            )
        } else {
            self
        }
    }

    pub open spec fn insert_retrier(self, tower_id: TowerId, status: RetrierStatus) -> ClientView {
        self.with_retriers(self.retriers.insert(tower_id, status))
    }

    pub open spec fn remove_retrier(self, tower_id: TowerId) -> ClientView {
        self.with_retriers(self.retriers.remove(tower_id))
    }
}

/// The client's state: the towers it is registered with, the retriers that
/// are at work, and the writes it owes to the durable store.
#[derive(Debug)]
pub struct ClientState {
    towers: TowerMap<Tower>,
    retriers: TowerMap<RetrierStatus>,
    store_ops: Vec<StoreOp>,
}

impl View for ClientState {
    type V = ClientView;

    closed spec fn view(&self) -> ClientView {
        ClientView {
            towers: Map::new(
                |k: TowerId| self.towers@.contains_key(k),
                |k: TowerId| self.towers@[k]@,
            ),
            retriers: self.retriers@,
            store_ops: self.store_ops@,
        }
    }
}

impl ClientState {
    /// A client that knows no tower.
    pub fn new() -> (client: ClientState)
        ensures
            client@ == ClientView::empty(),
    {
        ClientState { towers: TowerMap::new(), retriers: TowerMap::new(), store_ops: Vec::new() }
    }

    /// Whether the client is registered with `tower_id`.
    pub fn contains_tower(&self, tower_id: TowerId) -> (r: bool)
        ensures
            r == self@.towers.contains_key(tower_id),
    {
        self.towers.contains_key(tower_id)
    }

    /// The record of `tower_id`, if the client has one.
    pub fn tower(&self, tower_id: TowerId) -> (r: Option<&Tower>)
        ensures
            match r {
                Some(tower) => self@.towers.contains_key(tower_id) && tower@ == self@.towers[tower_id],
                None => !self@.towers.contains_key(tower_id),
            },
    {
        self.towers.get(tower_id)
    }

    /// The status of `tower_id`, if the client knows the tower.
    pub fn get_tower_status(&self, tower_id: TowerId) -> (r: Option<TowerStatus>)
        ensures
            r == self@.tower_status(tower_id),
    {
        match self.towers.get(tower_id) {
            Some(tower) => Some(tower.status),
            None => None,
        }
    }

    /// The status of the retrier of `tower_id`, if it is among the active ones.
    pub fn get_retrier_status(&self, tower_id: TowerId) -> (r: Option<RetrierStatus>)
        ensures
            r == (if self@.retriers.contains_key(tower_id) {
                Some(self@.retriers[tower_id])
            } else {
                None
            }),
    {
        match self.retriers.get(tower_id) {
            Some(status) => Some(*status),
            None => None,
        }
    }

    /// The appointments that the store holds as pending for `tower_id`.
    pub fn load_appointment_locators(&self, tower_id: TowerId) -> (locators: LocatorSet)
        ensures
            locators@ == self@.pending(tower_id),
    {
        match self.towers.get(tower_id) {
            Some(tower) => tower.pending_appointments.clone(),
            None => LocatorSet::new(),
        }
    }

    /// Registers with a tower, or renews the subscription with it. A renewal
    /// has to end later than the current subscription and to hold more
    /// slots; otherwise nothing changes and the reason is returned.
    pub fn add_update_tower(&mut self, tower_id: TowerId, receipt: RegistrationReceipt) -> (r:
        Result<(), SubscriptionError>)
        ensures
            final(self)@ == old(self)@.add_update_tower(tower_id, receipt),
            r == (match old(self)@.registration_error(tower_id, receipt) {
                Some(e) => Err::<(), SubscriptionError>(e),
                None => Ok::<(), SubscriptionError>(()),
            }),
    {
        match self.towers.remove(tower_id) {
            Some(mut tower) => {
                if receipt.subscription_expiry <= tower.subscription_expiry {
                    self.towers.insert(tower_id, tower);
                    Err(SubscriptionError::Expiry)
                } else if receipt.available_slots <= tower.available_slots {
                    self.towers.insert(tower_id, tower);
                    Err(SubscriptionError::Slots)
                } else {
                    tower.available_slots = receipt.available_slots;
                    tower.subscription_start = receipt.subscription_start;
                    tower.subscription_expiry = receipt.subscription_expiry;
                    self.towers.insert(tower_id, tower);
                    self.store_ops.push(StoreOp::StoreTower { tower_id, receipt });
                    Ok(())
                }
            },
            None => {
                let tower = Tower {
                    status: TowerStatus::Reachable,
                    available_slots: receipt.available_slots,
                    subscription_start: receipt.subscription_start,
                    subscription_expiry: receipt.subscription_expiry,
                    pending_appointments: LocatorSet::new(),
                    invalid_appointments: LocatorSet::new(),
                };
                self.towers.insert(tower_id, tower);
                self.store_ops.push(StoreOp::StoreTower { tower_id, receipt });
                Ok(())
            },
        }
    }

    /// Abandons a tower: forgets it and all its appointments. Returns whether
    /// the tower was known.
    pub fn remove_tower(&mut self, tower_id: TowerId) -> (removed: bool)
        ensures
            final(self)@ == old(self)@.remove_tower(tower_id),
            removed == old(self)@.towers.contains_key(tower_id),
    {
        match self.towers.remove(tower_id) {
            Some(_) => {
                self.store_ops.push(StoreOp::RemoveTower { tower_id });
                true
            },
            None => {
                false
            },
        }
    }

    /// Sets the status of a tower in memory. Nothing happens for an unknown
    /// tower.
    pub fn set_tower_status(&mut self, tower_id: TowerId, status: TowerStatus)
        ensures
            final(self)@ == old(self)@.set_tower_status(tower_id, status),
    {
        match self.towers.remove(tower_id) {
            Some(mut tower) => {
                tower.status = status;
                self.towers.insert(tower_id, tower);
            },
            None => {},
        }
    }

    /// Records an appointment as pending for a tower, in memory and in the
    /// store. Nothing happens for an unknown tower.
    pub fn add_pending_appointment(&mut self, tower_id: TowerId, locator: Locator)
        ensures
            final(self)@ == old(self)@.add_pending_appointment(tower_id, locator),
    {
        match self.towers.remove(tower_id) {
            Some(mut tower) => {
                tower.pending_appointments.insert(locator);
                self.towers.insert(tower_id, tower);
                self.store_ops.push(StoreOp::StorePendingAppointment { tower_id, locator });
            },
            None => {},
        }
    }

    /// Takes an appointment out of the pending ones of a tower, in memory and
    /// in the store. Nothing happens for an unknown tower.
    pub fn remove_pending_appointment(&mut self, tower_id: TowerId, locator: Locator)
        ensures
            final(self)@ == old(self)@.remove_pending_appointment(tower_id, locator),
    {
        match self.towers.remove(tower_id) {
            Some(mut tower) => {
                tower.pending_appointments.remove(locator);
                self.towers.insert(tower_id, tower);
                self.store_ops.push(StoreOp::RemovePendingAppointment { tower_id, locator });
            },
            None => {},
        }
    }

    /// Records an appointment as invalid for a tower, in memory and in the
    /// store. Nothing happens for an unknown tower.
    pub fn add_invalid_appointment(&mut self, tower_id: TowerId, locator: Locator)
        ensures
            final(self)@ == old(self)@.add_invalid_appointment(tower_id, locator),
    {
        match self.towers.remove(tower_id) {
            Some(mut tower) => {
                tower.invalid_appointments.insert(locator);
                self.towers.insert(tower_id, tower);
                self.store_ops.push(StoreOp::AddInvalidAppointment { tower_id, locator });
            },
            None => {},
        }
    }

    /// Records that a tower accepted an appointment and how many slots are
    /// left with it. Nothing happens for an unknown tower.
    pub fn add_appointment_receipt(
        &mut self,
        tower_id: TowerId,
        locator: Locator,
        available_slots: u32,
    )
        ensures
            final(self)@ == old(self)@.add_appointment_receipt(tower_id, locator, available_slots),
    {
        match self.towers.remove(tower_id) {
            Some(mut tower) => {
                tower.available_slots = available_slots;
                self.towers.insert(tower_id, tower);
                self.store_ops.push(
                    StoreOp::AddAppointmentReceipt { tower_id, locator, available_slots },
                );
                assert(self@ =~= old(self)@.add_appointment_receipt(
                    tower_id,
                    locator,
                    available_slots,
                ));
            },
            None => {},
        }
    }

    /// Flags a tower as misbehaving and keeps the proof. Nothing happens for
    /// an unknown tower.
    pub fn flag_misbehaving_tower(&mut self, tower_id: TowerId, proof: MisbehaviorProof)
        ensures
            final(self)@ == old(self)@.flag_misbehaving_tower(tower_id, proof),
    {
        match self.towers.remove(tower_id) {
            Some(mut tower) => {
                tower.status = TowerStatus::Misbehaving(proof);
                self.towers.insert(tower_id, tower);
                self.store_ops.push(StoreOp::FlagMisbehavingTower { tower_id, proof });
            },
            None => {},
        }
    }

    /// Lists the retrier of a tower among the active ones, with its status.
    pub fn insert_retrier(&mut self, tower_id: TowerId, status: RetrierStatus)
        ensures
            final(self)@ == old(self)@.insert_retrier(tower_id, status),
    {
        self.retriers.insert(tower_id, status);
    }

    /// Strikes the retrier of a tower from the active ones.
    pub fn remove_retrier(&mut self, tower_id: TowerId)
        ensures
            final(self)@ == old(self)@.remove_retrier(tower_id),
    {
        let _ = self.retriers.remove(tower_id);
    }

    /// Hands over the writes that the store is owed, oldest first, and
    /// forgets them.
    pub fn take_store_ops(&mut self) -> (ops: Vec<StoreOp>)
        ensures
            ops@ == old(self)@.store_ops,
            final(self)@ == old(self)@.with_store_ops(Seq::empty()),
    {
        let mut ops: Vec<StoreOp> = Vec::new();
        std::mem::swap(&mut self.store_ops, &mut ops);
        ops
    }
}

} // verus!
