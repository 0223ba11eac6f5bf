//! The retrier of one tower: the appointments it still has to deliver and
//! the campaign that delivers them.

use vstd::prelude::*;
use std::time::Instant;
use crate::client::{ClientState, ClientView, SubscriptionError};
use crate::error::RetryError;
use crate::ids::{Locator, TowerId};
use crate::locator_set::{lemma_remove_member, LocatorSet};
use crate::net::{AddAppointmentError, ApiError, RegisterResponse};
use crate::status::{RetrierStatus, TowerStatus};

verus! {

/// Mathematical model of a [`Retrier`].
#[verifier::ext_equal]
pub struct RetrierView {
    /// The tower that the retrier serves.
    pub tower_id: TowerId,
    /// The appointments that it still has to deliver.
    pub pending: Set<Locator>,
    pub status: RetrierStatus,
}

/// Text of the error for a registration request that did not get through.
pub open spec fn renewal_failed_text() -> Seq<char> {
    "Cannot renew registration with tower"@
}

/// Text of the error for a registration receipt that the tower did not sign.
pub open spec fn bad_signature_text() -> Seq<char> {
    "Registration receipt contains bad signature. Are you using the right tower_id?"@
}

/// Text of the error for a renewal that does not end later.
pub open spec fn expiry_text() -> Seq<char> {
    "Registration receipt contains a subscription expiry that is not higher than the one we are currently registered for"@
}

/// Text of the error for a renewal that does not hold more slots.
pub open spec fn slots_text() -> Seq<char> {
    "Registration receipt does not contain more slots than the ones we are currently registered for"@
}

/// Text of the error for an appointment turned down for want of a valid
/// subscription.
pub open spec fn subscription_error_text() -> Seq<char> {
    "Subscription error"@
}

impl RetrierView {
    /// A retrier that was just made for `tower_id`.
    pub open spec fn fresh(tower_id: TowerId, pending: Set<Locator>) -> RetrierView {
        RetrierView { tower_id, pending, status: RetrierStatus::Stopped }
    }

    pub open spec fn with_status(self, status: RetrierStatus) -> RetrierView {
        RetrierView { tower_id: self.tower_id, pending: self.pending, status }
    }

    pub open spec fn with_pending(self, pending: Set<Locator>) -> RetrierView {
        RetrierView { tower_id: self.tower_id, pending, status: self.status }
    }

    /// Whether the retrier is due to be started: stopped, with something to
    /// deliver.
    pub open spec fn should_start(self) -> bool {
        self.status is Stopped && self.pending != Set::<Locator>::empty()
    }

    /// The retrier and the client after the retrier took `status`: a running
    /// or idle retrier is listed with the client, a stopped one is struck
    /// from the list, and a failed one stays as it was listed.
    pub open spec fn set_status(self, client: ClientView, status: RetrierStatus) -> (
        RetrierView,
        ClientView,
    ) {
        (
            self.with_status(status),
            if status.is_active() {
                client.insert_retrier(self.tower_id, status)
            } else if status is Stopped {
                client.remove_retrier(self.tower_id)
            } else {
                client
            },
        )
    }

    /// The retrier and the client once a campaign has been started: the
    /// tower counts as temporarily unreachable, unless its subscription has
    /// to be renewed first, and the retrier is running.
    pub open spec fn start(self, client: ClientView) -> (RetrierView, ClientView) {
        self.set_status(
            if client.tower_status(self.tower_id) == Some(TowerStatus::SubscriptionError) {
                client
            } else {
                client.set_tower_status(self.tower_id, TowerStatus::TemporaryUnreachable)
            },
            RetrierStatus::Running,
        )
    }

    /// The retrier and the client once an idle retrier has been woken: the
    /// retrier is stopped and holds what the store has pending for its
    /// tower.
    pub open spec fn wake(self, client: ClientView) -> (RetrierView, ClientView) {
        let (retrier, client) = self.set_status(client, RetrierStatus::Stopped);
        (retrier.with_pending(retrier.pending.union(client.pending(self.tower_id))), client)
    }

    /// The client once the tower has answered the request to register: a
    /// receipt that the tower signed is taken over, if it improves on the
    /// current subscription.
    pub open spec fn register(self, client: ClientView, response: RegisterResponse) -> ClientView {
        match response {
            RegisterResponse::Receipt { receipt, verified: true } => client.add_update_tower(
                self.tower_id,
                receipt,
            ),
            _ => client,
        }
    }

    /// The retrier and the client once the tower has answered the request to
    /// take the appointment `locator`.
    pub open spec fn deliver(
        self,
        client: ClientView,
        locator: Locator,
        response: Result<u32, AddAppointmentError>,
    ) -> (RetrierView, ClientView) {
        match response {
            Ok(available_slots) => (
                self.with_pending(self.pending.remove(locator)),
                client.add_appointment_receipt(
                    self.tower_id,
                    locator,
                    available_slots,
                ).remove_pending_appointment(self.tower_id, locator),
            ),
            Err(AddAppointmentError::ApiError(ApiError::InvalidSignatureOrSubscription)) => (
                self,
                client.set_tower_status(self.tower_id, TowerStatus::SubscriptionError),
            ),
            Err(AddAppointmentError::ApiError(ApiError::Rejected { .. })) => (
                self.with_pending(self.pending.remove(locator)),
                client.add_invalid_appointment(self.tower_id, locator).remove_pending_appointment(
                    self.tower_id,
                    locator,
                ),
            ),
            Err(_) => (self, client),
        }
    }

    /// The retrier and the client once a campaign has ended with `outcome`,
    /// at the time `now`.
    ///
    /// After a success the tower is reachable and the retrier stopped, in
    /// this order. After a permanent error the retrier has failed, and the
    /// tower is flagged as the error says. After any other error the retrier
    /// idles since `now` with nothing pending in memory, and the tower is
    /// unreachable.
    pub open spec fn finish(
        self,
        client: ClientView,
        outcome: Result<(), RetryError>,
        now: Instant,
    ) -> (RetrierView, ClientView) {
        match outcome {
            Ok(_) => self.set_status(
                client.set_tower_status(self.tower_id, TowerStatus::Reachable),
                RetrierStatus::Stopped,
            ),
            Err(error) => {
                if error.permanent() {
                    let (retrier, client) = self.set_status(client, RetrierStatus::Failed);
                    match error {
                        RetryError::Subscription(_, _) => (
                            retrier,
                            client.set_tower_status(self.tower_id, TowerStatus::SubscriptionError),
                        ),
                        RetryError::Misbehaving(proof) => (
                            retrier,
                            client.flag_misbehaving_tower(self.tower_id, proof),
                        ),
                        _ => (retrier, client),
                    }
                } else {
                    let (retrier, client) = self.set_status(client, RetrierStatus::Idle(now));
                    (
                        retrier.with_pending(Set::empty()),
                        client.set_tower_status(self.tower_id, TowerStatus::Unreachable),
                    )
                }
            },
        }
    }
}

/// A campaign that is due to be run for a tower, and its limits in time.
#[derive(Clone, Copy, Debug, PartialEq, Eq, Structural)]
pub struct Campaign {
    pub tower_id: TowerId,
    /// For how long the campaign may last, in seconds.
    pub max_elapsed_time_secs: u16,
    /// The longest pause between two attempts, in seconds.
    pub max_interval_time_secs: u16,
}

/// One request to hand an appointment to the tower, and the appointments of
/// the same sweep that come after it.
#[derive(Debug)]
pub struct Delivery {
    locator: Locator,
    rest: Vec<Locator>,
}

impl Delivery {
    #[verifier::type_invariant]
    spec fn inv(&self) -> bool {
        self.rest@.no_duplicates() && !self.rest@.contains(self.locator)
    }

    /// The appointment to hand over.
    pub closed spec fn target(&self) -> Locator {
        self.locator
    }

    /// No appointment comes twice in what is left of the sweep.
    pub open spec fn proper(&self) -> bool {
        self.remaining().no_duplicates() && !self.remaining().contains(self.target())
    }

    /// The appointments of the sweep that are still to come, next first.
    pub closed spec fn remaining(&self) -> Seq<Locator> {
        self.rest@
    }

    /// The appointment to hand over.
    pub fn locator(&self) -> (locator: Locator)
        ensures
            locator == self.target(),
            self.proper(),
    {
        proof {
            use_type_invariant(self);
        }
        self.locator
    }
}

/// What has to happen next in an attempt to serve a tower.
#[derive(Debug)]
pub enum RunStep {
    /// Register with the tower anew, check the receipt's signature, and
    /// report with [`Retrier::registered`].
    Register,
    /// Load and sign the appointment, send it to the tower, and report with
    /// [`Retrier::delivered`].
    AddAppointment(Delivery),
    /// The attempt is over.
    Done(Result<(), backoff::Error<RetryError>>),
}

impl RunStep {
    /// A step that asks for a delivery asks for a proper one.
    pub open spec fn proper(self) -> bool {
        self matches RunStep::AddAppointment(delivery) ==> delivery.proper()
    }
}

/// Whether `step` ends the attempt with a subscription error of the given
/// text, final or not.
pub open spec fn subscription_failure(step: RunStep, text: Seq<char>, permanent: bool) -> bool {
    match step {
        RunStep::Done(Err(backoff::Error::Permanent(RetryError::Subscription(reason, flag)))) => {
            permanent && flag && reason@ == text
        },
        RunStep::Done(
            Err(
                backoff::Error::Transient { err: RetryError::Subscription(reason, flag), retry_after },
            ),
        ) => !permanent && !flag && reason@ == text && retry_after is None,
        _ => false,
    }
}

/// Whether `step` goes on with a sweep over the pending appointments, of
/// which `rest` is still to come.
///
/// While the sweep lasts, its next appointment is due. Once it is over, the
/// attempt ends with success if nothing is pending; otherwise a new sweep
/// starts, over every pending appointment once, in some order.
pub open spec fn sweeps(pending: Set<Locator>, rest: Seq<Locator>, step: RunStep) -> bool {
    if rest.len() > 0 {
        step matches RunStep::AddAppointment(delivery) && delivery.target() == rest[0]
            && delivery.remaining() == rest.remove(0)
    } else if pending == Set::<Locator>::empty() {
        step == RunStep::Done(Ok(()))
    } else {
        step matches RunStep::AddAppointment(delivery) && pending.contains(delivery.target())
            && delivery.remaining().no_duplicates() && delivery.remaining().to_set()
            == pending.remove(delivery.target())
    }
}

/// Whether `step` is what an attempt begins with.
pub open spec fn begins(retrier: RetrierView, client: ClientView, step: RunStep) -> bool {
    match client.tower_status(retrier.tower_id) {
        None => step == RunStep::Done(Err(RetryError::marked(RetryError::Abandoned))),
        Some(TowerStatus::SubscriptionError) => step == RunStep::Register,
        Some(_) => sweeps(retrier.pending, Seq::empty(), step),
    }
}

/// Whether `step` is what follows the answer to a registration request, for
/// a client that was in the state `client` when the answer came.
pub open spec fn follows_registration(
    retrier: RetrierView,
    client: ClientView,
    response: RegisterResponse,
    step: RunStep,
) -> bool {
    match response {
        RegisterResponse::RequestError => subscription_failure(step, renewal_failed_text(), false),
        RegisterResponse::Receipt { receipt, verified } => {
            if !verified {
                subscription_failure(step, bad_signature_text(), true)
            } else {
                match client.registration_error(retrier.tower_id, receipt) {
                    Some(SubscriptionError::Expiry) => subscription_failure(
                        step,
                        expiry_text(),
                        true,
                    ),
                    Some(SubscriptionError::Slots) => subscription_failure(
                        step,
                        slots_text(),
                        true,
                    ),
                    None => sweeps(retrier.pending, Seq::empty(), step),
                }
            }
        },
    }
}

/// Whether `step` is what follows the tower's answer to a delivery of which
/// `rest` was still to come, for a retrier that has `pending` left.
pub open spec fn follows_delivery(
    pending: Set<Locator>,
    rest: Seq<Locator>,
    response: Result<u32, AddAppointmentError>,
    step: RunStep,
) -> bool {
    match response {
        Err(AddAppointmentError::RequestError { is_connection: true }) => step == RunStep::Done(
            Err(RetryError::marked(RetryError::Unreachable)),
        ),
        Err(AddAppointmentError::ApiError(ApiError::InvalidSignatureOrSubscription)) => {
            subscription_failure(step, subscription_error_text(), false)
        },
        Err(AddAppointmentError::SignatureError(proof)) => step == RunStep::Done(
            Err(RetryError::marked(RetryError::Misbehaving(proof))),
        ),
        _ => sweeps(pending, rest, step),
    }
}

/// The retrier of one tower.
#[derive(Debug)]
pub struct Retrier {
    tower_id: TowerId,
    pending_appointments: LocatorSet,
    status: RetrierStatus,
}

impl View for Retrier {
    type V = RetrierView;

    closed spec fn view(&self) -> RetrierView {
        RetrierView {
            tower_id: self.tower_id,
            pending: self.pending_appointments@,
            status: self.status,
        }
    }
}

impl Retrier {
    /// A stopped retrier for `tower_id` that has `locators` to deliver.
    pub fn new(tower_id: TowerId, locators: LocatorSet) -> (retrier: Retrier)
        ensures
            retrier@ == RetrierView::fresh(tower_id, locators@),
    {
        Retrier { tower_id, pending_appointments: locators, status: RetrierStatus::Stopped }
    }

    /// The tower that the retrier serves.
    pub fn tower_id(&self) -> (tower_id: TowerId)
        ensures
            tower_id == self@.tower_id,
    {
        self.tower_id
    }

    /// The status of the retrier.
    pub fn status(&self) -> (status: RetrierStatus)
        ensures
            status == self@.status,
    {
        self.status
    }

    /// The appointments that the retrier still has to deliver.
    pub fn pending_appointments(&self) -> (pending: &LocatorSet)
        ensures
            pending@ == self@.pending,
    {
        &self.pending_appointments
    }

    /// Whether anything is left to deliver.
    pub fn has_pending_appointments(&self) -> (r: bool)
        ensures
            r == (self@.pending != Set::<Locator>::empty()),
    {
        !self.pending_appointments.is_empty()
    }

    /// Adds `locators` to the appointments to deliver.
    pub fn add_pending_appointments(&mut self, locators: &LocatorSet)
        ensures
            final(self)@ == old(self)@.with_pending(old(self)@.pending.union(locators@)),
    {
        self.pending_appointments.extend(locators);
    }

    /// Takes the status `status` and keeps the client's list of active
    /// retriers in line with it.
    pub fn set_status(&mut self, client: &mut ClientState, status: RetrierStatus)
        ensures
            (final(self)@, final(client)@) == old(self)@.set_status(old(client)@, status),
    {
        self.status = status;
        if status.is_running() || status.is_idle() {
            client.insert_retrier(self.tower_id, status);
        } else if status.is_stopped() {
            client.remove_retrier(self.tower_id);
        }
    }

    /// Whether the retrier is stopped.
    pub fn is_stopped(&self) -> (r: bool)
        ensures
            r == (self@.status is Stopped),
    {
        self.status.is_stopped()
    }

    /// Whether the retrier is running.
    pub fn is_running(&self) -> (r: bool)
        ensures
            r == (self@.status is Running),
    {
        self.status.is_running()
    }

    /// Whether the retrier is idle.
    pub fn is_idle(&self) -> (r: bool)
        ensures
            r == (self@.status is Idle),
    {
        self.status.is_idle()
    }

    /// Whether the retrier has failed.
    pub fn failed(&self) -> (r: bool)
        ensures
            r == (self@.status is Failed),
    {
        self.status.failed()
    }

    /// Whole seconds spent idling so far, for an idle retrier; `None` for any
    /// other. The number comes from the clock.
    pub fn get_elapsed_time(&self) -> (r: Option<u64>)
        ensures
            r is Some <==> self@.status is Idle,
    {
        self.status.get_elapsed_time()
    }

    /// Whether the retrier is due to be started: stopped, with something to
    /// deliver.
    pub fn should_start(&self) -> (r: bool)
        ensures
            r == self@.should_start(),
    {
        self.is_stopped() && self.has_pending_appointments()
    }

    /// Starts a campaign: the tower counts as temporarily unreachable, unless
    /// its subscription has to be renewed first, and the retrier is running.
    ///
    /// The campaign itself is left to the caller, who gets its limits: to
    /// make attempts with [`Retrier::run`], pausing between them for no
    /// longer than `max_interval_time_secs`, until an attempt succeeds, an
    /// error is permanent or `max_elapsed_time_secs` have passed, and then
    /// to report the end with [`Retrier::finish`].
    pub fn start(
        &mut self,
        client: &mut ClientState,
        max_elapsed_time_secs: u16,
        max_interval_time_secs: u16,
    ) -> (campaign: Campaign)
        requires
            old(self)@.status is Stopped,
        ensures
            (final(self)@, final(client)@) == old(self)@.start(old(client)@),
            campaign == (Campaign {
                tower_id: old(self)@.tower_id,
                max_elapsed_time_secs,
                max_interval_time_secs,
            }),
    {
        let renew = match client.get_tower_status(self.tower_id) {
            Some(status) => status.is_subscription_error(),
            None => false,
        };
        if !renew {
            client.set_tower_status(self.tower_id, TowerStatus::TemporaryUnreachable);
        }
        self.set_status(client, RetrierStatus::Running);
        Campaign { tower_id: self.tower_id, max_elapsed_time_secs, max_interval_time_secs }
    }

    /// Wakes an idle retrier: it is stopped, hence due to be started, and
    /// holds again what the store has pending for its tower.
    pub fn wake(&mut self, client: &mut ClientState)
        ensures
            (final(self)@, final(client)@) == old(self)@.wake(old(client)@),
    {
        self.set_status(client, RetrierStatus::Stopped);
        let stored = client.load_appointment_locators(self.tower_id);
        self.pending_appointments.extend(&stored);
    }

    /// Wakes an idle retrier that has idled for `elapsed` seconds if that is
    /// more than `auto_retry_delay`. Returns whether it did.
    pub fn wake_if_due(&mut self, client: &mut ClientState, elapsed: u64, auto_retry_delay: u32) -> (woken:
        bool)
        ensures
            woken == (elapsed > auto_retry_delay),
            (final(self)@, final(client)@) == (if woken {
                old(self)@.wake(old(client)@)
            } else {
                (old(self)@, old(client)@)
            }),
    {
        if elapsed > auto_retry_delay as u64 {
            self.wake(client);
            true
        } else {
            false
        }
    }

    /// Goes on with the sweep of which `rest` is still to come.
    fn sweep(&self, rest: Vec<Locator>) -> (step: RunStep)
        requires
            rest@.no_duplicates(),
        ensures
            sweeps(self@.pending, rest@, step),
            step.proper(),
    {
        let mut queue = rest;
        if queue.len() == 0 {
            if !self.has_pending_appointments() {
                return RunStep::Done(Ok(()));
            }
            queue = self.pending_appointments.to_vec();
            proof {
                if queue@.len() == 0 {
                    assert(queue@.to_set() =~= Set::<Locator>::empty());
                }
            }
        }
        proof {
            lemma_remove_member(queue@, 0);
        }
        let locator = queue.remove(0);
        RunStep::AddAppointment(Delivery { locator, rest: queue })
    }

    /// Begins an attempt to serve the tower.
    ///
    /// For a tower that is no longer among the client's towers the attempt
    /// ends at once, for good. For a tower whose subscription has to be
    /// renewed the next step is to register. Otherwise the pending
    /// appointments are swept.
    pub fn run(&self, client: &ClientState) -> (step: RunStep)
        ensures
            begins(self@, client@, step),
            step.proper(),
    {
        match client.get_tower_status(self.tower_id) {
            None => RunStep::Done(Err(backoff::Error::permanent(RetryError::Abandoned))),
            Some(status) => {
                if status.is_subscription_error() {
                    RunStep::Register
                } else {
                    self.sweep(Vec::new())
                }
            },
        }
    }

    /// Goes on with an attempt after the answer to a registration request.
    ///
    /// A request that did not get through ends the attempt, to be retried. A
    /// receipt that the tower did not sign, or that does not improve on the
    /// current subscription, ends it for good. A receipt that passes is taken
    /// over by the client, and the pending appointments are swept.
    pub fn registered(&self, client: &mut ClientState, response: RegisterResponse) -> (step:
        RunStep)
        ensures
            final(client)@ == self@.register(old(client)@, response),
            follows_registration(self@, old(client)@, response, step),
            step.proper(),
    {
        match response {
            RegisterResponse::RequestError => RunStep::Done(
                Err(
                    backoff::Error::transient(
                        RetryError::Subscription(
                            "Cannot renew registration with tower".to_string(),
                            false,
                        ),
                    ),
                ),
            ),
            RegisterResponse::Receipt { receipt, verified } => {
                if !verified {
                    return RunStep::Done(
                        Err(
                            backoff::Error::permanent(
                                RetryError::Subscription(
                                    "Registration receipt contains bad signature. Are you using the right tower_id?".to_string(),
                                    true,
                                ),
                            ),
                        ),
                    );
                }
                match client.add_update_tower(self.tower_id, receipt) {
                    Ok(()) => self.sweep(Vec::new()),
                    Err(e) => {
                        let reason = if e.is_expiry() {
                            "Registration receipt contains a subscription expiry that is not higher than the one we are currently registered for"
                        } else {
                            "Registration receipt does not contain more slots than the ones we are currently registered for"
                        };
                        RunStep::Done(
                            Err(
                                backoff::Error::permanent(
                                    RetryError::Subscription(reason.to_string(), true),
                                ),
                            ),
                        )
                    },
                }
            },
        }
    }

    /// Goes on with an attempt after the tower's answer to `delivery`.
    ///
    /// An accepted appointment is no longer pending, and its receipt is
    /// kept. A rejected one is no longer pending either, but invalid: it is
    /// recorded as invalid first and struck from the pending ones after. In
    /// both cases, and after a request that failed though the tower could be
    /// connected to, the sweep goes on. The attempt ends, to be retried, when
    /// the tower cannot be connected to or wants a valid subscription, which
    /// is then noted as the tower's status. It ends for good when the
    /// receipt shows that the tower misbehaves.
    pub fn delivered(
        &mut self,
        client: &mut ClientState,
        delivery: Delivery,
        response: Result<u32, AddAppointmentError>,
    ) -> (step: RunStep)
        ensures
            (final(self)@, final(client)@) == old(self)@.deliver(
                old(client)@,
                delivery.target(),
                response,
            ),
            follows_delivery(final(self)@.pending, delivery.remaining(), response, step),
            step.proper(),
    {
        proof {
            use_type_invariant(&delivery);
        }
        let Delivery { locator, rest } = delivery;
        match response {
            Ok(available_slots) => {
                self.pending_appointments.remove(locator);
                client.add_appointment_receipt(self.tower_id, locator, available_slots);
                client.remove_pending_appointment(self.tower_id, locator);
                self.sweep(rest)
            },
            Err(AddAppointmentError::RequestError { is_connection }) => {
                if is_connection {
                    RunStep::Done(Err(backoff::Error::transient(RetryError::Unreachable)))
                } else {
                    self.sweep(rest)
                }
            },
            Err(AddAppointmentError::ApiError(ApiError::InvalidSignatureOrSubscription)) => {
                client.set_tower_status(self.tower_id, TowerStatus::SubscriptionError);
                RunStep::Done(
                    Err(
                        backoff::Error::transient(
                            RetryError::Subscription("Subscription error".to_string(), false),
                        ),
                    ),
                )
            },
            Err(AddAppointmentError::ApiError(ApiError::Rejected { .. })) => {
                self.pending_appointments.remove(locator);
                client.add_invalid_appointment(self.tower_id, locator);
                client.remove_pending_appointment(self.tower_id, locator);
                self.sweep(rest)
            },
            Err(AddAppointmentError::SignatureError(proof)) => RunStep::Done(
                Err(backoff::Error::permanent(RetryError::Misbehaving(proof))),
            ),
        }
    }

    /// Ends a campaign with `outcome`, at the time `now`.
    pub fn finish_at(
        &mut self,
        client: &mut ClientState,
        outcome: Result<(), RetryError>,
        now: Instant,
    )
        ensures
            (final(self)@, final(client)@) == old(self)@.finish(old(client)@, outcome, now),
    {
        match outcome {
            Ok(_) => {
                client.set_tower_status(self.tower_id, TowerStatus::Reachable);
                self.set_status(client, RetrierStatus::Stopped);
            },
            Err(error) => {
                if error.is_permanent() {
                    self.set_status(client, RetrierStatus::Failed);
                }
                match error {
                    RetryError::Subscription(_, true) => {
                        client.set_tower_status(self.tower_id, TowerStatus::SubscriptionError);
                    },
                    RetryError::Misbehaving(proof) => {
                        client.flag_misbehaving_tower(self.tower_id, proof);
                    },
                    RetryError::Abandoned => {},
                    _ => {
                        self.set_status(client, RetrierStatus::Idle(now));
                        self.pending_appointments.clear();
                        client.set_tower_status(self.tower_id, TowerStatus::Unreachable);
                    },
                }
            },
        }
    }

    /// Ends a campaign with `outcome`, now: see [`RetrierView::finish`]. The
    /// time since which the retrier idles, if it does, is read off the clock.
    pub fn finish(&mut self, client: &mut ClientState, outcome: Result<(), RetryError>)
        ensures
            exists|now: Instant|
                (final(self)@, final(client)@) == #[trigger] old(self)@.finish(
                    old(client)@,
                    outcome,
                    now,
                ),
    {
        let now = Instant::now();
        self.finish_at(client, outcome, now);
    }

    /// Strikes the retrier from the client's list of active retriers if it
    /// has failed.
    pub fn remove_if_failed(&self, client: &mut ClientState)
        ensures
            final(client)@ == (if self@.status is Failed {
                old(client)@.remove_retrier(self@.tower_id)
            } else {
                old(client)@
            }),
    {
        if self.failed() {
            client.remove_retrier(self.tower_id);
        }
    }
}

} // verus!
