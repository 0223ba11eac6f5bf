use std::time::{Duration, Instant};
use watchtower_retry::{
    AddAppointmentError, ApiError, Campaign, ClientState, Locator, LocatorSet, ManagerStep,
    MisbehaviorProof, Received, RegisterResponse, RegistrationReceipt, RetrierStatus,
    RetryError, RetryManager, RevocationData, RunStep, StoreOp, TowerId, TowerMap, TowerStatus,
};

const LONG_AUTO_RETRY_DELAY: u32 = 60;
const SHORT_AUTO_RETRY_DELAY: u32 = 3;
const MAX_ELAPSED_TIME: u16 = 2;
const MAX_INTERVAL_TIME: u16 = 1;

fn tower_id() -> TowerId {
    TowerId::new(2, 0x0123, 0x4567)
}

fn other_tower_id() -> TowerId {
    TowerId::new(3, 0x0123, 0x4567)
}

fn receipt() -> RegistrationReceipt {
    RegistrationReceipt { available_slots: 21, subscription_start: 42, subscription_expiry: 420 }
}

fn evidence(locator: Locator) -> MisbehaviorProof {
    MisbehaviorProof { locator, recovered_id: TowerId::new(3, 9, 9) }
}

/// A client registered with `tower`, with `pending` stored as pending.
fn add_tower(client: &mut ClientState, tower: TowerId, pending: &[Locator]) {
    client.add_update_tower(tower, receipt()).unwrap();
    for locator in pending {
        client.add_pending_appointment(tower, *locator);
    }
    client.take_store_ops();
}

/// What the tower answers, and how often it was asked.
struct Tower {
    register: RegisterResponse,
    add_appointment: Result<u32, AddAppointmentError>,
    register_hits: u32,
    add_appointment_hits: u32,
}

fn tower_answering(add_appointment: Result<u32, AddAppointmentError>) -> Tower {
    Tower {
        register: RegisterResponse::RequestError,
        add_appointment,
        register_hits: 0,
        add_appointment_hits: 0,
    }
}

fn unreachable_tower() -> Tower {
    tower_answering(Err(AddAppointmentError::RequestError { is_connection: true }))
}

/// Runs one attempt of the campaign for `tower_id` to its end.
fn attempt(
    manager: &mut RetryManager,
    client: &mut ClientState,
    tower_id: TowerId,
    tower: &mut Tower,
) -> Result<(), backoff::Error<RetryError>> {
    let mut step = manager.run(client, tower_id).unwrap();
    loop {
        step = match step {
            RunStep::Register => {
                tower.register_hits += 1;
                manager.registered(client, tower_id, tower.register).unwrap()
            }
            RunStep::AddAppointment(delivery) => {
                tower.add_appointment_hits += 1;
                manager.delivered(client, tower_id, delivery, tower.add_appointment).unwrap()
            }
            RunStep::Done(result) => return result,
        };
    }
}

/// Runs the campaign for `tower_id`: up to `attempts` attempts, as long as
/// the errors are worth a retry, and then the end of the campaign.
fn campaign(
    manager: &mut RetryManager,
    client: &mut ClientState,
    tower_id: TowerId,
    tower: &mut Tower,
    attempts: u32,
) {
    let mut left = attempts;
    let outcome = loop {
        left -= 1;
        match attempt(manager, client, tower_id, tower) {
            Ok(()) => break Ok(()),
            Err(backoff::Error::Permanent(error)) => break Err(error),
            Err(backoff::Error::Transient { err, .. }) => {
                if left == 0 {
                    break Err(err);
                }
            }
        }
    };
    assert!(manager.finish(client, tower_id, outcome));
}

fn started(step: ManagerStep) -> Vec<TowerId> {
    match step {
        ManagerStep::Tick { started } => started.iter().map(|campaign| campaign.tower_id).collect(),
        _ => panic!("a pass was due"),
    }
}

fn send(manager: &mut RetryManager, client: &mut ClientState, tower: TowerId, data: RevocationData) {
    let step = manager.manage_retry(client, Received::Message(tower, data));
    assert!(matches!(step, ManagerStep::Receive));
}

fn tick(manager: &mut RetryManager, client: &mut ClientState) -> Vec<TowerId> {
    started(manager.manage_retry(client, Received::Empty))
}

fn wait(duration: Duration) {
    let start = Instant::now();
    while start.elapsed() < duration {
        std::hint::spin_loop();
    }
}

#[test]
fn test_manage_retry_reachable() {
    let locator = Locator(1);
    let mut client = ClientState::new();
    add_tower(&mut client, tower_id(), &[locator]);
    let mut manager = RetryManager::new(MAX_ELAPSED_TIME, LONG_AUTO_RETRY_DELAY, MAX_INTERVAL_TIME);
    let mut tower = tower_answering(Ok(42));

    send(&mut manager, &mut client, tower_id(), RevocationData::Fresh(locator));
    assert_eq!(tick(&mut manager, &mut client), vec![tower_id()]);
    assert!(client.get_retrier_status(tower_id()).unwrap().is_running());

    campaign(&mut manager, &mut client, tower_id(), &mut tower, 3);

    assert_eq!(client.get_tower_status(tower_id()), Some(TowerStatus::Reachable));
    assert!(client.get_retrier_status(tower_id()).is_none());
    assert!(!client.tower(tower_id()).unwrap().pending_appointments.contains(locator));
    assert_eq!(tower.add_appointment_hits, 1);

    // The retrier has nothing left to do and is dropped by the next pass.
    assert!(tick(&mut manager, &mut client).is_empty());
    assert!(manager.retrier(tower_id()).is_none());
}

#[test]
fn test_manage_retry_unreachable() {
    let locator = Locator(1);
    let mut client = ClientState::new();
    add_tower(&mut client, tower_id(), &[locator]);
    let mut manager =
        RetryManager::new(MAX_ELAPSED_TIME + 1, SHORT_AUTO_RETRY_DELAY, MAX_INTERVAL_TIME);
    let mut tower = unreachable_tower();

    send(&mut manager, &mut client, tower_id(), RevocationData::Fresh(locator));
    assert_eq!(tick(&mut manager, &mut client), vec![tower_id()]);
    assert!(client.get_tower_status(tower_id()).unwrap().is_temporary_unreachable());
    assert!(client.get_retrier_status(tower_id()).unwrap().is_running());

    // The campaign gives up on passing errors: the retrier idles.
    campaign(&mut manager, &mut client, tower_id(), &mut tower, 3);
    assert_eq!(tower.add_appointment_hits, 3);
    assert!(client.get_tower_status(tower_id()).unwrap().is_unreachable());
    assert!(client.get_retrier_status(tower_id()).unwrap().is_idle());
    assert!(manager.retrier(tower_id()).unwrap().pending_appointments().is_empty());

    // Before the delay is over nothing happens.
    assert!(tick(&mut manager, &mut client).is_empty());
    assert!(client.get_retrier_status(tower_id()).unwrap().is_idle());

    // The tower comes back; once the delay is over the retrier is woken by
    // one pass and started by the next.
    let mut tower = tower_answering(Ok(42));
    wait(Duration::from_millis(1000 * (SHORT_AUTO_RETRY_DELAY as u64 + 1) + 100));
    assert!(tick(&mut manager, &mut client).is_empty());
    assert!(manager.retrier(tower_id()).unwrap().is_stopped());
    assert!(manager.retrier(tower_id()).unwrap().pending_appointments().contains(locator));
    assert!(client.get_retrier_status(tower_id()).is_none());
    assert_eq!(tick(&mut manager, &mut client), vec![tower_id()]);
    campaign(&mut manager, &mut client, tower_id(), &mut tower, 3);

    assert_eq!(client.get_tower_status(tower_id()), Some(TowerStatus::Reachable));
    assert!(!client.tower(tower_id()).unwrap().pending_appointments.contains(locator));
    assert!(client.get_retrier_status(tower_id()).is_none());
    assert_eq!(tower.add_appointment_hits, 1);
}

#[test]
fn test_manage_retry_rejected() {
    let locator = Locator(1);
    let mut client = ClientState::new();
    add_tower(&mut client, tower_id(), &[locator]);
    let mut manager = RetryManager::new(MAX_ELAPSED_TIME, LONG_AUTO_RETRY_DELAY, MAX_INTERVAL_TIME);
    let mut tower =
        tower_answering(Err(AddAppointmentError::ApiError(ApiError::Rejected { error_code: 1 })));

    send(&mut manager, &mut client, tower_id(), RevocationData::Fresh(locator));
    assert_eq!(tick(&mut manager, &mut client), vec![tower_id()]);
    assert!(client.get_retrier_status(tower_id()).unwrap().is_running());

    campaign(&mut manager, &mut client, tower_id(), &mut tower, 3);

    assert_eq!(client.get_tower_status(tower_id()), Some(TowerStatus::Reachable));
    assert!(client.get_retrier_status(tower_id()).is_none());
    assert!(!client.tower(tower_id()).unwrap().pending_appointments.contains(locator));
    assert!(client.tower(tower_id()).unwrap().invalid_appointments.contains(locator));
    assert_eq!(tower.add_appointment_hits, 1);
}

#[test]
fn test_manage_retry_misbehaving() {
    let locator = Locator(1);
    let mut client = ClientState::new();
    add_tower(&mut client, tower_id(), &[locator]);
    let mut manager = RetryManager::new(MAX_ELAPSED_TIME, LONG_AUTO_RETRY_DELAY, MAX_INTERVAL_TIME);
    let mut tower = tower_answering(Err(AddAppointmentError::SignatureError(evidence(locator))));

    send(&mut manager, &mut client, tower_id(), RevocationData::Fresh(locator));
    assert_eq!(tick(&mut manager, &mut client), vec![tower_id()]);
    assert!(client.get_retrier_status(tower_id()).unwrap().is_running());

    campaign(&mut manager, &mut client, tower_id(), &mut tower, 3);
    assert!(client.get_tower_status(tower_id()).unwrap().is_misbehaving());
    assert!(manager.retrier(tower_id()).unwrap().failed());
    assert_eq!(tower.add_appointment_hits, 1);

    // The next pass drops the failed retrier and strikes it from the list.
    assert!(tick(&mut manager, &mut client).is_empty());
    assert!(client.get_tower_status(tower_id()).unwrap().is_misbehaving());
    assert!(client.get_retrier_status(tower_id()).is_none());
    assert!(manager.retrier(tower_id()).is_none());
}

#[test]
fn test_manage_retry_abandoned() {
    let mut client = ClientState::new();
    add_tower(&mut client, tower_id(), &[]);
    assert!(client.remove_tower(tower_id()));
    client.take_store_ops();
    let mut manager = RetryManager::new(MAX_ELAPSED_TIME, LONG_AUTO_RETRY_DELAY, MAX_INTERVAL_TIME);

    send(&mut manager, &mut client, tower_id(), RevocationData::WakeUp);
    assert!(tick(&mut manager, &mut client).is_empty());

    assert!(!client.contains_tower(tower_id()));
    assert!(manager.retrier(tower_id()).is_none());
    assert!(client.get_retrier_status(tower_id()).is_none());
    assert!(client.take_store_ops().is_empty());
}

#[test]
fn test_manage_retry_subscription_error() {
    let locator = Locator(1);
    let mut client = ClientState::new();
    add_tower(&mut client, tower_id(), &[locator]);
    client.set_tower_status(tower_id(), TowerStatus::SubscriptionError);
    let mut manager = RetryManager::new(MAX_ELAPSED_TIME, LONG_AUTO_RETRY_DELAY, MAX_INTERVAL_TIME);
    let mut tower = tower_answering(Ok(42));
    tower.register = RegisterResponse::Receipt {
        receipt: RegistrationReceipt {
            available_slots: 43,
            subscription_start: 42,
            subscription_expiry: 421,
        },
        verified: true,
    };

    send(&mut manager, &mut client, tower_id(), RevocationData::Fresh(locator));
    assert_eq!(tick(&mut manager, &mut client), vec![tower_id()]);
    assert!(client.get_retrier_status(tower_id()).unwrap().is_running());
    // The subscription has to be renewed first: the status stays.
    assert!(client.get_tower_status(tower_id()).unwrap().is_subscription_error());

    campaign(&mut manager, &mut client, tower_id(), &mut tower, 3);

    assert!(client.get_retrier_status(tower_id()).is_none());
    let record = client.tower(tower_id()).unwrap();
    assert!(record.status.is_reachable());
    assert!(record.pending_appointments.is_empty());
    assert_eq!(tower.register_hits, 1);
    assert_eq!(tower.add_appointment_hits, 1);
}

#[test]
fn test_manage_retry_while_idle() {
    let appointment = Locator(1);
    let mut client = ClientState::new();
    add_tower(&mut client, tower_id(), &[appointment]);
    let mut manager = RetryManager::new(MAX_ELAPSED_TIME, LONG_AUTO_RETRY_DELAY, MAX_INTERVAL_TIME);
    let mut tower = unreachable_tower();

    // Stale data, as found in the store when the client starts.
    send(
        &mut manager,
        &mut client,
        tower_id(),
        RevocationData::Stale(LocatorSet::singleton(appointment)),
    );
    assert_eq!(tick(&mut manager, &mut client), vec![tower_id()]);
    campaign(&mut manager, &mut client, tower_id(), &mut tower, 3);
    assert!(client.get_retrier_status(tower_id()).unwrap().is_idle());
    assert!(client.tower(tower_id()).unwrap().pending_appointments.contains(appointment));
    assert_eq!(client.get_tower_status(tower_id()), Some(TowerStatus::Unreachable));

    // Fresh data for an idle retrier is stored, but starts nothing.
    let new_appointment = Locator(2);
    client.add_pending_appointment(tower_id(), new_appointment);
    send(&mut manager, &mut client, tower_id(), RevocationData::Fresh(new_appointment));
    assert!(tick(&mut manager, &mut client).is_empty());
    assert!(client.get_retrier_status(tower_id()).unwrap().is_idle());
    assert_eq!(client.get_tower_status(tower_id()), Some(TowerStatus::Unreachable));
    assert!(manager.retrier(tower_id()).unwrap().pending_appointments().is_empty());
    assert_eq!(client.tower(tower_id()).unwrap().pending_appointments.len(), 2);

    // Stale data is ignored in the same way.
    send(
        &mut manager,
        &mut client,
        tower_id(),
        RevocationData::Stale(LocatorSet::singleton(new_appointment)),
    );
    assert!(manager.retrier(tower_id()).unwrap().is_idle());

    // A wake-up call makes the retrier pick up all that the store holds.
    let mut tower = tower_answering(Ok(42));
    send(&mut manager, &mut client, tower_id(), RevocationData::WakeUp);
    assert!(manager.retrier(tower_id()).unwrap().is_stopped());
    assert_eq!(
        manager.retrier(tower_id()).unwrap().pending_appointments().to_vec(),
        vec![appointment, new_appointment]
    );
    assert_eq!(tick(&mut manager, &mut client), vec![tower_id()]);
    campaign(&mut manager, &mut client, tower_id(), &mut tower, 3);

    assert_eq!(tower.add_appointment_hits, 2);
    assert!(client.get_retrier_status(tower_id()).is_none());
    assert!(client.tower(tower_id()).unwrap().pending_appointments.is_empty());
    assert_eq!(client.get_tower_status(tower_id()), Some(TowerStatus::Reachable));
}

#[test]
fn campaigns_run_within_the_limits_of_the_manager() {
    let mut client = ClientState::new();
    add_tower(&mut client, tower_id(), &[Locator(1)]);
    add_tower(&mut client, other_tower_id(), &[Locator(2)]);
    let mut manager = RetryManager::new(7, 60, 5);
    send(&mut manager, &mut client, tower_id(), RevocationData::Fresh(Locator(1)));
    send(&mut manager, &mut client, other_tower_id(), RevocationData::Fresh(Locator(2)));
    match manager.manage_retry(&mut client, Received::Empty) {
        ManagerStep::Tick { started } => assert_eq!(
            started,
            vec![
                Campaign {
                    tower_id: tower_id(),
                    max_elapsed_time_secs: 7,
                    max_interval_time_secs: 5
                },
                Campaign {
                    tower_id: other_tower_id(),
                    max_elapsed_time_secs: 7,
                    max_interval_time_secs: 5
                },
            ]
        ),
        _ => panic!("a pass was due"),
    }
}

#[test]
fn the_manager_rests_for_a_second() {
    assert_eq!(watchtower_retry::TICK_SECS, 1);
}

#[test]
fn a_new_manager_keeps_its_settings() {
    let manager = RetryManager::new(2, 60, 1);
    assert_eq!(manager.max_elapsed_time_secs(), 2);
    assert_eq!(manager.auto_retry_delay(), 60);
    assert_eq!(manager.max_interval_time_secs(), 1);
    assert!(manager.retrier(tower_id()).is_none());
}

#[test]
fn a_closed_channel_ends_the_supervision() {
    let mut client = ClientState::new();
    add_tower(&mut client, tower_id(), &[Locator(1)]);
    let mut manager = RetryManager::new(2, 60, 1);
    send(&mut manager, &mut client, tower_id(), RevocationData::Fresh(Locator(1)));
    assert!(matches!(manager.manage_retry(&mut client, Received::Disconnected), ManagerStep::Exit));
    assert!(manager.retrier(tower_id()).unwrap().is_stopped());
    assert!(client.get_retrier_status(tower_id()).is_none());
}

#[test]
fn data_for_a_tower_without_retrier_makes_a_stopped_one() {
    let mut client = ClientState::new();
    add_tower(&mut client, tower_id(), &[Locator(1), Locator(2)]);
    let mut manager = RetryManager::new(2, 60, 1);
    send(
        &mut manager,
        &mut client,
        tower_id(),
        RevocationData::Stale(LocatorSet::from_vec(vec![Locator(1), Locator(2)])),
    );
    let retrier = manager.retrier(tower_id()).unwrap();
    assert!(retrier.is_stopped());
    assert_eq!(retrier.tower_id(), tower_id());
    assert_eq!(retrier.pending_appointments().to_vec(), vec![Locator(1), Locator(2)]);
    // Nothing is listed, and no tower changes, until the retrier is started.
    assert!(client.get_retrier_status(tower_id()).is_none());
    assert_eq!(client.get_tower_status(tower_id()), Some(TowerStatus::Reachable));
}

#[test]
fn fresh_data_sent_twice_is_queued_once_and_delivered_once() {
    let locator = Locator(1);
    let mut client = ClientState::new();
    add_tower(&mut client, tower_id(), &[locator]);
    let mut manager = RetryManager::new(2, 60, 1);
    let mut tower = tower_answering(Ok(42));
    send(&mut manager, &mut client, tower_id(), RevocationData::Fresh(Locator(9)));
    assert_eq!(tick(&mut manager, &mut client), vec![tower_id()]);
    assert!(manager.retrier(tower_id()).unwrap().is_running());

    send(&mut manager, &mut client, tower_id(), RevocationData::Fresh(locator));
    let once = manager.retrier(tower_id()).unwrap().pending_appointments().to_vec();
    send(&mut manager, &mut client, tower_id(), RevocationData::Fresh(locator));
    let twice = manager.retrier(tower_id()).unwrap().pending_appointments().to_vec();
    assert_eq!(once, vec![Locator(9), locator]);
    assert_eq!(twice, once);

    campaign(&mut manager, &mut client, tower_id(), &mut tower, 3);
    assert_eq!(tower.add_appointment_hits, 2);
    assert!(manager.retrier(tower_id()).unwrap().pending_appointments().is_empty());
}

#[test]
fn a_wake_up_call_for_a_running_retrier_changes_nothing() {
    let locator = Locator(1);
    let mut client = ClientState::new();
    add_tower(&mut client, tower_id(), &[locator, Locator(2)]);
    let mut manager = RetryManager::new(2, 60, 1);
    send(&mut manager, &mut client, tower_id(), RevocationData::Fresh(locator));
    assert_eq!(tick(&mut manager, &mut client), vec![tower_id()]);

    send(&mut manager, &mut client, tower_id(), RevocationData::WakeUp);

    let retrier = manager.retrier(tower_id()).unwrap();
    assert!(retrier.is_running());
    assert_eq!(retrier.pending_appointments().to_vec(), vec![locator]);
    assert_eq!(client.get_retrier_status(tower_id()), Some(RetrierStatus::Running));
    assert_eq!(client.get_tower_status(tower_id()), Some(TowerStatus::TemporaryUnreachable));
    assert!(client.take_store_ops().is_empty());
}

#[test]
fn fresh_data_for_an_abandoned_tower_is_ignored() {
    let mut client = ClientState::new();
    add_tower(&mut client, other_tower_id(), &[]);
    let mut manager = RetryManager::new(2, 60, 1);
    send(&mut manager, &mut client, tower_id(), RevocationData::Fresh(Locator(1)));
    assert!(manager.retrier(tower_id()).is_none());
    assert!(tick(&mut manager, &mut client).is_empty());
    assert!(!client.contains_tower(tower_id()));
    assert_eq!(client.get_tower_status(other_tower_id()), Some(TowerStatus::Reachable));
    assert!(client.take_store_ops().is_empty());
}

#[test]
fn a_pass_starts_a_running_retrier_no_second_time() {
    let mut client = ClientState::new();
    add_tower(&mut client, tower_id(), &[Locator(1)]);
    add_tower(&mut client, other_tower_id(), &[Locator(2)]);
    let mut manager = RetryManager::new(2, 60, 1);
    send(&mut manager, &mut client, tower_id(), RevocationData::Fresh(Locator(1)));
    assert_eq!(tick(&mut manager, &mut client), vec![tower_id()]);
    send(&mut manager, &mut client, other_tower_id(), RevocationData::Fresh(Locator(2)));
    send(&mut manager, &mut client, tower_id(), RevocationData::Fresh(Locator(3)));
    assert_eq!(tick(&mut manager, &mut client), vec![other_tower_id()]);
    assert!(tick(&mut manager, &mut client).is_empty());
    assert!(manager.retrier(tower_id()).unwrap().is_running());
    assert!(manager.retrier(other_tower_id()).unwrap().is_running());
}

#[test]
fn towers_are_served_apart() {
    let mut client = ClientState::new();
    add_tower(&mut client, tower_id(), &[Locator(1)]);
    add_tower(&mut client, other_tower_id(), &[Locator(2)]);
    let mut manager = RetryManager::new(2, 60, 1);
    send(&mut manager, &mut client, tower_id(), RevocationData::Fresh(Locator(1)));
    send(&mut manager, &mut client, other_tower_id(), RevocationData::Fresh(Locator(2)));
    assert_eq!(tick(&mut manager, &mut client), vec![tower_id(), other_tower_id()]);

    campaign(&mut manager, &mut client, tower_id(), &mut tower_answering(Ok(3)), 3);
    campaign(&mut manager, &mut client, other_tower_id(), &mut unreachable_tower(), 2);

    assert_eq!(client.get_tower_status(tower_id()), Some(TowerStatus::Reachable));
    assert_eq!(client.get_tower_status(other_tower_id()), Some(TowerStatus::Unreachable));
    assert!(client.get_retrier_status(tower_id()).is_none());
    assert!(client.get_retrier_status(other_tower_id()).unwrap().is_idle());
    assert!(client.tower(other_tower_id()).unwrap().pending_appointments.contains(Locator(2)));
    assert!(tick(&mut manager, &mut client).is_empty());
    assert!(manager.retrier(tower_id()).is_none());
    assert!(manager.retrier(other_tower_id()).unwrap().is_idle());
}

#[test]
fn a_failed_retrier_takes_data_but_is_dropped_by_the_next_pass() {
    let mut client = ClientState::new();
    add_tower(&mut client, tower_id(), &[Locator(1), Locator(2)]);
    let mut manager = RetryManager::new(2, 60, 1);
    send(&mut manager, &mut client, tower_id(), RevocationData::Fresh(Locator(1)));
    assert_eq!(tick(&mut manager, &mut client), vec![tower_id()]);
    assert!(manager.finish(
        &mut client,
        tower_id(),
        Err(RetryError::Subscription("final".to_string(), true))
    ));
    assert_eq!(client.get_tower_status(tower_id()), Some(TowerStatus::SubscriptionError));
    assert_eq!(client.get_retrier_status(tower_id()), Some(RetrierStatus::Running));

    send(&mut manager, &mut client, tower_id(), RevocationData::Fresh(Locator(2)));
    assert!(manager.retrier(tower_id()).unwrap().failed());
    assert!(manager.retrier(tower_id()).unwrap().pending_appointments().contains(Locator(2)));

    assert!(tick(&mut manager, &mut client).is_empty());
    assert!(manager.retrier(tower_id()).is_none());
    assert!(client.get_retrier_status(tower_id()).is_none());
    assert_eq!(client.get_tower_status(tower_id()), Some(TowerStatus::SubscriptionError));
}

#[test]
fn a_tower_abandoned_during_the_campaign_fails_the_retrier() {
    let mut client = ClientState::new();
    add_tower(&mut client, tower_id(), &[Locator(1)]);
    let mut manager = RetryManager::new(2, 60, 1);
    send(&mut manager, &mut client, tower_id(), RevocationData::Fresh(Locator(1)));
    assert_eq!(tick(&mut manager, &mut client), vec![tower_id()]);
    client.remove_tower(tower_id());
    let mut tower = tower_answering(Ok(1));
    campaign(&mut manager, &mut client, tower_id(), &mut tower, 3);
    assert_eq!(tower.add_appointment_hits, 0);
    assert!(manager.retrier(tower_id()).unwrap().failed());
    assert!(tick(&mut manager, &mut client).is_empty());
    assert!(manager.retrier(tower_id()).is_none());
    assert!(client.get_retrier_status(tower_id()).is_none());
    assert!(!client.contains_tower(tower_id()));
}

#[test]
fn campaign_steps_for_a_tower_without_retrier_do_nothing() {
    let mut client = ClientState::new();
    add_tower(&mut client, tower_id(), &[Locator(1)]);
    let mut manager = RetryManager::new(2, 60, 1);
    assert!(manager.run(&client, tower_id()).is_none());
    assert!(manager.registered(&mut client, tower_id(), RegisterResponse::RequestError).is_none());
    assert!(!manager.finish(&mut client, tower_id(), Ok(())));
    assert_eq!(client.get_tower_status(tower_id()), Some(TowerStatus::Reachable));

    // A delivery that was asked for by a retrier that is gone since.
    send(&mut manager, &mut client, other_tower_id(), RevocationData::WakeUp);
    add_tower(&mut client, other_tower_id(), &[Locator(5)]);
    send(&mut manager, &mut client, other_tower_id(), RevocationData::Fresh(Locator(5)));
    let delivery = match manager.run(&client, other_tower_id()) {
        Some(RunStep::AddAppointment(delivery)) => delivery,
        _ => panic!("a delivery was due"),
    };
    assert!(manager.delivered(&mut client, tower_id(), delivery, Ok(1)).is_none());
    assert!(client.tower(other_tower_id()).unwrap().pending_appointments.contains(Locator(5)));
    assert!(client.take_store_ops().is_empty());
}

#[test]
fn the_store_is_told_what_a_campaign_did() {
    let mut client = ClientState::new();
    add_tower(&mut client, tower_id(), &[Locator(1)]);
    let mut manager = RetryManager::new(2, 60, 1);
    send(&mut manager, &mut client, tower_id(), RevocationData::Fresh(Locator(1)));
    tick(&mut manager, &mut client);
    campaign(&mut manager, &mut client, tower_id(), &mut tower_answering(Ok(20)), 1);
    assert_eq!(
        client.take_store_ops(),
        vec![
            StoreOp::AddAppointmentReceipt {
                tower_id: tower_id(),
                locator: Locator(1),
                available_slots: 20
            },
            StoreOp::RemovePendingAppointment { tower_id: tower_id(), locator: Locator(1) },
        ]
    );
}

/// A manager whose retrier for the tower idles, with `Locator(1)` in the store.
fn idle_manager(client: &mut ClientState, auto_retry_delay: u32) -> RetryManager {
    add_tower(client, tower_id(), &[Locator(1)]);
    let mut manager = RetryManager::new(2, auto_retry_delay, 1);
    send(&mut manager, client, tower_id(), RevocationData::Fresh(Locator(1)));
    assert_eq!(tick(&mut manager, client), vec![tower_id()]);
    campaign(&mut manager, client, tower_id(), &mut unreachable_tower(), 2);
    assert!(manager.retrier(tower_id()).unwrap().is_idle());
    manager
}

fn idle_for(secs: u64) -> TowerMap<u64> {
    let mut idle_times = TowerMap::new();
    idle_times.insert(tower_id(), secs);
    idle_times
}

#[test]
fn a_pass_wakes_an_idle_retrier_strictly_after_the_delay() {
    let mut client = ClientState::new();
    let mut manager = idle_manager(&mut client, 3);
    for secs in [0, 1, 3] {
        let step = manager.supervise(&mut client, Received::Empty, &idle_for(secs));
        assert!(matches!(step, ManagerStep::Tick { started } if started.is_empty()));
        let retrier = manager.retrier(tower_id()).unwrap();
        assert!(retrier.is_idle());
        assert!(retrier.pending_appointments().is_empty());
        assert!(client.get_retrier_status(tower_id()).unwrap().is_idle());
        assert_eq!(client.get_tower_status(tower_id()), Some(TowerStatus::Unreachable));
    }
    let step = manager.supervise(&mut client, Received::Empty, &idle_for(4));
    // The retrier is woken by this pass and started by the next.
    assert!(matches!(step, ManagerStep::Tick { started } if started.is_empty()));
    let retrier = manager.retrier(tower_id()).unwrap();
    assert!(retrier.is_stopped());
    assert_eq!(retrier.pending_appointments().to_vec(), vec![Locator(1)]);
    assert!(client.get_retrier_status(tower_id()).is_none());
    assert_eq!(client.get_tower_status(tower_id()), Some(TowerStatus::Unreachable));
    let step = manager.supervise(&mut client, Received::Empty, &TowerMap::new());
    assert!(matches!(step, ManagerStep::Tick { started } if started.len() == 1));
    assert!(manager.retrier(tower_id()).unwrap().is_running());
    assert_eq!(client.get_tower_status(tower_id()), Some(TowerStatus::TemporaryUnreachable));
}

#[test]
fn an_idle_retrier_without_an_idle_time_stays_idle() {
    let mut client = ClientState::new();
    let mut manager = idle_manager(&mut client, 0);
    let mut idle_times = TowerMap::new();
    idle_times.insert(other_tower_id(), 1000);
    manager.supervise(&mut client, Received::Empty, &idle_times);
    assert!(manager.retrier(tower_id()).unwrap().is_idle());
    manager.supervise(&mut client, Received::Empty, &idle_for(1));
    assert!(manager.retrier(tower_id()).unwrap().is_stopped());
}

#[test]
fn idle_times_do_not_matter_to_retriers_that_are_not_idle() {
    let mut client = ClientState::new();
    add_tower(&mut client, tower_id(), &[Locator(1)]);
    let mut manager = RetryManager::new(2, 0, 1);
    send(&mut manager, &mut client, tower_id(), RevocationData::Fresh(Locator(1)));
    let step = manager.supervise(&mut client, Received::Empty, &idle_for(100));
    assert!(matches!(step, ManagerStep::Tick { started } if started.len() == 1));
    let step = manager.supervise(&mut client, Received::Empty, &idle_for(100));
    assert!(matches!(step, ManagerStep::Tick { started } if started.is_empty()));
    let retrier = manager.retrier(tower_id()).unwrap();
    assert!(retrier.is_running());
    assert_eq!(retrier.pending_appointments().to_vec(), vec![Locator(1)]);
}

#[test]
fn idle_times_are_read_for_idle_retriers_only() {
    let mut client = ClientState::new();
    let mut manager = idle_manager(&mut client, 60);
    add_tower(&mut client, other_tower_id(), &[Locator(2)]);
    send(&mut manager, &mut client, other_tower_id(), RevocationData::Fresh(Locator(2)));
    let idle_times = manager.idle_times();
    assert_eq!(idle_times.keys(), vec![tower_id()]);
    assert!(matches!(idle_times.get(tower_id()), Some(secs) if *secs < 5));
    assert_eq!(RetryManager::new(2, 60, 1).idle_times().keys(), Vec::<TowerId>::new());
}

#[test]
fn data_and_a_closed_channel_are_handled_whatever_the_idle_times() {
    let mut client = ClientState::new();
    let mut manager = idle_manager(&mut client, 0);
    let step = manager.supervise(
        &mut client,
        Received::Message(tower_id(), RevocationData::Fresh(Locator(3))),
        &idle_for(100),
    );
    assert!(matches!(step, ManagerStep::Receive));
    assert!(manager.retrier(tower_id()).unwrap().is_idle());
    assert!(manager.retrier(tower_id()).unwrap().pending_appointments().is_empty());
    let step = manager.supervise(&mut client, Received::Disconnected, &idle_for(100));
    assert!(matches!(step, ManagerStep::Exit));
    assert!(manager.retrier(tower_id()).unwrap().is_idle());
}

#[test]
fn the_manager_ends_a_campaign_at_a_given_time() {
    let mut client = ClientState::new();
    add_tower(&mut client, tower_id(), &[Locator(1)]);
    let mut manager = RetryManager::new(2, 60, 1);
    send(&mut manager, &mut client, tower_id(), RevocationData::Fresh(Locator(1)));
    assert_eq!(tick(&mut manager, &mut client), vec![tower_id()]);
    let now = Instant::now();
    assert!(manager.finish_at(&mut client, tower_id(), Err(RetryError::Unreachable), now));
    assert_eq!(manager.retrier(tower_id()).unwrap().status(), RetrierStatus::Idle(now));
    assert_eq!(client.get_retrier_status(tower_id()), Some(RetrierStatus::Idle(now)));
    assert!(!manager.finish_at(&mut client, other_tower_id(), Ok(()), now));
    assert!(!client.contains_tower(other_tower_id()));
}

#[test]
fn what_a_retrier_holds_the_store_holds_too() {
    let mut client = ClientState::new();
    add_tower(&mut client, tower_id(), &[Locator(1), Locator(2), Locator(3)]);
    let mut manager = RetryManager::new(2, 0, 1);
    let holds_no_more_than_the_store = |manager: &RetryManager, client: &ClientState| {
        let stored = &client.tower(tower_id()).unwrap().pending_appointments;
        manager
            .retrier(tower_id())
            .map(|retrier| retrier.pending_appointments().to_vec())
            .unwrap_or_default()
            .iter()
            .all(|locator| stored.contains(*locator))
    };
    send(&mut manager, &mut client, tower_id(), RevocationData::Fresh(Locator(1)));
    assert!(holds_no_more_than_the_store(&manager, &client));
    send(
        &mut manager,
        &mut client,
        tower_id(),
        RevocationData::Stale(LocatorSet::from_vec(vec![Locator(2), Locator(3)])),
    );
    assert!(holds_no_more_than_the_store(&manager, &client));
    tick(&mut manager, &mut client);
    let mut tower =
        tower_answering(Err(AddAppointmentError::ApiError(ApiError::Rejected { error_code: 4 })));
    let step = manager.run(&client, tower_id()).unwrap();
    let delivery = match step {
        RunStep::AddAppointment(delivery) => delivery,
        _ => panic!("a delivery was due"),
    };
    manager.delivered(&mut client, tower_id(), delivery, tower.add_appointment).unwrap();
    assert!(holds_no_more_than_the_store(&manager, &client));
    assert_eq!(client.tower(tower_id()).unwrap().pending_appointments.len(), 2);
    tower.add_appointment = Err(AddAppointmentError::RequestError { is_connection: true });
    campaign(&mut manager, &mut client, tower_id(), &mut tower, 2);
    assert!(holds_no_more_than_the_store(&manager, &client));
    manager.supervise(&mut client, Received::Empty, &idle_for(1));
    assert!(holds_no_more_than_the_store(&manager, &client));
    assert_eq!(
        manager.retrier(tower_id()).unwrap().pending_appointments().to_vec(),
        vec![Locator(2), Locator(3)]
    );
}
