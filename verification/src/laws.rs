//! What holds of the engine across its transitions.
//!
//! The transitions are those of the manager: a step of the supervision,
//! which takes in data or makes a pass over the retriers, and the steps of
//! a campaign. Each is a function, or a relation, on the views of the
//! manager and of the client; the laws below are stated over these.

use vstd::prelude::*;
use std::time::Instant;
use crate::client::ClientView;
use crate::error::RetryError;
use crate::ids::{Locator, TowerId};
use crate::manager::{entry, idle_time, ticked_one, ManagerStep, ManagerView, Received};
use crate::net::{AddAppointmentError, ApiError, RegisterResponse};
use crate::retrier::{follows_delivery, Campaign, Delivery, RetrierView, RunStep};
use crate::revocation::RevocationData;
use crate::status::{RetrierStatus, TowerStatus};

verus! {

/// No tower that is reachable or misbehaving has a running or idle retrier.
pub open spec fn settled_towers_are_left_alone(manager: ManagerView, client: ClientView) -> bool {
    forall|k: TowerId| #[trigger]
        manager.retriers.contains_key(k) && manager.retriers[k].status.is_active()
            && client.towers.contains_key(k) ==> !(client.towers[k].status is Reachable) && !(
        client.towers[k].status is Misbehaving)
}

/// An idle retrier holds no pending appointment in memory.
pub open spec fn idle_retriers_hold_nothing(manager: ManagerView) -> bool {
    forall|k: TowerId| #[trigger]
        manager.retriers.contains_key(k) && manager.retriers[k].status is Idle
            ==> manager.retriers[k].pending == Set::<Locator>::empty()
}

/// The client lists every running or idle retrier with its status, and none
/// but these and the failed ones that the manager has yet to drop.
pub open spec fn active_retriers_are_listed(manager: ManagerView, client: ClientView) -> bool {
    &&& forall|k: TowerId| #[trigger]
        manager.retriers.contains_key(k) && manager.retriers[k].status.is_active()
            ==> client.retriers.contains_key(k) && client.retriers[k] == manager.retriers[k].status
    &&& forall|k: TowerId| #[trigger]
        client.retriers.contains_key(k) ==> manager.retriers.contains_key(k) && (
        manager.retriers[k].status.is_active() || manager.retriers[k].status is Failed)
}

/// The manager and the client fit together.
pub open spec fn settled(manager: ManagerView, client: ClientView) -> bool {
    &&& manager.wf()
    &&& settled_towers_are_left_alone(manager, client)
    &&& idle_retriers_hold_nothing(manager)
    &&& active_retriers_are_listed(manager, client)
}

/// Whatever a retrier has to deliver to a tower that the client knows, the
/// store holds as pending for that tower.
pub open spec fn backed(manager: ManagerView, client: ClientView) -> bool {
    &&& manager.wf()
    &&& forall|k: TowerId| #[trigger]
        manager.retriers.contains_key(k) && client.towers.contains_key(k)
            ==> manager.retriers[k].pending.subset_of(client.towers[k].pending)
}

/// Whether what was found on the channel, if it is data about a tower,
/// names only appointments that the store holds as pending for that tower.
pub open spec fn stored(client: ClientView, received: Received) -> bool {
    received matches Received::Message(tower_id, data) ==> data.locators().subset_of(
        client.pending(tower_id),
    )
}

/// A manager without retriers fits a client that lists none, and is backed
/// by any store.
pub proof fn law_fit_at_first(manager: ManagerView, client: ClientView)
    requires
        manager.retriers == Map::<TowerId, RetrierView>::empty(),
        client.retriers == Map::<TowerId, RetrierStatus>::empty(),
    ensures
        settled(manager, client),
        backed(manager, client),
{
}

/// A step of the supervision keeps the manager and the client fit.
pub proof fn law_supervision_keeps_settled(
    manager: ManagerView,
    client: ClientView,
    received: Received,
    idle_times: Map<TowerId, u64>,
    after: ManagerView,
    client_after: ClientView,
    step: ManagerStep,
)
    requires
        settled(manager, client),
        manager.supervised(client, received, idle_times, after, client_after, step),
    ensures
        settled(after, client_after),
{
    match received {
        Received::Message(tower_id, data) => {
            assert(after.wf());
        },
        Received::Empty => {
            lemma_pass_keeps_settled(manager, client, idle_times, after, client_after);
        },
        Received::Disconnected => {},
    }
}

/// A pass keeps the manager and the client fit.
proof fn lemma_pass_keeps_settled(
    manager: ManagerView,
    client: ClientView,
    idle_times: Map<TowerId, u64>,
    after: ManagerView,
    client_after: ClientView,
)
    requires
        settled(manager, client),
        exists|started: Seq<Campaign>|
            manager.reap(client).0.ticked(
                manager.reap(client).1,
                idle_times,
                after,
                client_after,
                started,
            ),
    ensures
        settled(after, client_after),
{
    let (reaped, client_reaped) = manager.reap(client);
    // What the pass made of the retrier of `k`, for a retrier that it kept.
    assert forall|k: TowerId| #[trigger] after.retriers.contains_key(k) implies {
        &&& manager.retriers.contains_key(k)
        &&& reaped.retriers[k] == manager.retriers[k]
        &&& entry(client_reaped, k).0 == entry(client, k).0
        &&& ticked_one(
            reaped.retriers[k],
            client_reaped,
            idle_time(idle_times, k),
            reaped.auto_retry_delay,
            after.retriers[k],
            client_after,
        )
    } by {
        assert(after.retriers.dom().contains(k));
        assert(reaped.retriers.contains_key(k));
    }
    assert forall|k: TowerId| #[trigger] client_after.retriers.contains_key(k) implies
        after.retriers.contains_key(k) && (after.retriers[k].status.is_active()
        || after.retriers[k].status is Failed) by {
        if reaped.retriers.contains_key(k) {
            assert(after.retriers.dom().contains(k));
        } else {
            assert(entry(client_after, k) == entry(client_reaped, k));
            assert(manager.retriers.contains_key(k));
        }
    }
}

/// A step of the supervision keeps the retriers backed by the store, if the
/// data that is taken in names only appointments which the store holds as
/// pending for the tower.
pub proof fn law_supervision_keeps_backed(
    manager: ManagerView,
    client: ClientView,
    received: Received,
    idle_times: Map<TowerId, u64>,
    after: ManagerView,
    client_after: ClientView,
    step: ManagerStep,
)
    requires
        backed(manager, client),
        stored(client, received),
        manager.supervised(client, received, idle_times, after, client_after, step),
    ensures
        backed(after, client_after),
{
    match received {
        Received::Message(tower_id, data) => {
            assert forall|k: TowerId| #[trigger]
                after.retriers.contains_key(k) && client_after.towers.contains_key(k)
                implies after.retriers[k].tower_id == k && after.retriers[k].pending.subset_of(
                client_after.towers[k].pending,
            ) by {
                if k != tower_id {
                    assert(manager.retriers.contains_key(k));
                }
            }
            assert(after.wf());
        },
        Received::Empty => {
            let (reaped, client_reaped) = manager.reap(client);
            assert forall|k: TowerId| #[trigger]
                after.retriers.contains_key(k) implies after.retriers[k].tower_id == k && (
            client_after.towers.contains_key(k) ==> after.retriers[k].pending.subset_of(
                client_after.towers[k].pending,
            )) by {
                assert(after.retriers.dom().contains(k));
                assert(reaped.retriers.contains_key(k));
                assert(manager.retriers.contains_key(k));
                assert(entry(client_reaped, k).0 == entry(client, k).0);
                assert(ticked_one(
                    reaped.retriers[k],
                    client_reaped,
                    idle_time(idle_times, k),
                    reaped.auto_retry_delay,
                    after.retriers[k],
                    client_after,
                ));
            }
        },
        Received::Disconnected => {},
    }
}

/// The answer to a request to register keeps the manager and the client
/// fit, and the retriers backed by the store, if the client still knows
/// the tower.
pub proof fn law_registration_keeps_fit(
    manager: ManagerView,
    client: ClientView,
    tower_id: TowerId,
    response: RegisterResponse,
)
    requires
        client.towers.contains_key(tower_id),
    ensures
        settled(manager, client) ==> settled(manager, manager.register(client, tower_id, response)),
        backed(manager, client) ==> backed(manager, manager.register(client, tower_id, response)),
{
    let client_after = manager.register(client, tower_id, response);
    if manager.wf() {
        assert forall|k: TowerId| #[trigger] client_after.towers.contains_key(k) implies {
            &&& client.towers.contains_key(k)
            &&& client_after.towers[k].status == client.towers[k].status
            &&& client_after.towers[k].pending == client.towers[k].pending
        } by {}
    }
}

/// The tower's answer to a delivery keeps the manager and the client fit,
/// and the retriers backed by the store.
pub proof fn law_delivery_keeps_fit(
    manager: ManagerView,
    client: ClientView,
    tower_id: TowerId,
    locator: Locator,
    response: Result<u32, AddAppointmentError>,
)
    ensures
        settled(manager, client) ==> settled(
            manager.deliver(client, tower_id, locator, response).0,
            manager.deliver(client, tower_id, locator, response).1,
        ),
        backed(manager, client) ==> backed(
            manager.deliver(client, tower_id, locator, response).0,
            manager.deliver(client, tower_id, locator, response).1,
        ),
{
    let (after, client_after) = manager.deliver(client, tower_id, locator, response);
    assert forall|k: TowerId| #[trigger] after.retriers.contains_key(k) implies
        manager.retriers.contains_key(k) by {}
    assert forall|k: TowerId| #[trigger] client_after.towers.contains_key(k) implies
        client.towers.contains_key(k) by {}
    if settled(manager, client) {
        assert forall|k: TowerId| #[trigger]
            after.retriers.contains_key(k) && after.retriers[k].status
                is Idle implies after.retriers[k].pending == Set::<Locator>::empty() by {
            assert(after.retriers[k].pending =~= manager.retriers[k].pending);
        }
    }
}

/// The end of a campaign keeps the manager and the client fit, and the
/// retriers backed by the store.
pub proof fn law_finish_keeps_fit(
    manager: ManagerView,
    client: ClientView,
    tower_id: TowerId,
    outcome: Result<(), RetryError>,
    now: Instant,
)
    ensures
        settled(manager, client) ==> settled(
            manager.finish(client, tower_id, outcome, now).0,
            manager.finish(client, tower_id, outcome, now).1,
        ),
        backed(manager, client) ==> backed(
            manager.finish(client, tower_id, outcome, now).0,
            manager.finish(client, tower_id, outcome, now).1,
        ),
{
    let (after, client_after) = manager.finish(client, tower_id, outcome, now);
    assert forall|k: TowerId| #[trigger] after.retriers.contains_key(k) implies
        manager.retriers.contains_key(k) by {}
    assert forall|k: TowerId| #[trigger] client_after.towers.contains_key(k) implies
        client.towers.contains_key(k) by {}
    if manager.wf() {
        assert forall|k: TowerId| #[trigger] client_after.retriers.contains_key(k) implies k
            == tower_id || client.retriers.contains_key(k) by {}
    }
}

/// A pass starts a campaign only for a retrier that was stopped, and at
/// most one for a tower: no two of the campaigns in `started` are for the
/// same tower, and every retrier that has one was stopped before the pass
/// and runs after it. A retrier that was running already has none, and
/// goes on running.
pub proof fn law_one_campaign_per_tower(
    manager: ManagerView,
    client: ClientView,
    idle_times: Map<TowerId, u64>,
    after: ManagerView,
    client_after: ClientView,
    started: Seq<Campaign>,
)
    requires
        manager.ticked(client, idle_times, after, client_after, started),
    ensures
        forall|i: int, j: int|
            0 <= i < started.len() && 0 <= j < started.len() && i != j ==> started[i].tower_id
                != started[j].tower_id,
        forall|i: int|
            0 <= i < started.len() ==> manager.retriers.contains_key(
                (#[trigger] started[i]).tower_id,
            ) && manager.retriers[started[i].tower_id].status is Stopped
                && after.retriers[started[i].tower_id].status is Running,
        forall|k: TowerId| #[trigger]
            manager.retriers.contains_key(k) && manager.retriers[k].status is Running
                ==> after.retriers[k].status is Running,
{
    assert forall|i: int| 0 <= i < started.len() implies manager.retriers.contains_key(
        (#[trigger] started[i]).tower_id,
    ) && started[i] == manager.campaign(started[i].tower_id)
        && manager.retriers[started[i].tower_id].status is Stopped
        && after.retriers[started[i].tower_id].status is Running by {
        let k = started[i].tower_id;
        assert(started.contains(started[i]));
        assert(manager.retriers.contains_key(k));
    }
}

/// A pass wakes an idle retrier when it has idled for more than the
/// manager's delay, and only then: after as many seconds as the delay, or
/// fewer, or without an idle time, the retrier is as it was.
pub proof fn law_woken_strictly_after_the_delay(
    manager: ManagerView,
    client: ClientView,
    idle_times: Map<TowerId, u64>,
    after: ManagerView,
    client_after: ClientView,
    started: Seq<Campaign>,
    tower_id: TowerId,
)
    requires
        manager.ticked(client, idle_times, after, client_after, started),
        manager.retriers.contains_key(tower_id),
        manager.retriers[tower_id].status is Idle,
    ensures
        after.retriers[tower_id] == (if idle_times.contains_key(tower_id) && idle_times[tower_id]
            > manager.auto_retry_delay {
            manager.retriers[tower_id].wake(client).0
        } else {
            manager.retriers[tower_id]
        }),
        after.retriers[tower_id].status is Stopped <==> idle_times.contains_key(tower_id)
            && idle_times[tower_id] > manager.auto_retry_delay,
{
}

/// At the end of a successful campaign the tower is marked reachable before
/// the retrier is struck from the client's list: the end is the second of
/// two writes, the first of which marks the tower and leaves the list as it
/// was. So whoever finds the retrier gone finds the tower reachable.
pub proof fn law_reachable_before_unlisted(retrier: RetrierView, client: ClientView, now: Instant)
    ensures
        ({
            let marked = client.set_tower_status(retrier.tower_id, TowerStatus::Reachable);
            let (stopped, unlisted) = retrier.finish(client, Ok(()), now);
            &&& marked.retriers == client.retriers
            &&& unlisted == marked.remove_retrier(retrier.tower_id)
            &&& stopped.status is Stopped
            &&& !unlisted.retriers.contains_key(retrier.tower_id)
            &&& client.towers.contains_key(retrier.tower_id) ==> marked.tower_status(
                retrier.tower_id,
            ) == Some(TowerStatus::Reachable) && unlisted.tower_status(retrier.tower_id) == Some(
                TowerStatus::Reachable,
            )
        }),
{
}

/// Taking in the same data twice comes to the same as taking it in once.
pub proof fn law_receive_twice(
    manager: ManagerView,
    client: ClientView,
    tower_id: TowerId,
    data: RevocationData,
)
    ensures
        ({
            let (once, client_once) = manager.receive(client, tower_id, data);
            once.receive(client_once, tower_id, data) == (once, client_once)
        }),
{
    let (once, client_once) = manager.receive(client, tower_id, data);
    let (twice, client_twice) = once.receive(client_once, tower_id, data);
    let ignored = manager.retriers.contains_key(tower_id) && manager.retriers[tower_id].status
        is Idle && !(data is WakeUp);
    if client.towers.contains_key(tower_id) && !ignored {
        // The retrier has taken in the data, or was woken by data that names nothing.
        let retrier = once.retriers[tower_id];
        assert(retrier.pending.union(data.locators()) =~= retrier.pending);
    }
    assert(twice =~= once);
}

/// Once a tower has accepted an appointment, the retrier has no longer to
/// deliver it, and what is left of the sweep does not ask for it again.
pub proof fn law_accepted_once(
    retrier: RetrierView,
    client: ClientView,
    delivery: Delivery,
    available_slots: u32,
    step: RunStep,
)
    requires
        delivery.proper(),
        follows_delivery(
            retrier.deliver(client, delivery.target(), Ok(available_slots)).0.pending,
            delivery.remaining(),
            Ok(available_slots),
            step,
        ),
    ensures
        !retrier.deliver(client, delivery.target(), Ok(available_slots)).0.pending.contains(
            delivery.target(),
        ),
        step matches RunStep::AddAppointment(next) ==> next.target() != delivery.target()
            && !next.remaining().contains(delivery.target()),
{
    if let RunStep::AddAppointment(next) = step {
        let rest = delivery.remaining();
        if rest.len() > 0 {
            assert(rest.contains(rest[0]));
            if next.remaining().contains(delivery.target()) {
                let i = next.remaining().index_of(delivery.target());
                assert(rest[i + 1] == delivery.target());
            }
        } else if next.remaining().contains(delivery.target()) {
            assert(next.remaining().to_set().contains(delivery.target()));
        }
    }
}

/// A wake-up call for a tower whose retrier is not idle changes nothing.
pub proof fn law_wake_up_spares_the_busy(manager: ManagerView, client: ClientView, tower_id: TowerId)
    requires
        manager.retriers.contains_key(tower_id),
        !(manager.retriers[tower_id].status is Idle),
    ensures
        manager.receive(client, tower_id, RevocationData::WakeUp) == (manager, client),
{
    let retrier = manager.retriers[tower_id];
    assert(retrier.pending.union(RevocationData::WakeUp.locators()) =~= retrier.pending);
    assert(manager.receive(client, tower_id, RevocationData::WakeUp).0 =~= manager);
}

/// Data about a tower that the client does not know changes nothing.
pub proof fn law_unknown_tower_is_ignored(
    manager: ManagerView,
    client: ClientView,
    tower_id: TowerId,
    data: RevocationData,
)
    requires
        !client.towers.contains_key(tower_id),
    ensures
        manager.receive(client, tower_id, data) == (manager, client),
{
}

/// A campaign that ends on an error that is not permanent leaves the
/// retrier idle since then, with nothing pending in memory, listed as idle
/// with the client, and the tower, if the client knows it, unreachable.
pub proof fn law_gave_up_idles(
    retrier: RetrierView,
    client: ClientView,
    error: RetryError,
    now: Instant,
)
    requires
        !error.permanent(),
    ensures
        ({
            let (idle, client_after) = retrier.finish(client, Err(error), now);
            &&& idle.status == RetrierStatus::Idle(now)
            &&& idle.pending == Set::<Locator>::empty()
            &&& client_after.retriers.contains_key(retrier.tower_id)
            &&& client_after.retriers[retrier.tower_id] == RetrierStatus::Idle(now)
            &&& client.towers.contains_key(retrier.tower_id) ==> client_after.tower_status(
                retrier.tower_id,
            ) == Some(TowerStatus::Unreachable)
        }),
{
}

/// A campaign that ends on a permanent error leaves the retrier failed,
/// with what it had pending, and listed as it was. The tower, if the client
/// knows it, has a subscription error after a subscription error, misbehaves
/// with the given proof after a misbehavior, and is as it was after it was
/// found abandoned.
pub proof fn law_permanent_error_fails(
    retrier: RetrierView,
    client: ClientView,
    error: RetryError,
    now: Instant,
)
    requires
        error.permanent(),
    ensures
        ({
            let tower_id = retrier.tower_id;
            let (failed, client_after) = retrier.finish(client, Err(error), now);
            &&& failed == retrier.with_status(RetrierStatus::Failed)
            &&& client_after.retriers == client.retriers
            &&& client_after.towers.dom() == client.towers.dom()
            &&& client.towers.contains_key(tower_id) ==> client_after.towers[tower_id]
                == client.towers[tower_id].with_status(
                match error {
                    RetryError::Subscription(_, _) => TowerStatus::SubscriptionError,
                    RetryError::Misbehaving(proof) => TowerStatus::Misbehaving(proof),
                    _ => client.towers[tower_id].status,
                },
            )
        }),
{
    let tower_id = retrier.tower_id;
    if client.towers.contains_key(tower_id) {
        assert(client.towers[tower_id].with_status(client.towers[tower_id].status)
            =~= client.towers[tower_id]);
    }
}

/// The engine takes an appointment out of the pending ones of the store
/// only when the tower has accepted or rejected that very appointment: the
/// answer to a delivery strikes the appointment delivered, if it was
/// accepted or rejected, and no other.
pub proof fn law_only_answered_deliveries_are_struck(
    retrier: RetrierView,
    client: ClientView,
    locator: Locator,
    response: Result<u32, AddAppointmentError>,
    tower_id: TowerId,
)
    ensures
        retrier.deliver(client, locator, response).1.pending(tower_id) == (if tower_id
            == retrier.tower_id && (response is Ok || response matches Err(
            AddAppointmentError::ApiError(ApiError::Rejected { .. }),
        )) {
            client.pending(tower_id).remove(locator)
        } else {
            client.pending(tower_id)
        }),
{
    assert(retrier.deliver(client, locator, response).1.pending(tower_id) =~= (if tower_id
        == retrier.tower_id && (response is Ok || response matches Err(
        AddAppointmentError::ApiError(ApiError::Rejected { .. }),
    )) {
        client.pending(tower_id).remove(locator)
    } else {
        client.pending(tower_id)
    }));
}

/// A step of the supervision and the end of a campaign leave what the
/// store holds as pending, for every tower, as it is.
pub proof fn law_pending_appointments_are_kept(
    manager: ManagerView,
    client: ClientView,
    received: Received,
    idle_times: Map<TowerId, u64>,
    after: ManagerView,
    client_after: ClientView,
    step: ManagerStep,
    outcome: Result<(), RetryError>,
    now: Instant,
    tower_id: TowerId,
)
    requires
        manager.wf(),
    ensures
        manager.supervised(client, received, idle_times, after, client_after, step)
            ==> client_after.pending(tower_id) == client.pending(tower_id),
        forall|k: TowerId|
            (#[trigger] manager.finish(client, k, outcome, now)).1.pending(tower_id)
                == client.pending(tower_id),
{
    if manager.supervised(client, received, idle_times, after, client_after, step) {
        if received is Empty {
            let (reaped, client_reaped) = manager.reap(client);
            assert(entry(client_reaped, tower_id).0 == entry(client, tower_id).0);
            if reaped.retriers.contains_key(tower_id) {
                assert(manager.retriers.contains_key(tower_id));
                assert(ticked_one(
                    reaped.retriers[tower_id],
                    client_reaped,
                    idle_time(idle_times, tower_id),
                    reaped.auto_retry_delay,
                    after.retriers[tower_id],
                    client_after,
                ));
            } else {
                assert(entry(client_after, tower_id) == entry(client_reaped, tower_id));
            }
        }
    }
}

} // verus!
