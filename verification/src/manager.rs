//! The retry manager: the supervisor of all retriers.

use vstd::prelude::*;
use std::time::Instant;
use crate::client::{ClientState, ClientView, TowerView};
use crate::error::RetryError;
use crate::ids::{Locator, TowerId};
use crate::locator_set::LocatorSet;
use crate::net::{AddAppointmentError, RegisterResponse};
use crate::retrier::{
    begins, follows_delivery, follows_registration, Campaign, Delivery, Retrier, RetrierView, RunStep,
};
use crate::revocation::RevocationData;
use crate::status::RetrierStatus;
use crate::tower_map::TowerMap;

verus! {

/// What the manager found on its channel.
#[derive(Debug)]
pub enum Received {
    /// Data about a tower.
    Message(TowerId, RevocationData),
    /// Nothing, for now.
    Empty,
    /// Nothing, and nothing will come: every sender is gone.
    Disconnected,
}

/// For how many seconds the manager rests after a pass over its retriers.
pub const TICK_SECS: u64 = 1;

/// What the caller of the manager has to do next.
#[derive(Debug)]
pub enum ManagerStep {
    /// Look into the channel again, at once.
    Receive,
    /// Run each of the campaigns in `started`, whose retriers were just
    /// started; sleep for [`TICK_SECS`] seconds, then look into the channel
    /// again.
    Tick { started: Vec<Campaign> },
    /// Stop.
    Exit,
}

/// Mathematical model of a [`RetryManager`].
#[verifier::ext_equal]
pub struct ManagerView {
    /// The retriers, by tower.
    pub retriers: Map<TowerId, RetrierView>,
    /// For how long a campaign may last, in seconds.
    pub max_elapsed_time_secs: u16,
    /// For how long a retrier idles before it is woken, in seconds.
    pub auto_retry_delay: u32,
    /// The longest pause between two attempts of a campaign, in seconds.
    pub max_interval_time_secs: u16,
}

/// What a client holds of one tower: the tower's record and the listed status
/// of its retrier.
pub open spec fn entry(client: ClientView, tower_id: TowerId) -> (
    Option<TowerView>,
    Option<RetrierStatus>,
) {
    (
        if client.towers.contains_key(tower_id) {
            Some(client.towers[tower_id])
        } else {
            None
        },
        if client.retriers.contains_key(tower_id) {
            Some(client.retriers[tower_id])
        } else {
            None
        },
    )
}

/// Whether the manager keeps a retrier when it clears its table: one that is
/// due to be started, running or idle.
pub open spec fn kept(retrier: RetrierView) -> bool {
    retrier.should_start() || retrier.status is Running || retrier.status is Idle
}

/// Whether a retrier and the client's entry for its tower came out of a
/// start-up pass as they should, for a retrier that had idled for `idle_time`
/// seconds, if that is known, and a manager that wakes after
/// `auto_retry_delay` seconds.
///
/// A retrier that was due has been started. An idle one that has idled for
/// more than the delay has been woken. Any other is as it was.
pub open spec fn ticked_one(
    before: RetrierView,
    client_before: ClientView,
    idle_time: Option<u64>,
    auto_retry_delay: u32,
    after: RetrierView,
    client_after: ClientView,
) -> bool {
    let tower_id = before.tower_id;
    if before.should_start() {
        after == before.start(client_before).0 && entry(client_after, tower_id) == entry(
            before.start(client_before).1,
            tower_id,
        )
    } else if before.status is Idle && (idle_time matches Some(secs) && secs > auto_retry_delay) {
        after == before.wake(client_before).0 && entry(client_after, tower_id) == entry(
            before.wake(client_before).1,
            tower_id,
        )
    } else {
        after == before && entry(client_after, tower_id) == entry(client_before, tower_id)
    }
}

/// The idle time on record for a tower, if there is one.
pub open spec fn idle_time(idle_times: Map<TowerId, u64>, tower_id: TowerId) -> Option<u64> {
    if idle_times.contains_key(tower_id) {
        Some(idle_times[tower_id])
    } else {
        None
    }
}

impl ManagerView {
    pub open spec fn with_retriers(self, retriers: Map<TowerId, RetrierView>) -> ManagerView {
        ManagerView {
            retriers,
            max_elapsed_time_secs: self.max_elapsed_time_secs,
            auto_retry_delay: self.auto_retry_delay,
            max_interval_time_secs: self.max_interval_time_secs,
        }
    }

    /// Every retrier serves the tower that it is filed under.
    pub open spec fn wf(self) -> bool {
        forall|k: TowerId| #[trigger]
            self.retriers.contains_key(k) ==> self.retriers[k].tower_id == k
    }

    /// The manager after `locators` were added for `tower_id`: to the
    /// retrier of the tower, or to a new, stopped one.
    pub open spec fn add_pending_appointments(
        self,
        tower_id: TowerId,
        locators: Set<Locator>,
    ) -> ManagerView {
        if self.retriers.contains_key(tower_id) {
            let retrier = self.retriers[tower_id];
            self.with_retriers(
                self.retriers.insert(tower_id, retrier.with_pending(retrier.pending.union(locators))),
            )
        } else {
            self.with_retriers(self.retriers.insert(tower_id, RetrierView::fresh(tower_id, locators)))
        }
    }

    /// The manager and the client after `data` about `tower_id` was
    /// received.
    ///
    /// Data about a tower that the client does not know is ignored. An idle
    /// retrier is woken by data that names no appointment, and ignores any
    /// other. In every other case the appointments are added for the tower.
    pub open spec fn receive(
        self,
        client: ClientView,
        tower_id: TowerId,
        data: RevocationData,
    ) -> (ManagerView, ClientView) {
        if !client.towers.contains_key(tower_id) {
            (self, client)
        } else if self.retriers.contains_key(tower_id) && self.retriers[tower_id].status is Idle {
            if data is WakeUp {
                let (retrier, client) = self.retriers[tower_id].wake(client);
                (self.with_retriers(self.retriers.insert(tower_id, retrier)), client)
            } else {
                (self, client)
            }
        } else {
            (self.add_pending_appointments(tower_id, data.locators()), client)
        }
    }

    /// The client once the tower has answered the request to register that
    /// was made for the retrier of `tower_id`: see [`RetrierView::register`].
    /// Nothing changes if the tower has no retrier.
    pub open spec fn register(
        self,
        client: ClientView,
        tower_id: TowerId,
        response: RegisterResponse,
    ) -> ClientView {
        if self.retriers.contains_key(tower_id) {
            self.retriers[tower_id].register(client, response)
        } else {
            client
        }
    }

    /// The manager and the client once the tower has answered the request
    /// to take the appointment `locator`, made for the retrier of
    /// `tower_id`: see [`RetrierView::deliver`]. Nothing changes if the tower
    /// has no retrier.
    pub open spec fn deliver(
        self,
        client: ClientView,
        tower_id: TowerId,
        locator: Locator,
        response: Result<u32, AddAppointmentError>,
    ) -> (ManagerView, ClientView) {
        if self.retriers.contains_key(tower_id) {
            let (retrier, client) = self.retriers[tower_id].deliver(client, locator, response);
            (self.with_retriers(self.retriers.insert(tower_id, retrier)), client)
        } else {
            (self, client)
        }
    }

    /// The manager and the client once the campaign for `tower_id` has
    /// ended with `outcome`, at the time `now`: see [`RetrierView::finish`].
    /// Nothing changes if the tower has no retrier.
    pub open spec fn finish(
        self,
        client: ClientView,
        tower_id: TowerId,
        outcome: Result<(), RetryError>,
        now: Instant,
    ) -> (ManagerView, ClientView) {
        if self.retriers.contains_key(tower_id) {
            let (retrier, client) = self.retriers[tower_id].finish(client, outcome, now);
            (self.with_retriers(self.retriers.insert(tower_id, retrier)), client)
        } else {
            (self, client)
        }
    }

    /// The manager and the client after the manager cleared its table: the
    /// failed retriers are struck from the client's list, and the manager
    /// keeps the retriers that are due to be started, running or idle.
    pub open spec fn reap(self, client: ClientView) -> (ManagerView, ClientView) {
        (
            self.with_retriers(
                Map::new(
                    |k: TowerId| self.retriers.contains_key(k) && kept(self.retriers[k]),
                    |k: TowerId| self.retriers[k],
                ),
            ),
            client.with_retriers(
                Map::new(
                    |k: TowerId|
                        client.retriers.contains_key(k) && !(self.retriers.contains_key(k)
                            && self.retriers[k].status is Failed),
                    |k: TowerId| client.retriers[k],
                ),
            ),
        )
    }

    /// The campaign that the manager has run for `tower_id`.
    pub open spec fn campaign(self, tower_id: TowerId) -> Campaign {
        Campaign {
            tower_id,
            max_elapsed_time_secs: self.max_elapsed_time_secs,
            max_interval_time_secs: self.max_interval_time_secs,
        }
    }

    /// Whether `after` and `client_after` are what a start-up pass makes of
    /// the manager and of `client_before`, with `idle_times` the seconds for
    /// which retriers have idled and `started` the campaigns of the
    /// retriers that the pass started.
    pub open spec fn ticked(
        self,
        client_before: ClientView,
        idle_times: Map<TowerId, u64>,
        after: ManagerView,
        client_after: ClientView,
        started: Seq<Campaign>,
    ) -> bool {
        &&& after == self.with_retriers(after.retriers)
        &&& after.retriers.dom() == self.retriers.dom()
        &&& client_after.store_ops == client_before.store_ops
        &&& forall|k: TowerId| #[trigger]
            self.retriers.contains_key(k) ==> ticked_one(
                self.retriers[k],
                client_before,
                idle_time(idle_times, k),
                self.auto_retry_delay,
                after.retriers[k],
                client_after,
            )
        &&& forall|k: TowerId|
            !self.retriers.contains_key(k) ==> #[trigger] entry(client_after, k) == entry(
                client_before,
                k,
            )
        &&& started.no_duplicates()
        &&& forall|c: Campaign| #[trigger]
            started.contains(c) <==> self.retriers.contains_key(c.tower_id)
                && self.retriers[c.tower_id].should_start() && c == self.campaign(c.tower_id)
    }

    /// Whether `after`, `client_after` and `step` are what a step of the
    /// supervision makes of the manager and of `client`, given what was
    /// found on the channel and the seconds for which retriers have idled.
    ///
    /// Data about a tower is taken in. On an empty channel the table is
    /// cleared, and a start-up pass is made over what is left. Once every
    /// sender is gone the supervision ends.
    pub open spec fn supervised(
        self,
        client: ClientView,
        received: Received,
        idle_times: Map<TowerId, u64>,
        after: ManagerView,
        client_after: ClientView,
        step: ManagerStep,
    ) -> bool {
        match received {
            Received::Message(tower_id, data) => step is Receive && (after, client_after)
                == self.receive(client, tower_id, data),
            Received::Empty => step matches ManagerStep::Tick { started } && self.reap(
                client,
            ).0.ticked(self.reap(client).1, idle_times, after, client_after, started@),
            Received::Disconnected => step is Exit && after == self && client_after == client,
        }
    }
}

/// The supervisor of all retriers.
#[derive(Debug)]
pub struct RetryManager {
    retriers: TowerMap<Retrier>,
    max_elapsed_time_secs: u16,
    auto_retry_delay: u32,
    max_interval_time_secs: u16,
}

/// The retriers of a table, by tower.
spec fn views(table: Map<TowerId, Retrier>) -> Map<TowerId, RetrierView> {
    Map::new(|k: TowerId| table.contains_key(k), |k: TowerId| table[k]@)
}

/// Every retrier of the table serves the tower that it is filed under.
spec fn filed(table: Map<TowerId, Retrier>) -> bool {
    forall|k: TowerId| #[trigger] table.contains_key(k) ==> table[k]@.tower_id == k
}

impl View for RetryManager {
    type V = ManagerView;

    closed spec fn view(&self) -> ManagerView {
        ManagerView {
            retriers: views(self.retriers@),
            max_elapsed_time_secs: self.max_elapsed_time_secs,
            auto_retry_delay: self.auto_retry_delay,
            max_interval_time_secs: self.max_interval_time_secs,
        }
    }
}

impl RetryManager {
    #[verifier::type_invariant]
    spec fn inv(&self) -> bool {
        filed(self.retriers@)
    }

    /// A manager without retriers.
    pub fn new(max_elapsed_time_secs: u16, auto_retry_delay: u32, max_interval_time_secs: u16) -> (manager:
        RetryManager)
        ensures
            manager@ == (ManagerView {
                retriers: Map::empty(),
                max_elapsed_time_secs,
                auto_retry_delay,
                max_interval_time_secs,
            }),
    {
        RetryManager {
            retriers: TowerMap::new(),
            max_elapsed_time_secs,
            auto_retry_delay,
            max_interval_time_secs,
        }
    }

    /// For how long a campaign may last, in seconds.
    pub fn max_elapsed_time_secs(&self) -> (secs: u16)
        ensures
            secs == self@.max_elapsed_time_secs,
    {
        self.max_elapsed_time_secs
    }

    /// The longest pause between two attempts of a campaign, in seconds.
    pub fn max_interval_time_secs(&self) -> (secs: u16)
        ensures
            secs == self@.max_interval_time_secs,
    {
        self.max_interval_time_secs
    }

    /// For how long a retrier idles before it is woken, in seconds.
    pub fn auto_retry_delay(&self) -> (secs: u32)
        ensures
            secs == self@.auto_retry_delay,
    {
        self.auto_retry_delay
    }

    /// The retrier of `tower_id`, if there is one.
    pub fn retrier(&self, tower_id: TowerId) -> (r: Option<&Retrier>)
        ensures
            self@.wf(),
            match r {
                Some(retrier) => self@.retriers.contains_key(tower_id) && retrier@
                    == self@.retriers[tower_id],
                None => !self@.retriers.contains_key(tower_id),
            },
    {
        proof {
            use_type_invariant(self);
        }
        self.retriers.get(tower_id)
    }

    /// Takes the table out, leaving an empty one.
    fn take_table(&mut self) -> (table: TowerMap<Retrier>)
        ensures
            table@ == old(self).retriers@,
            filed(table@),
            final(self).max_elapsed_time_secs == old(self).max_elapsed_time_secs,
            final(self).auto_retry_delay == old(self).auto_retry_delay,
            final(self).max_interval_time_secs == old(self).max_interval_time_secs,
    {
        proof {
            use_type_invariant(&*self);
        }
        let mut table: TowerMap<Retrier> = TowerMap::new();
        std::mem::swap(&mut self.retriers, &mut table);
        table
    }

    /// Adds `locators` for `tower_id`: to the retrier of the tower, or to a
    /// new, stopped one.
    fn add_pending_appointments(&mut self, tower_id: TowerId, locators: LocatorSet)
        ensures
            final(self)@ == old(self)@.add_pending_appointments(tower_id, locators@),
    {
        let mut table = self.take_table();
        match table.remove(tower_id) {
            Some(mut retrier) => {
                retrier.add_pending_appointments(&locators);
                table.insert(tower_id, retrier);
            },
            None => {
                table.insert(tower_id, Retrier::new(tower_id, locators));
            },
        }
        self.retriers = table;
    }

    /// Takes in `data` about `tower_id`.
    fn receive(&mut self, client: &mut ClientState, tower_id: TowerId, data: RevocationData)
        ensures
            (final(self)@, final(client)@) == old(self)@.receive(old(client)@, tower_id, data),
    {
        if !client.contains_tower(tower_id) {
            return ;
        }
        let idle = match self.retriers.get(tower_id) {
            Some(retrier) => retrier.is_idle(),
            None => false,
        };
        if idle {
            if data.is_none() {
                let mut table = self.take_table();
                match table.remove(tower_id) {
                    Some(mut retrier) => {
                        retrier.wake(client);
                        table.insert(tower_id, retrier);
                    },
                    None => {},
                }
                self.retriers = table;
            }
        } else {
            self.add_pending_appointments(tower_id, data.to_locator_set());
        }
    }

    /// Clears the table: strikes the failed retriers from the client's list
    /// and keeps the retriers that are due to be started, running or idle.
    fn reap(table: &mut TowerMap<Retrier>, client: &mut ClientState)
        requires
            filed(old(table)@),
        ensures
            filed(final(table)@),
            final(table)@.dom() == Set::new(
                |k: TowerId| old(table)@.contains_key(k) && kept(old(table)@[k]@),
            ),
            forall|k: TowerId| #[trigger]
                final(table)@.contains_key(k) ==> final(table)@[k] == old(table)@[k],
            final(client)@ == old(client)@.with_retriers(
                Map::new(
                    |k: TowerId|
                        old(client)@.retriers.contains_key(k) && !(old(table)@.contains_key(k)
                            && old(table)@[k]@.status is Failed),
                    |k: TowerId| old(client)@.retriers[k],
                ),
            ),
    {
        let keys = table.keys();
        let ghost before = table@;
        let ghost client_before = client@;
        let mut i: usize = 0;
        while i < keys.len()
            invariant
                i <= keys@.len(),
                keys@.no_duplicates(),
                keys@.to_set() == before.dom(),
                filed(before),
                forall|k: TowerId| #[trigger]
                    table@.contains_key(k) ==> before.contains_key(k) && table@[k] == before[k],
                forall|k: TowerId| #[trigger]
                    before.contains_key(k) ==> (table@.contains_key(k) <==> (keys@.index_of(k) >= i
                        || kept(before[k]@))),
                client@.towers == client_before.towers,
                client@.store_ops == client_before.store_ops,
                forall|k: TowerId| #[trigger]
                    client@.retriers.contains_key(k) <==> client_before.retriers.contains_key(k)
                        && !(before.contains_key(k) && keys@.index_of(k) < i
                        && before[k]@.status is Failed),
                forall|k: TowerId| #[trigger]
                    client@.retriers.contains_key(k) ==> client@.retriers[k]
                        == client_before.retriers[k],
            decreases keys@.len() - i,
        {
            let key = keys[i];
            proof {
                lemma_position(keys@, i as int);
            }
            match table.remove(key) {
                Some(retrier) => {
                    retrier.remove_if_failed(client);
                    if retrier.should_start() || retrier.is_running() || retrier.is_idle() {
                        table.insert(key, retrier);
                    }
                },
                None => {},
            }
            proof {
                assert forall|k: TowerId| #[trigger]
                    before.contains_key(k) implies (table@.contains_key(k) <==> (keys@.index_of(k)
                    >= i + 1 || kept(before[k]@))) by {
                    lemma_position_of(keys@, k);
                }
                assert forall|k: TowerId| #[trigger]
                    client@.retriers.contains_key(k) <==> client_before.retriers.contains_key(k)
                        && !(before.contains_key(k) && keys@.index_of(k) < i + 1
                        && before[k]@.status is Failed) by {
                    if before.contains_key(k) {
                        lemma_position_of(keys@, k);
                    }
                }
            }
            i = i + 1;
        }
        proof {
            assert forall|k: TowerId| before.contains_key(k) implies keys@.index_of(k)
                < keys@.len() by {
                lemma_position_of(keys@, k);
            }
            assert(table@.dom() =~= Set::new(
                |k: TowerId| before.contains_key(k) && kept(before[k]@),
            ));
            assert(client@ =~= client_before.with_retriers(
                Map::new(
                    |k: TowerId|
                        client_before.retriers.contains_key(k) && !(before.contains_key(k)
                            && before[k]@.status is Failed),
                    |k: TowerId| client_before.retriers[k],
                ),
            ));
        }
    }

    /// Starts the retriers that are due and wakes the idle ones that have
    /// idled for more than the delay. Returns the campaigns of the retriers
    /// that it started.
    fn start_ready(
        table: &mut TowerMap<Retrier>,
        client: &mut ClientState,
        idle_times: &TowerMap<u64>,
        max_elapsed_time_secs: u16,
        auto_retry_delay: u32,
        max_interval_time_secs: u16,
    ) -> (started: Vec<Campaign>)
        requires
            filed(old(table)@),
        ensures
            filed(final(table)@),
            final(table)@.dom() == old(table)@.dom(),
            final(client)@.store_ops == old(client)@.store_ops,
            forall|k: TowerId| #[trigger]
                old(table)@.contains_key(k) ==> ticked_one(
                    old(table)@[k]@,
                    old(client)@,
                    idle_time(idle_times@, k),
                    auto_retry_delay,
                    final(table)@[k]@,
                    final(client)@,
                ),
            forall|k: TowerId|
                !old(table)@.contains_key(k) ==> #[trigger] entry(final(client)@, k) == entry(
                    old(client)@,
                    k,
                ),
            started@.no_duplicates(),
            forall|c: Campaign| #[trigger]
                started@.contains(c) <==> old(table)@.contains_key(c.tower_id) && old(
                    table,
                )@[c.tower_id]@.should_start() && c == (Campaign {
                    tower_id: c.tower_id,
                    max_elapsed_time_secs,
                    max_interval_time_secs,
                }),
    {
        let keys = table.keys();
        let ghost before = table@;
        let ghost client_before = client@;
        let mut started: Vec<Campaign> = Vec::new();
        let mut i: usize = 0;
        while i < keys.len()
            invariant
                i <= keys@.len(),
                keys@.no_duplicates(),
                keys@.to_set() == before.dom(),
                filed(before),
                filed(table@),
                table@.dom() == before.dom(),
                client@.store_ops == client_before.store_ops,
                forall|k: TowerId| #[trigger]
                    before.contains_key(k) && keys@.index_of(k) >= i ==> table@[k] == before[k]
                        && entry(client@, k) == entry(client_before, k),
                forall|k: TowerId| #[trigger]
                    before.contains_key(k) && keys@.index_of(k) < i ==> ticked_one(
                        before[k]@,
                        client_before,
                        idle_time(idle_times@, k),
                        auto_retry_delay,
                        table@[k]@,
                        client@,
                    ),
                forall|k: TowerId|
                    !before.contains_key(k) ==> #[trigger] entry(client@, k) == entry(
                        client_before,
                        k,
                    ),
                started@.no_duplicates(),
                forall|c: Campaign| #[trigger]
                    started@.contains(c) <==> before.contains_key(c.tower_id) && keys@.index_of(
                        c.tower_id,
                    ) < i && before[c.tower_id]@.should_start() && c == (Campaign {
                        tower_id: c.tower_id,
                        max_elapsed_time_secs,
                        max_interval_time_secs,
                    }),
            decreases keys@.len() - i,
        {
            let key = keys[i];
            let ghost client_now = client@;
            let ghost started_now = started@;
            proof {
                lemma_position(keys@, i as int);
            }
            match table.remove(key) {
                Some(mut retrier) => {
                    if retrier.should_start() {
                        let campaign = retrier.start(
                            client,
                            max_elapsed_time_secs,
                            max_interval_time_secs,
                        );
                        proof {
                            assert forall|a: int, b: int|
                                0 <= a < started@.push(campaign).len() && 0 <= b < started@.push(
                                    campaign,
                                ).len() && a != b implies started@.push(campaign)[a]
                                != started@.push(campaign)[b] by {
                                if a < started@.len() {
                                    assert(started@.contains(started@[a]));
                                }
                                if b < started@.len() {
                                    assert(started@.contains(started@[b]));
                                }
                            }
                        }
                        started.push(campaign);
                    } else if retrier.is_idle() {
                        match idle_times.get(key) {
                            Some(secs) => {
                                retrier.wake_if_due(client, *secs, auto_retry_delay);
                            },
                            None => {},
                        }
                    }
                    proof {
                        assert(ticked_one(
                            before[key]@,
                            client_before,
                            idle_time(idle_times@, key),
                            auto_retry_delay,
                            retrier@,
                            client@,
                        ));
                        assert forall|k: TowerId| k != key implies entry(client@, k) == entry(
                            client_now,
                            k,
                        ) by {}
                    }
                    table.insert(key, retrier);
                },
                None => {},
            }
            proof {
                assert forall|k: TowerId| #[trigger]
                    before.contains_key(k) && keys@.index_of(k) >= i + 1 implies table@[k]
                    == before[k] && entry(client@, k) == entry(client_before, k) by {
                    lemma_position_of(keys@, k);
                }
                assert forall|k: TowerId| #[trigger]
                    before.contains_key(k) && keys@.index_of(k) < i + 1 implies ticked_one(
                    before[k]@,
                    client_before,
                    idle_time(idle_times@, k),
                    auto_retry_delay,
                    table@[k]@,
                    client@,
                ) by {
                    lemma_position_of(keys@, k);
                }
                assert forall|k: TowerId| !before.contains_key(k) implies #[trigger] entry(
                    client@,
                    k,
                ) == entry(client_before, k) by {
                    assert(entry(client@, k) == entry(client_now, k));
                }
                assert forall|c: Campaign| #[trigger]
                    started@.contains(c) <==> before.contains_key(c.tower_id) && keys@.index_of(
                        c.tower_id,
                    ) < i + 1 && before[c.tower_id]@.should_start() && c == (Campaign {
                        tower_id: c.tower_id,
                        max_elapsed_time_secs,
                        max_interval_time_secs,
                    }) by {
                    if started@ != started_now {
                        vstd::seq_lib::lemma_seq_contains_after_push(
                            started_now,
                            Campaign { tower_id: key, max_elapsed_time_secs, max_interval_time_secs },
                            c,
                        );
                    }
                    if before.contains_key(c.tower_id) {
                        lemma_position_of(keys@, c.tower_id);
                    }
                }
            }
            i = i + 1;
        }
        proof {
            assert forall|k: TowerId| before.contains_key(k) implies keys@.index_of(k)
                < keys@.len() by {
                lemma_position_of(keys@, k);
            }
        }
        started
    }

    /// The seconds for which each idle retrier has idled so far, as the
    /// clock has it.
    pub fn idle_times(&self) -> (idle_times: TowerMap<u64>)
        ensures
            forall|k: TowerId|
                idle_times@.contains_key(k) <==> self@.retriers.contains_key(k)
                    && self@.retriers[k].status is Idle,
    {
        let keys = self.retriers.keys();
        let mut idle_times: TowerMap<u64> = TowerMap::new();
        let mut i: usize = 0;
        while i < keys.len()
            invariant
                i <= keys@.len(),
                keys@.no_duplicates(),
                keys@.to_set() == self.retriers@.dom(),
                forall|k: TowerId| #[trigger]
                    idle_times@.contains_key(k) ==> self.retriers@.contains_key(k)
                        && keys@.index_of(k) < i && self.retriers@[k]@.status is Idle,
                forall|k: TowerId| #[trigger]
                    self.retriers@.contains_key(k) && keys@.index_of(k) < i
                        && self.retriers@[k]@.status is Idle ==> idle_times@.contains_key(k),
            decreases keys@.len() - i,
        {
            let key = keys[i];
            proof {
                lemma_position(keys@, i as int);
            }
            match self.retriers.get(key) {
                Some(retrier) => {
                    match retrier.get_elapsed_time() {
                        Some(secs) => {
                            idle_times.insert(key, secs);
                        },
                        None => {},
                    }
                },
                None => {},
            }
            proof {
                assert forall|k: TowerId| #[trigger]
                    self.retriers@.contains_key(k) && keys@.index_of(k) < i + 1
                        && self.retriers@[k]@.status is Idle implies idle_times@.contains_key(
                    k,
                ) by {
                    lemma_position_of(keys@, k);
                }
            }
            i = i + 1;
        }
        proof {
            assert forall|k: TowerId|
                idle_times@.contains_key(k) <==> self@.retriers.contains_key(k)
                    && self@.retriers[k].status is Idle by {
                if self.retriers@.contains_key(k) {
                    lemma_position_of(keys@, k);
                }
            }
        }
        idle_times
    }

    /// Takes a step of the supervision, given what was found on the channel
    /// and for how many seconds retriers have idled: see
    /// [`ManagerView::supervised`]. An idle retrier without an idle time
    /// stays idle.
    pub fn supervise(
        &mut self,
        client: &mut ClientState,
        received: Received,
        idle_times: &TowerMap<u64>,
    ) -> (step: ManagerStep)
        ensures
            final(self)@.wf(),
            old(self)@.supervised(
                old(client)@,
                received,
                idle_times@,
                final(self)@,
                final(client)@,
                step,
            ),
    {
        match received {
            Received::Message(tower_id, data) => {
                self.receive(client, tower_id, data);
                proof {
                    use_type_invariant(&*self);
                }
                ManagerStep::Receive
            },
            Received::Empty => {
                let max_elapsed_time_secs = self.max_elapsed_time_secs;
                let auto_retry_delay = self.auto_retry_delay;
                let max_interval_time_secs = self.max_interval_time_secs;
                let mut table = self.take_table();
                Self::reap(&mut table, client);
                let ghost reaped = table@;
                proof {
                    assert(views(reaped) =~= old(self)@.reap(old(client)@).0.retriers);
                }
                let started = Self::start_ready(
                    &mut table,
                    client,
                    idle_times,
                    max_elapsed_time_secs,
                    auto_retry_delay,
                    max_interval_time_secs,
                );
                self.retriers = table;
                ManagerStep::Tick { started }
            },
            Received::Disconnected => {
                proof {
                    use_type_invariant(&*self);
                }
                ManagerStep::Exit
            },
        }
    }

    /// Takes a step of the supervision, given what was found on the
    /// channel: see [`RetryManager::supervise`]. The idle times are read
    /// off the clock, one for each idle retrier.
    pub fn manage_retry(&mut self, client: &mut ClientState, received: Received) -> (step:
        ManagerStep)
        ensures
            final(self)@.wf(),
            exists|idle_times: Map<TowerId, u64>|
                {
                    &&& forall|k: TowerId|
                        idle_times.contains_key(k) <==> old(self)@.retriers.contains_key(k) && old(
                            self,
                        )@.retriers[k].status is Idle
                    &&& #[trigger] old(self)@.supervised(
                        old(client)@,
                        received,
                        idle_times,
                        final(self)@,
                        final(client)@,
                        step,
                    )
                },
    {
        let idle_times = self.idle_times();
        self.supervise(client, received, &idle_times)
    }

    /// Begins an attempt of the campaign for `tower_id`: see
    /// [`Retrier::run`]. `None` if the tower has no retrier.
    pub fn run(&self, client: &ClientState, tower_id: TowerId) -> (r: Option<RunStep>)
        ensures
            match r {
                Some(step) => self@.retriers.contains_key(tower_id) && begins(
                    self@.retriers[tower_id],
                    client@,
                    step,
                ) && step.proper(),
                None => !self@.retriers.contains_key(tower_id),
            },
    {
        match self.retriers.get(tower_id) {
            Some(retrier) => Some(retrier.run(client)),
            None => None,
        }
    }

    /// Goes on with an attempt for `tower_id` after the answer to a
    /// registration request: see [`Retrier::registered`]. `None`, and
    /// nothing changes, if the tower has no retrier.
    pub fn registered(&self, client: &mut ClientState, tower_id: TowerId, response: RegisterResponse) -> (r:
        Option<RunStep>)
        ensures
            final(client)@ == self@.register(old(client)@, tower_id, response),
            match r {
                Some(step) => self@.retriers.contains_key(tower_id) && follows_registration(
                    self@.retriers[tower_id],
                    old(client)@,
                    response,
                    step,
                ) && step.proper(),
                None => !self@.retriers.contains_key(tower_id),
            },
    {
        proof {
            use_type_invariant(self);
        }
        match self.retriers.get(tower_id) {
            Some(retrier) => Some(retrier.registered(client, response)),
            None => None,
        }
    }

    /// Goes on with an attempt for `tower_id` after the tower's answer to
    /// `delivery`: see [`Retrier::delivered`]. `None`, and nothing changes,
    /// if the tower has no retrier.
    pub fn delivered(
        &mut self,
        client: &mut ClientState,
        tower_id: TowerId,
        delivery: Delivery,
        response: Result<u32, AddAppointmentError>,
    ) -> (r: Option<RunStep>)
        ensures
            final(self)@.wf(),
            (final(self)@, final(client)@) == old(self)@.deliver(
                old(client)@,
                tower_id,
                delivery.target(),
                response,
            ),
            match r {
                Some(step) => old(self)@.retriers.contains_key(tower_id) && follows_delivery(
                    final(self)@.retriers[tower_id].pending,
                    delivery.remaining(),
                    response,
                    step,
                ) && step.proper(),
                None => !old(self)@.retriers.contains_key(tower_id),
            },
    {
        let mut table = self.take_table();
        let r = match table.remove(tower_id) {
            Some(mut retrier) => {
                let step = retrier.delivered(client, delivery, response);
                table.insert(tower_id, retrier);
                Some(step)
            },
            None => None,
        };
        self.retriers = table;
        proof {
            use_type_invariant(&*self);
            assert(self@ =~= old(self)@.deliver(
                old(client)@,
                tower_id,
                delivery.target(),
                response,
            ).0);
        }
        r
    }

    /// Ends the campaign for `tower_id` with `outcome`, at the time `now`:
    /// see [`Retrier::finish_at`]. Returns whether the tower has a retrier;
    /// nothing changes if it has none.
    pub fn finish_at(
        &mut self,
        client: &mut ClientState,
        tower_id: TowerId,
        outcome: Result<(), RetryError>,
        now: Instant,
    ) -> (found: bool)
        ensures
            final(self)@.wf(),
            found == old(self)@.retriers.contains_key(tower_id),
            (final(self)@, final(client)@) == old(self)@.finish(
                old(client)@,
                tower_id,
                outcome,
                now,
            ),
    {
        let mut table = self.take_table();
        let found = match table.remove(tower_id) {
            Some(mut retrier) => {
                retrier.finish_at(client, outcome, now);
                table.insert(tower_id, retrier);
                true
            },
            None => false,
        };
        self.retriers = table;
        proof {
            use_type_invariant(&*self);
            assert(self@ =~= old(self)@.finish(old(client)@, tower_id, outcome, now).0);
        }
        found
    }

    /// Ends the campaign for `tower_id` with `outcome`, now: see
    /// [`RetryManager::finish_at`]. The time is read off the clock.
    pub fn finish(&mut self, client: &mut ClientState, tower_id: TowerId, outcome: Result<(), RetryError>) -> (found:
        bool)
        ensures
            final(self)@.wf(),
            found == old(self)@.retriers.contains_key(tower_id),
            exists|now: Instant|
                (final(self)@, final(client)@) == #[trigger] old(self)@.finish(
                    old(client)@,
                    tower_id,
                    outcome,
                    now,
                ),
    {
        let now = Instant::now();
        self.finish_at(client, tower_id, outcome, now)
    }
}

/// In a sequence without duplicates the element at `i` is found at `i`.
proof fn lemma_position(s: Seq<TowerId>, i: int)
    requires
        s.no_duplicates(),
        0 <= i < s.len(),
    ensures
        s.index_of(s[i]) == i,
{
}

/// A member of a sequence is found at an index of the sequence.
proof fn lemma_position_of(s: Seq<TowerId>, k: TowerId)
    requires
        s.to_set().contains(k),
    ensures
        0 <= s.index_of(k) < s.len(),
        s[s.index_of(k)] == k,
{
}

} // verus!
