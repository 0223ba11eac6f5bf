//! Status of a tower and of the retrier that serves it.

use vstd::prelude::*;
use crate::ids::{Locator, TowerId};

verus! {

/// `std::time::Instant`, a point on the monotonic clock, taken as an opaque
/// value.
#[verifier::external_type_specification]
#[verifier::external_body]
pub struct ExInstant(std::time::Instant);

/// `std::time::Instant::now` reads the monotonic clock. Nothing is claimed
/// of the instant that it returns.
pub assume_specification[ std::time::Instant::now ]() -> (now: std::time::Instant)
;

/// `std::time::Instant::elapsed` measures the time that has passed since
/// the instant. Nothing is claimed of the duration that it returns.
pub assume_specification[ std::time::Instant::elapsed ](
    instant: &std::time::Instant,
) -> (elapsed: std::time::Duration)
;

/// `std::time::Duration::as_secs` gives the whole seconds of a duration. A
/// duration is an opaque value here, so nothing is claimed of the number.
pub assume_specification[ std::time::Duration::as_secs ](duration: &std::time::Duration) -> (secs:
    u64)
;

/// Evidence that a tower answered with a receipt that its own key did not
/// sign: the appointment concerned and the key that the signature recovers to.
/// The receipt itself is kept by whoever talks to the tower.
#[derive(Clone, Copy, Debug, PartialEq, Eq, Structural)]
pub struct MisbehaviorProof {
    pub locator: Locator,
    pub recovered_id: TowerId,
}

/// What the client knows of a tower.
#[derive(Clone, Copy, Debug, PartialEq, Eq, Structural)]
pub enum TowerStatus {
    /// The tower answers.
    Reachable,
    /// The tower did not answer and a retrier is working on it.
    TemporaryUnreachable,
    /// The tower did not answer for a whole campaign; its retrier idles.
    Unreachable,
    /// The subscription with the tower ran out or was never valid.
    SubscriptionError,
    /// The tower handed out a receipt it did not sign. Final.
    Misbehaving(MisbehaviorProof),
}

impl TowerStatus {
    pub fn is_reachable(&self) -> (r: bool)
        ensures
            r == (*self is Reachable),
    {
        matches!(self, TowerStatus::Reachable)
    }

    pub fn is_temporary_unreachable(&self) -> (r: bool)
        ensures
            r == (*self is TemporaryUnreachable),
    {
        matches!(self, TowerStatus::TemporaryUnreachable)
    }

    pub fn is_unreachable(&self) -> (r: bool)
        ensures
            r == (*self is Unreachable),
    {
        matches!(self, TowerStatus::Unreachable)
    }

    pub fn is_subscription_error(&self) -> (r: bool)
        ensures
            r == (*self is SubscriptionError),
    {
        matches!(self, TowerStatus::SubscriptionError)
    }

    pub fn is_misbehaving(&self) -> (r: bool)
        ensures
            r == (*self is Misbehaving),
    {
        matches!(self, TowerStatus::Misbehaving(_))
    }
}

/// Where a retrier stands.
#[derive(Clone, Copy, Debug, PartialEq, Eq)]
pub enum RetrierStatus {
    /// Never started, or finished with success. With pending appointments it
    /// is due to be started, without any it can be dropped.
    Stopped,
    /// A campaign is under way.
    Running,
    /// The campaign ended for good. The retrier is not started again.
    Failed,
    /// The campaign gave up on passing failures at the given time. The
    /// retrier waits to be woken, by hand or by the clock.
    Idle(std::time::Instant),
}

impl RetrierStatus {
    /// Whether the status is `Stopped`.
    pub fn is_stopped(&self) -> (r: bool)
        ensures
            r == (*self is Stopped),
    {
        matches!(self, RetrierStatus::Stopped)
    }

    /// Whether the status is `Running`.
    pub fn is_running(&self) -> (r: bool)
        ensures
            r == (*self is Running),
    {
        matches!(self, RetrierStatus::Running)
    }

    /// Whether the status is `Idle`.
    pub fn is_idle(&self) -> (r: bool)
        ensures
            r == (*self is Idle),
    {
        matches!(self, RetrierStatus::Idle(_))
    }

    /// Whether the status is `Failed`.
    pub fn failed(&self) -> (r: bool)
        ensures
            r == (*self is Failed),
    {
        matches!(self, RetrierStatus::Failed)
    }

    /// Whole seconds spent idling so far, for an `Idle` status; `None` for
    /// any other. The number comes from the clock.
    pub fn get_elapsed_time(&self) -> (r: Option<u64>)
        ensures
            r is Some <==> *self is Idle,
    {
        if let RetrierStatus::Idle(since) = *self {
            Some(since.elapsed().as_secs())
        } else {
            None
        }
    }

    /// Whether the retrier counts among the active ones, those that callers
    /// can look up: running or idle.
    pub open spec fn is_active(&self) -> bool {
        *self is Running || *self is Idle
    }
}

} // verus!
