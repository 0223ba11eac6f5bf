//! What is sent to the retry manager about a tower.

use vstd::prelude::*;
use crate::ids::Locator;
use crate::locator_set::LocatorSet;

verus! {

/// What is sent to the retry manager about a tower.
#[derive(Debug)]
pub enum RevocationData {
    /// A commitment was just revoked: one appointment to deliver.
    Fresh(Locator),
    /// Appointments that were pending already, such as those found in the
    /// store when the client starts.
    Stale(LocatorSet),
    /// Nothing to deliver: a call to wake an idle retrier.
    WakeUp,
}

impl RevocationData {
    /// The appointments that the data names.
    pub open spec fn locators(&self) -> Set<Locator> {
        match self {
            RevocationData::Fresh(locator) => Set::empty().insert(*locator),
            RevocationData::Stale(locators) => locators@,
            RevocationData::WakeUp => Set::empty(),
        }
    }

    /// Whether the data is a mere wake-up call.
    pub fn is_none(&self) -> (r: bool)
        ensures
            r == (*self is WakeUp),
    {
        matches!(self, RevocationData::WakeUp)
    }

    /// The appointments that the data names, as a set.
    pub fn to_locator_set(self) -> (set: LocatorSet)
        ensures
            set@ == self.locators(),
    {
        match self {
            RevocationData::Fresh(locator) => LocatorSet::singleton(locator),
            RevocationData::Stale(locators) => locators,
            RevocationData::WakeUp => LocatorSet::new(),
        }
    }
}

} // verus!
