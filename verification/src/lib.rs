//! Retry engine of a watchtower client.
//!
//! The engine keeps, for every tower that could not be reached, a [`Retrier`]
//! holding the appointments that still have to be delivered, and a
//! [`RetryManager`] that supervises all of them. Everything here is a
//! deterministic transition on plain state: the caller performs the network
//! requests, the sleeping and the writes to the durable store that the
//! transitions ask for, and feeds the results back.

pub mod client;
pub mod error;
pub mod ids;
pub mod laws;
pub mod locator_set;
pub mod manager;
pub mod net;
pub mod retrier;
pub mod revocation;
pub mod status;
pub mod tower_map;

pub use client::{
    ClientState, ClientView, RegistrationReceipt, StoreOp, SubscriptionError, Tower, TowerView,
};
pub use error::RetryError;
pub use ids::{Locator, TowerId};
pub use locator_set::LocatorSet;
pub use manager::{ManagerStep, ManagerView, Received, RetryManager, TICK_SECS};
pub use net::{AddAppointmentError, ApiError, RegisterResponse};
pub use retrier::{Campaign, Delivery, Retrier, RetrierView, RunStep};
pub use revocation::RevocationData;
pub use status::{MisbehaviorProof, RetrierStatus, TowerStatus};
pub use tower_map::TowerMap;
