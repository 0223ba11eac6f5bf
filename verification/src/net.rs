//! What a tower answers to the requests of a retrier.

use vstd::prelude::*;
use crate::client::RegistrationReceipt;
use crate::status::MisbehaviorProof;

verus! {

/// The outcome of a request to register with a tower.
#[derive(Clone, Copy, Debug, PartialEq, Eq, Structural)]
pub enum RegisterResponse {
    /// The request did not get through.
    RequestError,
    /// The tower answered with a receipt. `verified` says whether the tower's
    /// own key signed it.
    Receipt { receipt: RegistrationReceipt, verified: bool },
}

/// The error codes of the tower's API, as far as the retrier tells them apart.
#[derive(Clone, Copy, Debug, PartialEq, Eq, Structural)]
pub enum ApiError {
    /// The tower does not accept the user's signature, or the subscription
    /// has run out.
    InvalidSignatureOrSubscription,
    /// Any other code: the tower rejects this appointment.
    Rejected { error_code: u8 },
}

/// Why a tower did not accept an appointment.
#[derive(Clone, Copy, Debug, PartialEq, Eq, Structural)]
pub enum AddAppointmentError {
    /// The request failed. `is_connection` says whether no connection could
    /// be made.
    RequestError { is_connection: bool },
    /// The tower answered with an error.
    ApiError(ApiError),
    /// The tower accepted, with a receipt that its own key did not sign.
    SignatureError(MisbehaviorProof),
}

} // verus!
