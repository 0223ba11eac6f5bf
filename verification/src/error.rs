//! Why an attempt to serve a tower failed.

use vstd::prelude::*;
use crate::status::MisbehaviorProof;

verus! {

/// `backoff::Error`, the error of an operation that is retried, marked as
/// `Permanent` or as `Transient`. The type is taken with its two variants,
/// as the crate declares them.
#[verifier::external_type_specification]
#[verifier::reject_recursive_types(E)]
pub struct ExBackoffError<E>(backoff::Error<E>);

/// `backoff::Error::permanent` returns its argument as a `Permanent` error.
pub assume_specification<E>[ backoff::Error::<E>::permanent ](err: E) -> (error: backoff::Error<E>)
    ensures
        error == backoff::Error::<E>::Permanent(err),
;

/// `backoff::Error::transient` returns its argument as a `Transient` error
/// that names no pause of its own: `retry_after` is `None`.
pub assume_specification<E>[ backoff::Error::<E>::transient ](err: E) -> (error: backoff::Error<E>)
    ensures
        error == (backoff::Error::<E>::Transient { err: err, retry_after: None }),
;

/// Why an attempt to serve a tower failed.
#[derive(Debug, PartialEq, Eq)]
pub enum RetryError {
    /// The subscription could not be renewed. The flag says whether this is
    /// final.
    Subscription(String, bool),
    /// The tower could not be reached.
    Unreachable,
    /// The tower signed a receipt with a key that is not its own.
    Misbehaving(MisbehaviorProof),
    /// The tower is no longer among the client's towers.
    Abandoned,
}

impl RetryError {
    /// Whether retrying is pointless.
    pub open spec fn permanent(&self) -> bool {
        match self {
            RetryError::Subscription(_, permanent) => *permanent,
            RetryError::Unreachable => false,
            RetryError::Misbehaving(_) => true,
            RetryError::Abandoned => true,
        }
    }

    /// The text that describes the error.
    pub open spec fn message(&self) -> Seq<char> {
        match self {
            RetryError::Subscription(reason, _) => reason@,
            RetryError::Unreachable => "Tower cannot be reached"@,
            RetryError::Misbehaving(_) => "Tower misbehaved"@,
            RetryError::Abandoned => "Tower was abandoned. Skipping retry"@,
        }
    }

    /// Whether retrying is pointless: a final subscription error, a
    /// misbehaving tower or an abandoned one.
    pub fn is_permanent(&self) -> (r: bool)
        ensures
            r == self.permanent(),
    {
        matches!(
            self,
            RetryError::Subscription(_, true) | RetryError::Misbehaving(_) | RetryError::Abandoned
        )
    }

    /// The text that describes the error.
    pub fn to_string(&self) -> (text: String)
        ensures
            text@ == self.message(),
    {
        match self {
            RetryError::Subscription(reason, _) => reason.clone(),
            RetryError::Unreachable => "Tower cannot be reached".to_string(),
            RetryError::Misbehaving(_) => "Tower misbehaved".to_string(),
            RetryError::Abandoned => "Tower was abandoned. Skipping retry".to_string(),
        }
    }

    /// The error with the mark that the retry loop reads: a permanent error
    /// ends the campaign, any other is retried after whatever pause the
    /// backoff policy gives.
    pub open spec fn marked(error: RetryError) -> backoff::Error<RetryError> {
        if error.permanent() {
            backoff::Error::Permanent(error)
        } else {
            backoff::Error::Transient { err: error, retry_after: None }
        }
    }
}

} // verus!
