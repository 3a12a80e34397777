//! The ways a single request can fail. A failure of one bridge never affects
//! other bridges sharing the same pool; a handler maps each kind to a 5xx
//! status, and a one-shot caller maps it to a diagnostic and a non-zero exit.

use vstd::prelude::*;

verus! {

/// Why a bridge could not deliver a value for its request.
pub enum BridgeError {
    /// The pool refused the task because it had been shut down.
    PoolClosed,
    /// The producing half of the result slot was destroyed before a value was
    /// sent, so no value will ever arrive.
    ResultChannelBroken,
    /// The blocking operation itself reported a failure; the payload is its
    /// diagnostic message.
    UpstreamGenerationFailure(String),
}

impl BridgeError {
    /// The HTTP status a handler answers with for this failure: always a
    /// server-side (5xx) status, never a success.
    pub fn status_code(&self) -> (c: u16)
        ensures
            500 <= c < 600,
            self is PoolClosed ==> c == 503,
            self is ResultChannelBroken ==> c == 500,
            self is UpstreamGenerationFailure ==> c == 502,
    {
        match self {
            BridgeError::PoolClosed => 503,
            BridgeError::ResultChannelBroken => 500,
            BridgeError::UpstreamGenerationFailure(_) => 502,
        }
    }

    /// A fixed diagnostic for this failure kind, for logs or a one-shot
    /// caller's error output.
    pub fn message(&self) -> (m: &'static str)
        ensures
            self is PoolClosed ==> m@ == "the worker pool is shut down"@,
            self is ResultChannelBroken ==> m@ == "the result slot broke before a value arrived"@,
            self is UpstreamGenerationFailure ==> m@ == "the blocking operation failed"@,
    {
        match self {
            BridgeError::PoolClosed => "the worker pool is shut down",
            BridgeError::ResultChannelBroken => "the result slot broke before a value arrived",
            BridgeError::UpstreamGenerationFailure(_) => "the blocking operation failed",
        }
    }
}

} // verus!
