//! The clock the orchestrator's freshness test runs against.
//!
//! The current instant comes from the system clock and can be anything, so
//! nothing is promised about its value; everything that depends on the time
//! takes the instant as an argument and is verified for every value of it.
//! The trusted reading is total: a clock set before the Unix epoch comes
//! back as the absent case and is handled here, in verified code.

use vstd::prelude::*;

verus! {

/// Relies on std::time::SystemTime::now and its duration_since the Unix
/// epoch: the raw clock reading. Neither call panics; a clock set before
/// the epoch is the error side of the result and comes back as `None`.
#[verifier::external_body]
fn system_unix_seconds() -> (t: Option<u64>) {
    match std::time::SystemTime::now().duration_since(std::time::UNIX_EPOCH) {
        Ok(since_epoch) => Some(since_epoch.as_secs()),
        Err(_) => None,
    }
}

/// The current instant in the form the credential record stores: seconds
/// since the Unix epoch. A clock set before the epoch reads as the epoch
/// itself, which any stored expiry treats as long expired.
pub fn current_unix_seconds() -> (t: u64) {
    match system_unix_seconds() {
        Some(seconds) => seconds,
        None => 0,
    }
}

} // verus!
