//! The wall clock.
use std::time::{SystemTime, UNIX_EPOCH};
use vstd::prelude::*;

verus! {

/// Relies on `std::time::SystemTime::now`: the current time in whole seconds
/// since the Unix epoch (0 when the clock reads earlier). Nothing is promised
/// of its value.
#[verifier::external_body]
pub fn now_secs() -> (r: u64) {
    match SystemTime::now().duration_since(UNIX_EPOCH) {
        Ok(d) => d.as_secs(),
        Err(_) => 0,
    }
}

} // verus!
