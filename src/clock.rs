//! The wall clock.
use vstd::prelude::*;

verus! {

/// Relies on `std::time::SystemTime::now` and its `duration_since(UNIX_EPOCH)`:
/// the current time in whole milliseconds since the Unix epoch, or `None` when
/// the system clock reads earlier than that epoch. Nothing is promised of the
/// value: two calls may return anything, in any order.
#[verifier::external_body]
pub(crate) fn get_time() -> (r: Option<u128>) {
    match std::time::SystemTime::now().duration_since(std::time::UNIX_EPOCH) {
        Ok(elapsed) => Some(elapsed.as_millis()),
        Err(_) => None,
    }
}

} // verus!
