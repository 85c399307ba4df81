use vstd::prelude::*;

verus! {

/// Relies on `std::time::SystemTime::now`: the milliseconds since the Unix
/// epoch, read as 0 when the clock stands before it. Nothing is known of the
/// value.
#[verifier::external_body]
pub(crate) fn unix_now_ms() -> (r: u64) {
    match std::time::SystemTime::now().duration_since(std::time::UNIX_EPOCH) {
        Ok(d) => d.as_millis() as u64,
        Err(_) => 0,
    }
}

} // verus!
