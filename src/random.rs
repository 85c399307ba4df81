use rand::Rng;
use vstd::prelude::*;

verus! {

/// Relies on rand's `Rng::gen_range` over an inclusive range, drawn from the
/// thread-local generator: the value lies within the range. The call panics
/// on an empty range, which `requires` leaves out.
#[verifier::external_body]
pub(crate) fn random_in(lo: usize, hi: usize) -> (r: usize)
    requires
        lo <= hi,
    ensures
        lo <= r <= hi,
{
    rand::thread_rng().gen_range(lo..=hi)
}

/// Relies on rand's `Rng::gen::<u128>`, drawn from the thread-local
/// generator and written in lower-case hex after `prefix`: the result starts
/// with `prefix` and has at least one digit after it.
#[verifier::external_body]
pub(crate) fn generate_id(prefix: &str) -> (r: String)
    ensures
        r@.len() > prefix@.len(),
        r@.take(prefix@.len() as int) == prefix@,
{
    format!("{}{:x}", prefix, rand::thread_rng().gen::<u128>())
}

/// An ASCII letter or digit.
pub open spec fn is_alphanumeric(c: char) -> bool {
    ('a' <= c && c <= 'z') || ('A' <= c && c <= 'Z') || ('0' <= c && c <= '9')
}

/// Relies on rand's `Alphanumeric` distribution sampled `n` times from the
/// thread-local generator: `n` characters, each an ASCII letter or digit.
#[verifier::external_body]
pub(crate) fn random_alphanumeric(n: usize) -> (r: String)
    ensures
        r@.len() == n,
        forall|i: int| 0 <= i < r@.len() ==> is_alphanumeric(#[trigger] r@[i]),
{
    rand::thread_rng().sample_iter(&rand::distributions::Alphanumeric).take(n).map(char::from).collect()
}

} // verus!
