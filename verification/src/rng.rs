use vstd::prelude::*;

verus! {

/// Relies on `rand::random_range`: a uniform draw from the given inclusive
/// range. The call panics only on an empty range, which the precondition
/// rules out; nothing more than the bounds is promised of the outcome.
#[verifier::external_body]
pub(crate) fn random_between(lo: u64, hi: u64) -> (r: u64)
    requires
        lo <= hi,
    ensures
        lo <= r <= hi,
{
    rand::random_range(lo..=hi)
}

} // verus!
