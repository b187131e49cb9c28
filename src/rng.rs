use rand::Rng;
use vstd::prelude::*;

verus! {

/// Relies on rand::Rng::gen_range, drawn from rand::thread_rng: a value of the
/// half-open range `lo..hi`, which it requires to be non-empty.
#[verifier::external_body]
pub(crate) fn draw_in(lo: i64, hi: i64) -> (r: i64)
    requires
        lo < hi,
    ensures
        lo <= r < hi,
{
    rand::thread_rng().gen_range(lo..hi)
}

} // verus!
