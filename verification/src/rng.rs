//! Randomness for spawner placement, behind one trusted wrapper.

use crate::fx::{fx_wf, Fx};
use vstd::prelude::*;

verus! {

/// Relies on rand::Rng::gen_range over `0..n`: returns a uniformly sampled
/// value of the nonempty range, always strictly below `n`.
#[verifier::external_body]
fn rand_below(n: u64) -> (r: u64)
    requires
        n > 0,
    ensures
        r < n,
{
    rand::Rng::gen_range(&mut rand::thread_rng(), 0..n)
}

/// A random fixed-point value in `[lo, hi)`, or `lo` when the range is empty.
pub fn rand_fx(lo: Fx, hi: Fx) -> (r: Fx)
    requires
        fx_wf(lo as int),
        fx_wf(hi as int),
    ensures
        lo < hi ==> lo <= r < hi,
        lo >= hi ==> r == lo,
        fx_wf(r as int),
{
    if lo >= hi {
        lo
    } else {
        let span: u64 = (hi - lo) as u64;
        let off: u64 = rand_below(span);
        lo + off as i64
    }
}

/// A fair coin flip.
pub(crate) fn rand_bool() -> (r: bool) {
    rand_below(2) == 1
}

} // verus!
