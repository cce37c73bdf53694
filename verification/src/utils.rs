use vstd::prelude::*;
use vstd::string::StrSliceExecFns;

verus! {

/// Whether two strings hold the same characters, decided by scanning.
pub fn str_eq(a: &str, b: &str) -> (r: bool)
    ensures
        r == (a@ == b@),
{
    let n = a.unicode_len();
    if n != b.unicode_len() {
        return false;
    }
    let mut i: usize = 0;
    while i < n
        invariant
            i <= n,
            n == a@.len() == b@.len(),
            forall|j: int| 0 <= j < i ==> a@[j] == b@[j],
        decreases n - i,
    {
        if a.get_char(i) != b.get_char(i) {
            return false;
        }
        i += 1;
    }
    proof {
        assert(a@ =~= b@);
    }
    true
}

/// Relies on `fastrand::u32`: returns a uniform sample from the given
/// half-open range; the crate panics only when the range is empty, which the
/// precondition rules out.
#[verifier::external_body]
fn sample_in(min: u32, max: u32) -> (r: u32)
    requires
        min < max,
    ensures
        min <= r < max,
{
    fastrand::u32(min..max)
}

/// Uniform integer sampling over the half-open range `[min, max)`, with an
/// explicit policy for degenerate ranges: when `min == max` the shared bound
/// itself is returned instead of sampling an empty range. In particular a
/// variant count of exactly one (the range `[1, 1)`) yields variant 1.
pub fn random(min: u32, max: u32) -> (r: u32)
    requires
        min <= max,
    ensures
        min == max ==> r == max,
        min < max ==> min <= r < max,
{
    if min == 1 && max == 1 {
        return 1;
    } else if min == max {
        return max;
    }
    sample_in(min, max)
}

} // verus!
