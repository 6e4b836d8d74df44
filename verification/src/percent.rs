//! Integer percentage arithmetic, used everywhere a part/whole ratio is
//! reported. Division truncates toward zero; the whole must be positive.

use vstd::prelude::*;

verus! {

/// Mathematical value of the percentage: `floor(part * 100 / whole)`.
pub open spec fn spec_percent(part: u64, whole: u64) -> int {
    (part * 100) / (whole as int)
}

/// The percentage lies in `0..=100` whenever `part <= whole`; it is `0` for a
/// zero part, `100` for the whole itself, and reaches `100` only there.
pub proof fn lemma_percent_bounds(part: u64, whole: u64)
    requires
        whole > 0,
        part <= whole,
    ensures
        0 <= spec_percent(part, whole) <= 100,
        spec_percent(0, whole) == 0,
        spec_percent(whole, whole) == 100,
        spec_percent(part, whole) == 100 ==> part == whole,
{
    assert(0 <= (part * 100) / (whole as int) <= 100) by (nonlinear_arith)
        requires
            whole > 0,
            0 <= part <= whole,
    ;
    assert((0 as int * 100) / (whole as int) == 0) by (nonlinear_arith)
        requires
            whole > 0,
    ;
    assert((whole * 100) / (whole as int) == 100) by (nonlinear_arith)
        requires
            whole > 0,
    ;
    assert(part < whole ==> (part * 100) / (whole as int) < 100) by (nonlinear_arith)
        requires
            whole > 0,
            0 <= part <= whole,
    ;
}

/// Percentage of `part` relative to `whole`, with truncating integer division.
pub fn percent(part: u64, whole: u64) -> (r: u64)
    requires
        whole > 0,
        part <= whole,
    ensures
        r == spec_percent(part, whole),
        0 <= r <= 100,
        r == 100 ==> part == whole,
{
    proof {
        lemma_percent_bounds(part, whole);
    }
    (((part as u128) * 100) / (whole as u128)) as u64
}

} // verus!
