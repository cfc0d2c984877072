use vstd::prelude::*;

verus! {

/// A triangle wave on 0..510: up from 0 to 255, then back down.
pub open spec fn spec_osc(n: int) -> int {
    if n <= 255 {
        n
    } else {
        255 - n % 255
    }
}

pub fn osc(n: i32) -> (r: i32)
    requires
        0 <= n,
    ensures
        r == spec_osc(n as int),
        n < 510 ==> 0 <= r <= 255,
{
    if n <= 255 {
        n
    } else {
        255 - (n % 255)
    }
}

/// The red, green and blue levels, each 0 to 255, of the dots added at
/// step `n`: three triangle waves of different speeds.
pub fn color_levels(n: i32) -> (r: [i32; 3])
    requires
        0 <= n,
        7 * n <= i32::MAX,
    ensures
        r[0] == spec_osc(3 * n % 510),
        r[1] == spec_osc(5 * n % 510),
        r[2] == spec_osc(7 * n % 510),
        forall|i: int| 0 <= i < 3 ==> 0 <= #[trigger] r@[i] <= 255,
{
    [osc(3 * n % 510), osc(5 * n % 510), osc(7 * n % 510)]
}

} // verus!
