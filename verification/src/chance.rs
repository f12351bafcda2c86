//! The one source of chance: a draw from the host's pseudo-random generator.

use vstd::prelude::*;

verus! {

/// Draws a whole number between `low` and `high` by a call of
/// `macroquad::rand::gen_range`, the generator that the host's framework keeps.
///
/// The contract is taken on trust from the generator's source; nothing here
/// proves it. The generator takes a fraction `u` with `0 <= u < 1`, computes
/// `low + (high - low) * u` in double precision, in which every `i32` and
/// every difference of two is exact, and converts back by dropping the digits
/// behind the point. So the number lies between the two ends, whichever of
/// them is the larger. Both ends are included: rounding can reach the far end
/// when the numbers are large. Nothing is claimed of which number comes, nor
/// of how the numbers are spread. The call never fails.
#[verifier::external_body]
pub(crate) fn draw_between(low: i32, high: i32) -> (n: i32)
    ensures
        low <= high ==> low <= n <= high,
        high <= low ==> high <= n <= low,
{
    macroquad::rand::gen_range(low, high)
}

} // verus!
