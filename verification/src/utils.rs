//! Small numeric helpers shared by the tasks.

use vstd::prelude::*;

verus! {

/// Folds a raw 32-bit random draw into `start..end`, as the randomized
/// backoff variant of the send policy uses it. The caller supplies the raw
/// draw; where it is uniform, so is the result over the range's residues.
pub fn random_u32_in_range(raw: u32, start: u32, end: u32) -> (r: u32)
    requires
        start < end,
    ensures
        r as int == start as int + (raw as int) % ((end - start) as int),
        start <= r < end,
{
    (raw % (end - start)) + start
}

} // verus!
