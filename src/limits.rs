use vstd::prelude::*;

verus! {

/// Largest magnitude of a world coordinate, a size or a per-tick speed. World
/// units are integers (the shell picks how many make a pixel); with this bound
/// every sum the simulation forms stays far inside `i64`.
pub const COORD_LIMIT: i64 = 1_099_511_627_776;

/// `v` lies within `k` times the coordinate bound, on either side of zero.
pub open spec fn within(v: int, k: int) -> bool {
    -k * (COORD_LIMIT as int) <= v <= k * (COORD_LIMIT as int)
}

} // verus!
