use vstd::prelude::*;

verus! {

/// Index of cell `(x, y)` in a row-major grid `max_x` cells wide.
pub fn get_index(x: usize, y: usize, max_x: usize) -> (r: usize)
    requires
        y * max_x + x <= usize::MAX,
    ensures
        r == y * max_x + x,
{
    assert(0 <= y * max_x) by (nonlinear_arith)
        requires
            0 <= y,
            0 <= max_x,
    ;
    (y * max_x) + x
}

} // verus!
