use vstd::prelude::*;
use vstd::arithmetic::div_mod::lemma_fundamental_div_mod_converse;

verus! {

/// The `k`-th cell of the square grid with corners `(-half, -half)` and
/// `(half - 1, half - 1)`, walked row by row: the first coordinate is that of
/// the row, the second runs within it.
pub open spec fn is_grid_cell(half: i32, k: int, c: (i32, i32)) -> bool {
    &&& c.0 as int == k / (2 * half as int) - half
    &&& c.1 as int == k % (2 * half as int) - half
}

/// The grid cells where the small spheres of the random scene may be placed,
/// in the order in which they are visited.
pub fn grid_cells(half: i32) -> (r: Vec<(i32, i32)>)
    requires
        0 <= half < 0x4000_0000,
    ensures
        r@.len() == 4 * half * half,
        forall|k: int| 0 <= k < r@.len() ==> is_grid_cell(half, k, #[trigger] r@[k]),
{
    let side: i32 = 2 * half;
    let mut out: Vec<(i32, i32)> = Vec::new();
    let mut a: i32 = -half;
    while a < half
        invariant
            0 <= half < 0x4000_0000,
            side == 2 * half,
            -half <= a <= half,
            out@.len() == (a + half) * side,
            forall|k: int| 0 <= k < out@.len() ==> is_grid_cell(half, k, #[trigger] out@[k]),
        decreases half - a,
    {
        let mut b: i32 = -half;
        while b < half
            invariant
                0 <= half < 0x4000_0000,
                side == 2 * half,
                -half <= a < half,
                -half <= b <= half,
                out@.len() == (a + half) * side + (b + half),
                forall|k: int| 0 <= k < out@.len() ==> is_grid_cell(half, k, #[trigger] out@[k]),
            decreases half - b,
        {
            proof {
                lemma_fundamental_div_mod_converse(out@.len() as int, side as int, a + half, b + half);
            }
            out.push((a, b));
            b = b + 1;
        }
        proof {
            assert((a + half + 1) * side == (a + half) * side + side) by (nonlinear_arith);
        }
        a = a + 1;
    }
    proof {
        assert((a + half) * side == 4 * half * half) by (nonlinear_arith)
            requires a == half, side == 2 * half;
    }
    out
}

} // verus!
