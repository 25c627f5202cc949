use vstd::prelude::*;
use vstd::arithmetic::div_mod::lemma_fundamental_div_mod_converse;

verus! {

/// The `k`-th pixel written for an image `width` pixels wide and `height`
/// high is `p` = (column, row). Rows are written from the top one (row
/// `height - 1`) down to row 0, and each row from column 0 to the right.
pub open spec fn is_scan_pixel(width: u32, height: u32, k: int, p: (u32, u32)) -> bool {
    &&& p.0 as int == k % (width as int)
    &&& p.1 as int == height - 1 - k / (width as int)
}

/// The pixels of a `width` by `height` image in the order in which they are
/// written out: exactly one entry per pixel.
pub fn scan_order(width: u32, height: u32) -> (r: Vec<(u32, u32)>)
    requires
        width as nat * height as nat <= usize::MAX,
    ensures
        r@.len() == width as nat * height as nat,
        forall|k: int| 0 <= k < r@.len() ==> is_scan_pixel(width, height, k, #[trigger] r@[k]),
{
    let mut out: Vec<(u32, u32)> = Vec::new();
    let mut done: u32 = 0;
    while done < height
        invariant
            done <= height,
            width as nat * height as nat <= usize::MAX,
            out@.len() == done as nat * width as nat,
            forall|k: int| 0 <= k < out@.len() ==> is_scan_pixel(width, height, k, #[trigger] out@[k]),
        decreases height - done,
    {
        let row: u32 = height - 1 - done;
        let mut col: u32 = 0;
        while col < width
            invariant
                col <= width,
                done < height,
                row == height - 1 - done,
                out@.len() == done as nat * width as nat + col as nat,
                forall|k: int| 0 <= k < out@.len() ==> is_scan_pixel(width, height, k, #[trigger] out@[k]),
            decreases width - col,
        {
            proof {
                lemma_fundamental_div_mod_converse(out@.len() as int, width as int, done as int, col as int);
            }
            out.push((col, row));
            col = col + 1;
        }
        proof {
            assert((done as nat + 1) * width as nat == done as nat * width as nat + width as nat) by (nonlinear_arith);
        }
        done = done + 1;
    }
    proof {
        assert(done as nat * width as nat == width as nat * height as nat) by (nonlinear_arith)
            requires done == height;
    }
    out
}

} // verus!
