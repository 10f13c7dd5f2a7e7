//! The pixel grid: from a requested cell budget and the window's size to the
//! number of cells across and down.
//!
//! The demo asks for about `res` square cells over a window of `width` by
//! `height` pixels. The count across is the largest `x` whose square, scaled
//! by the aspect ratio, stays within the budget — the floor of the square
//! root of `res * width / height`. Each cell is then `width / x` pixels wide,
//! and the count down is how many such cells the height holds, which is the
//! floor of `height * x / width`.

use vstd::prelude::*;
use vstd::arithmetic::div_mod::{
    lemma_div_by_multiple, lemma_div_is_ordered, lemma_fundamental_div_mod, lemma_mod_bound,
};

verus! {

/// The largest integer whose square, scaled by `den`, is at most `num`: the
/// floor of the square root of `num / den`.
fn floor_sqrt_ratio(num: u64, den: u64) -> (r: u64)
    requires
        den >= 1,
    ensures
        r * r * den <= num,
        num < (r + 1) * (r + 1) * den,
        r <= u32::MAX,
{
    let mut lo: u64 = 0;
    let mut hi: u64 = 0x1_0000_0000;
    proof {
        assert(0x1_0000_0000int * 0x1_0000_0000int * den > num) by (nonlinear_arith)
            requires
                den >= 1,
                num <= 0xffff_ffff_ffff_ffffu64,
        ;
    }
    while lo + 1 < hi
        invariant
            lo < hi <= 0x1_0000_0000,
            den >= 1,
            lo * lo * den <= num,
            num < hi * hi * den,
        decreases hi - lo,
    {
        let mid: u64 = lo + (hi - lo) / 2;
        let m: u128 = mid as u128;
        proof {
            assert(m * m <= 0x1_0000_0000int * 0x1_0000_0000int) by (nonlinear_arith)
                requires
                    0 <= m <= 0x1_0000_0000u128,
            ;
            assert(m * m * den <= 0x1_0000_0000_0000_0000int * 0xffff_ffff_ffff_ffffint)
                by (nonlinear_arith)
                requires
                    0 <= m * m <= 0x1_0000_0000_0000_0000u128,
                    0 <= den <= 0xffff_ffff_ffff_ffffu64,
            ;
        }
        let sq: u128 = m * m;
        let prod: u128 = sq * (den as u128);
        if prod <= num as u128 {
            lo = mid;
        } else {
            hi = mid;
        }
    }
    lo
}

/// The pixel grid for a cell budget `res` over a `width` by `height` window:
/// the largest count across whose squared value, scaled by the aspect ratio,
/// stays within the budget, and the matching count down. The cells are square,
/// `width / x` pixels to a side.
pub fn calculate_dimensions(res: i32, width: u32, height: u32) -> (dims: (u32, u32))
    requires
        res >= 0,
        width >= 1,
        height >= 1,
    ensures
        dims.0 * dims.0 * height <= res * width,
        res * width < (dims.0 + 1) * (dims.0 + 1) * height,
        dims.1 == height * dims.0 / (width as int),
{
    proof {
        assert((res as int) * (width as int) <= 0x7fff_ffffint * 0xffff_ffffint)
            by (nonlinear_arith)
            requires
                0 <= res <= 0x7fff_ffffi32,
                0 <= width <= 0xffff_ffffu32,
        ;
    }
    let num: u64 = (res as u64) * (width as u64);
    let x: u64 = floor_sqrt_ratio(num, height as u64);
    proof {
        assert((height as int) * (x as int) <= 0xffff_ffffint * 0xffff_ffffint)
            by (nonlinear_arith)
            requires
                0 <= height <= 0xffff_ffffu32,
                0 <= x <= 0xffff_ffffu64,
        ;
        if x == 0 {
            assert((height as int) * (x as int) == 0);
            assert(0int / (width as int) == 0) by {
                vstd::arithmetic::div_mod::lemma_div_of0(width as int);
            }
        } else {
            assert((height as int) * (x as int) <= (res as int) * (width as int))
                by (nonlinear_arith)
                requires
                    x >= 1,
                    height >= 1,
                    x * x * height <= res * width,
            ;
            lemma_div_is_ordered(
                (height as int) * (x as int),
                (res as int) * (width as int),
                width as int,
            );
            lemma_div_by_multiple(res as int, width as int);
        }
    }
    let y: u64 = ((height as u64) * x) / (width as u64);
    (x as u32, y as u32)
}

/// The grid stays within the requested budget: a grid of `x` cells across and
/// `y` down, as `calculate_dimensions` returns them, has at most `res` cells.
pub proof fn lemma_cell_budget(res: int, width: int, height: int, x: int, y: int)
    requires
        res >= 0,
        width >= 1,
        height >= 1,
        x >= 0,
        x * x * height <= res * width,
        y == height * x / width,
    ensures
        x * y <= res,
{
    lemma_fundamental_div_mod(height * x, width);
    lemma_mod_bound(height * x, width);
    let m = (height * x) % width;
    assert(x * y <= res) by (nonlinear_arith)
        requires
            height * x == width * (height * x / width) + m,
            y == height * x / width,
            0 <= m < width,
            x >= 0,
            width >= 1,
            height >= 1,
            res >= 0,
            x * x * height <= res * width,
    ;
}

} // verus!
