//! Tile scheduling. The image is split into square tiles of side `step`
//! (rows are the degenerate case of a 1-pixel-high, full-width tile). Tiles
//! are numbered row-major: tile `v` starts at column `(v % nx) * step` and
//! row `(v / nx) * step`, where `nx` is the number of tile columns. Every
//! pixel belongs to exactly one tile, so tasks write disjoint regions and
//! cancellation or reordering never loses or doubles a pixel.

use vstd::prelude::*;

use vstd::arithmetic::div_mod::{
    lemma_fundamental_div_mod, lemma_fundamental_div_mod_converse, lemma_mod_bound,
    lemma_multiply_divide_lt,
};

verus! {

/// How many tiles of side `step` cover a span of `res` pixels: the
/// quotient, rounded up.
pub open spec fn spec_num_tiles(res: int, step: int) -> int {
    (res + step - 1) / step
}

/// The starting column of tile `v`.
pub open spec fn spec_tile_x(v: int, nx: int, step: int) -> int {
    (v % nx) * step
}

/// The starting row of tile `v`.
pub open spec fn spec_tile_y(v: int, nx: int, step: int) -> int {
    (v / nx) * step
}

/// Pixel (px, py) lies inside the step-by-step square of tile `v`.
pub open spec fn spec_tile_contains(v: int, nx: int, step: int, px: int, py: int) -> bool {
    &&& spec_tile_x(v, nx, step) <= px < spec_tile_x(v, nx, step) + step
    &&& spec_tile_y(v, nx, step) <= py < spec_tile_y(v, nx, step) + step
}

/// The tile number that pixel (px, py) falls in.
pub open spec fn spec_tile_of(px: int, py: int, nx: int, step: int) -> int {
    (py / step) * nx + px / step
}

/// The tile count of a span is the least count whose tiles reach the end:
/// `n` tiles cover `n * step >= res` pixels, and one tile fewer falls short.
pub proof fn lemma_num_tiles_bounds(res: int, step: int)
    requires
        step >= 1,
        res >= 0,
    ensures
        spec_num_tiles(res, step) >= 0,
        spec_num_tiles(res, step) * step >= res,
        res >= 1 ==> spec_num_tiles(res, step) >= 1,
        res >= 1 ==> (spec_num_tiles(res, step) - 1) * step < res,
{
    let n = spec_num_tiles(res, step);
    lemma_fundamental_div_mod(res + step - 1, step);
    lemma_mod_bound(res + step - 1, step);
    let r = (res + step - 1) % step;
    assert(res + step - 1 == step * n + r);
    assert(n * step >= res && (res >= 1 ==> n >= 1 && (n - 1) * step < res)) by (nonlinear_arith)
        requires
            step >= 1,
            res >= 0,
            0 <= r < step,
            res + step - 1 == step * n + r,
    ;
}

/// How many tiles of side `step` cover `res` pixels.
pub fn num_tiles(res: u32, step: u32) -> (n: u32)
    requires
        step >= 1,
    ensures
        n == spec_num_tiles(res as int, step as int),
{
    let q: u32 = res / step;
    let r: u32 = res % step;
    proof {
        lemma_fundamental_div_mod(res as int, step as int);
        lemma_mod_bound(res as int, step as int);
        if r == 0 {
            lemma_fundamental_div_mod_converse(
                res + step - 1,
                step as int,
                q as int,
                step - 1,
            );
        } else {
            assert(res + step - 1 == (q + 1) * (step as int) + (r - 1)) by (nonlinear_arith)
                requires
                    res == (step as int) * (q as int) + (r as int),
            ;
            lemma_fundamental_div_mod_converse(
                res + step - 1,
                step as int,
                q + 1,
                r - 1,
            );
            assert(q < u32::MAX) by (nonlinear_arith)
                requires
                    res == (step as int) * (q as int) + (r as int),
                    r >= 1,
                    step >= 1,
                    q >= 0,
                    res <= u32::MAX,
            ;
        }
    }
    if r == 0 {
        q
    } else {
        q + 1
    }
}

/// The top-left pixel of tile `v` on an image `res_x` by `res_y`: both
/// coordinates land strictly inside the image.
pub fn tile_origin(v: u32, nx: u32, ny: u32, step: u32, res_x: u32, res_y: u32) -> (r: (u32, u32))
    requires
        step >= 1,
        res_x >= 1,
        res_y >= 1,
        nx == spec_num_tiles(res_x as int, step as int),
        ny == spec_num_tiles(res_y as int, step as int),
        v < nx * ny,
    ensures
        r.0 == spec_tile_x(v as int, nx as int, step as int),
        r.1 == spec_tile_y(v as int, nx as int, step as int),
        r.0 < res_x,
        r.1 < res_y,
    {
    proof {
        lemma_num_tiles_bounds(res_x as int, step as int);
        lemma_num_tiles_bounds(res_y as int, step as int);
        lemma_mod_bound(v as int, nx as int);
        lemma_multiply_divide_lt(v as int, nx as int, ny as int);
        assert((nx as int) * (ny as int) == (ny as int) * (nx as int)) by (nonlinear_arith);
        assert((v as int) % (nx as int) * (step as int) < res_x) by (nonlinear_arith)
            requires
                0 <= (v as int) % (nx as int) <= nx - 1,
                (nx - 1) * (step as int) < res_x,
                step >= 1,
        ;
        assert((v as int) / (nx as int) * (step as int) < res_y) by (nonlinear_arith)
            requires
                0 <= (v as int) / (nx as int) <= ny - 1,
                (ny - 1) * (step as int) < res_y,
                step >= 1,
        ;
    }
    let x: u32 = (v % nx) * step;
    let y: u32 = (v / nx) * step;
    (x, y)
}

/// The end of a tile span starting at `x0`, clipped to the image border.
pub fn clip_extent(x0: u32, sz: u32, res: u32) -> (r: u32)
    requires
        x0 <= res,
    ensures
        r == (if x0 + sz <= res {
            x0 + sz
        } else {
            res as int
        }),
{
    if sz > res - x0 {
        res
    } else {
        x0 + sz
    }
}

/// Every pixel of the image lies in exactly one tile: the tile numbered
/// `spec_tile_of` contains it, and no other tile does.
pub proof fn lemma_tile_partition(res_x: int, res_y: int, step: int, px: int, py: int)
    requires
        step >= 1,
        0 <= px < res_x,
        0 <= py < res_y,
    ensures
        ({
            let nx = spec_num_tiles(res_x, step);
            let ny = spec_num_tiles(res_y, step);
            let v = spec_tile_of(px, py, nx, step);
            &&& 0 <= v < nx * ny
            &&& spec_tile_contains(v, nx, step, px, py)
            &&& forall|w: int|
                0 <= w < nx * ny && spec_tile_contains(w, nx, step, px, py) ==> w == v
        }),
{
    let nx = spec_num_tiles(res_x, step);
    let ny = spec_num_tiles(res_y, step);
    let v = spec_tile_of(px, py, nx, step);
    let qx = px / step;
    let qy = py / step;

    lemma_num_tiles_bounds(res_x, step);
    lemma_num_tiles_bounds(res_y, step);
    lemma_fundamental_div_mod(px, step);
    lemma_fundamental_div_mod(py, step);
    lemma_mod_bound(px, step);
    lemma_mod_bound(py, step);
    lemma_multiply_divide_lt(px, step, nx);
    lemma_multiply_divide_lt(py, step, ny);
    assert(px < step * nx && py < step * ny) by (nonlinear_arith)
        requires
            px < res_x <= nx * step,
            py < res_y <= ny * step,
    ;
    assert(0 <= qx < nx && 0 <= qy < ny);

    // The home tile's coordinates are qx, qy.
    lemma_fundamental_div_mod_converse(v, nx, qy, qx);
    assert(v == qy * nx + qx);
    assert(v % nx == qx && v / nx == qy);
    assert(0 <= v < nx * ny) by (nonlinear_arith)
        requires
            0 <= qx < nx,
            0 <= qy < ny,
            v == qy * nx + qx,
    ;

    // It contains the pixel.
    assert(qx * step <= px < qx * step + step && qy * step <= py < qy * step + step)
        by (nonlinear_arith)
        requires
            px == step * qx + px % step,
            py == step * qy + py % step,
            0 <= px % step < step,
            0 <= py % step < step,
    ;

    // No other tile does: a tile containing the pixel has the same
    // coordinates, hence the same number.
    assert forall|w: int|
        0 <= w < nx * ny && spec_tile_contains(w, nx, step, px, py) implies w == v by {
        let a = w % nx;
        let b = w / nx;
        lemma_fundamental_div_mod(w, nx);
        lemma_mod_bound(w, nx);
        assert(px == a * step + (px - a * step) && 0 <= px - a * step < step);
        lemma_fundamental_div_mod_converse(px, step, a, px - a * step);
        assert(py == b * step + (py - b * step) && 0 <= py - b * step < step);
        lemma_fundamental_div_mod_converse(py, step, b, py - b * step);
        assert(a == qx && b == qy);
        assert(w == nx * b + a);
        assert(w == v) by (nonlinear_arith)
            requires
                w == nx * b + a,
                v == qy * nx + qx,
                a == qx,
                b == qy,
        ;
    }
}

/// Tiles jointly reach every pixel: the `nx * ny` tiles of an image hold
/// `nx * ny * step * step` pixel slots, at least one per pixel. A task that
/// skips its tile under cancellation still reports `step * step` finished
/// pixels, so the progress total still reaches the whole image.
pub proof fn lemma_tiles_cover_image(res_x: int, res_y: int, step: int)
    requires
        step >= 1,
        res_x >= 0,
        res_y >= 0,
    ensures
        (spec_num_tiles(res_x, step) * spec_num_tiles(res_y, step)) * (step * step) >= res_x
            * res_y,
{
    let nx = spec_num_tiles(res_x, step);
    let ny = spec_num_tiles(res_y, step);
    lemma_num_tiles_bounds(res_x, step);
    lemma_num_tiles_bounds(res_y, step);
    assert((nx * ny) * (step * step) >= res_x * res_y) by (nonlinear_arith)
        requires
            nx * step >= res_x >= 0,
            ny * step >= res_y >= 0,
            nx >= 0,
            ny >= 0,
            step >= 1,
    ;
}

} // verus!
