//! Edge extension of tiles: pixels outside the valid part of a tile repeat the nearest
//! valid pixel, so filtering and mip generation never see clipped data.
use vstd::prelude::*;
use crate::raster::Buffer;

verus! {

/// An inclusive rectangle of texels.
#[derive(Debug, Clone, Copy, PartialEq, Eq, Structural)]
pub struct TexelRect {
    pub min_x: usize,
    pub min_y: usize,
    pub max_x: usize,
    pub max_y: usize,
}

/// `v` limited to `[lo, hi]`.
pub open spec fn clamp_int(v: int, lo: int, hi: int) -> int {
    if v < lo {
        lo
    } else if v > hi {
        hi
    } else {
        v
    }
}

fn clamp_i64(v: i64, lo: i64, hi: i64) -> (r: i64)
    requires
        lo <= hi,
    ensures
        r == clamp_int(v as int, lo as int, hi as int),
{
    if v < lo {
        lo
    } else if v > hi {
        hi
    } else {
        v
    }
}

fn clamp_usize(v: usize, lo: usize, hi: usize) -> (r: usize)
    requires
        lo <= hi,
    ensures
        r == clamp_int(v as int, lo as int, hi as int),
{
    if v < lo {
        lo
    } else if v > hi {
        hi
    } else {
        v
    }
}

/// The texel rectangle of a tile that lies inside the valid region
/// `[valid_start, valid_end)` of the whole domain, in the coordinates of the tile texture,
/// which has a border of `border_size` texels around `center_size` by `center_size`
/// texels; `None` when the tile holds no valid texel.
pub open spec fn valid_rect(
    valid_start_x: int,
    valid_start_y: int,
    valid_end_x: int,
    valid_end_y: int,
    tile_x: int,
    tile_y: int,
    center_size: int,
    border_size: int,
) -> Option<TexelRect> {
    let sx = clamp_int(valid_start_x - tile_x * center_size, 0, center_size);
    let sy = clamp_int(valid_start_y - tile_y * center_size, 0, center_size);
    let ex = clamp_int(valid_end_x - tile_x * center_size, 0, center_size);
    let ey = clamp_int(valid_end_y - tile_y * center_size, 0, center_size);
    if sx >= ex || sy >= ey {
        None
    } else {
        Some(
            TexelRect {
                min_x: (border_size + sx) as usize,
                min_y: (border_size + sy) as usize,
                max_x: (border_size + ex - 1) as usize,
                max_y: (border_size + ey - 1) as usize,
            },
        )
    }
}

/// The valid texel rectangle of the tile at `(tile_x, tile_y)` (see `valid_rect`), given
/// the valid region in texels of the whole level.
pub fn texel_rect_from_bounds(
    valid_start_x: i64,
    valid_start_y: i64,
    valid_end_x: i64,
    valid_end_y: i64,
    tile_x: u32,
    tile_y: u32,
    center_size: u32,
    border_size: u32,
) -> (r: Option<TexelRect>)
    requires
        i64::MIN <= valid_start_x - tile_x * center_size,
        valid_end_x - tile_x * center_size <= i64::MAX,
        i64::MIN <= valid_start_y - tile_y * center_size,
        valid_end_y - tile_y * center_size <= i64::MAX,
        valid_start_x - tile_x * center_size <= i64::MAX,
        i64::MIN <= valid_end_x - tile_x * center_size,
        valid_start_y - tile_y * center_size <= i64::MAX,
        i64::MIN <= valid_end_y - tile_y * center_size,
        tile_x * center_size <= i64::MAX,
        tile_y * center_size <= i64::MAX,
    ensures
        r == valid_rect(
            valid_start_x as int,
            valid_start_y as int,
            valid_end_x as int,
            valid_end_y as int,
            tile_x as int,
            tile_y as int,
            center_size as int,
            border_size as int,
        ),
{
    let center = center_size as i64;
    let border = border_size as i64;
    proof {
        assert(0 <= tile_x * center_size) by (nonlinear_arith);
        assert(0 <= tile_y * center_size) by (nonlinear_arith);
    }
    let tile_start_x = tile_x as i64 * center;
    let tile_start_y = tile_y as i64 * center;
    let sx = clamp_i64(valid_start_x - tile_start_x, 0, center);
    let sy = clamp_i64(valid_start_y - tile_start_y, 0, center);
    let ex = clamp_i64(valid_end_x - tile_start_x, 0, center);
    let ey = clamp_i64(valid_end_y - tile_start_y, 0, center);
    if sx >= ex || sy >= ey {
        return None;
    }
    Some(
        TexelRect {
            min_x: (border + sx) as usize,
            min_y: (border + sy) as usize,
            max_x: (border + ex - 1) as usize,
            max_y: (border + ey - 1) as usize,
        },
    )
}

/// The texture of `texture_size` by `texture_size` texels in which texel `(x, y)` repeats
/// the texel of `original` nearest to it inside `rect`: entry `k` is row
/// `clamp(k / texture_size)` and column `clamp(k % texture_size)` of `original`.
pub fn edge_extend<T: Copy>(original: &Buffer<T>, texture_size: usize, rect: TexelRect) -> (r: Vec<T>)
    requires
        rect.min_x <= rect.max_x,
        rect.min_y <= rect.max_y,
        texture_size * texture_size <= usize::MAX,
        texture_size > 0 ==> rect.max_y * original.shape_spec().0 + rect.max_x < original@.len(),
    ensures
        r@.len() == texture_size * texture_size,
        forall|k: int|
            0 <= k < r@.len() ==> #[trigger] r@[k] == original@[clamp_int(
                k / texture_size as int,
                rect.min_y as int,
                rect.max_y as int,
            ) * original.shape_spec().0 + clamp_int(
                k % texture_size as int,
                rect.min_x as int,
                rect.max_x as int,
            )],
{
    let n = texture_size;
    let row_len = original.shape().0;
    let mut out: Vec<T> = Vec::new();
    let mut y: usize = 0;
    while y < n
        invariant
            n == texture_size,
            row_len == original.shape_spec().0,
            rect.min_x <= rect.max_x,
            rect.min_y <= rect.max_y,
            n * n <= usize::MAX,
            n > 0 ==> rect.max_y * row_len + rect.max_x < original@.len(),
            y <= n,
            out@.len() == y * n,
            forall|k: int|
                0 <= k < out@.len() ==> #[trigger] out@[k] == original@[clamp_int(
                    k / n as int,
                    rect.min_y as int,
                    rect.max_y as int,
                ) * row_len + clamp_int(k % n as int, rect.min_x as int, rect.max_x as int)],
        decreases n - y,
    {
        let source_y = clamp_usize(y, rect.min_y, rect.max_y);
        let mut x: usize = 0;
        while x < n
            invariant
                n == texture_size,
                row_len == original.shape_spec().0,
                rect.min_x <= rect.max_x,
                rect.min_y <= rect.max_y,
                n * n <= usize::MAX,
                n > 0 ==> rect.max_y * row_len + rect.max_x < original@.len(),
                y < n,
                x <= n,
                source_y == clamp_int(y as int, rect.min_y as int, rect.max_y as int),
                out@.len() == y * n + x,
                forall|k: int|
                    0 <= k < out@.len() ==> #[trigger] out@[k] == original@[clamp_int(
                        k / n as int,
                        rect.min_y as int,
                        rect.max_y as int,
                    ) * row_len + clamp_int(k % n as int, rect.min_x as int, rect.max_x as int)],
            decreases n - x,
        {
            let source_x = clamp_usize(x, rect.min_x, rect.max_x);
            proof {
                crate::dataset::lemma_row_major((y * n + x) as int, n as int, y as int, x as int);
                assert(source_y * row_len + source_x <= rect.max_y * row_len + rect.max_x)
                    by (nonlinear_arith)
                    requires
                        source_y <= rect.max_y,
                        source_x <= rect.max_x,
                ;
                assert((y + 1) * n <= n * n) by (nonlinear_arith)
                    requires
                        y < n,
                ;
            }
            let v = *original.index((source_y, source_x));
            out.push(v);
            x = x + 1;
        }
        proof {
            assert(y * n + n == (y + 1) * n) by (nonlinear_arith);
        }
        y = y + 1;
    }
    out
}

} // verus!
