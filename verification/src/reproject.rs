//! Planning of the reprojection and preprocessing passes: the row chunks a band is copied
//! in, the order in which attachments are preprocessed and the resizes that align them
//! with the height map, and the per-face transformers.
use vstd::prelude::*;
use crate::dataset::SpatialRef;
use crate::error::PreprocessError;

verus! {

/// The most rows copied at once.
pub const MAX_CHUNK_ROWS: usize = 128;

/// The rows of a chunk: `min(MAX_CHUNK_ROWS, height)`.
pub open spec fn chunk_rows(height: int) -> int {
    if height < MAX_CHUNK_ROWS {
        height
    } else {
        MAX_CHUNK_ROWS as int
    }
}

/// The chunks `(first row, row count)` in which `height` rows are copied: chunk `i` starts
/// at row `i * c` and holds `min(c, height - i * c)` rows, for `c = chunk_rows(height)`.
pub fn row_chunks(height: usize) -> (r: Vec<(usize, usize)>)
    requires
        height > 0,
    ensures
        r@.len() == (height + chunk_rows(height as int) - 1) / chunk_rows(height as int),
        forall|i: int|
            0 <= i < r@.len() ==> {
                let c = chunk_rows(height as int);
                &&& (#[trigger] r@[i]).0 == i * c
                &&& r@[i].1 == (if c < height - i * c {
                    c as int
                } else {
                    height - i * c
                })
            },
{
    let c: usize = if height < MAX_CHUNK_ROWS {
        height
    } else {
        MAX_CHUNK_ROWS
    };
    let mut out: Vec<(usize, usize)> = Vec::new();
    let mut start: usize = 0;
    assert(0 * c == 0) by (nonlinear_arith);
    while start < height
        invariant
            c == chunk_rows(height as int),
            0 < c <= height,
            start <= height,
            start < height ==> start == out@.len() * c,
            start == height ==> out@.len() * c >= height,
            out@.len() > 0 ==> (out@.len() - 1) * c < height,
            forall|i: int|
                0 <= i < out@.len() ==> {
                    &&& (#[trigger] out@[i]).0 == i * c
                    &&& out@[i].1 == (if c < height - i * c {
                        c as int
                    } else {
                        height - i * c
                    })
                },
        decreases height - start,
    {
        let rows = if c < height - start {
            c
        } else {
            height - start
        };
        proof {
            assert((out@.len() + 1) * c == out@.len() * c + c) by (nonlinear_arith);
        }
        out.push((start, rows));
        start = start + rows;
    }
    proof {
        let n = out@.len() as int;
        assert(n * c >= height);
        assert(n > 0);
        assert((n - 1) * c == n * c - c) by (nonlinear_arith);
        crate::dataset::lemma_row_major(height + c - 1, c as int, n, height + c - 1 - n * c);
    }
    out
}

/// The positions `i < n` with `flags[i] == value`, in increasing order.
pub open spec fn positions_where(flags: Seq<bool>, value: bool, n: nat) -> Seq<usize>
    decreases n,
{
    if n == 0 {
        Seq::empty()
    } else if flags[n - 1] == value {
        positions_where(flags, value, (n - 1) as nat).push((n - 1) as usize)
    } else {
        positions_where(flags, value, (n - 1) as nat)
    }
}

fn collect_positions(flags: &[bool], value: bool, out: &mut Vec<usize>)
    ensures
        final(out)@ == old(out)@ + positions_where(flags@, value, flags@.len()),
{
    let mut i: usize = 0;
    while i < flags.len()
        invariant
            i <= flags@.len(),
            out@ == old(out)@ + positions_where(flags@, value, i as nat),
        decreases flags@.len() - i,
    {
        if flags[i] == value {
            out.push(i);
            assert(out@ =~= old(out)@ + positions_where(flags@, value, (i + 1) as nat));
        }
        i = i + 1;
    }
}

/// The positions of the height maps, then those of the other attachments.
pub open spec fn height_first(is_height: Seq<bool>) -> Seq<usize> {
    positions_where(is_height, true, is_height.len()) + positions_where(
        is_height,
        false,
        is_height.len(),
    )
}

/// The order in which attachments are preprocessed: the height map first, the others
/// after it, each group in its original order.
pub fn height_first_order(is_height: &[bool]) -> (r: Vec<usize>)
    ensures
        r@ == height_first(is_height@),
{
    let mut out: Vec<usize> = Vec::new();
    collect_positions(is_height, true, &mut out);
    collect_positions(is_height, false, &mut out);
    out
}

/// An attachment waiting for preprocessing: whether it is the height map, and its size.
#[derive(Debug, Clone, Copy, PartialEq, Eq, Structural)]
pub struct AttachmentSize {
    pub is_height: bool,
    pub width: usize,
    pub height: usize,
}

/// The size the attachments after the first `n` are resized to: that of the last height
/// map among the first `n`, or `(0, 0)` before any.
pub open spec fn resize_target(items: Seq<AttachmentSize>, n: nat) -> (usize, usize)
    decreases n,
{
    if n == 0 {
        (0, 0)
    } else if items[n - 1].is_height {
        (items[n - 1].width, items[n - 1].height)
    } else {
        resize_target(items, (n - 1) as nat)
    }
}

/// Whether an attachment of `width` by `height` is resized to `target`.
pub open spec fn needs_resize(target: (usize, usize), width: usize, height: usize) -> bool {
    target.0 != 0 && target.1 != 0 && (width != target.0 || height != target.1)
}

/// The size the attachment at `i` is resized to before it is preprocessed, or `None`.
pub open spec fn planned_resize(items: Seq<AttachmentSize>, i: int) -> Option<(usize, usize)> {
    if needs_resize(resize_target(items, (i + 1) as nat), items[i].width, items[i].height) {
        Some(resize_target(items, (i + 1) as nat))
    } else {
        None
    }
}

/// For each attachment in preprocessing order, the size it is resized to before it is
/// preprocessed, or `None` when it keeps its size: a height map sets the size of the
/// attachments that follow it.
pub fn plan_resizes(items: &[AttachmentSize]) -> (r: Vec<Option<(usize, usize)>>)
    ensures
        r@.len() == items@.len(),
        forall|i: int| 0 <= i < items@.len() ==> #[trigger] r@[i] == planned_resize(items@, i),
{
    let mut target_width: usize = 0;
    let mut target_height: usize = 0;
    let mut out: Vec<Option<(usize, usize)>> = Vec::new();
    let mut i: usize = 0;
    while i < items.len()
        invariant
            i <= items@.len(),
            out@.len() == i,
            (target_width, target_height) == resize_target(items@, i as nat),
            forall|j: int| 0 <= j < i ==> #[trigger] out@[j] == planned_resize(items@, j),
        decreases items@.len() - i,
    {
        let item = items[i];
        if item.is_height {
            target_width = item.width;
            target_height = item.height;
        }
        if target_width != 0 && target_height != 0 && (item.width != target_width || item.height
            != target_height) {
            out.push(Some((target_width, target_height)));
        } else {
            out.push(None);
        }
        i = i + 1;
    }
    out
}

/// Transforms coordinates between two spatial references; the references used by the
/// preprocessor need no change of coordinates.
pub struct ReprojectionTransformer;

impl ReprojectionTransformer {
    pub fn new(_src_spatial_ref: &SpatialRef, _dst_spatial_ref: &SpatialRef) -> (r: Result<
        Self,
        PreprocessError,
    >)
        ensures
            r is Ok,
    {
        Ok(ReprojectionTransformer)
    }
}

/// Transforms coordinates between longitude and latitude and the face `face` of the cube.
pub struct CubeTransformer {
    pub face: u32,
}

impl CubeTransformer {
    pub fn new(face: u32) -> (r: Self)
        ensures
            r.face == face,
    {
        CubeTransformer { face }
    }
}

} // verus!
