//! Properties of the library that relate several of its operations.
use vstd::prelude::*;
use crate::dataset::{deinterleaved_sample, lemma_row_major, window_source, written_sample, DatasetData};
use crate::debug::{debug_flag, lemma_flags_determine, lemma_toggled_prefix, lemma_with_debug_flag, toggled, with_debug_flag, DebugKey, DebugTerrain};
use crate::edge_extend::{clamp_int, valid_rect, TexelRect};
use crate::mask::BitMask;
use crate::dataset::default_band_color;
use crate::raster::{color_code, color_from_code, data_type_for_name, normalized_name, ColorInterpretation, GdalDataType};
use crate::reproject::{chunk_rows, height_first, planned_resize, positions_where, resize_target, AttachmentSize, MAX_CHUNK_ROWS};

verus! {

/// Converting a colour interpretation to its numeric code and back gives it back.
pub proof fn law_color_code_round_trip(c: ColorInterpretation)
    ensures
        color_from_code(color_code(c)) == c,
{
}

/// After a window write, the raster position at column `x`, row `y` of the window holds
/// the sample the write took from the buffer for that window position.
pub proof fn law_read_returns_written<S: Copy>(
    before: DatasetData<S>,
    after: DatasetData<S>,
    band: int,
    offset: (isize, isize),
    size: (usize, usize),
    buf: Seq<S>,
    buf_width: int,
    x: int,
    y: int,
)
    requires
        before.wf(),
        0 <= band < before.bands@.len(),
        after.width == before.width,
        after.height == before.height,
        after.bands@.len() == before.bands@.len(),
        after.bands@[band].data@ == Seq::new(
            before.bands@[band].data@.len(),
            |i: int|
                written_sample(before.bands@[band].data@, before.width as int, offset, size, buf, buf_width, i),
        ),
        0 <= x < size.0,
        0 <= y < size.1,
        0 <= offset.0 + x < before.width,
        0 <= offset.1 + y < before.height,
    ensures
        after.sample_at(band, offset.0 + x, offset.1 + y) == Some(window_source(buf, buf_width, x, y)),
{
    let w = before.width as int;
    let h = before.height as int;
    let col = offset.0 + x;
    let row = offset.1 + y;
    let i = row * w + col;
    assert(i < w * h) by (nonlinear_arith)
        requires
            0 <= row < h,
            0 <= col < w,
            i == row * w + col,
    ;
    assert(0 <= i) by (nonlinear_arith)
        requires
            0 <= w,
            0 <= row,
            0 <= col,
            i == row * w + col,
    ;
    lemma_row_major(i, w, row, col);
}

/// Stored interleaved and read back, every band of a dataset keeps its samples.
pub proof fn law_interleave_round_trip<S: Copy>(d: DatasetData<S>, values: Seq<S>, zero: S, band: int, pixel: int)
    requires
        d.wf(),
        values.len() == d.width * d.height * d.bands@.len(),
        forall|k: int|
            0 <= k < values.len() ==> #[trigger] values[k] == d.bands@[k % d.bands@.len() as int].data@[k
                / d.bands@.len() as int],
        0 <= band < d.bands@.len(),
        0 <= pixel < d.width * d.height,
    ensures
        deinterleaved_sample(values, d.bands@.len() as int, band, pixel, zero) == d.bands@[band].data@[pixel],
{
    let n = d.bands@.len() as int;
    let k = pixel * n + band;
    assert(k < d.width * d.height * n) by (nonlinear_arith)
        requires
            0 <= band < n,
            0 <= pixel < d.width * d.height,
            k == pixel * n + band,
    ;
    assert(0 <= k) by (nonlinear_arith)
        requires
            0 <= n,
            0 <= band,
            0 <= pixel,
            k == pixel * n + band,
    ;
    lemma_row_major(k, n, pixel, band);
    if n == 1 {
        assert(pixel * 1 == pixel);
    }
}

/// The mask bit of a masked `u8` sample is whether the mask byte is set, and its other
/// bits are those of the sample; masking twice with the same byte changes nothing more.
pub proof fn law_mask_bit_u8(v: u8, mask: u8)
    ensures
        v.masked(mask) & 1 == (if mask != 0 {
            1u8
        } else {
            0u8
        }),
        v.masked(mask) & !1u8 == v & !1u8,
        v.masked(mask).masked(mask) == v.masked(mask),
{
    let b: u8 = if mask != 0 {
        1
    } else {
        0
    };
    assert(((v & !1u8) | b) & 1 == b) by (bit_vector)
        requires
            b == 0 || b == 1,
    ;
    assert(((v & !1u8) | b) & !1u8 == v & !1u8) by (bit_vector)
        requires
            b == 0 || b == 1,
    ;
    assert(((((v & !1u8) | b)) & !1u8) | b == (v & !1u8) | b) by (bit_vector)
        requires
            b == 0 || b == 1,
    ;
}

/// The same properties as `law_mask_bit_u8`, for `u16` samples.
pub proof fn law_mask_bit_u16(v: u16, mask: u8)
    ensures
        v.masked(mask) & 1 == (if mask != 0 {
            1u16
        } else {
            0u16
        }),
        v.masked(mask) & !1u16 == v & !1u16,
        v.masked(mask).masked(mask) == v.masked(mask),
{
    let b: u16 = if mask != 0 {
        1
    } else {
        0
    };
    assert(((v & !1u16) | b) & 1 == b) by (bit_vector)
        requires
            b == 0 || b == 1,
    ;
    assert(((v & !1u16) | b) & !1u16 == v & !1u16) by (bit_vector)
        requires
            b == 0 || b == 1,
    ;
    assert(((((v & !1u16) | b)) & !1u16) | b == (v & !1u16) | b) by (bit_vector)
        requires
            b == 0 || b == 1,
    ;
}

/// The same properties as `law_mask_bit_u8`, for `i16` samples.
pub proof fn law_mask_bit_i16(v: i16, mask: u8)
    ensures
        v.masked(mask) & 1 == (if mask != 0 {
            1i16
        } else {
            0i16
        }),
        v.masked(mask) & !1i16 == v & !1i16,
        v.masked(mask).masked(mask) == v.masked(mask),
{
    let b: i16 = if mask != 0 {
        1
    } else {
        0
    };
    assert(((v & !1i16) | b) & 1 == b) by (bit_vector)
        requires
            b == 0 || b == 1,
    ;
    assert(((v & !1i16) | b) & !1i16 == v & !1i16) by (bit_vector)
        requires
            b == 0 || b == 1,
    ;
    assert(((((v & !1i16) | b)) & !1i16) | b == (v & !1i16) | b) by (bit_vector)
        requires
            b == 0 || b == 1,
    ;
}

/// Inside the valid rectangle, an edge-extended texture holds the texel of the original.
pub proof fn law_edge_extend_keeps_valid_texels(
    texture_size: int,
    rect: TexelRect,
    row_len: int,
    x: int,
    y: int,
)
    requires
        rect.min_x <= x <= rect.max_x,
        rect.min_y <= y <= rect.max_y,
        0 <= x < texture_size,
        0 <= y < texture_size,
    ensures
        clamp_int((y * texture_size + x) / texture_size, rect.min_y as int, rect.max_y as int)
            * row_len + clamp_int(
            (y * texture_size + x) % texture_size,
            rect.min_x as int,
            rect.max_x as int,
        ) == y * row_len + x,
{
    lemma_row_major(y * texture_size + x, texture_size, y, x);
}

/// After the debug keys are handled, a switch has flipped exactly when its key was pressed.
pub proof fn law_toggle_debug_flips_pressed(d: DebugTerrain, pressed: Seq<DebugKey>, key: DebugKey)
    ensures
        debug_flag(toggled(d, pressed, 17), key) == (debug_flag(d, key) != pressed.contains(key)),
{
    lemma_toggled_prefix(d, pressed, 17, key);
}

/// The row chunks of a band follow each other without gap or overlap, from the first row
/// to the last, and none holds more than `MAX_CHUNK_ROWS` rows or none at all.
pub proof fn law_row_chunks_partition(height: usize, i: int)
    requires
        height > 0,
        0 <= i < (height + chunk_rows(height as int) - 1) / chunk_rows(height as int),
    ensures
        ({
            let c = chunk_rows(height as int);
            let rows = if c < height - i * c {
                c
            } else {
                height - i * c
            };
            &&& 0 < rows <= MAX_CHUNK_ROWS
            &&& i * c < height
            &&& (i + 1 < (height + c - 1) / c ==> i * c + rows == (i + 1) * c)
            &&& (i + 1 == (height + c - 1) / c ==> i * c + rows == height)
        }),
{
    let c = chunk_rows(height as int);
    let n = (height + c - 1) / c;
    vstd::arithmetic::div_mod::lemma_fundamental_div_mod(height + c - 1, c);
    vstd::arithmetic::div_mod::lemma_mod_bound(height + c - 1, c);
    let r = (height + c - 1) % c;
    assert(c * n == n * c) by (nonlinear_arith);
    assert(height + c - 1 == n * c + r);
    assert((i + 1) * c == i * c + c) by (nonlinear_arith);
    if i + 1 < n {
        assert((i + 1) * c <= (n - 1) * c) by (nonlinear_arith)
            requires
                i + 1 <= n - 1,
                c > 0,
        ;
        assert((n - 1) * c == n * c - c) by (nonlinear_arith);
    } else {
        assert(i == n - 1);
        assert((n - 1) * c == n * c - c) by (nonlinear_arith);
    }
}

/// Toggling the same switch twice gives back the state it started from.
pub proof fn law_toggle_twice_restores(d: DebugTerrain, key: DebugKey)
    ensures
        with_debug_flag(
            with_debug_flag(d, key, !debug_flag(d, key)),
            key,
            !debug_flag(with_debug_flag(d, key, !debug_flag(d, key)), key),
        ) == d,
{
    let once = with_debug_flag(d, key, !debug_flag(d, key));
    let twice = with_debug_flag(once, key, !debug_flag(once, key));
    lemma_with_debug_flag(d, key, !debug_flag(d, key), key);
    assert forall|other: DebugKey| debug_flag(twice, other) == debug_flag(d, other) by {
        lemma_with_debug_flag(d, key, !debug_flag(d, key), other);
        lemma_with_debug_flag(once, key, !debug_flag(once, key), other);
    }
    lemma_flags_determine(twice, d);
}

/// A valid texel rectangle lies inside the centre of the tile texture, past its border.
pub proof fn law_valid_rect_inside_center(
    valid_start_x: int,
    valid_start_y: int,
    valid_end_x: int,
    valid_end_y: int,
    tile_x: int,
    tile_y: int,
    center_size: int,
    border_size: int,
)
    requires
        center_size >= 0,
        border_size >= 0,
        border_size + center_size <= usize::MAX,
    ensures
        valid_rect(valid_start_x, valid_start_y, valid_end_x, valid_end_y, tile_x, tile_y, center_size, border_size) matches Some(r)
            ==> border_size <= r.min_x <= r.max_x < border_size + center_size
            && border_size <= r.min_y <= r.max_y < border_size + center_size,
{
}


/// The size that later attachments are resized to is that of the last height map before
/// them.
proof fn lemma_target_is_last_height_map(items: Seq<AttachmentSize>, h: int, n: nat)
    requires
        0 <= h < n <= items.len(),
        items[h].is_height,
        forall|j: int| h < j < n ==> !#[trigger] items[j].is_height,
    ensures
        resize_target(items, n) == (items[h].width, items[h].height),
    decreases n,
{
    if n - 1 > h {
        lemma_target_is_last_height_map(items, h, (n - 1) as nat);
    }
}

/// Before the first height map there is no size to resize to.
proof fn lemma_no_target_before_height_map(items: Seq<AttachmentSize>, n: nat)
    requires
        n <= items.len(),
        forall|j: int| 0 <= j < n ==> !#[trigger] items[j].is_height,
    ensures
        resize_target(items, n) == (0usize, 0usize),
    decreases n,
{
    if n > 0 {
        lemma_no_target_before_height_map(items, (n - 1) as nat);
    }
}

/// An attachment after a height map of non-zero width and height, with no other height
/// map between them, is resized to the height map's size exactly when its width or its
/// height differs from it; the height map itself keeps its size.
pub proof fn law_resize_to_height_map(items: Seq<AttachmentSize>, h: int, i: int)
    requires
        0 <= h <= i < items.len(),
        items[h].is_height,
        items[h].width != 0,
        items[h].height != 0,
        forall|j: int| h < j <= i ==> !#[trigger] items[j].is_height,
    ensures
        planned_resize(items, i) == (if items[i].width != items[h].width || items[i].height
            != items[h].height {
            Some((items[h].width, items[h].height))
        } else {
            None
        }),
        planned_resize(items, h) is None,
{
    lemma_target_is_last_height_map(items, h, (i + 1) as nat);
    lemma_target_is_last_height_map(items, h, (h + 1) as nat);
}

/// Attachments before the first height map keep their size, and so does every attachment
/// after a height map with a zero width or height.
pub proof fn law_no_resize_without_height_size(items: Seq<AttachmentSize>, h: int, i: int)
    requires
        0 <= i < items.len(),
        h < 0 ==> forall|j: int| 0 <= j <= i ==> !#[trigger] items[j].is_height,
        h >= 0 ==> h <= i && items[h].is_height && (items[h].width == 0 || items[h].height == 0)
            && forall|j: int| h < j <= i ==> !#[trigger] items[j].is_height,
    ensures
        planned_resize(items, i) is None,
{
    if h < 0 {
        lemma_no_target_before_height_map(items, (i + 1) as nat);
    } else {
        lemma_target_is_last_height_map(items, h, (i + 1) as nat);
    }
}

/// A texel `(x, y)` of the centre of a tile texture lies in the tile's valid rectangle
/// exactly when its texel of the level, `(tile_x * center_size + x, tile_y * center_size
/// + y)`, lies in the valid region `[valid_start, valid_end)`; so the rectangle is `None`
/// exactly when no texel of the tile is valid.
pub proof fn law_valid_rect_holds_valid_texels(
    valid_start_x: int,
    valid_start_y: int,
    valid_end_x: int,
    valid_end_y: int,
    tile_x: int,
    tile_y: int,
    center_size: int,
    border_size: int,
    x: int,
    y: int,
)
    requires
        border_size >= 0,
        border_size + center_size <= usize::MAX,
        0 <= x < center_size,
        0 <= y < center_size,
    ensures
        (valid_rect(valid_start_x, valid_start_y, valid_end_x, valid_end_y, tile_x, tile_y, center_size, border_size)
            matches Some(r) && r.min_x <= border_size + x <= r.max_x && r.min_y <= border_size + y
            <= r.max_y) <==> (valid_start_x <= tile_x * center_size + x < valid_end_x
            && valid_start_y <= tile_y * center_size + y < valid_end_y),
{
}

/// Pressing the debug keys flips each switch exactly when its own key was pressed: F1 the
/// wireframe view, F2 the data LOD view, R the geometry LOD view, T the tile tree view,
/// Y the pixel view, U the uv view, I the normals view, O morphing, P blending, `[` the tile
/// tree LOD, `]` lighting, `\` gradient sampling, `;` high precision, F freezing, and 1, 2
/// and 3 the three test switches.
pub proof fn law_debug_keys_flip_their_fields(d: DebugTerrain, pressed: Seq<DebugKey>)
    ensures
        ({
            let e = toggled(d, pressed, 17);
            &&& e.wireframe == (d.wireframe != pressed.contains(DebugKey::F1))
            &&& e.show_data_lod == (d.show_data_lod != pressed.contains(DebugKey::F2))
            &&& e.show_geometry_lod == (d.show_geometry_lod != pressed.contains(DebugKey::KeyR))
            &&& e.show_tile_tree == (d.show_tile_tree != pressed.contains(DebugKey::KeyT))
            &&& e.show_pixels == (d.show_pixels != pressed.contains(DebugKey::KeyY))
            &&& e.show_uv == (d.show_uv != pressed.contains(DebugKey::KeyU))
            &&& e.show_normals == (d.show_normals != pressed.contains(DebugKey::KeyI))
            &&& e.morph == (d.morph != pressed.contains(DebugKey::KeyO))
            &&& e.blend == (d.blend != pressed.contains(DebugKey::KeyP))
            &&& e.tile_tree_lod == (d.tile_tree_lod != pressed.contains(DebugKey::BracketLeft))
            &&& e.lighting == (d.lighting != pressed.contains(DebugKey::BracketRight))
            &&& e.sample_grad == (d.sample_grad != pressed.contains(DebugKey::Backslash))
            &&& e.high_precision == (d.high_precision != pressed.contains(DebugKey::Semicolon))
            &&& e.freeze == (d.freeze != pressed.contains(DebugKey::KeyF))
            &&& e.test1 == (d.test1 != pressed.contains(DebugKey::Digit1))
            &&& e.test2 == (d.test2 != pressed.contains(DebugKey::Digit2))
            &&& e.test3 == (d.test3 != pressed.contains(DebugKey::Digit3))
        }),
{
    law_toggle_debug_flips_pressed(d, pressed, DebugKey::F1);
    law_toggle_debug_flips_pressed(d, pressed, DebugKey::F2);
    law_toggle_debug_flips_pressed(d, pressed, DebugKey::KeyR);
    law_toggle_debug_flips_pressed(d, pressed, DebugKey::KeyT);
    law_toggle_debug_flips_pressed(d, pressed, DebugKey::KeyY);
    law_toggle_debug_flips_pressed(d, pressed, DebugKey::KeyU);
    law_toggle_debug_flips_pressed(d, pressed, DebugKey::KeyI);
    law_toggle_debug_flips_pressed(d, pressed, DebugKey::KeyO);
    law_toggle_debug_flips_pressed(d, pressed, DebugKey::KeyP);
    law_toggle_debug_flips_pressed(d, pressed, DebugKey::BracketLeft);
    law_toggle_debug_flips_pressed(d, pressed, DebugKey::BracketRight);
    law_toggle_debug_flips_pressed(d, pressed, DebugKey::Backslash);
    law_toggle_debug_flips_pressed(d, pressed, DebugKey::Semicolon);
    law_toggle_debug_flips_pressed(d, pressed, DebugKey::KeyF);
    law_toggle_debug_flips_pressed(d, pressed, DebugKey::Digit1);
    law_toggle_debug_flips_pressed(d, pressed, DebugKey::Digit2);
    law_toggle_debug_flips_pressed(d, pressed, DebugKey::Digit3);
    reveal(debug_flag);
}

/// A data type name, once trimmed and lowercased, names a type when it is one of its
/// aliases: `byte`, `uint8` or `u8`; `uint16` or `u16`; `uint32` or `u32`; `uint64` or
/// `u64`; `int16` or `i16`; `int32` or `i32`; `int64` or `i64`; `float32` or `f32`;
/// `float64` or `f64`.
pub proof fn law_data_type_aliases(name: Seq<char>)
    ensures
        ({
            let key = normalized_name(name);
            &&& (key == "byte"@ || key == "uint8"@ || key == "u8"@) ==> data_type_for_name(key)
                == Some(GdalDataType::UInt8)
            &&& (key == "uint16"@ || key == "u16"@) ==> data_type_for_name(key) == Some(
                GdalDataType::UInt16,
            )
            &&& (key == "uint32"@ || key == "u32"@) ==> data_type_for_name(key) == Some(
                GdalDataType::UInt32,
            )
            &&& (key == "uint64"@ || key == "u64"@) ==> data_type_for_name(key) == Some(
                GdalDataType::UInt64,
            )
            &&& (key == "int16"@ || key == "i16"@) ==> data_type_for_name(key) == Some(
                GdalDataType::Int16,
            )
            &&& (key == "int32"@ || key == "i32"@) ==> data_type_for_name(key) == Some(
                GdalDataType::Int32,
            )
            &&& (key == "int64"@ || key == "i64"@) ==> data_type_for_name(key) == Some(
                GdalDataType::Int64,
            )
            &&& (key == "float32"@ || key == "f32"@) ==> data_type_for_name(key) == Some(
                GdalDataType::Float32,
            )
            &&& (key == "float64"@ || key == "f64"@) ==> data_type_for_name(key) == Some(
                GdalDataType::Float64,
            )
        }),
{
    reveal_strlit("byte");
    reveal_strlit("uint8");
    reveal_strlit("u8");
    reveal_strlit("uint16");
    reveal_strlit("u16");
    reveal_strlit("uint32");
    reveal_strlit("u32");
    reveal_strlit("uint64");
    reveal_strlit("u64");
    reveal_strlit("int16");
    reveal_strlit("i16");
    reveal_strlit("int32");
    reveal_strlit("i32");
    reveal_strlit("int64");
    reveal_strlit("i64");
    reveal_strlit("float32");
    reveal_strlit("f32");
    reveal_strlit("float64");
    reveal_strlit("f64");
    assert("byte"@ =~= seq!['b', 'y', 't', 'e']);
    assert("uint8"@ =~= seq!['u', 'i', 'n', 't', '8']);
    assert("u8"@ =~= seq!['u', '8']);
    assert("uint16"@ =~= seq!['u', 'i', 'n', 't', '1', '6']);
    assert("u16"@ =~= seq!['u', '1', '6']);
    assert("uint32"@ =~= seq!['u', 'i', 'n', 't', '3', '2']);
    assert("u32"@ =~= seq!['u', '3', '2']);
    assert("uint64"@ =~= seq!['u', 'i', 'n', 't', '6', '4']);
    assert("u64"@ =~= seq!['u', '6', '4']);
    assert("int16"@ =~= seq!['i', 'n', 't', '1', '6']);
    assert("i16"@ =~= seq!['i', '1', '6']);
    assert("int32"@ =~= seq!['i', 'n', 't', '3', '2']);
    assert("i32"@ =~= seq!['i', '3', '2']);
    assert("int64"@ =~= seq!['i', 'n', 't', '6', '4']);
    assert("i64"@ =~= seq!['i', '6', '4']);
    assert("float32"@ =~= seq!['f', 'l', 'o', 'a', 't', '3', '2']);
    assert("f32"@ =~= seq!['f', '3', '2']);
    assert("float64"@ =~= seq!['f', 'l', 'o', 'a', 't', '6', '4']);
    assert("f64"@ =~= seq!['f', '6', '4']);
}

/// The default colours of the bands of a dataset: a dataset of one band is gray; in a
/// dataset of two or more bands the first four are red, green, blue and alpha, and the
/// others have no colour.
pub proof fn law_default_band_colors(index: int, count: int)
    requires
        0 <= index < count,
    ensures
        count == 1 ==> default_band_color(index, count) == ColorInterpretation::GrayIndex,
        count >= 2 && index == 0 ==> default_band_color(index, count)
            == ColorInterpretation::RedBand,
        count >= 2 && index == 1 ==> default_band_color(index, count)
            == ColorInterpretation::GreenBand,
        count >= 3 && index == 2 ==> default_band_color(index, count)
            == ColorInterpretation::BlueBand,
        count >= 4 && index == 3 ==> default_band_color(index, count)
            == ColorInterpretation::AlphaBand,
        index >= 4 ==> default_band_color(index, count) == ColorInterpretation::Undefined,
{
}


/// The positions with a given flag among the first `n`: each is below `n` and carries the
/// flag, they increase, every such position is among them, and the positions of both
/// flags together number `n`.
proof fn lemma_positions_where(flags: Seq<bool>, value: bool, n: nat)
    requires
        n <= flags.len() <= usize::MAX,
    ensures
        ({
            let p = positions_where(flags, value, n);
            &&& forall|k: int| 0 <= k < p.len() ==> #[trigger] p[k] < n && flags[p[k] as int] == value
            &&& forall|j: int, k: int| 0 <= j < k < p.len() ==> p[j] < p[k]
            &&& forall|i: int| 0 <= i < n && flags[i] == value ==> #[trigger] p.contains(i as usize)
        }),
        positions_where(flags, value, n).len() + positions_where(flags, !value, n).len() == n,
    decreases n,
{
    if n > 0 {
        lemma_positions_where(flags, value, (n - 1) as nat);
        let p = positions_where(flags, value, n);
        let q = positions_where(flags, value, (n - 1) as nat);
        assert forall|i: int| 0 <= i < n && flags[i] == value implies #[trigger] p.contains(i as usize) by {
            if i == n - 1 {
                assert(p[p.len() - 1] == i);
            } else {
                assert(q.contains(i as usize));
                let k = choose|k: int| 0 <= k < q.len() && q[k] == i as usize;
                assert(p[k] == q[k]);
            }
        }
    }
}

/// Attachments are preprocessed height maps first: the order holds every attachment once,
/// no other attachment comes before a height map, and within each group the attachments
/// keep their original order.
pub proof fn law_height_first_order(is_height: Seq<bool>)
    requires
        is_height.len() <= usize::MAX,
    ensures
        ({
            let n = is_height.len();
            let r = height_first(is_height);
            &&& r.len() == n
            &&& forall|k: int| 0 <= k < r.len() ==> #[trigger] r[k] < n
            &&& forall|i: int| 0 <= i < n ==> #[trigger] r.contains(i as usize)
            &&& forall|j: int, k: int|
                0 <= j < k < r.len() && is_height[r[k] as int] ==> is_height[r[j] as int]
            &&& forall|j: int, k: int|
                0 <= j < k < r.len() && is_height[r[j] as int] == is_height[r[k] as int] ==> r[j] < r[k]
        }),
{
    let n = is_height.len();
    lemma_positions_where(is_height, true, n);
    lemma_positions_where(is_height, false, n);
    let a = positions_where(is_height, true, n);
    let b = positions_where(is_height, false, n);
    let r = a + b;
    assert forall|k: int| 0 <= k < r.len() implies #[trigger] r[k] < n && is_height[r[k] as int] == (k < a.len()) by {
        if k < a.len() {
            assert(r[k] == a[k]);
        } else {
            assert(r[k] == b[k - a.len()]);
        }
    }
    assert forall|i: int| 0 <= i < n implies #[trigger] r.contains(i as usize) by {
        if is_height[i] {
            assert(a.contains(i as usize));
            let k = choose|k: int| 0 <= k < a.len() && a[k] == i as usize;
            assert(r[k] == a[k]);
        } else {
            assert(b.contains(i as usize));
            let k = choose|k: int| 0 <= k < b.len() && b[k] == i as usize;
            assert(r[a.len() + k] == b[k]);
        }
    }
    assert forall|j: int, k: int|
        0 <= j < k < r.len() && is_height[r[j] as int] == is_height[r[k] as int] implies r[j] < r[k] by {
        if k < a.len() {
            assert(r[j] == a[j] && r[k] == a[k]);
        } else if j >= a.len() {
            assert(r[j] == b[j - a.len()] && r[k] == b[k - a.len()]);
        }
    }
}

} // verus!
