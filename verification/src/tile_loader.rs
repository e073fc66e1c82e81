//! Conversion of loaded tile images into the byte layout of their attachment, and the
//! choice of texture format for decoded TIFF tiles.
use vstd::prelude::*;

verus! {

/// The texture formats a loaded tile image can have.
#[derive(Debug, Clone, Copy, PartialEq, Eq, Structural)]
pub enum TextureFormatKind {
    R8Unorm,
    R16Unorm,
    R16Sint,
    R32Uint,
    R32Float,
    Rgba8Unorm,
    Rgba8UnormSrgb,
    Other,
}

/// Each gray byte `b` becomes the pixel `[b, b, b, 255]`.
pub fn gray_to_rgba(bytes: &[u8]) -> (r: Vec<u8>)
    requires
        bytes@.len() * 4 <= usize::MAX,
    ensures
        r@.len() == bytes@.len() * 4,
        forall|k: int|
            0 <= k < r@.len() ==> #[trigger] r@[k] == (if k % 4 == 3 {
                255u8
            } else {
                bytes@[k / 4]
            }),
{
    let n = bytes.len();
    let mut out: Vec<u8> = Vec::new();
    let mut i: usize = 0;
    while i < n
        invariant
            n == bytes@.len(),
            n * 4 <= usize::MAX,
            i <= n,
            out@.len() == i * 4,
            forall|k: int|
                0 <= k < out@.len() ==> #[trigger] out@[k] == (if k % 4 == 3 {
                    255u8
                } else {
                    bytes@[k / 4]
                }),
        decreases n - i,
    {
        let b = bytes[i];
        proof {
            crate::dataset::lemma_row_major(i * 4, 4, i as int, 0);
            crate::dataset::lemma_row_major(i * 4 + 1, 4, i as int, 1);
            crate::dataset::lemma_row_major(i * 4 + 2, 4, i as int, 2);
            crate::dataset::lemma_row_major(i * 4 + 3, 4, i as int, 3);
        }
        out.push(b);
        out.push(b);
        out.push(b);
        out.push(255u8);
        i = i + 1;
    }
    out
}

/// Each RGB triple `[r, g, b]` becomes the pixel `[r, g, b, 255]`.
pub fn rgb_to_rgba(bytes: &[u8]) -> (r: Vec<u8>)
    requires
        bytes@.len() % 3 == 0,
        bytes@.len() / 3 * 4 <= usize::MAX,
    ensures
        r@.len() == bytes@.len() / 3 * 4,
        forall|k: int|
            0 <= k < r@.len() ==> #[trigger] r@[k] == (if k % 4 == 3 {
                255u8
            } else {
                bytes@[(k / 4) * 3 + k % 4]
            }),
{
    let n = bytes.len() / 3;
    let mut out: Vec<u8> = Vec::new();
    let mut i: usize = 0;
    while i < n
        invariant
            n == bytes@.len() / 3,
            bytes@.len() % 3 == 0,
            n * 4 <= usize::MAX,
            i <= n,
            out@.len() == i * 4,
            forall|k: int|
                0 <= k < out@.len() ==> #[trigger] out@[k] == (if k % 4 == 3 {
                    255u8
                } else {
                    bytes@[(k / 4) * 3 + k % 4]
                }),
        decreases n - i,
    {
        let r = bytes[i * 3];
        let g = bytes[i * 3 + 1];
        let b = bytes[i * 3 + 2];
        proof {
            crate::dataset::lemma_row_major(i * 4, 4, i as int, 0);
            crate::dataset::lemma_row_major(i * 4 + 1, 4, i as int, 1);
            crate::dataset::lemma_row_major(i * 4 + 2, 4, i as int, 2);
            crate::dataset::lemma_row_major(i * 4 + 3, 4, i as int, 3);
        }
        out.push(r);
        out.push(g);
        out.push(b);
        out.push(255u8);
        i = i + 1;
    }
    out
}

/// Whether a loaded tile image in `format`, of `width` by `height` pixels holding
/// `byte_count` bytes, is widened to RGBA bytes for an RGBA attachment, and how: gray
/// images become RGBA, and RGB images whose bytes are three per pixel gain an alpha byte.
#[derive(Debug, Clone, Copy, PartialEq, Eq, Structural)]
pub enum TileConversion {
    GrayToRgba,
    RgbToRgba,
    Unchanged,
}

pub open spec fn tile_conversion_spec(
    format: TextureFormatKind,
    rgba_attachment: bool,
    width: u32,
    height: u32,
    byte_count: int,
) -> TileConversion {
    if format == TextureFormatKind::R8Unorm && rgba_attachment {
        TileConversion::GrayToRgba
    } else if (format == TextureFormatKind::Rgba8Unorm || format
        == TextureFormatKind::Rgba8UnormSrgb) && rgba_attachment && byte_count == width * height
        * 3 {
        TileConversion::RgbToRgba
    } else {
        TileConversion::Unchanged
    }
}

pub fn tile_conversion(
    format: TextureFormatKind,
    rgba_attachment: bool,
    width: u32,
    height: u32,
    byte_count: usize,
) -> (r: TileConversion)
    requires
        (format == TextureFormatKind::Rgba8Unorm || format == TextureFormatKind::Rgba8UnormSrgb)
            && rgba_attachment ==> width * height * 3 <= u32::MAX,
    ensures
        r == tile_conversion_spec(format, rgba_attachment, width, height, byte_count as int),
{
    if format == TextureFormatKind::R8Unorm && rgba_attachment {
        TileConversion::GrayToRgba
    } else if (format == TextureFormatKind::Rgba8Unorm || format
        == TextureFormatKind::Rgba8UnormSrgb) && rgba_attachment {
        proof {
            assert(0 <= width * height) by (nonlinear_arith);
        }
        if byte_count == (width * height * 3) as usize {
            TileConversion::RgbToRgba
        } else {
            TileConversion::Unchanged
        }
    } else {
        TileConversion::Unchanged
    }
}

/// The bytes a loaded tile image contributes to its attachment: converted as
/// `tile_conversion` decides, or `None` when the image bytes are used as they are.
pub fn convert_tile_bytes(
    format: TextureFormatKind,
    rgba_attachment: bool,
    width: u32,
    height: u32,
    bytes: &[u8],
) -> (r: Option<Vec<u8>>)
    requires
        bytes@.len() * 4 <= usize::MAX,
        (format == TextureFormatKind::Rgba8Unorm || format == TextureFormatKind::Rgba8UnormSrgb)
            && rgba_attachment ==> width * height * 3 <= u32::MAX,
    ensures
        match tile_conversion_spec(format, rgba_attachment, width, height, bytes@.len() as int) {
            TileConversion::GrayToRgba => r matches Some(v) && v@.len() == bytes@.len() * 4
                && forall|k: int|
                0 <= k < v@.len() ==> #[trigger] v@[k] == (if k % 4 == 3 {
                    255u8
                } else {
                    bytes@[k / 4]
                }),
            TileConversion::RgbToRgba => r matches Some(v) && v@.len() == bytes@.len() / 3 * 4
                && forall|k: int|
                0 <= k < v@.len() ==> #[trigger] v@[k] == (if k % 4 == 3 {
                    255u8
                } else {
                    bytes@[(k / 4) * 3 + k % 4]
                }),
            TileConversion::Unchanged => r is None,
        },
{
    match tile_conversion(format, rgba_attachment, width, height, bytes.len()) {
        TileConversion::GrayToRgba => Some(gray_to_rgba(bytes)),
        TileConversion::RgbToRgba => {
            proof {
                assert(bytes@.len() % 3 == 0) by (nonlinear_arith)
                    requires
                        bytes@.len() == width * height * 3,
                ;
            }
            Some(rgb_to_rgba(bytes))
        },
        TileConversion::Unchanged => None,
    }
}

/// The colour layout of a decoded TIFF image.
#[derive(Debug, Clone, Copy, PartialEq, Eq, Structural)]
pub enum TiffColorType {
    Gray,
    GrayA,
    Rgb,
    Rgba,
    Other,
}

/// The sample type of a decoded TIFF image.
#[derive(Debug, Clone, Copy, PartialEq, Eq, Structural)]
pub enum TiffSampleType {
    U8,
    U16,
    U32,
    U64,
    F32,
    F64,
    I8,
    I16,
    I32,
    I64,
}

/// The texture format of a decoded TIFF image; `None` for the combinations that have none.
pub open spec fn texture_format_spec(color: TiffColorType, sample: TiffSampleType) -> Option<
    TextureFormatKind,
> {
    match color {
        TiffColorType::Gray | TiffColorType::GrayA => match sample {
            TiffSampleType::U8 => Some(TextureFormatKind::R8Unorm),
            TiffSampleType::U16 => Some(TextureFormatKind::R16Unorm),
            TiffSampleType::U32 => Some(TextureFormatKind::R32Uint),
            TiffSampleType::F32 => Some(TextureFormatKind::R32Float),
            TiffSampleType::I16 => Some(TextureFormatKind::R16Sint),
            _ => None,
        },
        TiffColorType::Rgb | TiffColorType::Rgba => match sample {
            TiffSampleType::U8 => Some(TextureFormatKind::Rgba8Unorm),
            _ => None,
        },
        TiffColorType::Other => None,
    }
}

/// The loader of `.tif` and `.tiff` tile images.
#[derive(Default)]
pub struct TiffLoader;

/// Whether a decoded TIFF image of this colour layout and sample type has a texture format;
/// the loader panics on every other combination.
pub open spec fn texture_format_supported(color: TiffColorType, sample: TiffSampleType) -> bool {
    texture_format_spec(color, sample) is Some
}

impl TiffLoader {
    /// Whether `texture_format` can be asked for this colour layout and sample type.
    pub fn supports(color: TiffColorType, sample: TiffSampleType) -> (r: bool)
        ensures
            r == texture_format_supported(color, sample),
    {
        match color {
            TiffColorType::Gray | TiffColorType::GrayA => match sample {
                TiffSampleType::U8 | TiffSampleType::U16 | TiffSampleType::U32
                | TiffSampleType::F32 | TiffSampleType::I16 => true,
                _ => false,
            },
            TiffColorType::Rgb | TiffColorType::Rgba => match sample {
                TiffSampleType::U8 => true,
                _ => false,
            },
            TiffColorType::Other => false,
        }
    }

    /// The texture format of a decoded TIFF image of this colour layout and sample type.
    pub fn texture_format(color: TiffColorType, sample: TiffSampleType) -> (r: TextureFormatKind)
        requires
            texture_format_supported(color, sample),
        ensures
            texture_format_spec(color, sample) == Some(r),
    {
        match color {
            TiffColorType::Gray | TiffColorType::GrayA => match sample {
                TiffSampleType::U8 => TextureFormatKind::R8Unorm,
                TiffSampleType::U16 => TextureFormatKind::R16Unorm,
                TiffSampleType::U32 => TextureFormatKind::R32Uint,
                TiffSampleType::F32 => TextureFormatKind::R32Float,
                _ => TextureFormatKind::R16Sint,
            },
            _ => TextureFormatKind::Rgba8Unorm,
        }
    }
}

} // verus!
