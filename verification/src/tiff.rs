//! Decoding TIFF and GeoTIFF files, and reading the header of their first image.
use vstd::prelude::*;
use crate::error::GdalError;
use crate::raster::{data_type_for_layout, GdalDataType};
use geotiff_reader::GeoTiffFile;
use tiff_reader::{TiffError, TiffFile};

verus! {

#[verifier::external_type_specification]
#[verifier::external_body]
pub struct ExTiffFile(TiffFile);

#[verifier::external_type_specification]
#[verifier::external_body]
pub struct ExTiffError(TiffError);

#[verifier::external_type_specification]
#[verifier::external_body]
pub struct ExGeoTiffFile(GeoTiffFile);

#[verifier::external_type_specification]
#[verifier::external_body]
pub struct ExGeoTiffError(geotiff_reader::Error);

/// Whether the TIFF decoder accepts `bytes` as a TIFF file.
pub uninterp spec fn tiff_accepts(bytes: Seq<u8>) -> bool;

/// Whether the GeoTIFF decoder accepts `bytes` as a GeoTIFF file.
pub uninterp spec fn geotiff_accepts(bytes: Seq<u8>) -> bool;

/// What the TIFF decoder reads from `bytes` as the width, height, samples per pixel, sample
/// format and bits per sample of the image at `index`; `None` where it refuses the file,
/// finds no image at `index`, or refuses that image's raster layout.
pub uninterp spec fn tiff_image_header(bytes: Seq<u8>, index: usize) -> Option<(u32, u32, u16, u16, u16)>;

/// A TIFF file decoded from `bytes`.
/// Trusted: calls `TiffFile::from_bytes`, whose success depends on the bytes alone.
#[verifier::external_body]
fn tiff_from_bytes(bytes: Vec<u8>) -> (r: Result<TiffFile, TiffError>)
    ensures
        r is Ok <==> tiff_accepts(bytes@),
{
    TiffFile::from_bytes(bytes)
}

/// A GeoTIFF file decoded from `bytes`.
/// Trusted: calls `GeoTiffFile::from_bytes`, whose success depends on the bytes alone.
#[verifier::external_body]
fn geotiff_from_bytes(bytes: Vec<u8>) -> (r: Result<GeoTiffFile, geotiff_reader::Error>)
    ensures
        r is Ok <==> geotiff_accepts(bytes@),
{
    GeoTiffFile::from_bytes(bytes)
}

/// The header fields of the image at `index` of the TIFF file in `bytes`.
/// Trusted: decodes the file with `TiffFile::from_bytes`, takes `ifd(index)`, and returns
/// its `width`, `height` and `samples_per_pixel` with the `sample_format` and
/// `bits_per_sample` of its `raster_layout`; the first error of these calls is returned.
/// The result depends on the bytes and the index alone and is named `tiff_image_header`;
/// the text of the error is left unsaid.
#[verifier::external_body]
fn image_header(bytes: &[u8], index: usize) -> (r: Result<(u32, u32, u16, u16, u16), TiffError>)
    ensures
        r is Ok <==> tiff_image_header(bytes@, index) is Some,
        r matches Ok(h) ==> tiff_image_header(bytes@, index) == Some(h),
{
    let file = TiffFile::from_bytes(bytes.to_vec())?;
    let ifd = file.ifd(index)?;
    let layout = ifd.raster_layout()?;
    Ok((ifd.width(), ifd.height(), ifd.samples_per_pixel(), layout.sample_format, layout.bits_per_sample))
}

/// The text of a decoder error.
/// Trusted: calls `TiffError::to_string`; nothing is stated of the text.
#[verifier::external_body]
fn tiff_error_text(err: &TiffError) -> (r: String) {
    err.to_string()
}

/// Decodes a TIFF file; an error names the file by `path_text`.
pub fn parse_tiff(path_text: &str, bytes: Vec<u8>) -> (r: Result<TiffFile, GdalError>)
    ensures
        r is Ok <==> tiff_accepts(bytes@),
        r matches Err(GdalError::Message(m)) ==> m@.take(path_text@.len() + 2int) == path_text@ + ": "@,
{
    match tiff_from_bytes(bytes) {
        Ok(file) => Ok(file),
        Err(err) => {
            let mut m = String::from_str(path_text);
            m.append(": ");
            let ghost prefix = m@;
            proof {
                reveal_strlit(": ");
            }
            m.append(tiff_error_text(&err).as_str());
            assert(m@.take(path_text@.len() + 2int) =~= prefix);
            Err(GdalError::Message(m))
        },
    }
}

/// A decoded TIFF file: a GeoTIFF where the GeoTIFF decoder accepts it, else a plain TIFF.
pub enum OpenedTiff {
    GeoTiff(GeoTiffFile),
    Tiff(TiffFile),
}

/// Decodes the bytes of a raster file: as a GeoTIFF first, then as a plain TIFF; an error
/// names the file by `path_text`.
pub fn open_tiff_bytes(path_text: &str, bytes: &[u8]) -> (r: Result<OpenedTiff, GdalError>)
    ensures
        r matches Ok(OpenedTiff::GeoTiff(_)) <==> geotiff_accepts(bytes@),
        r matches Ok(OpenedTiff::Tiff(_)) <==> !geotiff_accepts(bytes@) && tiff_accepts(bytes@),
        r is Err <==> !geotiff_accepts(bytes@) && !tiff_accepts(bytes@),
        r matches Err(GdalError::Message(m)) ==> m@.take(path_text@.len() + 2int) == path_text@ + ": "@,
{
    match geotiff_from_bytes(vstd::slice::slice_to_vec(bytes)) {
        Ok(file) => Ok(OpenedTiff::GeoTiff(file)),
        Err(_) => match parse_tiff(path_text, vstd::slice::slice_to_vec(bytes)) {
            Ok(file) => Ok(OpenedTiff::Tiff(file)),
            Err(err) => Err(err),
        },
    }
}

/// The size, band count and sample layout of the first image of a TIFF file.
#[derive(Debug, Clone, Copy, PartialEq, Eq, Structural)]
pub struct TiffHeader {
    pub width: usize,
    pub height: usize,
    pub samples: usize,
    pub sample_format: u16,
    pub bits_per_sample: u16,
    pub data_type: GdalDataType,
}

impl TiffHeader {
    /// The header of an image with the given size, samples per pixel and sample layout;
    /// the data type follows from the layout (see `GdalDataType::from_layout`).
    pub fn from_layout(width: u32, height: u32, samples: u16, sample_format: u16, bits_per_sample: u16) -> (r: Self)
        ensures
            r.width == width,
            r.height == height,
            r.samples == samples,
            r.sample_format == sample_format,
            r.bits_per_sample == bits_per_sample,
            r.data_type == data_type_for_layout(sample_format, bits_per_sample),
    {
        TiffHeader {
            width: width as usize,
            height: height as usize,
            samples: samples as usize,
            sample_format,
            bits_per_sample,
            data_type: GdalDataType::from_layout(sample_format, bits_per_sample),
        }
    }
}

/// Reads the header of the first image of the TIFF file in `bytes`, the image that a
/// dataset is read from.
pub fn read_tiff_header(bytes: &[u8]) -> (r: Result<TiffHeader, GdalError>)
    ensures
        r is Ok <==> tiff_image_header(bytes@, 0) is Some,
        r matches Ok(h) ==> ({
            let (width, height, samples, sample_format, bits_per_sample) = tiff_image_header(bytes@, 0)->0;
            &&& h.width == width
            &&& h.height == height
            &&& h.samples == samples
            &&& h.sample_format == sample_format
            &&& h.bits_per_sample == bits_per_sample
            &&& h.data_type == data_type_for_layout(sample_format, bits_per_sample)
        }),
{
    match image_header(bytes, 0) {
        Ok((width, height, samples, sample_format, bits_per_sample)) => Ok(
            TiffHeader::from_layout(width, height, samples, sample_format, bits_per_sample),
        ),
        Err(err) => Err(GdalError::Message(tiff_error_text(&err))),
    }
}

} // verus!
