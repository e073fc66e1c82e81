//! No-data masking: the least significant bit of each sample records whether the pixel
//! held data (1) or was filled in (0).
use vstd::prelude::*;
use crate::error::PreprocessError;
use crate::raster::{Buffer, GdalDataType};

verus! {

/// A sample type whose least significant bit can carry a validity mask.
pub trait BitMask: Sized + Copy {
    /// The sample with its least significant bit replaced by whether `mask` is set.
    spec fn masked(&self, mask: u8) -> Self;

    fn apply(&self, mask: u8) -> (r: Self)
        ensures
            r == self.masked(mask),
    ;
}

impl BitMask for u8 {
    open spec fn masked(&self, mask: u8) -> u8 {
        (*self & !1u8) | (if mask != 0 {
            1u8
        } else {
            0u8
        })
    }

    fn apply(&self, mask: u8) -> (r: u8) {
        let bit: u8 = if mask != 0 {
            1
        } else {
            0
        };
        (*self & !1u8) | bit
    }
}

impl BitMask for u16 {
    open spec fn masked(&self, mask: u8) -> u16 {
        (*self & !1u16) | (if mask != 0 {
            1u16
        } else {
            0u16
        })
    }

    fn apply(&self, mask: u8) -> (r: u16) {
        let bit: u16 = if mask != 0 {
            1
        } else {
            0
        };
        (*self & !1u16) | bit
    }
}

impl BitMask for i16 {
    open spec fn masked(&self, mask: u8) -> i16 {
        (*self & !1i16) | (if mask != 0 {
            1i16
        } else {
            0i16
        })
    }

    fn apply(&self, mask: u8) -> (r: i16) {
        let bit: i16 = if mask != 0 {
            1
        } else {
            0
        };
        (*self & !1i16) | bit
    }
}

/// Replaces the least significant bit of each sample by its mask byte; samples are paired
/// with mask bytes in order and samples past the end of `mask` stay as they are.
pub fn apply_mask<T: BitMask>(values: &mut [T], mask: &[u8])
    ensures
        final(values)@.len() == old(values)@.len(),
        forall|i: int|
            0 <= i < old(values)@.len() ==> #[trigger] final(values)@[i] == (if i < mask@.len() {
                old(values)@[i].masked(mask@[i])
            } else {
                old(values)@[i]
            }),
{
    let n = if values.len() < mask.len() {
        values.len()
    } else {
        mask.len()
    };
    let mut i: usize = 0;
    while i < n
        invariant
            n <= values@.len(),
            n <= mask@.len(),
            n == values@.len() || n == mask@.len(),
            i <= n,
            values@.len() == old(values)@.len(),
            forall|j: int|
                0 <= j < values@.len() ==> #[trigger] values@[j] == (if j < i {
                    old(values)@[j].masked(mask@[j])
                } else {
                    old(values)@[j]
                }),
        decreases n - i,
    {
        let v = values[i].apply(mask[i]);
        values[i] = v;
        i = i + 1;
    }
}

/// The sample types a band can be masked in.
#[derive(Debug, Clone, Copy, PartialEq, Eq, Structural)]
pub enum MaskSampleType {
    UInt8,
    UInt16,
    Int16,
    Float32,
}

/// Whether bands of `data_type` can be masked; the 32 and 64 bit integer types and 64 bit
/// floats cannot.
pub open spec fn mask_supported(data_type: GdalDataType) -> bool {
    match data_type {
        GdalDataType::UInt32 | GdalDataType::UInt64 | GdalDataType::Int32 | GdalDataType::Int64
        | GdalDataType::Float64 => false,
        _ => true,
    }
}

/// The sample type in which the masks of bands of `data_type` are written.
pub fn mask_sample_type(data_type: GdalDataType) -> (r: Result<MaskSampleType, PreprocessError>)
    requires
        mask_supported(data_type),
    ensures
        data_type == GdalDataType::Unknown ==> r matches Err(
            PreprocessError::UnknownRasterbandDataType,
        ),
        data_type == GdalDataType::UInt8 ==> r == Ok::<MaskSampleType, PreprocessError>(
            MaskSampleType::UInt8,
        ),
        data_type == GdalDataType::UInt16 ==> r == Ok::<MaskSampleType, PreprocessError>(
            MaskSampleType::UInt16,
        ),
        data_type == GdalDataType::Int16 ==> r == Ok::<MaskSampleType, PreprocessError>(
            MaskSampleType::Int16,
        ),
        data_type == GdalDataType::Float32 ==> r == Ok::<MaskSampleType, PreprocessError>(
            MaskSampleType::Float32,
        ),
{
    match data_type {
        GdalDataType::UInt8 => Ok(MaskSampleType::UInt8),
        GdalDataType::UInt16 => Ok(MaskSampleType::UInt16),
        GdalDataType::Int16 => Ok(MaskSampleType::Int16),
        GdalDataType::Float32 => Ok(MaskSampleType::Float32),
        _ => Err(PreprocessError::UnknownRasterbandDataType),
    }
}

/// Applies the mask of a band to its samples (see `apply_mask`).
pub fn mask_band<T: BitMask>(band_data: &mut Buffer<T>, mask: &Buffer<u8>)
    ensures
        final(band_data).shape_spec() == old(band_data).shape_spec(),
        final(band_data)@.len() == old(band_data)@.len(),
        forall|i: int|
            0 <= i < old(band_data)@.len() ==> #[trigger] final(band_data)@[i] == (if i
                < mask@.len() {
                old(band_data)@[i].masked(mask@[i])
            } else {
                old(band_data)@[i]
            }),
{
    let m = mask.data();
    let values = band_data.data_mut();
    apply_mask(values, m);
}

} // verus!
