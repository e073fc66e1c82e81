use vstd::prelude::*;
use crate::error::GdalError;
use crate::text::{ascii_lower_chars, chars_equal, concat_chars, trim_chars, trimmed_lowercase};

verus! {

/// How the samples of a band are to be read as colour.
#[derive(Debug, Clone, Copy, PartialEq, Eq, Structural)]
pub enum ColorInterpretation {
    Undefined,
    GrayIndex,
    RedBand,
    GreenBand,
    BlueBand,
    AlphaBand,
}

/// The numeric code that GDAL gives each colour interpretation.
pub open spec fn color_code(c: ColorInterpretation) -> i32 {
    match c {
        ColorInterpretation::Undefined => 0,
        ColorInterpretation::GrayIndex => 1,
        ColorInterpretation::RedBand => 3,
        ColorInterpretation::GreenBand => 4,
        ColorInterpretation::BlueBand => 5,
        ColorInterpretation::AlphaBand => 6,
    }
}

/// The colour interpretation of a numeric code; unknown codes read as `Undefined`.
pub open spec fn color_from_code(value: i32) -> ColorInterpretation {
    if value == 1 {
        ColorInterpretation::GrayIndex
    } else if value == 3 {
        ColorInterpretation::RedBand
    } else if value == 4 {
        ColorInterpretation::GreenBand
    } else if value == 5 {
        ColorInterpretation::BlueBand
    } else if value == 6 {
        ColorInterpretation::AlphaBand
    } else {
        ColorInterpretation::Undefined
    }
}

impl ColorInterpretation {
    pub fn c_int(self) -> (r: i32)
        ensures
            r == color_code(self),
    {
        match self {
            ColorInterpretation::Undefined => 0,
            ColorInterpretation::GrayIndex => 1,
            ColorInterpretation::RedBand => 3,
            ColorInterpretation::GreenBand => 4,
            ColorInterpretation::BlueBand => 5,
            ColorInterpretation::AlphaBand => 6,
        }
    }

    pub fn from_c_int(value: i32) -> (r: Option<Self>)
        ensures
            r == Some(color_from_code(value)),
    {
        match value {
            1 => Some(ColorInterpretation::GrayIndex),
            3 => Some(ColorInterpretation::RedBand),
            4 => Some(ColorInterpretation::GreenBand),
            5 => Some(ColorInterpretation::BlueBand),
            6 => Some(ColorInterpretation::AlphaBand),
            _ => Some(ColorInterpretation::Undefined),
        }
    }
}


/// The sample type of a raster band.
#[derive(Debug, Clone, Copy, PartialEq, Eq, Structural)]
pub enum GdalDataType {
    Unknown,
    UInt8,
    UInt16,
    UInt32,
    UInt64,
    Int16,
    Int32,
    Int64,
    Float32,
    Float64,
}

/// The data type that a normalised (trimmed, lowercased) name stands for.
pub open spec fn data_type_for_name(key: Seq<char>) -> Option<GdalDataType> {
    if key == "byte"@ || key == "uint8"@ || key == "u8"@ {
        Some(GdalDataType::UInt8)
    } else if key == "uint16"@ || key == "u16"@ {
        Some(GdalDataType::UInt16)
    } else if key == "uint32"@ || key == "u32"@ {
        Some(GdalDataType::UInt32)
    } else if key == "uint64"@ || key == "u64"@ {
        Some(GdalDataType::UInt64)
    } else if key == "int16"@ || key == "i16"@ {
        Some(GdalDataType::Int16)
    } else if key == "int32"@ || key == "i32"@ {
        Some(GdalDataType::Int32)
    } else if key == "int64"@ || key == "i64"@ {
        Some(GdalDataType::Int64)
    } else if key == "float32"@ || key == "f32"@ {
        Some(GdalDataType::Float32)
    } else if key == "float64"@ || key == "f64"@ {
        Some(GdalDataType::Float64)
    } else {
        None
    }
}

/// A data type name with surrounding whitespace removed and ASCII letters lowered.
pub open spec fn normalized_name(name: Seq<char>) -> Seq<char> {
    ascii_lower_chars(trim_chars(name))
}

/// The data type of TIFF samples with the given `SampleFormat` and bit depth.
pub open spec fn data_type_for_layout(sample_format: u16, bits_per_sample: u16) -> GdalDataType {
    if sample_format == 1 && bits_per_sample == 8 {
        GdalDataType::UInt8
    } else if sample_format == 1 && bits_per_sample == 16 {
        GdalDataType::UInt16
    } else if sample_format == 1 && bits_per_sample == 32 {
        GdalDataType::UInt32
    } else if sample_format == 1 && bits_per_sample == 64 {
        GdalDataType::UInt64
    } else if sample_format == 2 && bits_per_sample == 16 {
        GdalDataType::Int16
    } else if sample_format == 2 && bits_per_sample == 32 {
        GdalDataType::Int32
    } else if sample_format == 2 && bits_per_sample == 64 {
        GdalDataType::Int64
    } else if sample_format == 3 && bits_per_sample == 32 {
        GdalDataType::Float32
    } else if sample_format == 3 && bits_per_sample == 64 {
        GdalDataType::Float64
    } else {
        GdalDataType::Unknown
    }
}

impl GdalDataType {
    /// Parses a data type name such as `"UInt16"` or `" f32 "`: surrounding whitespace is
    /// ignored and ASCII letters compare without regard to case.
    pub fn from_name(name: &str) -> (r: Result<Self, GdalError>)
        ensures
            match data_type_for_name(normalized_name(name@)) {
                Some(t) => r == Ok::<Self, GdalError>(t),
                None => r matches Err(GdalError::Message(m))
                    && m@ == "unknown raster data type: "@ + normalized_name(name@),
            },
    {
        let key = trimmed_lowercase(name);
        if chars_equal(&key, "byte") || chars_equal(&key, "uint8") || chars_equal(&key, "u8") {
            Ok(GdalDataType::UInt8)
        } else if chars_equal(&key, "uint16") || chars_equal(&key, "u16") {
            Ok(GdalDataType::UInt16)
        } else if chars_equal(&key, "uint32") || chars_equal(&key, "u32") {
            Ok(GdalDataType::UInt32)
        } else if chars_equal(&key, "uint64") || chars_equal(&key, "u64") {
            Ok(GdalDataType::UInt64)
        } else if chars_equal(&key, "int16") || chars_equal(&key, "i16") {
            Ok(GdalDataType::Int16)
        } else if chars_equal(&key, "int32") || chars_equal(&key, "i32") {
            Ok(GdalDataType::Int32)
        } else if chars_equal(&key, "int64") || chars_equal(&key, "i64") {
            Ok(GdalDataType::Int64)
        } else if chars_equal(&key, "float32") || chars_equal(&key, "f32") {
            Ok(GdalDataType::Float32)
        } else if chars_equal(&key, "float64") || chars_equal(&key, "f64") {
            Ok(GdalDataType::Float64)
        } else {
            Err(GdalError::Message(concat_chars("unknown raster data type: ", &key)))
        }
    }

    /// The data type of TIFF samples with the given `SampleFormat` (1 unsigned, 2 signed,
    /// 3 floating point) and bit depth; any other pair is `Unknown`.
    pub fn from_layout(sample_format: u16, bits_per_sample: u16) -> (r: Self)
        ensures
            r == data_type_for_layout(sample_format, bits_per_sample),
    {
        match (sample_format, bits_per_sample) {
            (1, 8) => GdalDataType::UInt8,
            (1, 16) => GdalDataType::UInt16,
            (1, 32) => GdalDataType::UInt32,
            (1, 64) => GdalDataType::UInt64,
            (2, 16) => GdalDataType::Int16,
            (2, 32) => GdalDataType::Int32,
            (2, 64) => GdalDataType::Int64,
            (3, 32) => GdalDataType::Float32,
            (3, 64) => GdalDataType::Float64,
            _ => GdalDataType::Unknown,
        }
    }
}

/// A sample type that raster bands can be read as and written from.
pub trait GdalType: Copy {
    const DATA_TYPE: GdalDataType;
}

impl GdalType for u8 {
    const DATA_TYPE: GdalDataType = GdalDataType::UInt8;
}

impl GdalType for u16 {
    const DATA_TYPE: GdalDataType = GdalDataType::UInt16;
}

impl GdalType for u32 {
    const DATA_TYPE: GdalDataType = GdalDataType::UInt32;
}

impl GdalType for u64 {
    const DATA_TYPE: GdalDataType = GdalDataType::UInt64;
}

impl GdalType for i16 {
    const DATA_TYPE: GdalDataType = GdalDataType::Int16;
}

impl GdalType for i32 {
    const DATA_TYPE: GdalDataType = GdalDataType::Int32;
}

impl GdalType for i64 {
    const DATA_TYPE: GdalDataType = GdalDataType::Int64;
}

/// How a window is resampled when its size differs from the requested buffer size.
#[derive(Debug, Clone, Copy, PartialEq, Eq, Structural)]
pub enum ResampleAlg {
    NearestNeighbour,
    Bilinear,
}

/// Creation options for a raster; the in-memory driver ignores them.
pub struct RasterCreationOptions;

impl RasterCreationOptions {
    pub fn from_iter<I>(_iter: I) -> (r: Self)
        where
            I: IntoIterator,
            I::Item: AsRef<str>,
    {
        RasterCreationOptions
    }
}

/// A row-major block of samples: `shape` is `(width, height)` and the sample at row `y`,
/// column `x` is `data[y * width + x]`.
#[derive(Debug)]
pub struct Buffer<T> {
    shape: (usize, usize),
    data: Vec<T>,
}

impl<T> View for Buffer<T> {
    type V = Seq<T>;

    closed spec fn view(&self) -> Seq<T> {
        self.data@
    }
}

impl<T: Clone> Clone for Buffer<T> {
    fn clone(&self) -> (r: Self)
        ensures
            r.shape_spec() == self.shape_spec(),
            r@.len() == self@.len(),
            forall|i: int| 0 <= i < self@.len() ==> cloned::<T>(self@[i], #[trigger] r@[i]),
    {
        Buffer { shape: self.shape, data: self.data.clone() }
    }
}

impl<T> Buffer<T> {
    /// The `(width, height)` the buffer was made with.
    pub closed spec fn shape_spec(&self) -> (usize, usize) {
        self.shape
    }

    pub fn new(shape: (usize, usize), data: Vec<T>) -> (r: Self)
        ensures
            r.shape_spec() == shape,
            r@ == data@,
    {
        Buffer { shape, data }
    }

    pub fn shape(&self) -> (r: (usize, usize))
        ensures
            r == self.shape_spec(),
    {
        self.shape
    }

    /// The samples, taking the buffer apart.
    pub fn into_data(self) -> (r: Vec<T>)
        ensures
            r@ == self@,
    {
        self.data
    }

    pub fn data(&self) -> (r: &[T])
        ensures
            r@ == self@,
    {
        self.data.as_slice()
    }

    pub fn data_mut(&mut self) -> (r: &mut [T])
        ensures
            r@ == old(self)@,
            final(self).shape_spec() == old(self).shape_spec(),
            final(self)@ == final(r)@,
    {
        self.data.as_mut_slice()
    }

    /// The sample at `(row, column)`, to be changed in place.
    pub fn index_mut(&mut self, index: (usize, usize)) -> (r: &mut T)
        requires
            index.0 * old(self).shape_spec().0 + index.1 < old(self)@.len(),
        ensures
            *r == old(self)@[index.0 * old(self).shape_spec().0 + index.1],
            final(self).shape_spec() == old(self).shape_spec(),
            final(self)@ == old(self)@.update(
                index.0 * old(self).shape_spec().0 + index.1,
                *final(r),
            ),
    {
        let len = self.data.len();
        assert(index.0 * self.shape.0 + index.1 < len);
        &mut self.data[index.0 * self.shape.0 + index.1]
    }

    /// The sample at `(row, column)`.
    pub fn index(&self, index: (usize, usize)) -> (r: &T)
        requires
            index.0 * self.shape_spec().0 + index.1 < self@.len(),
        ensures
            *r == self@[index.0 * self.shape_spec().0 + index.1],
    {
        let len = self.data.len();
        assert(index.0 * self.shape.0 + index.1 < len);
        &self.data[index.0 * self.shape.0 + index.1]
    }
}

} // verus!
