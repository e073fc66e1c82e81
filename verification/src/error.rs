use vstd::prelude::*;

verus! {

/// Error raised by the raster layer; it carries a human readable message.
#[derive(Debug, Clone)]
pub enum GdalError {
    Message(String),
}

impl GdalError {
    /// The text of the error, as it is displayed.
    pub fn message(&self) -> (r: String)
        ensures
            match self {
                GdalError::Message(m) => r@ == m@,
            },
    {
        match self {
            GdalError::Message(m) => m.clone(),
        }
    }
}

/// Error raised by the preprocessing steps.
#[derive(Debug)]
pub enum PreprocessError {
    /// An error reported by the raster layer.
    Gdal(GdalError),
    /// A raster could not be reshaped or converted.
    Raster(String),
    /// The data type of the raster bands is not known.
    UnknownRasterbandDataType,
}

} // verus!
