//! Conversion of raster buffers into two-dimensional `ndarray` arrays.
use vstd::prelude::*;
use crate::error::PreprocessError;
use crate::raster::Buffer;
use ndarray::{Array2, ShapeError};

verus! {

/// A two-dimensional `ndarray` array; Verus does not read its contents.
#[verifier::external_body]
#[verifier::reject_recursive_types(T)]
pub struct NdArray<T> {
    pub array: Array2<T>,
}

/// A two-dimensional array of samples with its number of rows and columns and its
/// elements in row-major order, as the array was made.
#[verifier::reject_recursive_types(T)]
pub struct RasterArray<T> {
    pub values: NdArray<T>,
    rows: Ghost<usize>,
    cols: Ghost<usize>,
    elems: Ghost<Seq<T>>,
}

impl<T> RasterArray<T> {
    /// The number of rows of the array.
    pub closed spec fn rows(&self) -> usize {
        self.rows@
    }

    /// The number of columns of the array.
    pub closed spec fn cols(&self) -> usize {
        self.cols@
    }
}

impl<T> View for RasterArray<T> {
    type V = Seq<T>;

    /// The elements of the array in row-major order: row `y`, column `x` is at
    /// `y * cols + x`.
    closed spec fn view(&self) -> Seq<T> {
        self.elems@
    }
}

#[verifier::external_type_specification]
#[verifier::external_body]
pub struct ExShapeError(ShapeError);

/// `d`, or 1 for an empty axis.
pub open spec fn nonzero_extent(d: usize) -> int {
    if d == 0 {
        1
    } else {
        d as int
    }
}

/// Whether `ndarray` accepts `len` elements as an array of `rows` by `cols`: the shape
/// holds exactly that many elements and its non-empty extents multiply to at most
/// `isize::MAX`.
pub open spec fn shape_fits(rows: usize, cols: usize, len: int) -> bool {
    rows * cols == len && nonzero_extent(rows) * nonzero_extent(cols) <= isize::MAX
}

/// An array of `rows` by `cols` made of `data` in row-major order.
/// Trusted: calls `Array2::from_shape_vec` with a `(rows, cols)` shape, which fails
/// exactly when the shape does not hold `data.len()` elements or its non-empty extents
/// overflow `isize`, and otherwise returns the array of that shape whose elements are
/// `data` in row-major (standard) order; the model fields record that shape and those
/// elements.
#[verifier::external_body]
fn array2_from_shape_vec<T>(rows: usize, cols: usize, data: Vec<T>) -> (r: Result<RasterArray<T>, ShapeError>)
    ensures
        r is Ok <==> shape_fits(rows, cols, data@.len() as int),
        r matches Ok(a) ==> a.rows() == rows && a.cols() == cols && a@ == data@,
{
    let elems = Ghost(data@);
    match Array2::from_shape_vec((rows, cols), data) {
        Ok(array) => Ok(RasterArray { values: NdArray { array }, rows: Ghost(rows), cols: Ghost(cols), elems }),
        Err(e) => Err(e),
    }
}

/// The message of a shape error.
/// Trusted: calls `ShapeError::to_string`; nothing is stated of the text.
#[verifier::external_body]
fn shape_error_message(err: &ShapeError) -> (r: String) {
    err.to_string()
}

impl<T: Clone> Buffer<T> {
    /// The buffer as an array with `height` rows of `width` samples.
    pub fn to_array(&self) -> (r: Result<RasterArray<T>, PreprocessError>)
        ensures
            r is Ok <==> shape_fits(self.shape_spec().1, self.shape_spec().0, self@.len() as int),
            r matches Ok(a) ==> a.rows() == self.shape_spec().1 && a.cols() == self.shape_spec().0
                && a@.len() == self@.len()
                && forall|i: int| 0 <= i < self@.len() ==> cloned::<T>(self@[i], #[trigger] a@[i]),
            r matches Err(e) ==> e is Raster,
    {
        let shape = self.shape();
        let data = self.clone().into_data();
        match array2_from_shape_vec(shape.1, shape.0, data) {
            Ok(a) => Ok(a),
            Err(err) => Err(PreprocessError::Raster(shape_error_message(&err))),
        }
    }
}

} // verus!
