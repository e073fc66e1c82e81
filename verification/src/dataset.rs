//! The in-memory raster dataset: a grid of `width * height` pixels with one sample
//! sequence per band, its georeferencing, and the bookkeeping that decides when it has
//! to be written back.
use vstd::prelude::*;
use crate::error::GdalError;
use crate::raster::{Buffer, ColorInterpretation, GdalDataType, RasterCreationOptions};
use crate::text::{decimal_chars, push_decimal, str_equal};
use std::path::PathBuf;

verus! {

#[verifier::external_type_specification]
#[verifier::external_body]
pub struct ExPathBuf(PathBuf);

/// `k` splits into row `q` and column `r` of a row-major grid with `n` columns.
pub proof fn lemma_row_major(k: int, n: int, q: int, r: int)
    requires
        0 < n,
        0 <= r < n,
        k == q * n + r,
    ensures
        k / n == q,
        k % n == r,
{
    vstd::arithmetic::div_mod::lemma_fundamental_div_mod_converse(k, n, q, r);
}

/// The sample of a raster `width` wide and `height` high, stored row by row in `data`, at
/// column `x` of row `y`; `outside` outside the raster.
pub open spec fn grid_sample<T>(data: Seq<T>, width: int, height: int, x: int, y: int, outside: T) -> T {
    if 0 <= x < width && 0 <= y < height {
        data[y * width + x]
    } else {
        outside
    }
}

/// The samples of a raster stored row by row in `data` at the grid of columns `xs` and
/// rows `ys`: entry `k` is taken at column `xs[k % xs.len()]` of row `ys[k / xs.len()]`
/// (see `grid_sample`).
pub fn resample_grid<T: Copy>(
    data: &[T],
    width: usize,
    height: usize,
    xs: &[isize],
    ys: &[isize],
    outside: T,
) -> (r: Vec<T>)
    requires
        data@.len() == width * height,
        xs@.len() * ys@.len() <= usize::MAX,
    ensures
        r@.len() == xs@.len() * ys@.len(),
        forall|k: int|
            0 <= k < r@.len() ==> #[trigger] r@[k] == grid_sample(
                data@,
                width as int,
                height as int,
                xs@[k % xs@.len() as int] as int,
                ys@[k / xs@.len() as int] as int,
                outside,
            ),
{
    let nx = xs.len();
    let ny = ys.len();
    let mut out: Vec<T> = Vec::new();
    let mut y: usize = 0;
    while y < ny
        invariant
            nx == xs@.len(),
            ny == ys@.len(),
            data@.len() == width * height,
            nx * ny <= usize::MAX,
            y <= ny,
            out@.len() == y * nx,
            forall|k: int|
                0 <= k < out@.len() ==> #[trigger] out@[k] == grid_sample(
                    data@,
                    width as int,
                    height as int,
                    xs@[k % nx as int] as int,
                    ys@[k / nx as int] as int,
                    outside,
                ),
        decreases ny - y,
    {
        let mut x: usize = 0;
        while x < nx
            invariant
                nx == xs@.len(),
                ny == ys@.len(),
                data@.len() == width * height,
                nx * ny <= usize::MAX,
                y < ny,
                x <= nx,
                out@.len() == y * nx + x,
                forall|k: int|
                    0 <= k < out@.len() ==> #[trigger] out@[k] == grid_sample(
                        data@,
                        width as int,
                        height as int,
                        xs@[k % nx as int] as int,
                        ys@[k / nx as int] as int,
                        outside,
                    ),
            decreases nx - x,
        {
            let sx = xs[x];
            let sy = ys[y];
            proof {
                lemma_row_major((y * nx + x) as int, nx as int, y as int, x as int);
                assert((y + 1) * nx <= nx * ny) by (nonlinear_arith)
                    requires
                        y < ny,
                ;
            }
            let value = if sx < 0 || sy < 0 || sx as usize >= width || sy as usize >= height {
                outside
            } else {
                let row = sy as usize;
                let col = sx as usize;
                let len = data.len();
                proof {
                    assert(row * width + col < width * height) by (nonlinear_arith)
                        requires
                            row < height,
                            col < width,
                    ;
                }
                assert(row * width + col < len);
                data[row * width + col]
            };
            out.push(value);
            x = x + 1;
        }
        proof {
            assert(y * nx + nx == (y + 1) * nx) by (nonlinear_arith);
        }
        y = y + 1;
    }
    proof {
        assert(ny * nx == nx * ny) by (nonlinear_arith);
    }
    out
}


/// A spatial reference given by its PROJ.4 definition.
#[derive(Debug, Clone)]
pub struct SpatialRef {
    proj4: String,
}

impl View for SpatialRef {
    type V = Seq<char>;

    closed spec fn view(&self) -> Seq<char> {
        self.proj4@
    }
}

impl SpatialRef {
    pub fn from_proj4(proj4: &str) -> (r: Result<Self, GdalError>)
        ensures
            r matches Ok(s) && s@ == proj4@,
    {
        Ok(SpatialRef { proj4: String::from_str(proj4) })
    }
}

/// A raster driver, known by its name; the driver named `MEM` keeps datasets in memory.
pub struct Driver {
    name: String,
}

impl View for Driver {
    type V = Seq<char>;

    closed spec fn view(&self) -> Seq<char> {
        self.name@
    }
}

/// Looks up raster drivers.
pub struct DriverManager;

impl DriverManager {
    pub fn get_driver_by_name(name: &str) -> (r: Result<Driver, GdalError>)
        ensures
            r matches Ok(d) && d@ == name@,
    {
        Ok(Driver { name: String::from_str(name) })
    }
}

impl Driver {
    /// The file a dataset created by this driver at `path` is written to: none for the
    /// in-memory driver.
    pub fn dataset_path(&self, path: PathBuf) -> (r: Option<PathBuf>)
        ensures
            r == (if self@ == "MEM"@ {
                None::<PathBuf>
            } else {
                Some(path)
            }),
    {
        if str_equal(self.name.as_str(), "MEM") {
            None
        } else {
            Some(path)
        }
    }
}

/// How a dataset is opened.
#[derive(Default)]
#[allow(non_camel_case_types)]
pub enum GdalOpenFlags {
    #[default]
    ReadOnly,
    GDAL_OF_UPDATE,
}

/// Options for opening a dataset.
#[derive(Default)]
pub struct DatasetOptions {
    pub open_flags: GdalOpenFlags,
}

/// The colour a band gets when a dataset with `count` bands is created or read:
/// a single band is gray, otherwise the first four are red, green, blue and alpha.
pub open spec fn default_band_color(index: int, count: int) -> ColorInterpretation {
    if index == 0 && count == 1 {
        ColorInterpretation::GrayIndex
    } else if index == 0 {
        ColorInterpretation::RedBand
    } else if index == 1 {
        ColorInterpretation::GreenBand
    } else if index == 2 {
        ColorInterpretation::BlueBand
    } else if index == 3 {
        ColorInterpretation::AlphaBand
    } else {
        ColorInterpretation::Undefined
    }
}

pub fn band_color(index: usize, count: usize) -> (r: ColorInterpretation)
    ensures
        r == default_band_color(index as int, count as int),
{
    if index == 0 && count == 1 {
        ColorInterpretation::GrayIndex
    } else if index == 0 {
        ColorInterpretation::RedBand
    } else if index == 1 {
        ColorInterpretation::GreenBand
    } else if index == 2 {
        ColorInterpretation::BlueBand
    } else if index == 3 {
        ColorInterpretation::AlphaBand
    } else {
        ColorInterpretation::Undefined
    }
}

/// The samples of one band together with its no-data value and colour.
pub struct BandData<S> {
    pub data: Vec<S>,
    pub no_data: Option<S>,
    pub color: ColorInterpretation,
}

/// A raster of `width * height` pixels; band `b` holds the sample of pixel `(x, y)` at
/// `bands[b].data[y * width + x]`.
pub struct DatasetData<S> {
    pub path: Option<PathBuf>,
    pub width: usize,
    pub height: usize,
    pub data_type: GdalDataType,
    pub geo_transform: Option<[S; 6]>,
    pub projection: String,
    pub bands: Vec<BandData<S>>,
    pub dirty: bool,
}

/// `n` copies of `value`.
pub fn filled<S: Copy>(value: S, n: usize) -> (r: Vec<S>)
    ensures
        r@ == Seq::new(n as nat, |_i: int| value),
{
    let mut r: Vec<S> = Vec::new();
    let mut i: usize = 0;
    while i < n
        invariant
            i <= n,
            r@ == Seq::new(i as nat, |_i: int| value),
        decreases n - i,
    {
        r.push(value);
        i = i + 1;
    }
    r
}

/// The message of the error for a band number that names no band.
pub open spec fn band_out_of_range_message(index: nat) -> Seq<char> {
    "raster band "@ + decimal_chars(index) + " out of range"@
}

/// The column inside a window at `offset` of raster position `i`, in a raster `width` wide.
pub open spec fn window_col(i: int, width: int, offset: (isize, isize)) -> int {
    i % width - offset.0
}

/// The row inside a window at `offset` of raster position `i`, in a raster `width` wide.
pub open spec fn window_row(i: int, width: int, offset: (isize, isize)) -> int {
    i / width - offset.1
}

/// Whether raster position `i` lies in the window of `size` at `offset`.
pub open spec fn in_window(i: int, width: int, offset: (isize, isize), size: (usize, usize)) -> bool {
    0 <= window_col(i, width, offset) < size.0 && 0 <= window_row(i, width, offset) < size.1
}

/// The sample a window write puts at column `bx`, row `by` of the window: a buffer of a
/// single sample fills the whole window, otherwise the buffer is read row-major with rows
/// `buf_width` long.
pub open spec fn window_source<S>(buf: Seq<S>, buf_width: int, bx: int, by: int) -> S {
    if buf.len() == 1 {
        buf[0]
    } else {
        buf[by * buf_width + bx]
    }
}

/// The sample at raster position `i` after writing the window of `size` at `offset` from
/// `buf` over a band that held `old`.
pub open spec fn written_sample<S>(
    old: Seq<S>,
    width: int,
    offset: (isize, isize),
    size: (usize, usize),
    buf: Seq<S>,
    buf_width: int,
    i: int,
) -> S {
    if in_window(i, width, offset, size) {
        window_source(buf, buf_width, window_col(i, width, offset), window_row(i, width, offset))
    } else {
        old[i]
    }
}

/// `written_sample` for a write that has so far handled the window rows before `y` and the
/// columns before `x` of row `y`.
pub open spec fn partly_written<S>(
    old: Seq<S>,
    width: int,
    offset: (isize, isize),
    size: (usize, usize),
    buf: Seq<S>,
    buf_width: int,
    y: int,
    x: int,
    i: int,
) -> S {
    let bx = window_col(i, width, offset);
    let by = window_row(i, width, offset);
    if in_window(i, width, offset, size) && (by < y || (by == y && bx < x)) {
        window_source(buf, buf_width, bx, by)
    } else {
        old[i]
    }
}

/// Every in-raster position of the window can be read from the buffer.
pub open spec fn window_readable<S>(
    width: int,
    height: int,
    offset: (isize, isize),
    size: (usize, usize),
    buf: Seq<S>,
    buf_width: int,
) -> bool {
    buf.len() != 1 ==> forall|bx: int, by: int|
        0 <= bx < size.0 && 0 <= by < size.1 && 0 <= offset.0 + bx < width && 0 <= offset.1 + by
            < height ==> #[trigger] (by * buf_width + bx) < buf.len()
}

/// Position `i` of a raster `width` wide sits at row `i / width`, column `i % width`.
pub proof fn lemma_position(i: int, width: int, height: int)
    requires
        0 < width,
        0 <= i < width * height,
    ensures
        0 <= i % width < width,
        0 <= i / width < height,
        i == (i / width) * width + i % width,
{
    vstd::arithmetic::div_mod::lemma_fundamental_div_mod(i, width);
    vstd::arithmetic::div_mod::lemma_mod_bound(i, width);
    vstd::arithmetic::div_mod::lemma_div_pos_is_pos(i, width);
    let q = i / width;
    assert(width * q == q * width) by (nonlinear_arith);
    if q >= height {
        assert(q * width >= height * width) by (nonlinear_arith)
            requires
                q >= height,
                width > 0,
        ;
        assert(height * width == width * height) by (nonlinear_arith);
        assert(false);
    }
}

/// The sample of band `band` at pixel `pixel` in samples stored pixel by pixel with
/// `samples` bands interleaved; a single band is read straight through and is `zero`
/// past the end of `values`.
pub open spec fn deinterleaved_sample<S>(values: Seq<S>, samples: int, band: int, pixel: int, zero: S) -> S {
    if samples == 1 {
        if pixel < values.len() {
            values[pixel]
        } else {
            zero
        }
    } else {
        values[pixel * samples + band]
    }
}

/// How the samples of a dataset with `samples` bands are laid out when written as TIFF.
#[derive(Debug, Clone, Copy, PartialEq, Eq, Structural)]
pub struct TiffWriteLayout {
    /// Three or more bands are written as RGB, fewer as gray with black at zero.
    pub rgb: bool,
    /// Four bands carry an unassociated alpha sample.
    pub unassociated_alpha: bool,
}

impl TiffWriteLayout {
    pub fn for_samples(samples: usize) -> (r: Self)
        ensures
            r.rgb == (samples >= 3),
            r.unassociated_alpha == (samples == 4),
    {
        TiffWriteLayout { rgb: samples >= 3, unassociated_alpha: samples == 4 }
    }
}

impl<S: Copy> DatasetData<S> {
    /// Every band holds one sample per pixel.
    pub open spec fn wf(&self) -> bool {
        forall|b: int|
            0 <= b < self.bands@.len() ==> (#[trigger] self.bands@[b]).data@.len() == self.width
                * self.height
    }

    /// The sample of band `band` at `(x, y)`, or `None` outside the raster.
    pub open spec fn sample_at(&self, band: int, x: int, y: int) -> Option<S> {
        if 0 <= x < self.width && 0 <= y < self.height {
            Some(self.bands@[band].data@[y * self.width + x])
        } else {
            None
        }
    }

    /// A new dataset whose `band_count` bands hold `zero` at every pixel, with no
    /// georeferencing and no projection; it has not been written yet.
    pub fn empty(
        path: Option<PathBuf>,
        width: usize,
        height: usize,
        band_count: usize,
        data_type: GdalDataType,
        zero: S,
    ) -> (r: Self)
        requires
            band_count > 0 ==> width * height <= usize::MAX,
        ensures
            r.wf(),
            r.path == path,
            r.width == width,
            r.height == height,
            r.data_type == data_type,
            r.geo_transform is None,
            r.projection@ == Seq::<char>::empty(),
            r.dirty,
            r.bands@.len() == band_count,
            forall|b: int|
                0 <= b < band_count ==> {
                    &&& (#[trigger] r.bands@[b]).data@ == Seq::new(
                        (width * height) as nat,
                        |_i: int| zero,
                    )
                    &&& r.bands@[b].no_data is None
                    &&& r.bands@[b].color == default_band_color(b, band_count as int)
                },
    {
        let mut bands: Vec<BandData<S>> = Vec::new();
        let mut b: usize = 0;
        while b < band_count
            invariant
                b <= band_count,
                band_count > 0 ==> width * height <= usize::MAX,
                bands@.len() == b,
                forall|i: int|
                    0 <= i < b ==> {
                        &&& (#[trigger] bands@[i]).data@ == Seq::new(
                            (width * height) as nat,
                            |_i: int| zero,
                        )
                        &&& bands@[i].no_data is None
                        &&& bands@[i].color == default_band_color(i, band_count as int)
                    },
            decreases band_count - b,
        {
            let data = filled(zero, width * height);
            bands.push(BandData { data, no_data: None, color: band_color(b, band_count) });
            b = b + 1;
        }
        DatasetData {
            path,
            width,
            height,
            data_type,
            geo_transform: None,
            projection: String::new(),
            bands,
            dirty: true,
        }
    }

    pub fn raster_size(&self) -> (r: (usize, usize))
        ensures
            r == (self.width, self.height),
    {
        (self.width, self.height)
    }

    pub fn raster_count(&self) -> (r: usize)
        ensures
            r == self.bands@.len(),
    {
        self.bands.len()
    }

    /// The position in `bands` of band number `index`; bands are numbered from 1.
    pub fn rasterband(&self, index: usize) -> (r: Result<usize, GdalError>)
        ensures
            1 <= index <= self.bands@.len() ==> r == Ok::<usize, GdalError>((index - 1) as usize),
            !(1 <= index <= self.bands@.len()) ==> (r matches Err(GdalError::Message(m))
                && m@ == band_out_of_range_message(index as nat)),
    {
        if index == 0 || index > self.bands.len() {
            let mut m = String::from_str("raster band ");
            push_decimal(&mut m, index);
            m.append(" out of range");
            return Err(GdalError::Message(m));
        }
        Ok(index - 1)
    }

    pub fn geo_transform(&self) -> (r: Result<[S; 6], GdalError>)
        ensures
            match self.geo_transform {
                Some(g) => r == Ok::<[S; 6], GdalError>(g),
                None => r matches Err(GdalError::Message(m)) && m@
                    == "dataset has no geo transform"@,
            },
    {
        match self.geo_transform {
            Some(g) => Ok(g),
            None => Err(GdalError::Message(String::from_str("dataset has no geo transform"))),
        }
    }

    pub fn set_geo_transform(&mut self, geo_transform: &[S; 6]) -> (r: Result<(), GdalError>)
        ensures
            r is Ok,
            *final(self) == (DatasetData {
                geo_transform: Some(*geo_transform),
                dirty: true,
                ..*old(self)
            }),
    {
        self.geo_transform = Some(*geo_transform);
        self.dirty = true;
        Ok(())
    }

    pub fn projection(&self) -> (r: String)
        ensures
            r@ == self.projection@,
    {
        self.projection.clone()
    }

    pub fn set_projection(&mut self, projection: &str) -> (r: Result<(), GdalError>)
        ensures
            r is Ok,
            final(self).projection@ == projection@,
            old(self).wf() ==> final(self).wf(),
            final(self).dirty,
            final(self).bands == old(self).bands,
            final(self).path == old(self).path,
            final(self).width == old(self).width,
            final(self).height == old(self).height,
            final(self).data_type == old(self).data_type,
            final(self).geo_transform == old(self).geo_transform,
    {
        self.projection = String::from_str(projection);
        self.dirty = true;
        Ok(())
    }

    pub fn spatial_ref(&self) -> (r: Result<SpatialRef, GdalError>)
        ensures
            r matches Ok(s) && s@ == self.projection@,
    {
        Ok(SpatialRef { proj4: self.projection() })
    }

    /// The sample type of band `band`; a mask band always holds bytes.
    pub fn band_type(&self, band: usize, mask: bool) -> (r: GdalDataType)
        ensures
            r == (if mask {
                GdalDataType::UInt8
            } else {
                self.data_type
            }),
    {
        if mask {
            return GdalDataType::UInt8;
        }
        self.data_type
    }

    /// The colour of band `band`; a mask band is always gray.
    pub fn color_interpretation(&self, band: usize, mask: bool) -> (r: ColorInterpretation)
        requires
            band < self.bands@.len(),
        ensures
            r == (if mask {
                ColorInterpretation::GrayIndex
            } else {
                self.bands@[band as int].color
            }),
    {
        if mask {
            return ColorInterpretation::GrayIndex;
        }
        self.bands[band].color
    }

    pub fn set_color_interpretation(&mut self, band: usize, color: ColorInterpretation) -> (r:
        Result<(), GdalError>)
        requires
            band < old(self).bands@.len(),
        ensures
            r is Ok,
            final(self).bands@ == old(self).bands@.update(
                band as int,
                BandData { color, ..old(self).bands@[band as int] },
            ),
            old(self).wf() ==> final(self).wf(),
            final(self).dirty,
            final(self).path == old(self).path,
            final(self).width == old(self).width,
            final(self).height == old(self).height,
            final(self).data_type == old(self).data_type,
            final(self).geo_transform == old(self).geo_transform,
            final(self).projection == old(self).projection,
    {
        self.bands[band].color = color;
        self.dirty = true;
        Ok(())
    }

    pub fn no_data_value(&self, band: usize) -> (r: Option<S>)
        requires
            band < self.bands@.len(),
        ensures
            r == self.bands@[band as int].no_data,
    {
        self.bands[band].no_data
    }

    pub fn set_no_data_value(&mut self, band: usize, value: Option<S>) -> (r: Result<(), GdalError>)
        requires
            band < old(self).bands@.len(),
        ensures
            r is Ok,
            final(self).bands@ == old(self).bands@.update(
                band as int,
                BandData { no_data: value, ..old(self).bands@[band as int] },
            ),
            old(self).wf() ==> final(self).wf(),
            final(self).dirty,
            final(self).path == old(self).path,
            final(self).width == old(self).width,
            final(self).height == old(self).height,
            final(self).data_type == old(self).data_type,
            final(self).geo_transform == old(self).geo_transform,
            final(self).projection == old(self).projection,
    {
        self.bands[band].no_data = value;
        self.dirty = true;
        Ok(())
    }

    /// The samples of band `band` at the grid of source columns `xs` and source rows `ys`:
    /// entry `k` is taken at column `xs[k % xs.len()]` of row `ys[k / xs.len()]`, and is
    /// `outside` where that position lies outside the raster.
    pub fn read_window(&self, band: usize, xs: &[isize], ys: &[isize], outside: S) -> (r: Vec<S>)
        requires
            self.wf(),
            band < self.bands@.len(),
            xs@.len() * ys@.len() <= usize::MAX,
        ensures
            r@.len() == xs@.len() * ys@.len(),
            forall|k: int|
                0 <= k < r@.len() ==> #[trigger] r@[k] == match self.sample_at(
                    band as int,
                    xs@[k % xs@.len() as int] as int,
                    ys@[k / xs@.len() as int] as int,
                ) {
                    Some(v) => v,
                    None => outside,
                },
    {
        let r = resample_grid(self.bands[band].data.as_slice(), self.width, self.height, xs, ys, outside);
        r
    }

    /// Writes the window of `size` at `offset` of band `band` from `buffer` (see
    /// `written_sample`); window positions outside the raster are skipped.
    pub fn write(
        &mut self,
        band: usize,
        offset: (isize, isize),
        size: (usize, usize),
        buffer: &Buffer<S>,
    ) -> (r: Result<(), GdalError>)
        requires
            old(self).wf(),
            band < old(self).bands@.len(),
            size.0 <= isize::MAX,
            size.1 <= isize::MAX,
            size.0 > 0 && size.1 > 0 ==> offset.0 + size.0 <= isize::MAX + 1 && offset.1 + size.1
                <= isize::MAX + 1,
            window_readable(
                old(self).width as int,
                old(self).height as int,
                offset,
                size,
                buffer@,
                buffer.shape_spec().0 as int,
            ),
        ensures
            r is Ok,
            final(self).wf(),
            final(self).bands@.len() == old(self).bands@.len(),
            forall|b: int|
                0 <= b < old(self).bands@.len() && b != band ==> #[trigger] final(self).bands@[b]
                    == old(self).bands@[b],
            final(self).bands@[band as int].no_data == old(self).bands@[band as int].no_data,
            final(self).bands@[band as int].color == old(self).bands@[band as int].color,
            final(self).bands@[band as int].data@ == Seq::new(
                old(self).bands@[band as int].data@.len(),
                |i: int|
                    written_sample(
                        old(self).bands@[band as int].data@,
                        old(self).width as int,
                        offset,
                        size,
                        buffer@,
                        buffer.shape_spec().0 as int,
                        i,
                    ),
            ),
            final(self).dirty,
            final(self).path == old(self).path,
            final(self).width == old(self).width,
            final(self).height == old(self).height,
            final(self).data_type == old(self).data_type,
            final(self).geo_transform == old(self).geo_transform,
            final(self).projection == old(self).projection,
    {
        let width = self.width;
        let height = self.height;
        let ghost w = width as int;
        let buf_width = buffer.shape();
        let buf_width = buf_width.0;
        let buf = buffer.data();
        let mut data: Vec<S> = Vec::new();
        std::mem::swap(&mut data, &mut self.bands[band].data);
        let ghost od = data@;
        let n = data.len();
        assert(n == width * height);
        let mut y: usize = 0;
        while y < size.1
            invariant
                width == self.width,
                height == self.height,
                w == width,
                n == od.len(),
                n == width * height,
                data@.len() == n,
                buf@ == buffer@,
                buf_width == buffer.shape_spec().0,
                size.0 <= isize::MAX,
                size.1 <= isize::MAX,
                size.0 > 0 && size.1 > 0 ==> offset.0 + size.0 <= isize::MAX + 1 && offset.1
                    + size.1 <= isize::MAX + 1,
                window_readable(w, height as int, offset, size, buf@, buf_width as int),
                y <= size.1,
                forall|i: int|
                    0 <= i < n ==> #[trigger] data@[i] == partly_written(
                        od,
                        w,
                        offset,
                        size,
                        buf@,
                        buf_width as int,
                        y as int,
                        0,
                        i,
                    ),
            decreases size.1 - y,
        {
            let mut x: usize = 0;
            while x < size.0
                invariant
                    width == self.width,
                    height == self.height,
                    w == width,
                    n == od.len(),
                    n == width * height,
                    data@.len() == n,
                    buf@ == buffer@,
                    buf_width == buffer.shape_spec().0,
                    size.0 <= isize::MAX,
                    size.1 <= isize::MAX,
                    size.0 > 0 && size.1 > 0 ==> offset.0 + size.0 <= isize::MAX + 1 && offset.1
                        + size.1 <= isize::MAX + 1,
                    window_readable(w, height as int, offset, size, buf@, buf_width as int),
                    y < size.1,
                    x <= size.0,
                    forall|i: int|
                        0 <= i < n ==> #[trigger] data@[i] == partly_written(
                            od,
                            w,
                            offset,
                            size,
                            buf@,
                            buf_width as int,
                            y as int,
                            x as int,
                            i,
                        ),
                decreases size.0 - x,
            {
                let dst_x = offset.0 + x as isize;
                let dst_y = offset.1 + y as isize;
                let ghost prev = data@;
                if dst_x >= 0 && dst_y >= 0 && (dst_x as usize) < width && (dst_y as usize)
                    < height {
                    let value = if buf.len() == 1 {
                        buf[0]
                    } else {
                        assert((y * buf_width + x) < buf@.len());
                        buf[y * buf_width + x]
                    };
                    let row = dst_y as usize;
                    let col = dst_x as usize;
                    proof {
                        assert(row * width + col < width * height) by (nonlinear_arith)
                            requires
                                row < height,
                                col < width,
                        ;
                    }
                    let idx = row * width + col;
                    data.set(idx, value);
                    proof {
                        lemma_row_major(idx as int, w, row as int, col as int);
                        assert forall|i: int| 0 <= i < n implies #[trigger] data@[i] == partly_written(
                            od,
                            w,
                            offset,
                            size,
                            buf@,
                            buf_width as int,
                            y as int,
                            x + 1,
                            i,
                        ) by {
                            lemma_position(i, w, height as int);
                            if i != idx {
                                assert(prev[i] == data@[i]);
                                if window_col(i, w, offset) == x && window_row(i, w, offset) == y {
                                    assert(i % w == col);
                                    assert(i / w == row);
                                    assert(false);
                                }
                            }
                        }
                    }
                } else {
                    proof {
                        assert forall|i: int| 0 <= i < n implies #[trigger] data@[i] == partly_written(
                            od,
                            w,
                            offset,
                            size,
                            buf@,
                            buf_width as int,
                            y as int,
                            x + 1,
                            i,
                        ) by {
                            lemma_position(i, w, height as int);
                            assert(prev[i] == data@[i]);
                        }
                    }
                }
                x = x + 1;
            }
            proof {
                assert forall|i: int| 0 <= i < n implies #[trigger] data@[i] == partly_written(
                    od,
                    w,
                    offset,
                    size,
                    buf@,
                    buf_width as int,
                    y + 1,
                    0,
                    i,
                ) by {
                    assert(data@[i] == partly_written(
                        od,
                        w,
                        offset,
                        size,
                        buf@,
                        buf_width as int,
                        y as int,
                        size.0 as int,
                        i,
                    ));
                }
            }
            y = y + 1;
        }
        let ghost new_data = data@;
        std::mem::swap(&mut data, &mut self.bands[band].data);
        self.dirty = true;
        proof {
            assert(self.bands@[band as int].data@ == new_data);
            assert(new_data =~= Seq::new(
                od.len(),
                |i: int| written_sample(od, w, offset, size, buffer@, buf_width as int, i),
            )) by {
                assert forall|i: int| 0 <= i < n implies #[trigger] new_data[i] == written_sample(
                    od,
                    w,
                    offset,
                    size,
                    buffer@,
                    buf_width as int,
                    i,
                ) by {
                    assert(new_data[i] == partly_written(
                        od,
                        w,
                        offset,
                        size,
                        buf@,
                        buf_width as int,
                        size.1 as int,
                        0,
                        i,
                    ));
                }
            }
        }
        Ok(())
    }

    /// A dataset read from TIFF samples stored pixel by pixel with `samples` interleaved
    /// bands (see `deinterleaved_sample`); it matches the file, so it is not dirty.
    pub fn from_samples(
        path: PathBuf,
        width: usize,
        height: usize,
        data_type: GdalDataType,
        samples: usize,
        values: Vec<S>,
        no_data: Option<S>,
        geo_transform: Option<[S; 6]>,
        zero: S,
    ) -> (r: Result<Self, GdalError>)
        requires
            samples > 0 ==> width * height <= usize::MAX,
            samples > 1 ==> width * height * samples <= values@.len(),
        ensures
            data_type == GdalDataType::Unknown ==> (r matches Err(GdalError::Message(m)) && m@
                == "unsupported TIFF sample type"@),
            data_type != GdalDataType::Unknown ==> (r matches Ok(d) && {
                &&& d.wf()
                &&& d.path == Some(path)
                &&& d.width == width
                &&& d.height == height
                &&& d.data_type == data_type
                &&& d.geo_transform == geo_transform
                &&& d.projection@ == Seq::<char>::empty()
                &&& !d.dirty
                &&& d.bands@.len() == samples
                &&& forall|b: int|
                    0 <= b < samples ==> {
                        &&& (#[trigger] d.bands@[b]).no_data == no_data
                        &&& d.bands@[b].color == default_band_color(b, samples as int)
                        &&& d.bands@[b].data@ == Seq::new(
                            (width * height) as nat,
                            |p: int| deinterleaved_sample(values@, samples as int, b, p, zero),
                        )
                    }
            }),
    {
        if data_type == GdalDataType::Unknown {
            return Err(GdalError::Message(String::from_str("unsupported TIFF sample type")));
        }
        let mut bands: Vec<BandData<S>> = Vec::new();
        let mut b: usize = 0;
        while b < samples
            invariant
                b <= samples,
                samples > 0 ==> width * height <= usize::MAX,
                samples > 1 ==> width * height * samples <= values@.len(),
                bands@.len() == b,
                forall|i: int|
                    0 <= i < b ==> {
                        &&& (#[trigger] bands@[i]).no_data == no_data
                        &&& bands@[i].color == default_band_color(i, samples as int)
                        &&& bands@[i].data@ == Seq::new(
                            (width * height) as nat,
                            |p: int| deinterleaved_sample(values@, samples as int, i, p, zero),
                        )
                    },
            decreases samples - b,
        {
            let pixels = width * height;
            let mut data: Vec<S> = Vec::new();
            let mut p: usize = 0;
            while p < pixels
                invariant
                    pixels == width * height,
                    b < samples,
                    p <= pixels,
                    samples > 1 ==> width * height * samples <= values@.len(),
                    data@ == Seq::new(
                        p as nat,
                        |q: int| deinterleaved_sample(values@, samples as int, b as int, q, zero),
                    ),
                decreases pixels - p,
            {
                let v = if samples == 1 {
                    if p < values.len() {
                        values[p]
                    } else {
                        zero
                    }
                } else {
                    proof {
                        assert(p * samples + b < width * height * samples) by (nonlinear_arith)
                            requires
                                p < width * height,
                                b < samples,
                        ;
                    }
                    let len = values.len();
                    assert(p * samples + b < len);
                    values[p * samples + b]
                };
                data.push(v);
                proof {
                    assert(data@ =~= Seq::new(
                        (p + 1) as nat,
                        |q: int| deinterleaved_sample(values@, samples as int, b as int, q, zero),
                    ));
                }
                p = p + 1;
            }
            bands.push(BandData { data, no_data, color: band_color(b, samples) });
            b = b + 1;
        }
        Ok(DatasetData {
            path: Some(path),
            width,
            height,
            data_type,
            geo_transform,
            projection: String::new(),
            bands,
            dirty: false,
        })
    }

    /// The samples of all bands stored pixel by pixel: entry `k` is pixel `k / n` of band
    /// `k % n`, for `n` bands.
    pub fn interleaved(&self) -> (r: Vec<S>)
        requires
            self.wf(),
            self.width * self.height <= usize::MAX,
            self.width * self.height * self.bands@.len() <= usize::MAX,
        ensures
            r@.len() == self.width * self.height * self.bands@.len(),
            forall|k: int|
                0 <= k < r@.len() ==> #[trigger] r@[k] == self.bands@[k % self.bands@.len() as int].data@[k
                    / self.bands@.len() as int],
    {
        let nb = self.bands.len();
        let pixels = self.width * self.height;
        let mut out: Vec<S> = Vec::new();
        let mut p: usize = 0;
        while p < pixels
            invariant
                self.wf(),
                nb == self.bands@.len(),
                pixels == self.width * self.height,
                pixels * nb <= usize::MAX,
                p <= pixels,
                out@.len() == p * nb,
                forall|k: int|
                    0 <= k < out@.len() ==> #[trigger] out@[k] == self.bands@[k % nb as int].data@[k
                        / nb as int],
            decreases pixels - p,
        {
            let mut b: usize = 0;
            while b < nb
                invariant
                    self.wf(),
                    nb == self.bands@.len(),
                    pixels == self.width * self.height,
                    pixels * nb <= usize::MAX,
                    p < pixels,
                    b <= nb,
                    out@.len() == p * nb + b,
                    forall|k: int|
                        0 <= k < out@.len() ==> #[trigger] out@[k] == self.bands@[k % nb as int].data@[k
                            / nb as int],
                decreases nb - b,
            {
                proof {
                    lemma_row_major((p * nb + b) as int, nb as int, p as int, b as int);
                    assert(p * nb + b < pixels * nb) by (nonlinear_arith)
                        requires
                            p < pixels,
                            b < nb,
                    ;
                }
                let v = self.bands[b].data[p];
                out.push(v);
                b = b + 1;
            }
            proof {
                assert(p * nb + nb == (p + 1) * nb) by (nonlinear_arith);
            }
            p = p + 1;
        }
        proof {
            assert(pixels * nb == self.width * self.height * self.bands@.len());
        }
        out
    }

    /// The file the dataset still has to be written to: its path when it has changes that
    /// were not written yet.
    pub fn flush_target(&self) -> (r: Option<&PathBuf>)
        ensures
            r == (if self.dirty {
                match self.path {
                    Some(p) => Some(&p),
                    None => None::<&PathBuf>,
                }
            } else {
                None::<&PathBuf>
            }),
    {
        if !self.dirty {
            return None;
        }
        match &self.path {
            Some(p) => Some(p),
            None => None,
        }
    }

    /// Records that the dataset has been written.
    pub fn mark_flushed(&mut self)
        ensures
            *final(self) == (DatasetData { dirty: false, ..*old(self) }),
    {
        self.dirty = false;
    }

    /// The no-data value of the first band, which is what a written file records.
    pub fn first_no_data(&self) -> (r: Option<S>)
        ensures
            r == (if self.bands@.len() > 0 {
                self.bands@[0].no_data
            } else {
                None::<S>
            }),
    {
        if self.bands.len() > 0 {
            self.bands[0].no_data
        } else {
            None
        }
    }
}

impl Driver {
    /// A new dataset of `width` by `height` pixels with `band_count` bands of `data_type`
    /// samples, all `zero` (see `DatasetData::empty`); it is written to `path` unless this
    /// is the in-memory driver. The creation options are ignored.
    pub fn create_with_band_type_with_options<S: Copy>(
        &self,
        path: PathBuf,
        width: usize,
        height: usize,
        band_count: usize,
        data_type: GdalDataType,
        _options: &RasterCreationOptions,
        zero: S,
    ) -> (r: Result<DatasetData<S>, GdalError>)
        requires
            band_count > 0 ==> width * height <= usize::MAX,
        ensures
            r matches Ok(d) && {
                &&& d.wf()
                &&& d.path == (if self@ == "MEM"@ {
                    None::<PathBuf>
                } else {
                    Some(path)
                })
                &&& d.width == width
                &&& d.height == height
                &&& d.data_type == data_type
                &&& d.geo_transform is None
                &&& d.projection@ == Seq::<char>::empty()
                &&& d.dirty
                &&& d.bands@.len() == band_count
                &&& forall|b: int|
                    0 <= b < band_count ==> {
                        &&& (#[trigger] d.bands@[b]).data@ == Seq::new(
                            (width * height) as nat,
                            |_i: int| zero,
                        )
                        &&& d.bands@[b].no_data is None
                        &&& d.bands@[b].color == default_band_color(b, band_count as int)
                    }
            },
    {
        let target = self.dataset_path(path);
        Ok(DatasetData::empty(target, width, height, band_count, data_type, zero))
    }

    /// `create_with_band_type_with_options` with byte samples.
    pub fn create<S: Copy>(
        &self,
        path: PathBuf,
        width: usize,
        height: usize,
        band_count: usize,
        zero: S,
    ) -> (r: Result<DatasetData<S>, GdalError>)
        requires
            band_count > 0 ==> width * height <= usize::MAX,
        ensures
            r matches Ok(d) && {
                &&& d.wf()
                &&& d.path == (if self@ == "MEM"@ {
                    None::<PathBuf>
                } else {
                    Some(path)
                })
                &&& d.width == width
                &&& d.height == height
                &&& d.data_type == GdalDataType::UInt8
                &&& d.geo_transform is None
                &&& d.projection@ == Seq::<char>::empty()
                &&& d.dirty
                &&& d.bands@.len() == band_count
                &&& forall|b: int|
                    0 <= b < band_count ==> {
                        &&& (#[trigger] d.bands@[b]).data@ == Seq::new(
                            (width * height) as nat,
                            |_i: int| zero,
                        )
                        &&& d.bands@[b].no_data is None
                        &&& d.bands@[b].color == default_band_color(b, band_count as int)
                    }
            },
    {
        self.create_with_band_type_with_options(
            path,
            width,
            height,
            band_count,
            GdalDataType::UInt8,
            &RasterCreationOptions,
            zero,
        )
    }
}

} // verus!
