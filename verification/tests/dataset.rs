use std::path::PathBuf;
use terrain_preprocess::dataset::{resample_grid, DatasetData, DriverManager, SpatialRef, TiffWriteLayout};
use terrain_preprocess::raster::{Buffer, ColorInterpretation, GdalDataType, RasterCreationOptions};

fn colors(d: &DatasetData<i32>) -> Vec<ColorInterpretation> {
    (0..d.raster_count()).map(|b| d.color_interpretation(b, false)).collect()
}

#[test]
fn empty_dataset_has_zeroed_bands_with_default_colors() {
    let d = DatasetData::empty(None, 3, 2, 5, GdalDataType::Int32, 0i32);
    assert_eq!(d.raster_size(), (3, 2));
    assert_eq!(d.raster_count(), 5);
    assert!(d.dirty);
    assert_eq!(d.projection(), "");
    assert_eq!(
        colors(&d),
        vec![
            ColorInterpretation::RedBand,
            ColorInterpretation::GreenBand,
            ColorInterpretation::BlueBand,
            ColorInterpretation::AlphaBand,
            ColorInterpretation::Undefined
        ]
    );
    for b in 0..5 {
        assert_eq!(d.bands[b].data, vec![0; 6]);
        assert_eq!(d.no_data_value(b), None);
    }
    let single = DatasetData::empty(None, 1, 1, 1, GdalDataType::Int32, 7i32);
    assert_eq!(colors(&single), vec![ColorInterpretation::GrayIndex]);
    assert_eq!(single.bands[0].data, vec![7]);
}

#[test]
fn rasterband_numbers_bands_from_one() {
    let d = DatasetData::empty(None, 2, 2, 2, GdalDataType::Int32, 0i32);
    assert_eq!(d.rasterband(1).unwrap(), 0);
    assert_eq!(d.rasterband(2).unwrap(), 1);
    assert_eq!(d.rasterband(0).unwrap_err().message(), "raster band 0 out of range");
    assert_eq!(d.rasterband(3).unwrap_err().message(), "raster band 3 out of range");
    assert_eq!(d.rasterband(120).unwrap_err().message(), "raster band 120 out of range");
}

#[test]
fn geo_transform_and_projection_are_stored() {
    let mut d = DatasetData::empty(None, 2, 2, 1, GdalDataType::Int32, 0i32);
    assert_eq!(d.geo_transform().unwrap_err().message(), "dataset has no geo transform");
    d.dirty = false;
    d.set_geo_transform(&[1, 2, 3, 4, 5, 6]).unwrap();
    assert!(d.dirty);
    assert_eq!(d.geo_transform().unwrap(), [1, 2, 3, 4, 5, 6]);
    d.set_projection("+proj=lonlat").unwrap();
    assert_eq!(d.projection(), "+proj=lonlat");
    let s = d.spatial_ref().unwrap();
    let t = SpatialRef::from_proj4("+proj=lonlat").unwrap();
    assert_eq!(format!("{:?}", s), format!("{:?}", t));
}

#[test]
fn band_metadata_changes() {
    let mut d = DatasetData::empty(None, 2, 2, 2, GdalDataType::UInt16, 0i32);
    assert_eq!(d.band_type(0, false), GdalDataType::UInt16);
    assert_eq!(d.band_type(0, true), GdalDataType::UInt8);
    assert_eq!(d.color_interpretation(1, true), ColorInterpretation::GrayIndex);
    d.set_color_interpretation(1, ColorInterpretation::AlphaBand).unwrap();
    assert_eq!(d.color_interpretation(1, false), ColorInterpretation::AlphaBand);
    d.set_no_data_value(0, Some(-9)).unwrap();
    assert_eq!(d.no_data_value(0), Some(-9));
    assert_eq!(d.no_data_value(1), None);
    assert_eq!(d.first_no_data(), Some(-9));
}

#[test]
fn write_then_read_gives_back_the_window() {
    let mut d = DatasetData::empty(None, 4, 3, 1, GdalDataType::Int32, 0i32);
    let buf = Buffer::new((2, 2), vec![1, 2, 3, 4]);
    d.write(0, (1, 1), (2, 2), &buf).unwrap();
    assert_eq!(d.bands[0].data, vec![0, 0, 0, 0, 0, 1, 2, 0, 0, 3, 4, 0]);
    let read = d.read_window(0, &[1, 2], &[1, 2], -1);
    assert_eq!(read, vec![1, 2, 3, 4]);
}

#[test]
fn write_skips_positions_outside_the_raster() {
    let mut d = DatasetData::empty(None, 3, 2, 1, GdalDataType::Int32, 0i32);
    let buf = Buffer::new((2, 2), vec![1, 2, 3, 4]);
    d.write(0, (-1, 1), (2, 2), &buf).unwrap();
    assert_eq!(d.bands[0].data, vec![0, 0, 0, 2, 0, 0]);
}

#[test]
fn single_sample_buffer_fills_the_window() {
    let mut d = DatasetData::empty(None, 3, 2, 2, GdalDataType::Int32, 0i32);
    let buf = Buffer::new((1, 1), vec![9]);
    d.write(1, (0, 0), (2, 2), &buf).unwrap();
    assert_eq!(d.bands[1].data, vec![9, 9, 0, 9, 9, 0]);
    assert_eq!(d.bands[0].data, vec![0; 6]);
}

#[test]
fn read_window_is_none_outside_the_raster() {
    let d = DatasetData::from_samples(
        PathBuf::from("a.tif"),
        2,
        2,
        GdalDataType::Int32,
        1,
        vec![5, 6, 7, 8],
        None,
        None,
        0i32,
    )
    .unwrap();
    let read = d.read_window(0, &[-1, 0, 1, 2], &[1], -9);
    assert_eq!(read, vec![-9, 7, 8, -9]);
    let read = d.read_window(0, &[0, 0], &[0, 1, 1], -9);
    assert_eq!(read, vec![5, 5, 7, 7, 7, 7]);
    let grid = resample_grid(&[1u8, 2, 3, 4, 5, 6], 3, 2, &[2, 0, 3], &[-1, 1], 0);
    assert_eq!(grid, vec![0, 0, 0, 6, 4, 0]);
}

#[test]
fn from_samples_single_band_pads_with_zero() {
    let d = DatasetData::from_samples(
        PathBuf::from("a.tif"),
        2,
        2,
        GdalDataType::Int32,
        1,
        vec![5, 6, 7],
        Some(6),
        Some([1, 1, 0, 0, 0, 1]),
        0i32,
    )
    .unwrap();
    assert!(!d.dirty);
    assert_eq!(d.bands[0].data, vec![5, 6, 7, 0]);
    assert_eq!(d.no_data_value(0), Some(6));
    assert_eq!(d.geo_transform().unwrap(), [1, 1, 0, 0, 0, 1]);
    assert_eq!(d.color_interpretation(0, false), ColorInterpretation::GrayIndex);
    assert_eq!(d.path, Some(PathBuf::from("a.tif")));
}

#[test]
fn from_samples_deinterleaves_bands() {
    let d = DatasetData::from_samples(
        PathBuf::from("rgb.tif"),
        2,
        1,
        GdalDataType::UInt8,
        3,
        vec![1, 2, 3, 4, 5, 6],
        None,
        None,
        0i32,
    )
    .unwrap();
    assert_eq!(d.bands[0].data, vec![1, 4]);
    assert_eq!(d.bands[1].data, vec![2, 5]);
    assert_eq!(d.bands[2].data, vec![3, 6]);
    assert_eq!(d.interleaved(), vec![1, 2, 3, 4, 5, 6]);
}

#[test]
fn from_samples_rejects_unknown_sample_types() {
    let r = DatasetData::from_samples(
        PathBuf::from("x.tif"),
        1,
        1,
        GdalDataType::Unknown,
        1,
        Vec::<i32>::new(),
        None,
        None,
        0,
    );
    assert_eq!(r.err().unwrap().message(), "unsupported TIFF sample type");
}

#[test]
fn interleave_round_trip() {
    let mut d = DatasetData::empty(Some(PathBuf::from("x.tif")), 2, 2, 2, GdalDataType::Int32, 0i32);
    d.write(0, (0, 0), (2, 2), &Buffer::new((2, 2), vec![1, 2, 3, 4])).unwrap();
    d.write(1, (0, 0), (2, 2), &Buffer::new((2, 2), vec![10, 20, 30, 40])).unwrap();
    let values = d.interleaved();
    assert_eq!(values, vec![1, 10, 2, 20, 3, 30, 4, 40]);
    let e = DatasetData::from_samples(PathBuf::from("x.tif"), 2, 2, GdalDataType::Int32, 2, values, None, None, 0)
        .unwrap();
    assert_eq!(e.bands[0].data, d.bands[0].data);
    assert_eq!(e.bands[1].data, d.bands[1].data);
}

#[test]
fn flush_target_only_for_dirty_datasets_with_a_path() {
    let mut d = DatasetData::empty(Some(PathBuf::from("out.tif")), 1, 1, 1, GdalDataType::UInt8, 0u8);
    assert_eq!(d.flush_target(), Some(&PathBuf::from("out.tif")));
    d.mark_flushed();
    assert_eq!(d.flush_target(), None);
    let m = DatasetData::empty(None, 1, 1, 1, GdalDataType::UInt8, 0u8);
    assert_eq!(m.flush_target(), None);
}

#[test]
fn tiff_write_layout_by_band_count() {
    assert_eq!(TiffWriteLayout::for_samples(1), TiffWriteLayout { rgb: false, unassociated_alpha: false });
    assert_eq!(TiffWriteLayout::for_samples(3), TiffWriteLayout { rgb: true, unassociated_alpha: false });
    assert_eq!(TiffWriteLayout::for_samples(4), TiffWriteLayout { rgb: true, unassociated_alpha: true });
    assert_eq!(TiffWriteLayout::for_samples(5), TiffWriteLayout { rgb: true, unassociated_alpha: false });
}

#[test]
fn memory_driver_keeps_no_path() {
    let mem = DriverManager::get_driver_by_name("MEM").unwrap();
    assert_eq!(mem.dataset_path(PathBuf::from("a.tif")), None);
    let gtiff = DriverManager::get_driver_by_name("GTiff").unwrap();
    assert_eq!(gtiff.dataset_path(PathBuf::from("a.tif")), Some(PathBuf::from("a.tif")));
    let d = gtiff
        .create_with_band_type_with_options(PathBuf::from("b.tif"), 2, 3, 1, GdalDataType::Int16, &RasterCreationOptions, 0i16)
        .unwrap();
    assert_eq!(d.path, Some(PathBuf::from("b.tif")));
    assert_eq!(d.data_type, GdalDataType::Int16);
    assert_eq!(d.bands[0].data, vec![0i16; 6]);
    let m = mem.create(PathBuf::from(""), 2, 2, 3, 0u8).unwrap();
    assert_eq!(m.path, None);
    assert_eq!(m.data_type, GdalDataType::UInt8);
    assert_eq!(m.raster_count(), 3);
}
