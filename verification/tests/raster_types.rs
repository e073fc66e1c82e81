use terrain_preprocess::error::GdalError;
use terrain_preprocess::raster::{Buffer, ColorInterpretation, GdalDataType, GdalType, RasterCreationOptions};

fn message(e: GdalError) -> String {
    e.message()
}

#[test]
fn from_name_accepts_known_names_in_any_case() {
    assert_eq!(GdalDataType::from_name("UInt16").unwrap(), GdalDataType::UInt16);
    assert_eq!(GdalDataType::from_name("  byte\t").unwrap(), GdalDataType::UInt8);
    assert_eq!(GdalDataType::from_name("U8").unwrap(), GdalDataType::UInt8);
    assert_eq!(GdalDataType::from_name("uint8").unwrap(), GdalDataType::UInt8);
    assert_eq!(GdalDataType::from_name("u32").unwrap(), GdalDataType::UInt32);
    assert_eq!(GdalDataType::from_name("UINT64").unwrap(), GdalDataType::UInt64);
    assert_eq!(GdalDataType::from_name("Int16").unwrap(), GdalDataType::Int16);
    assert_eq!(GdalDataType::from_name("i32").unwrap(), GdalDataType::Int32);
    assert_eq!(GdalDataType::from_name("int64").unwrap(), GdalDataType::Int64);
    assert_eq!(GdalDataType::from_name("Float32").unwrap(), GdalDataType::Float32);
    assert_eq!(GdalDataType::from_name("\u{3000}F64\u{a0}").unwrap(), GdalDataType::Float64);
}

#[test]
fn from_name_rejects_unknown_names_with_the_normalised_name() {
    let e = GdalDataType::from_name("  Complex64 ").unwrap_err();
    assert_eq!(message(e), "unknown raster data type: complex64");
    let e = GdalDataType::from_name("").unwrap_err();
    assert_eq!(message(e), "unknown raster data type: ");
    let e = GdalDataType::from_name("u 8").unwrap_err();
    assert_eq!(message(e), "unknown raster data type: u 8");
    // non-ASCII letters are not lowered
    let e = GdalDataType::from_name("ÜInt8").unwrap_err();
    assert_eq!(message(e), "unknown raster data type: Üint8");
}

#[test]
fn from_layout_maps_sample_format_and_bits() {
    assert_eq!(GdalDataType::from_layout(1, 8), GdalDataType::UInt8);
    assert_eq!(GdalDataType::from_layout(1, 16), GdalDataType::UInt16);
    assert_eq!(GdalDataType::from_layout(1, 32), GdalDataType::UInt32);
    assert_eq!(GdalDataType::from_layout(1, 64), GdalDataType::UInt64);
    assert_eq!(GdalDataType::from_layout(2, 16), GdalDataType::Int16);
    assert_eq!(GdalDataType::from_layout(2, 32), GdalDataType::Int32);
    assert_eq!(GdalDataType::from_layout(2, 64), GdalDataType::Int64);
    assert_eq!(GdalDataType::from_layout(3, 32), GdalDataType::Float32);
    assert_eq!(GdalDataType::from_layout(3, 64), GdalDataType::Float64);
    assert_eq!(GdalDataType::from_layout(2, 8), GdalDataType::Unknown);
    assert_eq!(GdalDataType::from_layout(3, 16), GdalDataType::Unknown);
    assert_eq!(GdalDataType::from_layout(4, 32), GdalDataType::Unknown);
}

#[test]
fn gdal_type_constants() {
    assert_eq!(<u8 as GdalType>::DATA_TYPE, GdalDataType::UInt8);
    assert_eq!(<u16 as GdalType>::DATA_TYPE, GdalDataType::UInt16);
    assert_eq!(<u32 as GdalType>::DATA_TYPE, GdalDataType::UInt32);
    assert_eq!(<u64 as GdalType>::DATA_TYPE, GdalDataType::UInt64);
    assert_eq!(<i16 as GdalType>::DATA_TYPE, GdalDataType::Int16);
    assert_eq!(<i32 as GdalType>::DATA_TYPE, GdalDataType::Int32);
    assert_eq!(<i64 as GdalType>::DATA_TYPE, GdalDataType::Int64);
}

#[test]
fn color_codes_round_trip() {
    let all = [
        ColorInterpretation::Undefined,
        ColorInterpretation::GrayIndex,
        ColorInterpretation::RedBand,
        ColorInterpretation::GreenBand,
        ColorInterpretation::BlueBand,
        ColorInterpretation::AlphaBand,
    ];
    for c in all {
        assert_eq!(ColorInterpretation::from_c_int(c.c_int()), Some(c));
    }
    assert_eq!(ColorInterpretation::RedBand.c_int(), 3);
    assert_eq!(ColorInterpretation::AlphaBand.c_int(), 6);
    assert_eq!(ColorInterpretation::Undefined.c_int(), 0);
}

#[test]
fn unknown_color_codes_read_as_undefined() {
    assert_eq!(ColorInterpretation::from_c_int(2), Some(ColorInterpretation::Undefined));
    assert_eq!(ColorInterpretation::from_c_int(-1), Some(ColorInterpretation::Undefined));
    assert_eq!(ColorInterpretation::from_c_int(7), Some(ColorInterpretation::Undefined));
    assert_eq!(ColorInterpretation::from_c_int(1), Some(ColorInterpretation::GrayIndex));
}

#[test]
fn buffer_is_row_major() {
    let mut b = Buffer::new((3, 2), vec![1, 2, 3, 4, 5, 6]);
    assert_eq!(b.shape(), (3, 2));
    assert_eq!(b.data(), &[1, 2, 3, 4, 5, 6]);
    assert_eq!(*b.index((1, 0)), 4);
    assert_eq!(*b.index((0, 2)), 3);
    *b.index_mut((1, 2)) = 60;
    b.data_mut()[0] = 10;
    assert_eq!(b.data(), &[10, 2, 3, 4, 5, 60]);
    let c = b.clone();
    assert_eq!(c.shape(), (3, 2));
    assert_eq!(c.into_data(), vec![10, 2, 3, 4, 5, 60]);
}

#[test]
fn creation_options_accept_any_strings() {
    let _ = RasterCreationOptions::from_iter(["COMPRESS=DEFLATE", "TILED=YES"]);
    let _ = RasterCreationOptions::from_iter(Vec::<String>::new());
}

#[test]
fn buffer_clone_keeps_shape_and_samples() {
    let b = Buffer::new((2, 2), vec![1.5f64, -2.0, 3.25, 0.0]);
    let c = b.clone();
    assert_eq!(c.shape(), (2, 2));
    assert_eq!(c.data(), b.data());
}
