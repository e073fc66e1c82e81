use terrain_preprocess::error::PreprocessError;
use terrain_preprocess::mask::{apply_mask, mask_band, mask_sample_type, BitMask, MaskSampleType};
use terrain_preprocess::raster::{Buffer, GdalDataType};

#[test]
fn mask_bit_replaces_the_lowest_bit() {
    assert_eq!(0b1010_1010u8.apply(1), 0b1010_1011);
    assert_eq!(0b1010_1011u8.apply(0), 0b1010_1010);
    assert_eq!(255u8.apply(200), 255);
    assert_eq!(1000u16.apply(0), 1000);
    assert_eq!(1001u16.apply(0), 1000);
    assert_eq!(1000u16.apply(3), 1001);
    assert_eq!((-3i16).apply(0), -4);
    assert_eq!((-4i16).apply(1), -3);
    assert_eq!(i16::MIN.apply(1), i16::MIN + 1);
}

#[test]
fn masking_twice_changes_nothing_more() {
    for v in [0u16, 1, 2, 65535, 4242] {
        for m in [0u8, 1, 255] {
            assert_eq!(v.apply(m).apply(m), v.apply(m));
            assert_eq!(v.apply(m) & 1, if m != 0 { 1 } else { 0 });
            assert_eq!(v.apply(m) & !1, v & !1);
        }
    }
}

#[test]
fn apply_mask_pairs_samples_with_mask_bytes() {
    let mut values = [10u8, 11, 12, 13];
    apply_mask(&mut values, &[0, 255, 1]);
    assert_eq!(values, [10, 11, 13, 13]);
    let mut band = Buffer::new((2, 1), vec![4i16, 5]);
    mask_band(&mut band, &Buffer::new((2, 1), vec![7u8, 0]));
    assert_eq!(band.data(), &[5, 4]);
}

#[test]
fn mask_sample_types() {
    assert!(matches!(mask_sample_type(GdalDataType::Unknown), Err(PreprocessError::UnknownRasterbandDataType)));
    assert_eq!(mask_sample_type(GdalDataType::UInt8).unwrap(), MaskSampleType::UInt8);
    assert_eq!(mask_sample_type(GdalDataType::UInt16).unwrap(), MaskSampleType::UInt16);
    assert_eq!(mask_sample_type(GdalDataType::Int16).unwrap(), MaskSampleType::Int16);
    assert_eq!(mask_sample_type(GdalDataType::Float32).unwrap(), MaskSampleType::Float32);
}
