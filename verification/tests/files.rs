use std::io::Cursor;
use terrain_preprocess::error::PreprocessError;
use terrain_preprocess::raster::{Buffer, GdalDataType};
use terrain_preprocess::tiff::{open_tiff_bytes, parse_tiff, read_tiff_header, OpenedTiff, TiffHeader};
use tiff_core::{Tag, TagValue};
use tiff_writer::{ImageBuilder, TiffWriter, WriteOptions};

fn tiff_bytes(width: u32, height: u32, samples: &[u16]) -> Vec<u8> {
    write_tiff(width, height, samples, false)
}

fn geotiff_bytes(width: u32, height: u32, samples: &[u16]) -> Vec<u8> {
    write_tiff(width, height, samples, true)
}

fn write_tiff(width: u32, height: u32, samples: &[u16], georeferenced: bool) -> Vec<u8> {
    let mut cursor = Cursor::new(Vec::new());
    let mut writer = TiffWriter::new(&mut cursor, WriteOptions::default()).unwrap();
    let mut image = ImageBuilder::new(width, height)
        .sample_type::<u16>()
        .samples_per_pixel(1)
        .strips(height);
    if georeferenced {
        image = image
            .tag(Tag::new(33922, TagValue::Double(vec![0.0, 0.0, 0.0, 10.0, 20.0, 0.0])))
            .tag(Tag::new(33550, TagValue::Double(vec![1.0, 1.0, 0.0])));
    }
    let handle = writer.add_image(image).unwrap();
    writer.write_block(&handle, 0, samples).unwrap();
    writer.finish().unwrap();
    cursor.into_inner()
}

#[test]
fn tiff_header_of_a_written_file() {
    let bytes = tiff_bytes(3, 2, &[1, 2, 3, 4, 5, 6]);
    let header = read_tiff_header(&bytes).unwrap();
    assert_eq!(header.width, 3);
    assert_eq!(header.height, 2);
    assert_eq!(header.samples, 1);
    assert_eq!(header.sample_format, 1);
    assert_eq!(header.bits_per_sample, 16);
    assert_eq!(header.data_type, GdalDataType::UInt16);
}

#[test]
fn tiff_header_of_bytes_that_are_no_tiff_is_an_error() {
    assert!(read_tiff_header(&[1, 2, 3, 4, 5, 6, 7, 8]).is_err());
}

#[test]
fn tiff_header_from_its_layout() {
    let header = TiffHeader::from_layout(7, 5, 3, 3, 32);
    assert_eq!((header.width, header.height, header.samples), (7, 5, 3));
    assert_eq!((header.sample_format, header.bits_per_sample), (3, 32));
    assert_eq!(header.data_type, GdalDataType::Float32);
    assert_eq!(TiffHeader::from_layout(1, 1, 1, 2, 8).data_type, GdalDataType::Unknown);
}

#[test]
fn a_plain_tiff_opens_as_a_tiff() {
    let bytes = tiff_bytes(3, 2, &[1, 2, 3, 4, 5, 6]);
    assert!(parse_tiff("mem.tif", bytes.clone()).is_ok());
    assert!(matches!(open_tiff_bytes("mem.tif", &bytes), Ok(OpenedTiff::Tiff(_))));
}

#[test]
fn a_georeferenced_tiff_opens_as_a_geotiff() {
    let bytes = geotiff_bytes(3, 2, &[1, 2, 3, 4, 5, 6]);
    let file = match open_tiff_bytes("geo.tif", &bytes) {
        Ok(OpenedTiff::GeoTiff(file)) => file,
        _ => panic!("a georeferenced file did not open as a GeoTIFF"),
    };
    let t = file.transform().unwrap();
    assert_eq!((t.origin_x, t.origin_y), (10.0, 20.0));
    assert_eq!(read_tiff_header(&bytes).unwrap().width, 3);
}

#[test]
fn bytes_that_are_no_raster_file_are_refused_with_the_path() {
    let e = match open_tiff_bytes("dir/bad.tif", &[1, 2, 3, 4, 5, 6, 7, 8]) {
        Ok(_) => panic!("accepted bytes that are no TIFF"),
        Err(e) => e,
    };
    assert!(e.message().starts_with("dir/bad.tif: "));
    assert!(e.message().len() > "dir/bad.tif: ".len());
}

#[test]
fn bytes_that_are_no_tiff_are_refused() {
    let e = match parse_tiff("bad.tif", vec![1, 2, 3, 4, 5, 6, 7, 8]) {
        Ok(_) => panic!("accepted bytes that are no TIFF"),
        Err(e) => e,
    };
    assert!(e.message().starts_with("bad.tif: "));
    assert!(e.message().len() > "bad.tif: ".len());
}

#[test]
fn buffer_to_array_checks_the_shape() {
    let b = Buffer::new((3, 2), vec![1, 2, 3, 4, 5, 6]);
    let a = b.to_array().unwrap().values.array;
    assert_eq!(a.shape(), &[2, 3]);
    assert_eq!(a[[1, 0]], 4);
    let bad = Buffer::new((3, 2), vec![1, 2, 3]);
    assert!(matches!(bad.to_array(), Err(PreprocessError::Raster(_))));
}
