use terrain_preprocess::dataset::SpatialRef;
use terrain_preprocess::reproject::{
    height_first_order, plan_resizes, row_chunks, AttachmentSize, CubeTransformer, ReprojectionTransformer,
};

#[test]
fn row_chunks_cover_all_rows() {
    assert_eq!(row_chunks(300), vec![(0, 128), (128, 128), (256, 44)]);
    assert_eq!(row_chunks(256), vec![(0, 128), (128, 128)]);
    assert_eq!(row_chunks(50), vec![(0, 50)]);
    assert_eq!(row_chunks(1), vec![(0, 1)]);
    assert_eq!(row_chunks(129), vec![(0, 128), (128, 1)]);
}

#[test]
fn height_maps_come_first() {
    assert_eq!(height_first_order(&[false, true, false, true]), vec![1, 3, 0, 2]);
    assert_eq!(height_first_order(&[]), Vec::<usize>::new());
}

#[test]
fn attachments_are_resized_to_the_height_map() {
    let items = [
        AttachmentSize { is_height: false, width: 10, height: 10 },
        AttachmentSize { is_height: true, width: 4, height: 3 },
        AttachmentSize { is_height: false, width: 8, height: 6 },
        AttachmentSize { is_height: false, width: 4, height: 3 },
    ];
    assert_eq!(plan_resizes(&items), vec![None, None, Some((4, 3)), None]);
}

#[test]
fn transformers() {
    let a = SpatialRef::from_proj4("+proj=lonlat").unwrap();
    let b = SpatialRef::from_proj4("+proj=lonlat +ellps=WGS84 +datum=WGS84").unwrap();
    assert!(ReprojectionTransformer::new(&a, &b).is_ok());
    assert_eq!(CubeTransformer::new(4).face, 4);
}
