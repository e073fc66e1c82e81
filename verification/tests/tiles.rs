use terrain_preprocess::edge_extend::{edge_extend, texel_rect_from_bounds, TexelRect};
use terrain_preprocess::raster::Buffer;
use terrain_preprocess::tile_loader::{
    convert_tile_bytes, gray_to_rgba, rgb_to_rgba, tile_conversion, TextureFormatKind, TiffColorType,
    TiffLoader, TiffSampleType, TileConversion,
};

#[test]
fn texel_rect_inside_a_tile() {
    // tile (1, 0) of 4-texel centres with a border of 2; valid texels 5..7 by 0..3
    let r = texel_rect_from_bounds(5, 0, 7, 3, 1, 0, 4, 2).unwrap();
    assert_eq!(r, TexelRect { min_x: 3, min_y: 2, max_x: 4, max_y: 4 });
    // the valid region covers the whole tile
    let r = texel_rect_from_bounds(-10, -10, 100, 100, 2, 3, 4, 1).unwrap();
    assert_eq!(r, TexelRect { min_x: 1, min_y: 1, max_x: 4, max_y: 4 });
}

#[test]
fn texel_rect_of_a_tile_without_valid_texels() {
    assert_eq!(texel_rect_from_bounds(0, 0, 4, 4, 1, 0, 4, 2), None);
    assert_eq!(texel_rect_from_bounds(0, 5, 4, 5, 0, 1, 4, 2), None);
}

#[test]
fn edge_extension_repeats_the_nearest_valid_texel() {
    let original = Buffer::new((3, 3), vec![1, 2, 3, 4, 5, 6, 7, 8, 9]);
    let rect = TexelRect { min_x: 1, min_y: 1, max_x: 1, max_y: 2 };
    let out = edge_extend(&original, 3, rect);
    assert_eq!(out, vec![5, 5, 5, 5, 5, 5, 8, 8, 8]);
    let all = TexelRect { min_x: 0, min_y: 0, max_x: 2, max_y: 2 };
    assert_eq!(edge_extend(&original, 3, all), original.data().to_vec());
    assert_eq!(edge_extend(&original, 0, rect), Vec::<i32>::new());
}

#[test]
fn gray_and_rgb_become_rgba() {
    assert_eq!(gray_to_rgba(&[7, 9]), vec![7, 7, 7, 255, 9, 9, 9, 255]);
    assert_eq!(rgb_to_rgba(&[1, 2, 3, 4, 5, 6]), vec![1, 2, 3, 255, 4, 5, 6, 255]);
    assert_eq!(rgb_to_rgba(&[]), Vec::<u8>::new());
}

#[test]
fn tile_bytes_conversion_choice() {
    assert_eq!(tile_conversion(TextureFormatKind::R8Unorm, true, 2, 2, 4), TileConversion::GrayToRgba);
    assert_eq!(tile_conversion(TextureFormatKind::R8Unorm, false, 2, 2, 4), TileConversion::Unchanged);
    assert_eq!(tile_conversion(TextureFormatKind::Rgba8Unorm, true, 2, 1, 6), TileConversion::RgbToRgba);
    assert_eq!(tile_conversion(TextureFormatKind::Rgba8UnormSrgb, true, 2, 1, 6), TileConversion::RgbToRgba);
    assert_eq!(tile_conversion(TextureFormatKind::Rgba8Unorm, true, 2, 1, 8), TileConversion::Unchanged);
    assert_eq!(tile_conversion(TextureFormatKind::R16Unorm, true, 2, 1, 4), TileConversion::Unchanged);
    assert_eq!(convert_tile_bytes(TextureFormatKind::Rgba8Unorm, true, 1, 1, &[1, 2, 3]), Some(vec![1, 2, 3, 255]));
    assert_eq!(convert_tile_bytes(TextureFormatKind::Rgba8Unorm, true, 1, 1, &[1, 2, 3, 4]), None);
    assert_eq!(convert_tile_bytes(TextureFormatKind::R8Unorm, true, 1, 1, &[8]), Some(vec![8, 8, 8, 255]));
}

#[test]
fn tiff_texture_formats() {
    assert_eq!(TiffLoader::texture_format(TiffColorType::Gray, TiffSampleType::U8), TextureFormatKind::R8Unorm);
    assert_eq!(TiffLoader::texture_format(TiffColorType::GrayA, TiffSampleType::U16), TextureFormatKind::R16Unorm);
    assert_eq!(TiffLoader::texture_format(TiffColorType::Gray, TiffSampleType::U32), TextureFormatKind::R32Uint);
    assert_eq!(TiffLoader::texture_format(TiffColorType::Gray, TiffSampleType::F32), TextureFormatKind::R32Float);
    assert_eq!(TiffLoader::texture_format(TiffColorType::Gray, TiffSampleType::I16), TextureFormatKind::R16Sint);
    assert_eq!(TiffLoader::texture_format(TiffColorType::Rgb, TiffSampleType::U8), TextureFormatKind::Rgba8Unorm);
    assert_eq!(TiffLoader::texture_format(TiffColorType::Rgba, TiffSampleType::U8), TextureFormatKind::Rgba8Unorm);
}

#[test]
fn tiff_texture_format_support() {
    assert!(TiffLoader::supports(TiffColorType::Gray, TiffSampleType::U8));
    assert!(TiffLoader::supports(TiffColorType::GrayA, TiffSampleType::I16));
    assert!(TiffLoader::supports(TiffColorType::Rgba, TiffSampleType::U8));
    assert!(!TiffLoader::supports(TiffColorType::Gray, TiffSampleType::F64));
    assert!(!TiffLoader::supports(TiffColorType::Gray, TiffSampleType::I8));
    assert!(!TiffLoader::supports(TiffColorType::Rgba, TiffSampleType::U16));
    assert!(!TiffLoader::supports(TiffColorType::Other, TiffSampleType::U8));
}
