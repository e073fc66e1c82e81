# terrain_preprocess

The raster core of a terrain preprocessor, written in Verus.

`src/` is the verified library:

- `raster`: sample data types and their names, colour interpretations, row-major buffers.
- `dataset`: the in-memory dataset (`DatasetData`), its band metadata, window reads and
  writes, and the interleaving of bands for TIFF files.
- `tiff`: decoding a raster file as a GeoTIFF or else a plain TIFF, and the header of its
  first image, through `geotiff-reader` and `tiff-reader`.
- `array`: buffers as `ndarray` arrays.
- `mask`: the no-data mask kept in the least significant bit of each sample.
- `edge_extend`: the valid texel rectangle of a tile and the repetition of its edge texels.
- `reproject`: row chunks of band copies, attachment ordering and resizing, transformers.
- `tile_loader`: byte layouts of loaded tile images and texture formats of TIFF tiles.
- `debug`: debug switches toggled by keys, free camera key input and frame decisions,
  grid size.
- `terrain_config`: the asset path a terrain configuration records for its directory.
- `text`: whitespace trimming, ASCII lowercasing and decimal numbers over characters.
- `laws`: properties that relate several operations.

`app/` holds the shared, locked dataset with `f64` samples, TIFF reading and writing,
resampling coordinates, no-data filling and the other floating-point steps.
