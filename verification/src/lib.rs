//! Verified core of a terrain preprocessing pipeline: an in-memory raster dataset
//! model, window reads and writes, band interleaving, no-data masking, edge
//! extension of tiles, and the small decision tables around them.

pub mod error;
pub mod raster;
pub mod text;
pub mod dataset;
pub mod mask;
pub mod edge_extend;
pub mod tile_loader;
pub mod debug;
pub mod reproject;
pub mod array;
pub mod laws;
pub mod tiff;
pub mod terrain_config;
