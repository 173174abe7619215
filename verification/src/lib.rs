//! Tile resolution and decoding for PMTiles archives, without the I/O.
//!
//! The crate holds the decisions of a PMTiles tile loader: which coordinates
//! can be asked of an archive, what a fetch outcome means for the raster and
//! for the vector consumer, when a payload is decompressed, and what a
//! directory cache answers. Fetching itself is left to the caller, who owns
//! the asynchronous reader and hands each outcome back.
//!
//! A load runs in this order:
//!
//! 1. [`resolver::tile_coord`] turns the index into a coordinate, or ends
//!    the load with `NotFound`.
//! 2. The caller fetches the coordinate through the reader that the
//!    [`PmtilesTileLoader`] holds. The reader consults its directory cache,
//!    for which [`PmtilesDirCache`] gives the answers.
//! 3. [`resolver::tile_bytes`] reads the outcome of the fetch.
//! 4. For a vector tile, [`decode::vector_tile`] decompresses and parses
//!    what was resolved. For a raster tile, the caller hands the bytes to
//!    its image decoder and [`decode::raster_image`] files the outcome.

pub mod bindings;
pub mod decode;
pub mod dir_cache;
pub mod error;
pub mod loader;
pub mod resolver;

pub use dir_cache::{DirCacheResult, PmtilesDirCache};
pub use error::{GalileoError, TileLoadError};
pub use loader::PmtilesTileLoader;
pub use resolver::{TileCoord, TileIndex};
