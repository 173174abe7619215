//! The two error channels of the loader.

use vstd::prelude::*;

verus! {

/// What a raster consumer is told when a tile cannot be delivered.
#[derive(Clone, Copy, Debug, PartialEq, Eq, Structural)]
pub enum GalileoError {
    /// The coordinate cannot be addressed, the archive holds no such tile,
    /// or the fetch failed. The resolver does not tell these apart.
    NotFound,
    /// The tile's bytes were delivered but are not a readable image.
    ImageDecode,
}

/// What a vector consumer is told when a tile cannot be delivered.
#[derive(Clone, Copy, Debug, PartialEq, Eq, Structural)]
pub enum TileLoadError {
    /// No bytes could be obtained for the tile.
    Network,
    /// Bytes were obtained but could not be decompressed or parsed.
    Decoding,
}

} // verus!
