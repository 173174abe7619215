//! The tile resolver: from a tile index to the raw bytes of the tile.
//!
//! Resolution has two halves with a fetch between them. The first half
//! decides whether the index names a tile that an archive can address at
//! all; only then is there a coordinate to fetch. The second half reads the
//! outcome of the fetch. Every way of failing ends in
//! [`GalileoError::NotFound`]: at this boundary a malformed request, an
//! absent tile and a failed transport are one and the same.

use bytes::Bytes;
use pmtiles::PmtError;
use vstd::arithmetic::power2::{lemma2_to64, lemma_pow2_strictly_increases, pow2};
use vstd::bits::lemma_u64_shl_is_mul;
use vstd::prelude::*;

use crate::error::GalileoError;

verus! {

/// The deepest zoom level that an archive can address.
pub const MAX_ZOOM: u8 = 31;

/// The index of a tile as the layer system names it. Nothing is known of
/// its range.
#[derive(Clone, Copy, Debug, PartialEq, Eq, Structural, Hash)]
pub struct TileIndex {
    /// The zoom level.
    pub z: u32,
    /// The column, counted from zero.
    pub x: u32,
    /// The row, counted from zero.
    pub y: u32,
}

/// Whether an archive can address column `x` and row `y` at zoom `z`: the
/// zoom is at most [`MAX_ZOOM`], and both lie on the grid of `2^z` by `2^z`
/// tiles of that zoom.
pub open spec fn addressable(z: int, x: int, y: int) -> bool {
    &&& 0 <= z <= MAX_ZOOM
    &&& 0 <= x < pow2(z as nat)
    &&& 0 <= y < pow2(z as nat)
}

/// A tile coordinate that an archive can address.
#[derive(Clone, Copy, Debug, PartialEq, Eq, Structural, Hash)]
pub struct TileCoord {
    z: u8,
    x: u32,
    y: u32,
}

impl View for TileCoord {
    type V = (u8, u32, u32);

    /// Zoom, column and row, in this order.
    closed spec fn view(&self) -> (u8, u32, u32) {
        (self.z, self.x, self.y)
    }
}

impl TileCoord {
    #[verifier::type_invariant]
    spec fn on_grid(self) -> bool {
        addressable(self.z as int, self.x as int, self.y as int)
    }

    /// The coordinate of column `x` and row `y` at zoom `z`, if an archive
    /// can address it.
    pub fn new(z: u8, x: u32, y: u32) -> (coord: Option<Self>)
        ensures
            addressable(z as int, x as int, y as int) ==> coord is Some && coord.unwrap()@ == (
                z,
                x,
                y,
            ),
            !addressable(z as int, x as int, y as int) ==> coord is None,
    {
        if z > MAX_ZOOM {
            return None;
        }
        let shift: u64 = z as u64;
        proof {
            lemma2_to64();
            lemma_pow2_strictly_increases(z as nat, 32);
            lemma_u64_shl_is_mul(1, shift);
        }
        let side: u64 = 1u64 << shift;
        if x as u64 >= side || y as u64 >= side {
            return None;
        }
        Some(TileCoord { z, x, y })
    }

    /// The zoom level, at most [`MAX_ZOOM`].
    pub fn z(&self) -> (z: u8)
        ensures
            z == self@.0,
            addressable(self@.0 as int, self@.1 as int, self@.2 as int),
    {
        proof {
            use_type_invariant(self);
        }
        self.z
    }

    /// The column, below `2^z`.
    pub fn x(&self) -> (x: u32)
        ensures
            x == self@.1,
            addressable(self@.0 as int, self@.1 as int, self@.2 as int),
    {
        proof {
            use_type_invariant(self);
        }
        self.x
    }

    /// The row, below `2^z`.
    pub fn y(&self) -> (y: u32)
        ensures
            y == self@.2,
            addressable(self@.0 as int, self@.1 as int, self@.2 as int),
    {
        proof {
            use_type_invariant(self);
        }
        self.y
    }
}

/// What the first half of resolution makes of an index: the coordinate to
/// fetch, or `NotFound` where there is nothing to ask the archive for.
pub open spec fn requested(index: TileIndex) -> Result<(u8, u32, u32), GalileoError> {
    if addressable(index.z as int, index.x as int, index.y as int) {
        Ok((index.z as u8, index.x, index.y))
    } else {
        Err(GalileoError::NotFound)
    }
}

/// The first half of resolution. A coordinate comes back exactly for the
/// indices that an archive can address; for every other index the answer is
/// `NotFound`, and no coordinate exists that could be handed to a transport.
pub fn tile_coord(index: TileIndex) -> (coord: Result<TileCoord, GalileoError>)
    ensures
        match requested(index) {
            Ok(parts) => coord is Ok && coord.unwrap()@ == parts,
            Err(e) => coord == Err::<TileCoord, GalileoError>(e),
        },
        index.z > 255 ==> coord == Err::<TileCoord, GalileoError>(GalileoError::NotFound),
{
    if index.z > 255 {
        return Err(GalileoError::NotFound);
    }
    match TileCoord::new(index.z as u8, index.x, index.y) {
        Some(coord) => Ok(coord),
        None => Err(GalileoError::NotFound),
    }
}

/// What the second half of resolution makes of a fetch: the bytes where the
/// archive delivered some, `NotFound` where it holds no such tile or the
/// fetch failed.
pub open spec fn resolved(fetched: Result<Option<Bytes>, PmtError>) -> Result<Bytes, GalileoError> {
    match fetched {
        Ok(Some(bytes)) => Ok(bytes),
        Ok(None) => Err(GalileoError::NotFound),
        Err(_) => Err(GalileoError::NotFound),
    }
}

/// The second half of resolution. The bytes are passed on as they came.
pub fn tile_bytes(fetched: Result<Option<Bytes>, PmtError>) -> (bytes: Result<Bytes, GalileoError>)
    ensures
        bytes == resolved(fetched),
{
    match fetched {
        Ok(Some(bytes)) => Ok(bytes),
        Ok(None) => Err(GalileoError::NotFound),
        Err(_) => Err(GalileoError::NotFound),
    }
}

/// An index resolves to a coordinate exactly when an archive can address
/// it. No index with a zoom above 255 does, nor any index off the grid of
/// its zoom level: for these the first half answers `NotFound`, so that the
/// transport is never asked.
pub proof fn unaddressable_index_not_found(index: TileIndex)
    ensures
        requested(index) is Ok <==> addressable(index.z as int, index.x as int, index.y as int),
        requested(index) is Err ==> requested(index) == Err::<(u8, u32, u32), GalileoError>(
            GalileoError::NotFound,
        ),
        index.z > 255 ==> requested(index) is Err,
        index.z <= MAX_ZOOM && (index.x >= pow2(index.z as nat) || index.y >= pow2(
            index.z as nat,
        )) ==> requested(index) is Err,
{
}

} // verus!
