//! The decode dispatcher: from the raw bytes of a tile to what the
//! consumer asked for.
//!
//! Vector tiles may be stored gzip-compressed without the archive saying
//! so. The dispatcher therefore sniffs the payload: bytes that begin with
//! the gzip magic number are decompressed in full before they are parsed,
//! all others are parsed as they are. Raster tiles are never sniffed; their
//! bytes go to the image decoder as the resolver delivered them, and the
//! dispatcher only files the decoder's outcome.

use bytes::Bytes;
use galileo_mvt::error::GalileoMvtError;
use galileo_mvt::MvtTile;
use pmtiles::PmtError;
use vstd::prelude::*;

use crate::bindings::{
    as_slice, bytes_from_vec, bytes_view, gunzip, gz_read_to_end, mvt_decodable, mvt_tile_decode,
};
use crate::error::{GalileoError, TileLoadError};
use crate::resolver::{addressable, requested, resolved, TileIndex};

verus! {

/// The first byte of a gzip stream.
pub const GZIP_ID1: u8 = 0x1f;

/// The second byte of a gzip stream.
pub const GZIP_ID2: u8 = 0x8b;

/// Whether `raw` begins with the gzip magic number. A payload of fewer than
/// two bytes does not.
pub open spec fn gzip_magic(raw: Seq<u8>) -> bool {
    raw.len() >= 2 && raw[0] == GZIP_ID1 && raw[1] == GZIP_ID2
}

/// The bytes that are to be parsed for the raw payload `raw`: the
/// decompressed stream where `raw` begins with the gzip magic number, `raw`
/// itself where it does not. `None` where decompression fails.
pub open spec fn payload(raw: Seq<u8>) -> Option<Seq<u8>> {
    if gzip_magic(raw) {
        gunzip(raw)
    } else {
        Some(raw)
    }
}

/// Whether the raw payload `raw` yields a vector tile: it decompresses, where
/// it is compressed, and what is then at hand parses under strict validation.
pub open spec fn decodes(raw: Seq<u8>) -> bool {
    payload(raw) matches Some(bytes) && mvt_decodable(bytes, false)
}

/// The error, if any, with which the vector path ends for the outcome
/// `resolved` of the resolver.
pub open spec fn vector_failure(resolved: Result<Bytes, GalileoError>) -> Option<TileLoadError> {
    match resolved {
        Err(_) => Some(TileLoadError::Network),
        Ok(raw) => if decodes(bytes_view(&raw)) {
            None
        } else {
            Some(TileLoadError::Decoding)
        },
    }
}

/// What the raster path makes of the image decoder's outcome.
pub open spec fn raster_outcome<I, E>(decoded: Result<I, E>) -> Result<I, GalileoError> {
    match decoded {
        Ok(built) => Ok(built),
        Err(_) => Err(GalileoError::ImageDecode),
    }
}

/// Sniffs `raw` for the gzip magic number.
pub fn is_gzip(raw: &Bytes) -> (magic: bool)
    ensures
        magic == gzip_magic(bytes_view(raw)),
{
    let bytes = as_slice(raw);
    bytes.len() >= 2 && bytes[0] == GZIP_ID1 && bytes[1] == GZIP_ID2
}

/// What the dispatcher makes of a finished decompression: the decompressed
/// bytes as a buffer, or `Decoding` where the stream could not be read.
pub fn inflated(read: Result<Vec<u8>, std::io::Error>) -> (buffer: Result<Bytes, TileLoadError>)
    ensures
        match read {
            Ok(bytes) => buffer is Ok && bytes_view(&buffer.unwrap()) == bytes@,
            Err(_) => buffer == Err::<Bytes, TileLoadError>(TileLoadError::Decoding),
        },
{
    match read {
        Ok(bytes) => Ok(bytes_from_vec(bytes)),
        Err(_) => Err(TileLoadError::Decoding),
    }
}

/// Undoes the compression of `raw`, if there is any. A payload without the
/// gzip magic number comes back as the very buffer that went in.
pub fn decompress(raw: Bytes) -> (buffer: Result<Bytes, TileLoadError>)
    ensures
        match payload(bytes_view(&raw)) {
            Some(bytes) => buffer is Ok && bytes_view(&buffer.unwrap()) == bytes,
            None => buffer == Err::<Bytes, TileLoadError>(TileLoadError::Decoding),
        },
        !gzip_magic(bytes_view(&raw)) ==> buffer == Ok::<Bytes, TileLoadError>(raw),
{
    if is_gzip(&raw) {
        inflated(gz_read_to_end(as_slice(&raw)))
    } else {
        Ok(raw)
    }
}

/// What the dispatcher makes of a finished parse: the tile as the parser
/// built it, or `Decoding` where the bytes were no vector tile.
pub fn parsed(decoded: Result<MvtTile, GalileoMvtError>) -> (tile: Result<MvtTile, TileLoadError>)
    ensures
        match decoded {
            Ok(built) => tile == Ok::<MvtTile, TileLoadError>(built),
            Err(_) => tile == Err::<MvtTile, TileLoadError>(TileLoadError::Decoding),
        },
{
    match decoded {
        Ok(built) => Ok(built),
        Err(_) => Err(TileLoadError::Decoding),
    }
}

/// Parses uncompressed bytes as a vector tile, under strict validation.
pub fn parse(bytes: Bytes) -> (tile: Result<MvtTile, TileLoadError>)
    ensures
        tile is Ok <==> mvt_decodable(bytes_view(&bytes), false),
        tile is Err ==> tile == Err::<MvtTile, TileLoadError>(TileLoadError::Decoding),
{
    parsed(mvt_tile_decode(bytes, false))
}

/// Decodes the raw bytes of a tile: decompression where the payload calls
/// for it, then the parse. Either step failing ends in `Decoding`.
pub fn decode_tile(raw: Bytes) -> (tile: Result<MvtTile, TileLoadError>)
    ensures
        tile is Ok <==> decodes(bytes_view(&raw)),
        tile is Err ==> tile == Err::<MvtTile, TileLoadError>(TileLoadError::Decoding),
{
    match decompress(raw) {
        Ok(bytes) => parse(bytes),
        Err(e) => Err(e),
    }
}

/// The vector path after the resolver. Any failure of the resolver is
/// reported as `Network`; bytes that were delivered are decoded, and fail
/// with `Decoding` if at all.
pub fn vector_tile(resolved: Result<Bytes, GalileoError>) -> (tile: Result<MvtTile, TileLoadError>)
    ensures
        match vector_failure(resolved) {
            Some(e) => tile == Err::<MvtTile, TileLoadError>(e),
            None => tile is Ok,
        },
{
    match resolved {
        Ok(raw) => decode_tile(raw),
        Err(_) => Err(TileLoadError::Network),
    }
}

/// The end of the raster path: the image as the image decoder built it, or
/// `ImageDecode` where the decoder failed, whatever its reason.
pub fn raster_image<I, E>(decoded: Result<I, E>) -> (image: Result<I, GalileoError>)
    ensures
        image == raster_outcome(decoded),
{
    match decoded {
        Ok(built) => Ok(built),
        Err(_) => Err(GalileoError::ImageDecode),
    }
}

/// Sniffing decides alone what is parsed: a payload that begins with the
/// gzip magic number is parsed decompressed, every other payload, and so
/// every payload of fewer than two bytes, is parsed as it is.
pub proof fn sniffing_decides_payload(raw: Seq<u8>)
    ensures
        gzip_magic(raw) ==> payload(raw) == gunzip(raw),
        !gzip_magic(raw) ==> payload(raw) == Some(raw),
        raw.len() < 2 ==> payload(raw) == Some(raw),
{
}

/// Compression is transparent: a gzip stream of uncompressed tile bytes
/// hands the parser the same bytes as those tile bytes fed directly, so
/// the one yields a tile exactly when the other does, and both fail alike.
pub proof fn compression_is_transparent(compressed: Bytes, plain: Bytes)
    requires
        gzip_magic(bytes_view(&compressed)),
        gunzip(bytes_view(&compressed)) == Some(bytes_view(&plain)),
        !gzip_magic(bytes_view(&plain)),
    ensures
        payload(bytes_view(&compressed)) == payload(bytes_view(&plain)),
        payload(bytes_view(&plain)) == Some(bytes_view(&plain)),
        decodes(bytes_view(&compressed)) == decodes(bytes_view(&plain)),
        vector_failure(Ok(compressed)) == vector_failure(Ok(plain)),
{
}

/// Whatever the resolver failed with, the vector consumer is told
/// `Network`. An index that no archive can address is such a failure: it
/// ends in `Network` before anything is fetched.
pub proof fn resolver_failure_is_network(index: TileIndex, cause: GalileoError)
    ensures
        vector_failure(Err(cause)) == Some(TileLoadError::Network),
        !addressable(index.z as int, index.x as int, index.y as int) ==> requested(index) is Err
            && vector_failure(Err(requested(index)->Err_0)) == Some(TileLoadError::Network),
{
}

/// One failed fetch, two reports: `NotFound` for the raster consumer, whose
/// error is the resolver's own, and `Network` for the vector consumer. A
/// tile that the archive does not hold is reported in the same way.
pub proof fn transport_failure_by_path(cause: PmtError)
    ensures
        resolved(Err(cause)) == Err::<Bytes, GalileoError>(GalileoError::NotFound),
        vector_failure(resolved(Err(cause))) == Some(TileLoadError::Network),
        resolved(Ok(None)) == resolved(Err(cause)),
{
}

/// A payload that cannot be decoded is reported in kind on both paths. To
/// the vector consumer it is `Decoding`, be it that the bytes do not
/// decompress or that what they decompress to does not parse, and never
/// `Network`. To the raster consumer it is `ImageDecode`, whatever reason
/// the image decoder gave.
pub proof fn decode_failure_by_path<I, E>(raw: Bytes, cause: E)
    requires
        !decodes(bytes_view(&raw)),
    ensures
        vector_failure(Ok(raw)) == Some(TileLoadError::Decoding),
        raster_outcome::<I, E>(Err(cause)) == Err::<I, GalileoError>(GalileoError::ImageDecode),
{
}

} // verus!
