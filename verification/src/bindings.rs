//! Trusted declarations for the crates this library is built on.
//!
//! Nothing in this file is proved. Each item states what the library relies
//! on from `bytes`, `flate2`, `galileo_mvt` and `pmtiles`; everything else in
//! the crate is verified against these statements.

use std::io::Read;

use vstd::prelude::*;

verus! {

// ---------------------------------------------------------------- bytes

/// `bytes::Bytes`: an immutable, cheaply cloneable byte buffer.
#[verifier::external_type_specification]
#[verifier::external_body]
pub struct ExBytes(bytes::Bytes);

/// The bytes that a `Bytes` buffer holds, in order.
pub uninterp spec fn bytes_view(buffer: &bytes::Bytes) -> Seq<u8>;

/// `AsRef<[u8]>` of `Bytes`: the buffer as a slice.
///
/// Trusted: the slice holds the bytes of the buffer, all of them and in
/// their order.
#[verifier::external_body]
pub(crate) fn as_slice(buffer: &bytes::Bytes) -> (slice: &[u8])
    ensures
        slice@ == bytes_view(buffer),
{
    buffer.as_ref()
}

/// `From<Vec<u8>>` for `Bytes`: a buffer made of a vector.
///
/// Trusted: the buffer holds the bytes of the vector, all of them and in
/// their order.
#[verifier::external_body]
pub(crate) fn bytes_from_vec(bytes: Vec<u8>) -> (buffer: bytes::Bytes)
    ensures
        bytes_view(&buffer) == bytes@,
{
    bytes::Bytes::from(bytes)
}

// --------------------------------------------------------------- flate2

/// `std::io::Error`, as a reader returns it.
#[verifier::external_type_specification]
#[verifier::external_body]
pub struct ExIoError(std::io::Error);

/// What `flate2::read::GzDecoder` yields when it is read to the end over
/// `input`: the decompressed bytes of the first gzip member, or `None` where
/// the read fails, be it on the header, the body or the checksum.
pub uninterp spec fn gunzip(input: Seq<u8>) -> Option<Seq<u8>>;

/// `flate2::read::GzDecoder::new` over `input`, read to the end with
/// `Read::read_to_end`.
///
/// Trusted: whether the read succeeds, and what it then yields, depends on
/// the bytes of `input` alone.
#[verifier::external_body]
pub(crate) fn gz_read_to_end(input: &[u8]) -> (read: Result<Vec<u8>, std::io::Error>)
    ensures
        match read {
            Ok(bytes) => gunzip(input@) == Some(bytes@),
            Err(_) => gunzip(input@) is None,
        },
{
    let mut decompressed = Vec::new();
    flate2::read::GzDecoder::new(input).read_to_end(&mut decompressed).map(|_| decompressed)
}

// ---------------------------------------------------------- galileo_mvt

/// `galileo_mvt::MvtTile`: a parsed vector tile.
#[verifier::external_type_specification]
#[verifier::external_body]
pub struct ExMvtTile(galileo_mvt::MvtTile);

/// `galileo_mvt::error::GalileoMvtError`: why bytes were no vector tile.
#[verifier::external_type_specification]
#[verifier::external_body]
pub struct ExGalileoMvtError(galileo_mvt::error::GalileoMvtError);

/// Whether `galileo_mvt::MvtTile::decode` accepts `input`.
///
/// The tile that it then builds holds hash maps, which are seeded anew each
/// time one is made. Two decodings of the same bytes are therefore not one
/// value, and the tile itself is given no name.
pub uninterp spec fn mvt_decodable(input: Seq<u8>, skip_recoverable_errors: bool) -> bool;

/// `galileo_mvt::MvtTile::decode`.
///
/// Trusted: whether the bytes are accepted depends on the bytes and on the
/// flag alone. Nothing is claimed of the tile.
#[verifier::external_body]
pub(crate) fn mvt_tile_decode(buffer: bytes::Bytes, skip_recoverable_errors: bool) -> (decoded:
    Result<galileo_mvt::MvtTile, galileo_mvt::error::GalileoMvtError>)
    ensures
        decoded is Ok <==> mvt_decodable(bytes_view(&buffer), skip_recoverable_errors),
{
    galileo_mvt::MvtTile::decode(buffer, skip_recoverable_errors)
}

// -------------------------------------------------------------- pmtiles

/// `pmtiles::Directory`: one directory of an archive, decoded.
#[verifier::external_type_specification]
#[verifier::external_body]
pub struct ExDirectory(pmtiles::Directory);

/// `pmtiles::DirEntry`: where a tile, or a run of equal tiles, or a
/// directory further down lies in the archive.
#[verifier::external_type_specification]
#[verifier::external_body]
pub struct ExDirEntry(pmtiles::DirEntry);

/// `pmtiles::TileId`: a tile's position on the archive's Hilbert curve.
#[verifier::external_type_specification]
#[verifier::external_body]
pub struct ExTileId(pmtiles::TileId);

/// `pmtiles::PmtError`: why the reader could not answer.
#[verifier::external_type_specification]
#[verifier::external_body]
pub struct ExPmtError(pmtiles::PmtError);

/// `pmtiles::AsyncPmTilesReader`: the asynchronous reader of one archive.
#[verifier::external_type_specification]
#[verifier::external_body]
#[verifier::reject_recursive_types(B)]
#[verifier::reject_recursive_types(C)]
pub struct ExAsyncPmTilesReader<B, C>(pmtiles::AsyncPmTilesReader<B, C>);

/// What a directory holds, as a table: for each tile id that the directory
/// serves, be it at the start of an entry, within its run or behind a
/// pointer to a directory further down, the entry that
/// `Directory::find_tile_id` finds for it.
pub uninterp spec fn directory_index(directory: &pmtiles::Directory) -> Map<
    pmtiles::TileId,
    pmtiles::DirEntry,
>;

/// `pmtiles::Directory::find_tile_id`, with the entry cloned out of the
/// directory.
///
/// Trusted: the answer depends on the directory and on the tile id alone.
#[verifier::external_body]
pub(crate) fn find_tile_id(directory: &pmtiles::Directory, tile_id: pmtiles::TileId) -> (found:
    Option<pmtiles::DirEntry>)
    ensures
        found == (if directory_index(directory).contains_key(tile_id) {
            Some(directory_index(directory)[tile_id])
        } else {
            None
        }),
{
    directory.find_tile_id(tile_id).cloned()
}

} // verus!
