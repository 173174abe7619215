//! The loader facade: the handle on one archive's reader.

use pmtiles::AsyncPmTilesReader;
use vstd::prelude::*;

verus! {

/// A tile loader over one PMTiles archive, read through the backend `B`
/// with the directory cache `C`.
///
/// The loader keeps the reader and nothing else. Whatever a load needs to
/// remember lives in the call that performs it.
#[verifier::reject_recursive_types(B)]
#[verifier::reject_recursive_types(C)]
pub struct PmtilesTileLoader<B = pmtiles::HttpBackend, C = pmtiles::NoCache> {
    reader: AsyncPmTilesReader<B, C>,
}

impl<B, C> PmtilesTileLoader<B, C> {
    /// The reader that this loader fetches through.
    pub closed spec fn held_reader(&self) -> AsyncPmTilesReader<B, C> {
        self.reader
    }

    /// A loader that fetches through `reader`.
    pub fn new(reader: AsyncPmTilesReader<B, C>) -> (loader: Self)
        ensures
            loader.held_reader() == reader,
    {
        PmtilesTileLoader { reader }
    }

    /// The reader that this loader fetches through.
    pub fn reader(&self) -> (reader: &AsyncPmTilesReader<B, C>)
        ensures
            *reader == self.held_reader(),
    {
        &self.reader
    }
}

} // verus!
