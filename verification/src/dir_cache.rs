//! The directory cache: decoded directories of one archive, by the byte
//! offset at which each is stored.
//!
//! A directory at a given offset never changes within an archive, so an
//! entry is only ever added or replaced as a whole. Nothing is evicted.

use std::collections::HashMap;

use pmtiles::{DirEntry, Directory, TileId};
use vstd::prelude::*;

use crate::bindings::{directory_index, find_tile_id};

verus! {

broadcast use vstd::std_specs::hash::group_hash_axioms;

/// The answer of the cache to a lookup.
#[derive(Debug)]
pub enum DirCacheResult {
    /// No directory is stored for the offset; the caller has to fetch it.
    NotCached,
    /// The directory at the offset is stored and serves no entry for the tile.
    NotFound,
    /// The directory at the offset is stored and serves this entry for the tile.
    Found(DirEntry),
}

/// What a set of stored directories answers when asked for `tile_id` in the
/// directory at `offset`.
pub open spec fn lookup(
    directories: Map<usize, Directory>,
    offset: usize,
    tile_id: TileId,
) -> DirCacheResult {
    if !directories.contains_key(offset) {
        DirCacheResult::NotCached
    } else if directory_index(&directories[offset]).contains_key(tile_id) {
        DirCacheResult::Found(directory_index(&directories[offset])[tile_id])
    } else {
        DirCacheResult::NotFound
    }
}

/// A directory cache backed by a hash map.
pub struct PmtilesDirCache {
    cache: HashMap<usize, Directory>,
}

impl View for PmtilesDirCache {
    type V = Map<usize, Directory>;

    /// The stored directories by offset.
    closed spec fn view(&self) -> Map<usize, Directory> {
        self.cache@
    }
}

impl PmtilesDirCache {
    /// An empty cache.
    pub fn new() -> (cache: Self)
        ensures
            cache@ == Map::<usize, Directory>::empty(),
    {
        PmtilesDirCache { cache: HashMap::new() }
    }

    /// Looks `tile_id` up in the directory stored for `offset`.
    pub fn get_dir_entry(&self, offset: usize, tile_id: TileId) -> (result: DirCacheResult)
        ensures
            result == lookup(self@, offset, tile_id),
    {
        match self.cache.get(&offset) {
            Some(directory) => match find_tile_id(directory, tile_id) {
                Some(entry) => DirCacheResult::Found(entry),
                None => DirCacheResult::NotFound,
            },
            None => DirCacheResult::NotCached,
        }
    }

    /// Stores `directory` for `offset`, in place of any directory stored
    /// there before. Every other offset keeps what it had.
    pub fn insert_dir(&mut self, offset: usize, directory: Directory)
        ensures
            final(self)@ == old(self)@.insert(offset, directory),
    {
        self.cache.insert(offset, directory);
    }
}

impl Default for PmtilesDirCache {
    fn default() -> (cache: Self)
        ensures
            cache@ == Map::<usize, Directory>::empty(),
    {
        PmtilesDirCache::new()
    }
}

/// A lookup at an offset for which nothing is stored answers `NotCached`,
/// whatever the tile. This holds in particular of a new cache.
pub proof fn lookup_unstored_offset(
    directories: Map<usize, Directory>,
    offset: usize,
    tile_id: TileId,
)
    requires
        !directories.contains_key(offset),
    ensures
        lookup(directories, offset, tile_id) == DirCacheResult::NotCached,
        lookup(Map::<usize, Directory>::empty(), offset, tile_id) == DirCacheResult::NotCached,
{
}

/// Once a directory is stored for an offset, a lookup there is answered from
/// that directory alone: `Found` with the entry the directory serves for the
/// tile, `NotFound` where it serves none, never `NotCached`.
pub proof fn lookup_after_insert(
    directories: Map<usize, Directory>,
    offset: usize,
    directory: Directory,
    tile_id: TileId,
)
    ensures
        directory_index(&directory).contains_key(tile_id) ==> lookup(
            directories.insert(offset, directory),
            offset,
            tile_id,
        ) == DirCacheResult::Found(directory_index(&directory)[tile_id]),
        !directory_index(&directory).contains_key(tile_id) ==> lookup(
            directories.insert(offset, directory),
            offset,
            tile_id,
        ) == DirCacheResult::NotFound,
{
}

/// Storing a directory for one offset changes no answer at another.
pub proof fn insert_leaves_other_offsets(
    directories: Map<usize, Directory>,
    offset: usize,
    directory: Directory,
    other: usize,
    tile_id: TileId,
)
    requires
        other != offset,
    ensures
        lookup(directories.insert(offset, directory), other, tile_id) == lookup(
            directories,
            other,
            tile_id,
        ),
{
}

/// Nothing is evicted: an offset that has a directory still has one after
/// any insert, at that offset or at another.
pub proof fn insert_evicts_nothing(
    directories: Map<usize, Directory>,
    offset: usize,
    directory: Directory,
    stored: usize,
    tile_id: TileId,
)
    requires
        directories.contains_key(stored),
    ensures
        directories.insert(offset, directory).contains_key(stored),
        lookup(directories.insert(offset, directory), stored, tile_id) != DirCacheResult::NotCached,
{
}

/// Storing the same directory for the same offset again changes nothing, and
/// of two directories stored for one offset the later one stays.
pub proof fn insert_replaces_whole_entry(
    directories: Map<usize, Directory>,
    offset: usize,
    first: Directory,
    second: Directory,
)
    ensures
        directories.insert(offset, first).insert(offset, first) == directories.insert(
            offset,
            first,
        ),
        directories.insert(offset, first).insert(offset, second) == directories.insert(
            offset,
            second,
        ),
{
}

} // verus!
