use bytes::Bytes;
use pmtiles::PmtError;
use pmtiles_loader::resolver::{tile_bytes, tile_coord, MAX_ZOOM};
use pmtiles_loader::{GalileoError, TileCoord, TileIndex};

fn parts(coord: TileCoord) -> (u8, u32, u32) {
    (coord.z(), coord.x(), coord.y())
}

#[test]
fn max_zoom_is_31() {
    assert_eq!(MAX_ZOOM, 31);
}

#[test]
fn coord_of_the_world_tile() {
    let coord = tile_coord(TileIndex { z: 0, x: 0, y: 0 }).unwrap();
    assert_eq!(parts(coord), (0, 0, 0));
}

#[test]
fn coord_keeps_zoom_column_and_row() {
    let coord = tile_coord(TileIndex { z: 18, x: 235085, y: 122323 }).unwrap();
    assert_eq!(parts(coord), (18, 235085, 122323));
}

#[test]
fn coord_of_the_last_tile_of_every_zoom() {
    for z in 0..=31u32 {
        let last = ((1u64 << z) - 1) as u32;
        let coord = tile_coord(TileIndex { z, x: last, y: last }).unwrap();
        assert_eq!(parts(coord), (z as u8, last, last));
    }
}

#[test]
fn column_off_the_grid_is_not_found() {
    assert_eq!(tile_coord(TileIndex { z: 2, x: 4, y: 0 }), Err(GalileoError::NotFound));
    assert_eq!(tile_coord(TileIndex { z: 0, x: 1, y: 0 }), Err(GalileoError::NotFound));
    assert_eq!(
        tile_coord(TileIndex { z: 31, x: 1 << 31, y: 0 }),
        Err(GalileoError::NotFound)
    );
    assert_eq!(
        tile_coord(TileIndex { z: 5, x: u32::MAX, y: 0 }),
        Err(GalileoError::NotFound)
    );
}

#[test]
fn row_off_the_grid_is_not_found() {
    assert_eq!(tile_coord(TileIndex { z: 2, x: 0, y: 4 }), Err(GalileoError::NotFound));
    assert_eq!(tile_coord(TileIndex { z: 0, x: 0, y: 1 }), Err(GalileoError::NotFound));
    assert_eq!(
        tile_coord(TileIndex { z: 31, x: 0, y: 1 << 31 }),
        Err(GalileoError::NotFound)
    );
}

#[test]
fn zoom_past_the_deepest_level_is_not_found() {
    assert_eq!(tile_coord(TileIndex { z: 32, x: 0, y: 0 }), Err(GalileoError::NotFound));
    assert_eq!(tile_coord(TileIndex { z: 255, x: 0, y: 0 }), Err(GalileoError::NotFound));
}

#[test]
fn zoom_above_255_is_not_found_and_not_wrapped() {
    // 256 and 274 would read as zoom 0 and 18 if the zoom were cut to a byte.
    assert_eq!(tile_coord(TileIndex { z: 256, x: 0, y: 0 }), Err(GalileoError::NotFound));
    assert_eq!(
        tile_coord(TileIndex { z: 274, x: 235085, y: 122323 }),
        Err(GalileoError::NotFound)
    );
    assert_eq!(
        tile_coord(TileIndex { z: u32::MAX, x: 0, y: 0 }),
        Err(GalileoError::NotFound)
    );
}

#[test]
fn tile_coord_new_agrees_with_the_archive_format() {
    for (z, x, y) in [(0, 0, 0), (1, 1, 0), (2, 3, 3), (18, 235085, 122323), (31, 0, 0)] {
        let ours = TileCoord::new(z, x, y).map(parts);
        let theirs = pmtiles::TileCoord::new(z, x, y).map(|c| (c.z(), c.x(), c.y()));
        assert_eq!(ours, theirs);
        assert_eq!(ours, Some((z, x, y)));
    }
    for (z, x, y) in [(32, 1, 3), (2, 4, 0), (2, 0, 4), (0, 1, 1), (255, 0, 0)] {
        assert_eq!(TileCoord::new(z, x, y), None);
        assert!(pmtiles::TileCoord::new(z, x, y).is_none());
    }
}

#[test]
fn equal_coords_compare_equal() {
    assert_eq!(TileCoord::new(3, 1, 2), TileCoord::new(3, 1, 2));
    assert_ne!(TileCoord::new(3, 1, 2), TileCoord::new(3, 2, 1));
}

#[test]
fn delivered_bytes_pass_unchanged() {
    let bytes = Bytes::from_static(&[0x1f, 0x8b, 1, 2, 3]);
    assert_eq!(tile_bytes(Ok(Some(bytes.clone()))), Ok(bytes));
    assert_eq!(tile_bytes(Ok(Some(Bytes::new()))), Ok(Bytes::new()));
}

#[test]
fn absent_tile_is_not_found() {
    assert_eq!(tile_bytes(Ok(None)), Err(GalileoError::NotFound));
}

#[test]
fn failed_fetch_is_not_found() {
    assert_eq!(tile_bytes(Err(PmtError::InvalidEntry)), Err(GalileoError::NotFound));
    assert_eq!(
        tile_bytes(Err(PmtError::UnexpectedNumberOfBytesReturned(10, 3))),
        Err(GalileoError::NotFound)
    );
    let io = std::io::Error::new(std::io::ErrorKind::ConnectionReset, "reset");
    assert_eq!(tile_bytes(Err(PmtError::Reading(io))), Err(GalileoError::NotFound));
}
