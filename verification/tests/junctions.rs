use tile_rooms::collision::find_blocking_tile;
use tile_rooms::corridor::get_connection_point;
use tile_rooms::generator::{l_shape_room, plus_shape_room, t_shape_room};
use tile_rooms::geometry::WorldPos;
use tile_rooms::shape::CompoundRoom;
use tile_rooms::spatial::SpatialTileIndex;
use tile_rooms::spawn::spawn_compound_room;
use tile_rooms::tile::{RoomTile, RoomTileType, TileLayer};

fn assert_floor(tiles: &[RoomTile], index: &SpatialTileIndex, cell: (i32, i32)) {
    let holder = index.occupant(cell).expect("the cell is held");
    assert_eq!(tiles[holder].tile_type, RoomTileType::Floor, "cell {:?}", cell);
}

/// Walks the line across a junction in steps of four tenths of a world
/// unit and expects no tile in the way anywhere on it.
fn assert_walkable(room: &CompoundRoom, cell: (i32, i32), upright: bool) {
    let tiles = spawn_compound_room(room);
    let index = SpatialTileIndex::build(&tiles);
    let (before, after) = if upright {
        ((cell.0, cell.1 - 1), (cell.0, cell.1 + 1))
    } else {
        ((cell.0 - 1, cell.1), (cell.0 + 1, cell.1))
    };
    assert_floor(&tiles, &index, before);
    assert_floor(&tiles, &index, cell);
    assert_floor(&tiles, &index, after);
    let carved = tiles.iter().any(|tile| {
        tile.layer == TileLayer::Corridor
            && tile.position == WorldPos { x: cell.0 * 48_000, y: cell.1 * 48_000 }
    });
    assert!(carved, "{:?} has a corridor at {:?}", room, cell);
    for step in (-48_000..=48_000).step_by(400) {
        let player = if upright {
            WorldPos { x: cell.0 * 48_000, y: cell.1 * 48_000 + step }
        } else {
            WorldPos { x: cell.0 * 48_000 + step, y: cell.1 * 48_000 }
        };
        assert_eq!(find_blocking_tile(&tiles, player), None, "{:?} at {:?}", room, player);
    }
}

#[test]
fn every_l_junction_in_range_can_be_walked_through() {
    for main_width in 6..10 {
        for main_height in 8..12 {
            for extension_width in 5..9 {
                for extension_height in 4..7 {
                    let room =
                        l_shape_room(main_width, main_height, extension_width, extension_height);
                    let main = room.rectangles[0];
                    let extension = room.rectangles[1];
                    let cell = (main.x + main.width as i32 - 1, extension.y + 1);
                    assert_walkable(&room, cell, false);
                }
            }
        }
    }
}

#[test]
fn every_t_junction_in_range_can_be_walked_through() {
    for top_width in 10..14 {
        for top_height in 4..6 {
            for stem_width in 4..7 {
                for stem_height in 6..10 {
                    let room = t_shape_room(top_width, top_height, stem_width, stem_height);
                    let stem = room.rectangles[1];
                    let cell =
                        (stem.x + stem.width as i32 / 2, stem.y + stem.height as i32 - 1);
                    assert_walkable(&room, cell, true);
                }
            }
        }
    }
}

#[test]
fn every_plus_junction_in_range_can_be_walked_through() {
    for center_width in 6..8 {
        for center_height in 6..8 {
            for arm_length in 4..7 {
                for arm_width in 3..5 {
                    let room = plus_shape_room(center_width, center_height, arm_length, arm_width);
                    let center = room.rectangles[0];
                    for arm in 0..4 {
                        let cell = get_connection_point(&center, &room.rectangles[arm + 1]);
                        assert_walkable(&room, cell, arm < 2);
                    }
                }
            }
        }
    }
}

#[test]
fn a_wall_beside_the_junction_line_still_pushes() {
    let room = l_shape_room(8, 10, 6, 9);
    let tiles = spawn_compound_room(&room);
    let hit = find_blocking_tile(&tiles, WorldPos { x: 144_000, y: -192_000 + 14_401 });
    let wall = hit.expect("the wall above the corridor is close");
    assert_eq!(tiles[wall].position, WorldPos { x: 144_000, y: -144_000 });
    assert_eq!(find_blocking_tile(&tiles, WorldPos { x: 144_000, y: -192_000 + 14_400 }), None);
}
