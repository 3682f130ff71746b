use tile_rooms::corridor::{
    create_l_shape_corridor, create_plus_shape_corridors, create_t_shape_corridor,
    generate_corridors, get_connection_point,
};
use tile_rooms::generator::{l_shape_room, plus_shape_room, rectangle_room, t_shape_room};
use tile_rooms::geometry::WorldPos;
use tile_rooms::materialize::{classify_tile, generate_room_tiles};
use tile_rooms::shape::{CompoundRoom, CompoundRoomType, RoomRect};
use tile_rooms::spawn::{spawn_compound_room, spawn_room};
use tile_rooms::tile::{is_wall_tile, RoomTile, RoomTileType, TileLayer, TILE_SIZE};

/// The carved floor tile at the given point in whole world units.
fn floor_at(x: i32, y: i32) -> RoomTile {
    RoomTile {
        tile_type: RoomTileType::Floor,
        position: WorldPos { x: x * 1000, y: y * 1000 },
        layer: TileLayer::Corridor,
        door: None,
    }
}

#[test]
fn a_rectangle_yields_width_times_height_plus_one_tiles() {
    for (width, height) in [(1usize, 1usize), (2, 1), (8, 6), (14, 9), (3, 0), (0, 4)] {
        let tiles = generate_room_tiles(width, height, -3, 2);
        assert_eq!(tiles.len(), width * (height + 1));
    }
}

#[test]
fn corners_and_caps_have_their_kinds() {
    for width in 2..9usize {
        for height in 1..7usize {
            let tiles = generate_room_tiles(width, height, 0, 0);
            let at = |column: usize, row: usize| tiles[row * width + column].tile_type;
            assert_eq!(at(0, height), RoomTileType::WallNInnerCornerW);
            assert_eq!(at(width - 1, height), RoomTileType::WallNInnerCornerE);
            assert_eq!(at(0, 0), RoomTileType::WallSOuterCapL);
            assert_eq!(at(width - 1, 0), RoomTileType::WallSOuterCapR);
            if height >= 2 {
                assert_eq!(at(0, 1), RoomTileType::WallSInnerCapL);
                assert_eq!(at(width - 1, 1), RoomTileType::WallSInnerCapR);
            }
        }
    }
}

#[test]
fn every_tile_of_a_small_room_has_its_kind() {
    let tiles = generate_room_tiles(4, 4, 0, 0);
    let kinds: Vec<RoomTileType> = tiles.iter().map(|tile| tile.tile_type).collect();
    assert_eq!(
        kinds,
        vec![
            RoomTileType::WallSOuterCapL, RoomTileType::WallSOuterMid, RoomTileType::WallSOuterMid, RoomTileType::WallSOuterCapR,
            RoomTileType::WallSInnerCapL, RoomTileType::WallSInnerMid, RoomTileType::WallSInnerMid, RoomTileType::WallSInnerCapR,
            RoomTileType::WallWSide, RoomTileType::Floor, RoomTileType::Floor, RoomTileType::WallESide,
            RoomTileType::WallWSide, RoomTileType::Floor, RoomTileType::Floor, RoomTileType::WallESide,
            RoomTileType::WallNInnerCornerW, RoomTileType::WallNInnerMid, RoomTileType::WallNInnerMid, RoomTileType::WallNInnerCornerE,
        ]
    );
}

#[test]
fn the_north_row_wins_in_a_room_one_high() {
    let tiles = generate_room_tiles(3, 1, 0, 0);
    assert_eq!(tiles[3].tile_type, RoomTileType::WallNInnerCornerW);
    assert_eq!(tiles[4].tile_type, RoomTileType::WallNInnerMid);
    assert_eq!(tiles[5].tile_type, RoomTileType::WallNInnerCornerE);
    assert_eq!(classify_tile(1, 3, 0, 2), RoomTileType::WallWSide);
    assert_eq!(classify_tile(5, 5, 2, 3), RoomTileType::Floor);
    assert_eq!(classify_tile(5, 5, 4, 3), RoomTileType::WallESide);
}

#[test]
fn tiles_stand_on_the_grid_one_row_below_the_origin() {
    let tiles = generate_room_tiles(3, 2, -4, 5);
    assert_eq!(TILE_SIZE, 48_000);
    assert_eq!(tiles[0].position, WorldPos { x: -192_000, y: 192_000 });
    assert_eq!(tiles[1].position, WorldPos { x: -144_000, y: 192_000 });
    assert_eq!(tiles[2].position, WorldPos { x: -96_000, y: 192_000 });
    assert_eq!(tiles[3].position, WorldPos { x: -192_000, y: 240_000 });
    assert_eq!(tiles[8].position, WorldPos { x: -96_000, y: 288_000 });
    for tile in &tiles {
        assert_eq!(tile.layer, TileLayer::Room);
        assert_eq!(tile.door, None);
    }
}

#[test]
fn wall_kinds_are_all_but_floor_and_open_door() {
    assert!(!is_wall_tile(&RoomTileType::Floor));
    assert!(!is_wall_tile(&RoomTileType::DoorOpen));
    for kind in [
        RoomTileType::WallNInnerCornerW, RoomTileType::WallNInnerMid, RoomTileType::WallNInnerCornerE, RoomTileType::WallSInnerCapL, RoomTileType::WallSInnerMid,
        RoomTileType::WallSInnerCapR, RoomTileType::WallSOuterCapL, RoomTileType::WallSOuterMid, RoomTileType::WallSOuterCapR, RoomTileType::WallWSide, RoomTileType::WallESide,
        RoomTileType::DoorClosed,
    ] {
        assert!(is_wall_tile(&kind));
    }
}

#[test]
fn l_corridor_lies_on_the_main_piece_last_column() {
    let room = l_shape_room(8, 10, 6, 9);
    assert_eq!(create_l_shape_corridor(&room.rectangles), Some(floor_at(3 * 48, -4 * 48)));
    assert_eq!(generate_corridors(&room), vec![floor_at(144, -192)]);
    let single = rectangle_room(8, 6);
    assert_eq!(create_l_shape_corridor(&single.rectangles), None);
}

#[test]
fn t_corridor_lies_on_top_of_the_stem() {
    let room = t_shape_room(10, 4, 4, 6);
    assert_eq!(create_t_shape_corridor(&room.rectangles), Some(floor_at(0, 2 * 48)));
    let odd = t_shape_room(13, 5, 5, 9);
    assert_eq!(create_t_shape_corridor(&odd.rectangles), Some(floor_at(0, 4 * 48)));
    assert_eq!(generate_corridors(&odd), vec![floor_at(0, 192)]);
    let plus = plus_shape_room(6, 6, 4, 3);
    assert_eq!(create_t_shape_corridor(&plus.rectangles), None);
}

#[test]
fn plus_corridors_face_each_arm() {
    let room = plus_shape_room(6, 6, 4, 3);
    let center = room.rectangles[0];
    assert_eq!(get_connection_point(&center, &room.rectangles[1]), (0, 2));
    assert_eq!(get_connection_point(&center, &room.rectangles[2]), (0, -3));
    assert_eq!(get_connection_point(&center, &room.rectangles[3]), (-3, 0));
    assert_eq!(get_connection_point(&center, &room.rectangles[4]), (2, 0));
    assert_eq!(
        create_plus_shape_corridors(&room.rectangles),
        vec![floor_at(0, 96), floor_at(0, -144), floor_at(-144, 0), floor_at(96, 0)]
    );
    assert_eq!(generate_corridors(&room).len(), 4);
    let pair = l_shape_room(8, 10, 6, 9);
    assert!(create_plus_shape_corridors(&pair.rectangles).is_empty());
}

#[test]
fn rooms_of_other_kinds_get_no_corridor() {
    assert!(generate_corridors(&rectangle_room(9, 7)).is_empty());
    let custom = CompoundRoom {
        rectangles: vec![
            RoomRect { x: 0, y: 0, width: 4, height: 4 },
            RoomRect { x: 3, y: 0, width: 4, height: 4 },
        ],
        room_type: CompoundRoomType::Custom,
    };
    assert!(generate_corridors(&custom).is_empty());
    let mismatched = CompoundRoom {
        rectangles: vec![
            RoomRect { x: 0, y: 0, width: 4, height: 4 },
            RoomRect { x: 3, y: 0, width: 4, height: 4 },
            RoomRect { x: 6, y: 0, width: 4, height: 4 },
        ],
        room_type: CompoundRoomType::LShape,
    };
    assert!(generate_corridors(&mismatched).is_empty());
}

#[test]
fn a_compound_room_is_its_rectangles_then_its_corridors() {
    let room = l_shape_room(8, 10, 6, 9);
    let tiles = spawn_compound_room(&room);
    let main = generate_room_tiles(8, 10, -4, -5);
    let extension = generate_room_tiles(7, 9, 3, -5);
    assert_eq!(tiles.len(), 8 * 11 + 7 * 10 + 1);
    assert_eq!(&tiles[..main.len()], &main[..]);
    assert_eq!(&tiles[main.len()..main.len() + extension.len()], &extension[..]);
    assert_eq!(tiles[tiles.len() - 1], floor_at(144, -192));
}

#[test]
fn a_spawned_room_is_laid_out_in_full() {
    for _ in 0..50 {
        let spawned = spawn_room();
        let mut expected = 0;
        for piece in &spawned.room.rectangles {
            expected += piece.width * (piece.height + 1);
        }
        expected += match spawned.room.room_type {
            CompoundRoomType::Rectangle => 0,
            CompoundRoomType::LShape | CompoundRoomType::TShape => 1,
            CompoundRoomType::Plus => 4,
            CompoundRoomType::Custom => panic!("never drawn"),
        };
        assert_eq!(spawned.tiles.len(), expected);
        assert_eq!(spawned.tiles, spawn_compound_room(&spawned.room));
    }
}
