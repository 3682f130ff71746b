//! Floor carved where the rectangles of a compound room meet.

use vstd::prelude::*;
use crate::geometry::WorldPos;
use crate::materialize::world_coordinate;
use crate::shape::{all_placed, CompoundRoom, CompoundRoomType, RoomRect};
use crate::tile::{RoomTile, RoomTileType, TileLayer, TILE_SIZE};

verus! {

/// The floor tile carved into the grid cell `(cell_x, cell_y)`. It lies on
/// the corridor layer, above the room tiles of that cell.
pub open spec fn corridor_tile(cell_x: int, cell_y: int) -> RoomTile {
    RoomTile {
        tile_type: RoomTileType::Floor,
        position: WorldPos {
            x: world_coordinate(cell_x) as i32,
            y: world_coordinate(cell_y) as i32,
        },
        layer: TileLayer::Corridor,
        door: None,
    }
}

/// The cell where an L-shaped room is opened: the main piece's last column,
/// one row above the extension's origin.
pub open spec fn l_corridor_cell(rectangles: Seq<RoomRect>) -> (int, int) {
    (rectangles[0].x + rectangles[0].width - 1, rectangles[1].y + 1)
}

/// The cell where a T-shaped room is opened: the stem's middle column, on
/// the stem's topmost row.
pub open spec fn t_corridor_cell(rectangles: Seq<RoomRect>) -> (int, int) {
    (rectangles[1].x + rectangles[1].width / 2, rectangles[1].y + rectangles[1].height - 1)
}

/// The cell of the center through which an arm is reached. An arm whose
/// middle column is the center's lies above or below: the cell is on the
/// center's middle column, in its top row for an arm whose middle row is
/// higher, in its bottom row otherwise. Any other arm lies beside: the cell
/// is on the center's middle row, in its last column for an arm whose
/// middle column is further east, in its first column otherwise.
pub open spec fn connection_point(center: RoomRect, arm: RoomRect) -> (int, int) {
    let center_cx = center.x + center.width / 2;
    let center_cy = center.y + center.height / 2;
    let arm_cx = arm.x + arm.width / 2;
    let arm_cy = arm.y + arm.height / 2;
    if arm_cx == center_cx {
        if arm_cy > center_cy {
            (center_cx, center.y + center.height - 1)
        } else {
            (center_cx, center.y as int)
        }
    } else if arm_cx > center_cx {
        (center.x + center.width - 1, center_cy)
    } else {
        (center.x as int, center_cy)
    }
}

/// The corridor tiles of a plus-shaped room for its first `arms` arms, in
/// the order of the arms.
pub open spec fn plus_corridor_tiles(rectangles: Seq<RoomRect>, arms: int) -> Seq<RoomTile> {
    Seq::new(
        arms as nat,
        |i: int|
            {
                let cell = connection_point(rectangles[0], rectangles[i + 1]);
                corridor_tile(cell.0, cell.1)
            },
    )
}

/// The corridor tiles of a room: one for an L or a T of two rectangles,
/// one per arm for a plus of five, none for any other room.
pub open spec fn corridor_tiles(room_type: CompoundRoomType, rectangles: Seq<RoomRect>) -> Seq<
    RoomTile,
> {
    match room_type {
        CompoundRoomType::LShape if rectangles.len() == 2 => {
            let cell = l_corridor_cell(rectangles);
            seq![corridor_tile(cell.0, cell.1)]
        },
        CompoundRoomType::TShape if rectangles.len() == 2 => {
            let cell = t_corridor_cell(rectangles);
            seq![corridor_tile(cell.0, cell.1)]
        },
        CompoundRoomType::Plus if rectangles.len() == 5 => plus_corridor_tiles(rectangles, 4),
        _ => Seq::empty(),
    }
}

/// The floor tile carved into a grid cell.
fn carve(cell_x: i32, cell_y: i32) -> (tile: RoomTile)
    requires
        -40_000 <= cell_x <= 40_000,
        -40_000 <= cell_y <= 40_000,
    ensures
        tile == corridor_tile(cell_x as int, cell_y as int),
{
    RoomTile::plain(
        RoomTileType::Floor,
        WorldPos { x: cell_x * TILE_SIZE, y: cell_y * TILE_SIZE },
        TileLayer::Corridor,
    )
}

/// The cell of `center` through which `arm` is reached.
pub fn get_connection_point(center: &RoomRect, arm: &RoomRect) -> (cell: (i32, i32))
    requires
        center.in_world(),
        center.positive(),
        arm.in_world(),
    ensures
        (cell.0 as int, cell.1 as int) == connection_point(*center, *arm),
        center.contains_cell(cell.0 as int, cell.1 as int),
{
    let center_cx: i32 = center.x + center.width as i32 / 2;
    let center_cy: i32 = center.y + center.height as i32 / 2;
    let arm_cx: i32 = arm.x + arm.width as i32 / 2;
    let arm_cy: i32 = arm.y + arm.height as i32 / 2;
    if arm_cx == center_cx {
        if arm_cy > center_cy {
            (center_cx, center.y + center.height as i32 - 1)
        } else {
            (center_cx, center.y)
        }
    } else if arm_cx > center_cx {
        (center.x + center.width as i32 - 1, center_cy)
    } else {
        (center.x, center_cy)
    }
}

/// The corridor of an L-shaped room: one floor tile, or none if the room
/// does not consist of two rectangles.
pub fn create_l_shape_corridor(rectangles: &Vec<RoomRect>) -> (tile: Option<RoomTile>)
    requires
        all_placed(rectangles@),
    ensures
        tile == if rectangles@.len() == 2 {
            Some(corridor_tile(l_corridor_cell(rectangles@).0, l_corridor_cell(rectangles@).1))
        } else {
            None
        },
{
    if rectangles.len() != 2 {
        return None;
    }
    let main_rect = &rectangles[0];
    let ext_rect = &rectangles[1];
    let corridor_x: i32 = main_rect.x + main_rect.width as i32 - 1;
    let corridor_y: i32 = ext_rect.y + 1;
    Some(carve(corridor_x, corridor_y))
}

/// The corridor of a T-shaped room: one floor tile, or none if the room
/// does not consist of two rectangles.
pub fn create_t_shape_corridor(rectangles: &Vec<RoomRect>) -> (tile: Option<RoomTile>)
    requires
        all_placed(rectangles@),
    ensures
        tile == if rectangles@.len() == 2 {
            Some(corridor_tile(t_corridor_cell(rectangles@).0, t_corridor_cell(rectangles@).1))
        } else {
            None
        },
{
    if rectangles.len() != 2 {
        return None;
    }
    let stem_rect = &rectangles[1];
    let corridor_x: i32 = stem_rect.x + stem_rect.width as i32 / 2;
    let corridor_y: i32 = stem_rect.y + stem_rect.height as i32 - 1;
    Some(carve(corridor_x, corridor_y))
}

/// The corridors of a plus-shaped room: one floor tile per arm, in the
/// order of the arms, or none if the room does not consist of five
/// rectangles.
pub fn create_plus_shape_corridors(rectangles: &Vec<RoomRect>) -> (tiles: Vec<RoomTile>)
    requires
        all_placed(rectangles@),
    ensures
        tiles@ == if rectangles@.len() == 5 {
            plus_corridor_tiles(rectangles@, 4)
        } else {
            Seq::empty()
        },
{
    let mut tiles: Vec<RoomTile> = Vec::new();
    if rectangles.len() != 5 {
        return tiles;
    }
    let center_rect = &rectangles[0];
    let mut arm: usize = 1;
    while arm < 5
        invariant
            rectangles@.len() == 5,
            all_placed(rectangles@),
            *center_rect == rectangles@[0],
            1 <= arm <= 5,
            tiles@ == plus_corridor_tiles(rectangles@, arm - 1),
        decreases 5 - arm,
    {
        let cell = get_connection_point(center_rect, &rectangles[arm]);
        tiles.push(carve(cell.0, cell.1));
        assert(tiles@ =~= plus_corridor_tiles(rectangles@, arm as int));
        arm = arm + 1;
    }
    tiles
}

/// The floor tiles that open the junctions of a room, by its topology.
pub fn generate_corridors(room: &CompoundRoom) -> (tiles: Vec<RoomTile>)
    requires
        all_placed(room.rectangles@),
    ensures
        tiles@ == corridor_tiles(room.room_type, room.rectangles@),
{
    let mut tiles: Vec<RoomTile> = Vec::new();
    if room.rectangles.len() < 2 {
        return tiles;
    }
    match room.room_type {
        CompoundRoomType::LShape => {
            if let Some(tile) = create_l_shape_corridor(&room.rectangles) {
                tiles.push(tile);
            }
        },
        CompoundRoomType::TShape => {
            if let Some(tile) = create_t_shape_corridor(&room.rectangles) {
                tiles.push(tile);
            }
        },
        CompoundRoomType::Plus => {
            tiles = create_plus_shape_corridors(&room.rectangles);
        },
        _ => {},
    }
    assert(tiles@ =~= corridor_tiles(room.room_type, room.rectangles@));
    tiles
}

} // verus!
