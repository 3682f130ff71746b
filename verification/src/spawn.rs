//! Laying out whole rooms: the tiles of every rectangle, then the corridors.

use vstd::prelude::*;
use crate::collision::blocks;
use crate::corridor::{corridor_tile, corridor_tiles, generate_corridors};
use crate::generator::{drawn_room, generate_room, thread_generator};
use crate::geometry::WorldPos;
use crate::materialize::{generate_room_tiles, rect_tile, rect_tiles};
use crate::shape::{all_placed, CompoundRoom, CompoundRoomType, RoomRect};
use crate::spatial::{cell_center_rounds_to_cell, cell_of, floor_wins_without_doors, occupants};
use crate::tile::{RoomTile, RoomTileType};

verus! {

/// The tiles of the first `count` rectangles, one rectangle after another.
pub open spec fn room_tiles(rectangles: Seq<RoomRect>, count: int) -> Seq<RoomTile>
    decreases count,
{
    if count <= 0 {
        Seq::empty()
    } else {
        room_tiles(rectangles, count - 1) + rect_tiles(rectangles[count - 1])
    }
}

/// All tiles of a compound room: each rectangle laid out in full and by
/// itself, in the order of the rectangles, and after them the corridor
/// tiles. Tiles of different rectangles may share a cell.
pub open spec fn compound_tiles(room_type: CompoundRoomType, rectangles: Seq<RoomRect>) -> Seq<
    RoomTile,
> {
    room_tiles(rectangles, rectangles.len() as int) + corridor_tiles(room_type, rectangles)
}

/// A tile of a rectangle lies in the grid cell of its column and row: the
/// rectangle's origin moved by the column, and by the row less one for the
/// outer south strip.
pub proof fn rect_tile_lies_in_its_cell(rect: RoomRect, column: int, row: int)
    requires
        rect.in_world(),
        0 <= column < rect.width,
        0 <= row <= rect.height,
    ensures
        cell_of(rect_tile(rect, column, row).position) == (rect.x + column, rect.y + row - 1),
{
    cell_center_rounds_to_cell(rect.x + column, rect.y + row - 1);
}

/// A corridor tile lies in the grid cell it was carved into.
pub proof fn corridor_tile_lies_in_its_cell(cell_x: int, cell_y: int)
    requires
        -40_000 <= cell_x <= 40_000,
        -40_000 <= cell_y <= 40_000,
    ensures
        cell_of(corridor_tile(cell_x, cell_y).position) == (cell_x, cell_y),
{
    cell_center_rounds_to_cell(cell_x, cell_y);
}

/// A tile that is neither a door nor has one.
pub open spec fn doorless(tile: RoomTile) -> bool {
    tile.door is None && tile.tile_type != RoomTileType::DoorOpen && tile.tile_type
        != RoomTileType::DoorClosed
}

/// Laying out a room places no doors.
pub proof fn compound_tiles_are_doorless(
    room_type: CompoundRoomType,
    rectangles: Seq<RoomRect>,
    i: int,
)
    requires
        0 <= i < compound_tiles(room_type, rectangles).len(),
    ensures
        doorless(compound_tiles(room_type, rectangles)[i]),
{
    let walls = room_tiles(rectangles, rectangles.len() as int);
    if i < walls.len() {
        room_tiles_are_doorless(rectangles, rectangles.len() as int, i);
    }
}

proof fn room_tiles_are_doorless(rectangles: Seq<RoomRect>, count: int, i: int)
    requires
        0 <= i < room_tiles(rectangles, count).len(),
    ensures
        doorless(room_tiles(rectangles, count)[i]),
    decreases count,
{
    if count > 0 {
        let earlier = room_tiles(rectangles, count - 1);
        if i < earlier.len() {
            room_tiles_are_doorless(rectangles, count - 1, i);
        }
    }
}

/// Every corridor opens its cell: in the index built from all tiles of a
/// room, the cell of each corridor tile is held by floor, so that no tile
/// there is ever in the player's way.
pub proof fn corridors_are_open(
    room_type: CompoundRoomType,
    rectangles: Seq<RoomRect>,
    corridor: int,
    player: WorldPos,
)
    requires
        0 <= corridor < corridor_tiles(room_type, rectangles).len(),
    ensures
        occupants(compound_tiles(room_type, rectangles)).contains_key(
            cell_of(corridor_tiles(room_type, rectangles)[corridor].position),
        ),
        compound_tiles(room_type, rectangles)[occupants(
            compound_tiles(room_type, rectangles),
        )[cell_of(corridor_tiles(room_type, rectangles)[corridor].position)]].tile_type
            == RoomTileType::Floor,
        !blocks(
            compound_tiles(room_type, rectangles),
            occupants(compound_tiles(room_type, rectangles))[cell_of(
                corridor_tiles(room_type, rectangles)[corridor].position,
            )],
            player,
        ),
{
    let tiles = compound_tiles(room_type, rectangles);
    let walls = room_tiles(rectangles, rectangles.len() as int);
    let carved = corridor_tiles(room_type, rectangles);
    let at = walls.len() + corridor;
    assert(tiles[at] == carved[corridor]);
    assert(carved[corridor].tile_type == RoomTileType::Floor);
    assert forall|i: int|
        0 <= i < tiles.len() && cell_of(#[trigger] tiles[i].position) == cell_of(
            tiles[at].position,
        ) implies tiles[i].tile_type != RoomTileType::DoorOpen by {
        compound_tiles_are_doorless(room_type, rectangles, i);
    }
    floor_wins_without_doors(tiles, at);
}

/// Lays out a compound room: the tiles of each rectangle, then the floor
/// tiles that open the junctions.
pub fn spawn_compound_room(room: &CompoundRoom) -> (tiles: Vec<RoomTile>)
    requires
        all_placed(room.rectangles@),
    ensures
        tiles@ == compound_tiles(room.room_type, room.rectangles@),
{
    let mut tiles: Vec<RoomTile> = Vec::new();
    let mut i: usize = 0;
    while i < room.rectangles.len()
        invariant
            i <= room.rectangles@.len(),
            all_placed(room.rectangles@),
            tiles@ == room_tiles(room.rectangles@, i as int),
        decreases room.rectangles@.len() - i,
    {
        let rect = &room.rectangles[i];
        let mut piece = generate_room_tiles(rect.width, rect.height, rect.x, rect.y);
        tiles.append(&mut piece);
        i = i + 1;
    }
    let mut carved = generate_corridors(room);
    tiles.append(&mut carved);
    tiles
}

/// A room as it starts: its shape and all its tiles.
#[derive(Debug)]
pub struct SpawnedRoom {
    pub room: CompoundRoom,
    pub tiles: Vec<RoomTile>,
}

/// Draws a room from the calling thread's random generator and lays it
/// out.
pub fn spawn_room() -> (spawned: SpawnedRoom)
    ensures
        drawn_room(spawned.room),
        spawned.room.well_formed(),
        spawned.room.connected(),
        spawned.tiles@ == compound_tiles(spawned.room.room_type, spawned.room.rectangles@),
{
    let mut rng = thread_generator();
    let room = generate_room(&mut rng);
    let tiles = spawn_compound_room(&room);
    SpawnedRoom { room, tiles }
}

/// Number of floor squares along each side of the backdrop grid.
pub const GRID_SIZE: i32 = 20;

/// Position units covered by one square of the backdrop grid: sixty-four
/// world units.
pub const GRID_TILE_SIZE: i32 = 64_000;

/// One square of the checkered backdrop under the room.
#[derive(Clone, Copy, Debug, PartialEq, Eq, Structural)]
pub struct GridTile {
    pub position: WorldPos,
    pub dark: bool,
}

/// The square in the given column and row of the backdrop. The grid is
/// centered on the origin, so square centers lie half a square off the
/// multiples of the square size. Squares whose column and row add up to an
/// even number are dark.
pub open spec fn grid_tile(column: int, row: int) -> GridTile {
    GridTile {
        position: WorldPos {
            x: (column * GRID_TILE_SIZE - (GRID_SIZE * GRID_TILE_SIZE - GRID_TILE_SIZE) / 2) as i32,
            y: (row * GRID_TILE_SIZE - (GRID_SIZE * GRID_TILE_SIZE - GRID_TILE_SIZE) / 2) as i32,
        },
        dark: (column + row) % 2 == 0,
    }
}

/// The backdrop: twenty by twenty squares, column by column.
pub fn spawn_grid() -> (squares: Vec<GridTile>)
    ensures
        squares@.len() == GRID_SIZE * GRID_SIZE,
        forall|column: int, row: int|
            0 <= column < GRID_SIZE && 0 <= row < GRID_SIZE ==> squares@[column * GRID_SIZE + row]
                == #[trigger] grid_tile(column, row),
{
    let mut squares: Vec<GridTile> = Vec::new();
    let mut column: i32 = 0;
    while column < GRID_SIZE
        invariant
            0 <= column <= GRID_SIZE,
            squares@.len() == column * GRID_SIZE,
            forall|c: int, r: int|
                0 <= c < column && 0 <= r < GRID_SIZE ==> squares@[c * GRID_SIZE + r]
                    == #[trigger] grid_tile(c, r),
        decreases GRID_SIZE - column,
    {
        let mut row: i32 = 0;
        while row < GRID_SIZE
            invariant
                0 <= column < GRID_SIZE,
                0 <= row <= GRID_SIZE,
                squares@.len() == column * GRID_SIZE + row,
                forall|c: int, r: int|
                    (0 <= c < column && 0 <= r < GRID_SIZE) || (c == column && 0 <= r < row)
                        ==> squares@[c * GRID_SIZE + r] == #[trigger] grid_tile(c, r),
            decreases GRID_SIZE - row,
        {
            let square = GridTile {
                position: WorldPos {
                    x: column * GRID_TILE_SIZE - 608_000,
                    y: row * GRID_TILE_SIZE - 608_000,
                },
                dark: (column + row) % 2 == 0,
            };
            squares.push(square);
            row = row + 1;
        }
        column = column + 1;
    }
    squares
}

} // verus!
