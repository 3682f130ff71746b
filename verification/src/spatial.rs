//! The spatial tile index: which tile occupies each grid cell.
//!
//! The index is built afresh from all tiles before each collision pass.
//! Tiles are entered in their order. A cell keeps the tile that reached it
//! first, except that a floor tile replaces a wall: floor carved over a
//! wall opens the wall.

use vstd::prelude::*;
use std::collections::HashMap;
use crate::geometry::WorldPos;
use crate::materialize::world_coordinate;
use crate::tile::{is_wall, is_wall_tile, RoomTile, RoomTileType, TILE_SIZE};

verus! {

/// The grid line nearest to a world coordinate. A coordinate halfway
/// between two lines goes to the one further from zero.
pub open spec fn nearest_line(coordinate: int) -> int {
    if coordinate >= 0 {
        (coordinate + TILE_SIZE / 2) / (TILE_SIZE as int)
    } else {
        -((-coordinate + TILE_SIZE / 2) / (TILE_SIZE as int))
    }
}

/// The grid cell that a world position rounds to.
pub open spec fn cell_of(position: WorldPos) -> (int, int) {
    (nearest_line(position.x as int), nearest_line(position.y as int))
}

/// The nearest grid line is at most half a tile away, and the center of a
/// grid line rounds to that line.
pub proof fn nearest_line_is_nearest(coordinate: int, line: int)
    ensures
        -(TILE_SIZE / 2) <= coordinate - world_coordinate(nearest_line(coordinate)) <= TILE_SIZE
            / 2,
        nearest_line(world_coordinate(line)) == line,
{
}

/// A position on the center of a grid cell rounds to that cell.
pub proof fn cell_center_rounds_to_cell(column: int, row: int)
    requires
        -40_000 <= column <= 40_000,
        -40_000 <= row <= 40_000,
    ensures
        cell_of(
            WorldPos { x: world_coordinate(column) as i32, y: world_coordinate(row) as i32 },
        ) == (column, row),
{
}

/// The occupant of every cell after the tiles have been entered in order:
/// a map from grid cell to the index of the tile that holds it. A tile
/// takes a free cell. It takes a held cell only if it is floor and the
/// holder is of a wall kind.
pub open spec fn occupants(tiles: Seq<RoomTile>) -> Map<(int, int), int>
    decreases tiles.len(),
{
    if tiles.len() == 0 {
        Map::empty()
    } else {
        let earlier = occupants(tiles.drop_last());
        let last = tiles.len() - 1;
        let cell = cell_of(tiles[last].position);
        if earlier.contains_key(cell) && !(is_wall(tiles[earlier[cell]].tile_type)
            && tiles[last].tile_type == RoomTileType::Floor) {
            earlier
        } else {
            earlier.insert(cell, last)
        }
    }
}

/// Tile `i` is the occupant of its cell.
pub open spec fn holds_cell(tiles: Seq<RoomTile>, i: int) -> bool {
    &&& 0 <= i < tiles.len()
    &&& occupants(tiles).contains_key(cell_of(tiles[i].position))
    &&& occupants(tiles)[cell_of(tiles[i].position)] == i
}

/// An occupant is one of the tiles and lies in the cell it holds; a cell is
/// held exactly when some tile lies in it.
pub proof fn occupant_lies_in_cell(tiles: Seq<RoomTile>, cell: (int, int))
    ensures
        occupants(tiles).contains_key(cell) ==> 0 <= occupants(tiles)[cell] < tiles.len()
            && cell_of(tiles[occupants(tiles)[cell]].position) == cell,
        occupants(tiles).contains_key(cell) <==> exists|i: int|
            0 <= i < tiles.len() && cell_of(#[trigger] tiles[i].position) == cell,
    decreases tiles.len(),
{
    if tiles.len() > 0 {
        let shorter = tiles.drop_last();
        let last = tiles.len() - 1;
        occupant_lies_in_cell(shorter, cell);
        occupant_lies_in_cell(shorter, cell_of(tiles[last].position));
        if occupants(shorter).contains_key(cell) {
            let i = choose|i: int|
                0 <= i < shorter.len() && cell_of(#[trigger] shorter[i].position) == cell;
            assert(cell_of(tiles[i].position) == cell);
        }
        if exists|i: int| 0 <= i < tiles.len() && cell_of(#[trigger] tiles[i].position) == cell {
            let i = choose|i: int|
                0 <= i < tiles.len() && cell_of(#[trigger] tiles[i].position) == cell;
            if i < last {
                assert(cell_of(shorter[i].position) == cell);
            }
        }
    }
}

/// Floor wins whatever the order: a cell in which a floor tile lies is
/// never held by a tile of a wall kind.
pub proof fn floor_wins(tiles: Seq<RoomTile>, floor: int)
    requires
        0 <= floor < tiles.len(),
        tiles[floor].tile_type == RoomTileType::Floor,
    ensures
        occupants(tiles).contains_key(cell_of(tiles[floor].position)),
        !is_wall(tiles[occupants(tiles)[cell_of(tiles[floor].position)]].tile_type),
    decreases tiles.len(),
{
    let shorter = tiles.drop_last();
    let last = tiles.len() - 1;
    let cell = cell_of(tiles[floor].position);
    if floor < last {
        floor_wins(shorter, floor);
        occupant_lies_in_cell(shorter, cell);
    } else {
        occupant_lies_in_cell(shorter, cell);
    }
}

/// Where no open door lies in the cell of a floor tile, that cell is held
/// by floor.
pub proof fn floor_wins_without_doors(tiles: Seq<RoomTile>, floor: int)
    requires
        0 <= floor < tiles.len(),
        tiles[floor].tile_type == RoomTileType::Floor,
        forall|i: int|
            0 <= i < tiles.len() && cell_of(#[trigger] tiles[i].position) == cell_of(
                tiles[floor].position,
            ) ==> tiles[i].tile_type != RoomTileType::DoorOpen,
    ensures
        occupants(tiles).contains_key(cell_of(tiles[floor].position)),
        tiles[occupants(tiles)[cell_of(tiles[floor].position)]].tile_type == RoomTileType::Floor,
{
    floor_wins(tiles, floor);
    occupant_lies_in_cell(tiles, cell_of(tiles[floor].position));
}

/// A wall tile and a floor tile in one cell leave the cell to the floor
/// tile, whichever of the two is entered first.
pub proof fn floor_wins_either_order(wall: RoomTile, floor: RoomTile)
    requires
        is_wall(wall.tile_type),
        floor.tile_type == RoomTileType::Floor,
        cell_of(wall.position) == cell_of(floor.position),
    ensures
        occupants(seq![wall, floor])[cell_of(floor.position)] == 1,
        occupants(seq![floor, wall])[cell_of(floor.position)] == 0,
        seq![wall, floor][occupants(seq![wall, floor])[cell_of(floor.position)]] == floor,
        seq![floor, wall][occupants(seq![floor, wall])[cell_of(floor.position)]] == floor,
{
    let cell = cell_of(floor.position);
    let wall_first = seq![wall, floor];
    let floor_first = seq![floor, wall];
    reveal_with_fuel(occupants, 3);
    assert(occupants(Seq::<RoomTile>::empty()) =~= Map::<(int, int), int>::empty());
    assert(wall_first.drop_last() =~= seq![wall]);
    assert(floor_first.drop_last() =~= seq![floor]);
    assert(seq![wall].drop_last() =~= Seq::<RoomTile>::empty());
    assert(seq![floor].drop_last() =~= Seq::<RoomTile>::empty());
    assert(occupants(seq![wall]) =~= Map::<(int, int), int>::empty().insert(cell, 0));
    assert(occupants(seq![floor]) =~= Map::<(int, int), int>::empty().insert(cell, 0));
    assert(occupants(wall_first)[cell] == 1);
    assert(occupants(floor_first)[cell] == 0);
}

/// Among tiles of wall kinds the first wins: a cell in which neither floor
/// nor an open door lies is held by the first tile that lies in it.
pub proof fn first_wall_wins(tiles: Seq<RoomTile>, first: int)
    requires
        0 <= first < tiles.len(),
        forall|i: int|
            0 <= i < tiles.len() && cell_of(#[trigger] tiles[i].position) == cell_of(
                tiles[first].position,
            ) ==> first <= i && is_wall(tiles[i].tile_type),
    ensures
        holds_cell(tiles, first),
    decreases tiles.len(),
{
    let shorter = tiles.drop_last();
    let last = tiles.len() - 1;
    let cell = cell_of(tiles[first].position);
    occupant_lies_in_cell(shorter, cell);
    if first < last {
        assert forall|i: int|
            0 <= i < shorter.len() && cell_of(#[trigger] shorter[i].position) == cell_of(
                shorter[first].position,
            ) implies first <= i && is_wall(shorter[i].tile_type) by {
            assert(cell_of(tiles[i].position) == cell);
        }
        first_wall_wins(shorter, first);
    } else {
        if occupants(shorter).contains_key(cell) {
            let i = occupants(shorter)[cell];
            assert(cell_of(tiles[i].position) == cell);
        }
    }
}

/// The cell has coordinates that grid lines of world positions can have.
pub open spec fn in_grid(cell: (int, int)) -> bool {
    i32::MIN <= cell.0 <= i32::MAX && i32::MIN <= cell.1 <= i32::MAX
}

/// The number under which a cell is filed: its two coordinates, each
/// shifted to be non-negative, side by side in one 64-bit number.
pub open spec fn cell_key(cell: (int, int)) -> int {
    (cell.0 + 0x8000_0000) * 0x1_0000_0000 + (cell.1 + 0x8000_0000)
}

/// Different cells are filed under different numbers.
pub proof fn cell_keys_differ(a: (int, int), b: (int, int))
    requires
        in_grid(a),
        in_grid(b),
        a != b,
    ensures
        cell_key(a) != cell_key(b),
        0 <= cell_key(a) <= u64::MAX,
{
}

/// The slot table files, under the key of `cell`, exactly what `held` says
/// of that cell.
pub open spec fn slot_matches(
    slots: Map<u64, usize>,
    held: Map<(int, int), int>,
    cell: (int, int),
) -> bool {
    &&& slots.contains_key(cell_key(cell) as u64) <==> held.contains_key(cell)
    &&& held.contains_key(cell) ==> slots[cell_key(cell) as u64] == held[cell]
}

/// The grid line nearest to a world coordinate.
fn grid_line(coordinate: i32) -> (line: i32)
    ensures
        line == nearest_line(coordinate as int),
{
    let wide: i64 = coordinate as i64;
    if wide >= 0 {
        ((wide + 24_000) / 48_000) as i32
    } else {
        (-((-wide + 24_000) / 48_000)) as i32
    }
}

/// The grid cell that a world position rounds to.
pub fn grid_cell(position: WorldPos) -> (cell: (i32, i32))
    ensures
        (cell.0 as int, cell.1 as int) == cell_of(position),
{
    (grid_line(position.x), grid_line(position.y))
}

/// The number under which a cell is filed.
fn key_of(cell: (i32, i32)) -> (key: u64)
    ensures
        key == cell_key((cell.0 as int, cell.1 as int)),
{
    let column: u64 = (cell.0 as i64 + 0x8000_0000) as u64;
    let row: u64 = (cell.1 as i64 + 0x8000_0000) as u64;
    column * 0x1_0000_0000 + row
}

/// A lookup table from grid cell to the tile that occupies it.
pub struct SpatialTileIndex {
    slots: HashMap<u64, usize>,
}

impl View for SpatialTileIndex {
    type V = Map<(int, int), int>;

    /// The index as a map from grid cell to the position of the occupying
    /// tile in the tile list it was built from.
    closed spec fn view(&self) -> Map<(int, int), int> {
        Map::new(
            |cell: (int, int)| in_grid(cell) && self.slots@.contains_key(cell_key(cell) as u64),
            |cell: (int, int)| self.slots@[cell_key(cell) as u64] as int,
        )
    }
}

impl SpatialTileIndex {
    /// Builds the index of the given tiles, entering them in order.
    pub fn build(tiles: &Vec<RoomTile>) -> (index: SpatialTileIndex)
        ensures
            index@ == occupants(tiles@),
    {
        let mut slots: HashMap<u64, usize> = HashMap::new();
        let mut i: usize = 0;
        while i < tiles.len()
            invariant
                i <= tiles.len(),
                forall|cell: (int, int)|
                    in_grid(cell) ==> #[trigger] slot_matches(
                        slots@,
                        occupants(tiles@.take(i as int)),
                        cell,
                    ),
            decreases tiles.len() - i,
        {
            let ghost before = tiles@.take(i as int);
            let ghost after = tiles@.take(i + 1);
            let ghost old_slots = slots@;
            let tile = &tiles[i];
            let cell = grid_cell(tile.position);
            let key: u64 = key_of(cell);
            let ghost here = (cell.0 as int, cell.1 as int);
            proof {
                assert(after.drop_last() =~= before);
                assert(after[i as int] == tiles@[i as int]);
                assert(slot_matches(old_slots, occupants(before), here));
                occupant_lies_in_cell(before, here);
            }
            let replace = match slots.get(&key) {
                Some(holder) => is_wall_tile(&tiles[*holder].tile_type) && tile.tile_type
                    == RoomTileType::Floor,
                None => true,
            };
            if replace {
                slots.insert(key, i);
            }
            proof {
                assert forall|other: (int, int)| in_grid(other) implies #[trigger] slot_matches(
                    slots@,
                    occupants(after),
                    other,
                ) by {
                    assert(slot_matches(old_slots, occupants(before), other));
                    if other != here {
                        cell_keys_differ(other, here);
                    }
                }
            }
            i = i + 1;
        }
        let index = SpatialTileIndex { slots };
        proof {
            assert(tiles@.take(tiles@.len() as int) =~= tiles@);
            assert forall|cell: (int, int)|
                occupants(tiles@).contains_key(cell) implies in_grid(cell) by {
                occupant_lies_in_cell(tiles@, cell);
            }
            assert forall|cell: (int, int)| index@.contains_key(cell) <==> occupants(
                tiles@,
            ).contains_key(cell) by {
                if in_grid(cell) {
                    assert(slot_matches(index.slots@, occupants(tiles@), cell));
                }
            }
            assert forall|cell: (int, int)| index@.contains_key(cell) implies index@[cell]
                == occupants(tiles@)[cell] by {
                assert(slot_matches(index.slots@, occupants(tiles@), cell));
            }
            assert(index@ =~= occupants(tiles@));
        }
        index
    }

    /// The tile that occupies the cell, if any does.
    pub fn occupant(&self, cell: (i32, i32)) -> (held: Option<usize>)
        ensures
            held == if self@.contains_key((cell.0 as int, cell.1 as int)) {
                Some(self@[(cell.0 as int, cell.1 as int)] as usize)
            } else {
                None
            },
            held is Some <==> self@.contains_key((cell.0 as int, cell.1 as int)),
            held matches Some(i) ==> i == self@[(cell.0 as int, cell.1 as int)],
    {
        let key: u64 = key_of(cell);
        match self.slots.get(&key) {
            Some(holder) => Some(*holder),
            None => None,
        }
    }

    /// The tile that occupies the cell a world position rounds to, if any
    /// does.
    pub fn occupant_at(&self, position: WorldPos) -> (held: Option<usize>)
        ensures
            held is Some <==> self@.contains_key(cell_of(position)),
            held matches Some(i) ==> i == self@[cell_of(position)],
    {
        self.occupant(grid_cell(position))
    }
}

} // verus!
