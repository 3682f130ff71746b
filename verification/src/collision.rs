//! Collision lookup: which solid tile, if any, the player has run into.

use vstd::prelude::*;
use crate::geometry::{closer_than, dist_sq, distance_squared, is_closer_than, WorldPos};
use crate::push::{has_room_around, push_away, push_moves_straight_away, pushed};
use crate::spatial::{holds_cell, occupants, SpatialTileIndex};
use crate::tile::{RoomTile, TILE_SIZE, UNIT};

verus! {

/// Seven tenths of a tile: the player collides with a solid tile whose
/// center is closer than this.
pub const COLLISION_THRESHOLD: u32 = 33_600;

/// The distance from a tile's center to which a collision moves the
/// player: the threshold and one world unit more.
pub const SAFE_DISTANCE: u32 = 34_600;

/// The distances of the collision passes as fractions of a tile: contact
/// at seven tenths of a tile in the pass that uses the index, at forty-five
/// hundredths in the pass that takes every wall, and one world unit of
/// clearance beyond contact in both.
pub proof fn collision_distances_are_fractions_of_a_tile()
    ensures
        10 * COLLISION_THRESHOLD == 7 * TILE_SIZE,
        SAFE_DISTANCE == COLLISION_THRESHOLD + UNIT,
        100 * WALL_CONTACT == 45 * TILE_SIZE,
        WALL_CLEARANCE == WALL_CONTACT + UNIT,
{
}

/// Tile `i` is in the player's way: it holds its cell, it is solid, and its
/// center is closer to the player than the collision threshold.
pub open spec fn blocks(tiles: Seq<RoomTile>, i: int, player: WorldPos) -> bool {
    &&& holds_cell(tiles, i)
    &&& tiles[i].solid()
    &&& closer_than(player, tiles[i].position, COLLISION_THRESHOLD as int)
}

/// Tile `i` is nearer to the player than tile `j`, or as near and not
/// later in the list.
pub open spec fn nearer_or_first(tiles: Seq<RoomTile>, i: int, j: int, player: WorldPos) -> bool {
    dist_sq(player, tiles[i].position) < dist_sq(player, tiles[j].position) || (dist_sq(
        player,
        tiles[i].position,
    ) == dist_sq(player, tiles[j].position) && i <= j)
}

/// `hit` is the answer among the first `count` tiles: the nearest of those
/// in the player's way, the first of them where several are as near, or
/// nothing where none is in the way.
pub open spec fn nearest_blocker_among(
    tiles: Seq<RoomTile>,
    count: int,
    player: WorldPos,
    hit: Option<usize>,
) -> bool {
    match hit {
        Some(i) => {
            &&& i < count
            &&& blocks(tiles, i as int, player)
            &&& forall|j: int|
                0 <= j < count && #[trigger] blocks(tiles, j, player) ==> nearer_or_first(
                    tiles,
                    i as int,
                    j,
                    player,
                )
        },
        None => forall|j: int| 0 <= j < count ==> !#[trigger] blocks(tiles, j, player),
    }
}

/// The tile that the player collides with in this pass, if any: the nearest
/// solid occupant of a cell that is closer than the collision threshold.
pub open spec fn nearest_blocker(tiles: Seq<RoomTile>, player: WorldPos, hit: Option<usize>) -> bool {
    nearest_blocker_among(tiles, tiles.len() as int, player, hit)
}

/// There is one answer only.
pub proof fn nearest_blocker_is_unique(
    tiles: Seq<RoomTile>,
    player: WorldPos,
    first: Option<usize>,
    second: Option<usize>,
)
    requires
        nearest_blocker(tiles, player, first),
        nearest_blocker(tiles, player, second),
    ensures
        first == second,
{
    match (first, second) {
        (Some(i), Some(j)) => {
            assert(nearer_or_first(tiles, i as int, j as int, player));
            assert(nearer_or_first(tiles, j as int, i as int, player));
        },
        (Some(i), None) => {
            assert(!blocks(tiles, i as int, player));
        },
        (None, Some(j)) => {
            assert(!blocks(tiles, j as int, player));
        },
        (None, None) => {},
    }
}

/// A floor tile never stops the player, and neither does a tile whose door
/// is open, however close: such a tile is not solid.
pub proof fn open_cells_do_not_block(tiles: Seq<RoomTile>, i: int, player: WorldPos)
    requires
        0 <= i < tiles.len(),
        !tiles[i].solid(),
    ensures
        !blocks(tiles, i, player),
{
}

/// Looks for the tile that the player collides with. The index of occupied
/// cells is built from the tiles as they are now; the result is the nearest
/// solid occupant closer to the player than the threshold, or nothing.
pub fn find_blocking_tile(tiles: &Vec<RoomTile>, player: WorldPos) -> (hit: Option<usize>)
    ensures
        nearest_blocker(tiles@, player, hit),
{
    let index = SpatialTileIndex::build(tiles);
    let mut hit: Option<usize> = None;
    let mut least: u128 = 0;
    let mut i: usize = 0;
    while i < tiles.len()
        invariant
            i <= tiles.len(),
            index@ == occupants(tiles@),
            nearest_blocker_among(tiles@, i as int, player, hit),
            hit matches Some(b) ==> least == dist_sq(player, tiles@[b as int].position),
        decreases tiles.len() - i,
    {
        let tile = &tiles[i];
        let holder = index.occupant_at(tile.position);
        let holds = match holder {
            Some(h) => h == i,
            None => false,
        };
        if holds && tile.is_solid() && is_closer_than(
            player,
            tile.position,
            COLLISION_THRESHOLD,
        ) {
            assert(blocks(tiles@, i as int, player));
            let gap: u128 = distance_squared(player, tile.position);
            let nearer = match hit {
                Some(_) => gap < least,
                None => true,
            };
            if nearer {
                hit = Some(i);
                least = gap;
            }
        } else {
            assert(!blocks(tiles@, i as int, player));
        }
        i = i + 1;
    }
    hit
}

/// The outcome of a collision pass: the tile that was in the way, if one
/// was, and where the player stands after the pass.
#[derive(Clone, Copy, Debug, PartialEq, Eq, Structural)]
pub struct Resolution {
    pub tile: Option<usize>,
    pub position: WorldPos,
}

/// Where the player stands after a pass that found `hit` in the way:
/// pushed away from that tile's center to the safe distance, or unmoved if
/// nothing was in the way.
pub open spec fn resolved(tiles: Seq<RoomTile>, player: WorldPos, hit: Option<usize>) -> WorldPos {
    match hit {
        Some(i) => pushed(tiles[i as int].position, player, SAFE_DISTANCE as int),
        None => player,
    }
}

/// After a collision the player stands at the safe distance from the
/// tile's center, to within one thousandth of a world unit, on the side
/// they stood on, and so is clear of the tile. A player who stood exactly
/// on the center is left there.
pub proof fn collision_clears_the_tile(tiles: Seq<RoomTile>, player: WorldPos, i: usize)
    requires
        blocks(tiles, i as int, player),
    ensures
        player == tiles[i as int].position ==> resolved(tiles, player, Some(i)) == player,
        player != tiles[i as int].position && has_room_around(
            tiles[i as int].position,
            SAFE_DISTANCE as int,
        ) ==> {
            &&& (SAFE_DISTANCE - 1) * (SAFE_DISTANCE - 1) <= dist_sq(
                resolved(tiles, player, Some(i)),
                tiles[i as int].position,
            ) <= (SAFE_DISTANCE + 1) * (SAFE_DISTANCE + 1)
            &&& !closer_than(
                resolved(tiles, player, Some(i)),
                tiles[i as int].position,
                COLLISION_THRESHOLD as int,
            )
        },
        player.x >= tiles[i as int].position.x ==> resolved(tiles, player, Some(i)).x
            >= tiles[i as int].position.x,
        player.x <= tiles[i as int].position.x ==> resolved(tiles, player, Some(i)).x
            <= tiles[i as int].position.x,
        player.y >= tiles[i as int].position.y ==> resolved(tiles, player, Some(i)).y
            >= tiles[i as int].position.y,
        player.y <= tiles[i as int].position.y ==> resolved(tiles, player, Some(i)).y
            <= tiles[i as int].position.y,
{
    push_moves_straight_away(tiles[i as int].position, player, SAFE_DISTANCE as int);
}

/// One collision pass: if a solid tile is in the player's way, the nearest
/// such tile pushes the player straight away from its center to the safe
/// distance. At most one collision is resolved in a pass.
pub fn simple_wall_collision_system(tiles: &Vec<RoomTile>, player: WorldPos) -> (outcome:
    Resolution)
    ensures
        nearest_blocker(tiles@, player, outcome.tile),
        outcome.position == resolved(tiles@, player, outcome.tile),
{
    let hit = find_blocking_tile(tiles, player);
    let position = match hit {
        Some(i) => push_away(tiles[i].position, player, SAFE_DISTANCE),
        None => player,
    };
    Resolution { tile: hit, position }
}

/// Forty-five hundredths of a tile: the contact distance of the pass that
/// takes every wall in turn.
pub const WALL_CONTACT: u32 = 21_600;

/// The distance to which that pass pushes: the contact distance and one
/// world unit more.
pub const WALL_CLEARANCE: u32 = 22_600;

/// The player's position after one tile has had its turn: pushed to the
/// clearance if the tile is solid and closer than the contact distance,
/// else unmoved.
pub open spec fn after_wall(tile: RoomTile, player: WorldPos) -> WorldPos {
    if tile.solid() && closer_than(player, tile.position, WALL_CONTACT as int) {
        pushed(tile.position, player, WALL_CLEARANCE as int)
    } else {
        player
    }
}

/// The player's position after the first `count` tiles have had their turn,
/// each from where the one before left the player.
pub open spec fn after_walls(tiles: Seq<RoomTile>, count: int, player: WorldPos) -> WorldPos
    decreases count,
{
    if count <= 0 {
        player
    } else {
        after_wall(tiles[count - 1], after_walls(tiles, count - 1, player))
    }
}

/// The pass that takes every tile in turn, without an index of cells: each
/// solid tile that is closer than the contact distance to where the player
/// then stands pushes the player away to the clearance.
pub fn wall_collision_system(tiles: &Vec<RoomTile>, player: WorldPos) -> (moved: WorldPos)
    ensures
        moved == after_walls(tiles@, tiles@.len() as int, player),
{
    let mut position = player;
    let mut i: usize = 0;
    while i < tiles.len()
        invariant
            i <= tiles.len(),
            position == after_walls(tiles@, i as int, player),
        decreases tiles.len() - i,
    {
        let tile = &tiles[i];
        if tile.is_solid() && is_closer_than(position, tile.position, WALL_CONTACT) {
            position = push_away(tile.position, position, WALL_CLEARANCE);
        }
        i = i + 1;
    }
    position
}

} // verus!
