//! Doors: toggling the nearest door in reach, routing the interact key,
//! and closing doors the player has left behind.

use vstd::prelude::*;
use crate::collision::nearer_or_first;
use crate::geometry::{
    closer_than, dist_sq, distance_squared, is_closer_than, is_within, within, WorldPos,
};
use crate::push::{push_away, pushed};
use crate::tile::{door_tile_type, Door, RoomTile, RoomTileType, TILE_SIZE, UNIT};

verus! {

/// Ten tiles: a door no further than this from the player can be operated.
pub const INTERACTION_DISTANCE: u32 = 480_000;

/// Fifteen tiles: the distance beyond which an open door closes by itself
/// where automatic closing is switched on.
pub const AUTO_CLOSE_DISTANCE: u32 = 720_000;

/// The distances of doors as multiples of a tile: interaction within ten
/// tiles, automatic closing beyond fifteen, contact with a closed door at
/// four tenths of a tile and two world units of clearance beyond contact.
pub proof fn door_distances_are_multiples_of_a_tile()
    ensures
        INTERACTION_DISTANCE == 10 * TILE_SIZE,
        2 * AUTO_CLOSE_DISTANCE == 30 * TILE_SIZE,
        10 * DOOR_CONTACT == 4 * TILE_SIZE,
        DOOR_CLEARANCE == DOOR_CONTACT + 2 * UNIT,
{
}

/// What the interact key does where the player stands.
#[derive(Clone, Copy, Debug, PartialEq, Eq, Structural)]
pub enum Interaction {
    /// A door is in reach: the key operates a door.
    Door,
    /// No door is in reach: the key is an attack.
    Attack,
}

/// Automatic closing of doors. It is switched off unless asked for.
#[derive(Clone, Copy, Debug, PartialEq, Eq, Structural)]
pub struct DoorConfig {
    pub auto_close: bool,
    pub auto_close_distance: u32,
}

impl Default for DoorConfig {
    fn default() -> (config: DoorConfig)
        ensures
            config == (DoorConfig {
                auto_close: false,
                auto_close_distance: AUTO_CLOSE_DISTANCE,
            }),
    {
        DoorConfig { auto_close: false, auto_close_distance: AUTO_CLOSE_DISTANCE }
    }
}

/// The tile with its door in the given state and its kind showing that
/// state. A tile without a door stays as it is.
pub open spec fn with_door_state(tile: RoomTile, is_open: bool) -> RoomTile {
    match tile.door {
        Some(_) => RoomTile {
            tile_type: door_tile_type(is_open),
            door: Some(Door { is_open }),
            ..tile
        },
        None => tile,
    }
}

/// The tile with its door in the other state.
pub open spec fn toggled(tile: RoomTile) -> RoomTile {
    match tile.door {
        Some(door) => with_door_state(tile, !door.is_open),
        None => tile,
    }
}

/// Tile `i` has a door that the player can reach.
pub open spec fn door_in_reach(tiles: Seq<RoomTile>, i: int, player: WorldPos) -> bool {
    &&& 0 <= i < tiles.len()
    &&& tiles[i].door is Some
    &&& within(player, tiles[i].position, INTERACTION_DISTANCE as int)
}

/// `chosen` is the door that an interaction operates, looking at the first
/// `count` tiles only: the nearest door in reach, the first where several
/// are as near, or nothing where no door is in reach.
pub open spec fn nearest_door_among(
    tiles: Seq<RoomTile>,
    count: int,
    player: WorldPos,
    chosen: Option<usize>,
) -> bool {
    match chosen {
        Some(i) => {
            &&& i < count
            &&& door_in_reach(tiles, i as int, player)
            &&& forall|j: int|
                0 <= j < count && #[trigger] door_in_reach(tiles, j, player)
                    ==> nearer_or_first(tiles, i as int, j, player)
        },
        None => forall|j: int| 0 <= j < count ==> !#[trigger] door_in_reach(tiles, j, player),
    }
}

/// `chosen` is the door that an interaction operates.
pub open spec fn nearest_door(tiles: Seq<RoomTile>, player: WorldPos, chosen: Option<usize>) -> bool {
    nearest_door_among(tiles, tiles.len() as int, player, chosen)
}

/// The tiles after an interaction that chose `chosen`: that door toggled,
/// every other tile as before.
pub open spec fn after_interaction(tiles: Seq<RoomTile>, chosen: Option<usize>) -> Seq<RoomTile> {
    match chosen {
        Some(i) => tiles.update(i as int, toggled(tiles[i as int])),
        None => tiles,
    }
}

/// Every tile's door agrees with the tile's kind.
pub open spec fn doors_consistent(tiles: Seq<RoomTile>) -> bool {
    forall|i: int| 0 <= i < tiles.len() ==> (#[trigger] tiles[i]).door_consistent()
}

/// Toggling leaves a door and its tile in agreement, whatever they were,
/// and toggling twice brings a consistent door tile back.
pub proof fn toggle_keeps_door_and_tile_agreed(tile: RoomTile)
    requires
        tile.door is Some,
    ensures
        toggled(tile).door_consistent(),
        toggled(tile).door->Some_0.is_open == !tile.door->Some_0.is_open,
        toggled(tile).tile_type == RoomTileType::DoorOpen <==> toggled(tile).door->Some_0.is_open,
        toggled(tile).position == tile.position,
        tile.door_consistent() ==> toggled(toggled(tile)) == tile,
{
}

/// One interaction toggles the chosen door and no other tile, and where
/// all doors agreed with their tiles before, they agree after.
pub proof fn interaction_toggles_one_door(
    tiles: Seq<RoomTile>,
    player: WorldPos,
    chosen: Option<usize>,
)
    requires
        nearest_door(tiles, player, chosen),
    ensures
        after_interaction(tiles, chosen).len() == tiles.len(),
        forall|j: int|
            0 <= j < tiles.len() && chosen != Some(j as usize) ==> #[trigger] after_interaction(
                tiles,
                chosen,
            )[j] == tiles[j],
        chosen matches Some(i) ==> after_interaction(tiles, chosen)[i as int].door_consistent()
            && after_interaction(tiles, chosen)[i as int].door->Some_0.is_open
            != tiles[i as int].door->Some_0.is_open,
        doors_consistent(tiles) ==> doors_consistent(after_interaction(tiles, chosen)),
{
    match chosen {
        Some(i) => {
            toggle_keeps_door_and_tile_agreed(tiles[i as int]);
        },
        None => {},
    }
}

/// The door that an interaction at the player's position operates: the
/// nearest door no further away than the interaction distance.
pub fn find_nearest_door(tiles: &Vec<RoomTile>, player: WorldPos) -> (chosen: Option<usize>)
    ensures
        nearest_door(tiles@, player, chosen),
{
    let mut chosen: Option<usize> = None;
    let mut least: u128 = 0;
    let mut i: usize = 0;
    while i < tiles.len()
        invariant
            i <= tiles.len(),
            nearest_door_among(tiles@, i as int, player, chosen),
            chosen matches Some(c) ==> least == dist_sq(player, tiles@[c as int].position),
        decreases tiles.len() - i,
    {
        let tile = &tiles[i];
        if tile.door.is_some() && is_within(player, tile.position, INTERACTION_DISTANCE) {
            assert(door_in_reach(tiles@, i as int, player));
            let gap: u128 = distance_squared(player, tile.position);
            let nearer = match chosen {
                Some(_) => gap < least,
                None => true,
            };
            if nearer {
                chosen = Some(i);
                least = gap;
            }
        } else {
            assert(!door_in_reach(tiles@, i as int, player));
        }
        i = i + 1;
    }
    chosen
}

/// The tile with its door toggled.
pub fn toggle_door(tile: RoomTile) -> (result: RoomTile)
    ensures
        result == toggled(tile),
{
    match tile.door {
        Some(door) => {
            let is_open = !door.is_open;
            let tile_type = if is_open {
                RoomTileType::DoorOpen
            } else {
                RoomTileType::DoorClosed
            };
            RoomTile {
                tile_type,
                position: tile.position,
                layer: tile.layer,
                door: Some(Door { is_open }),
            }
        },
        None => tile,
    }
}

/// Handles one interaction: toggles the nearest door in reach, with its
/// tile's kind, and reports which it was. No other tile changes. Nothing
/// changes where no door is in reach.
pub fn door_interaction_system(tiles: &mut Vec<RoomTile>, player: WorldPos) -> (chosen: Option<
    usize,
>)
    ensures
        nearest_door(old(tiles)@, player, chosen),
        final(tiles)@ == after_interaction(old(tiles)@, chosen),
{
    let chosen = find_nearest_door(tiles, player);
    match chosen {
        Some(i) => {
            let changed = toggle_door(tiles[i]);
            tiles.set(i, changed);
        },
        None => {},
    }
    chosen
}

/// Where the interact key goes: to the doors if any door is in reach of the
/// player, else to the attack.
pub fn route_interaction(tiles: &Vec<RoomTile>, player: WorldPos) -> (target: Interaction)
    ensures
        target == Interaction::Door <==> exists|i: int| door_in_reach(tiles@, i, player),
        target == Interaction::Attack <==> forall|i: int| !door_in_reach(tiles@, i, player),
{
    match find_nearest_door(tiles, player) {
        Some(i) => {
            assert(door_in_reach(tiles@, i as int, player));
            Interaction::Door
        },
        None => Interaction::Attack,
    }
}

/// Tile `i` has an open door that lies further from the player than the
/// configured distance, so that automatic closing shuts it.
pub open spec fn left_behind(tiles: Seq<RoomTile>, i: int, player: WorldPos, config: DoorConfig) -> bool {
    &&& 0 <= i < tiles.len()
    &&& config.auto_close
    &&& tiles[i].door matches Some(door) && door.is_open
    &&& !within(player, tiles[i].position, config.auto_close_distance as int)
}

/// The tiles after automatic closing: each open door left behind is closed
/// with its tile, every other tile is as before.
pub open spec fn after_auto_close(tiles: Seq<RoomTile>, player: WorldPos, config: DoorConfig) -> Seq<
    RoomTile,
> {
    Seq::new(
        tiles.len(),
        |i: int|
            if left_behind(tiles, i, player, config) {
                with_door_state(tiles[i], false)
            } else {
                tiles[i]
            },
    )
}

/// Closes every open door that the player has left further behind than the
/// configured distance. With automatic closing switched off nothing changes.
pub fn auto_close_door_system(tiles: &mut Vec<RoomTile>, player: WorldPos, config: &DoorConfig)
    ensures
        final(tiles)@ == after_auto_close(old(tiles)@, player, *config),
        !config.auto_close ==> final(tiles)@ == old(tiles)@,
        doors_consistent(old(tiles)@) ==> doors_consistent(final(tiles)@),
{
    let ghost before = tiles@;
    if config.auto_close {
        let mut i: usize = 0;
        while i < tiles.len()
            invariant
                config.auto_close,
                i <= tiles.len(),
                tiles@.len() == before.len(),
                forall|j: int|
                    0 <= j < i ==> tiles@[j] == after_auto_close(before, player, *config)[j],
                forall|j: int| i <= j < tiles@.len() ==> tiles@[j] == before[j],
            decreases tiles.len() - i,
        {
            let tile = tiles[i];
            let open = match tile.door {
                Some(door) => door.is_open,
                None => false,
            };
            if open && !is_within(player, tile.position, config.auto_close_distance) {
                let closed = RoomTile {
                    tile_type: RoomTileType::DoorClosed,
                    position: tile.position,
                    layer: tile.layer,
                    door: Some(Door { is_open: false }),
                };
                tiles.set(i, closed);
            }
            i = i + 1;
        }
    }
    assert(tiles@ =~= after_auto_close(before, player, *config));
}

/// Four tenths of a tile: a closed door stops a player who is closer than
/// this.
pub const DOOR_CONTACT: u32 = 19_200;

/// The distance to which a closed door pushes the player: the contact
/// distance and two world units more.
pub const DOOR_CLEARANCE: u32 = 21_200;

/// The player's position after one tile has had its turn: pushed to the
/// door clearance if the tile has a closed door closer than the contact
/// distance, else unmoved.
pub open spec fn after_door(tile: RoomTile, player: WorldPos) -> WorldPos {
    if tile.door matches Some(door) && !door.is_open && closer_than(
        player,
        tile.position,
        DOOR_CONTACT as int,
    ) {
        pushed(tile.position, player, DOOR_CLEARANCE as int)
    } else {
        player
    }
}

/// The player's position after the first `count` tiles have had their turn,
/// each from where the one before left the player.
pub open spec fn after_doors(tiles: Seq<RoomTile>, count: int, player: WorldPos) -> WorldPos
    decreases count,
{
    if count <= 0 {
        player
    } else {
        after_door(tiles[count - 1], after_doors(tiles, count - 1, player))
    }
}

/// Keeps the player out of closed doors: each closed door that is closer
/// than the contact distance to where the player then stands pushes the
/// player away to the door clearance. Open doors push nobody.
pub fn door_collision_system(tiles: &Vec<RoomTile>, player: WorldPos) -> (moved: WorldPos)
    ensures
        moved == after_doors(tiles@, tiles@.len() as int, player),
{
    let mut position = player;
    let mut i: usize = 0;
    while i < tiles.len()
        invariant
            i <= tiles.len(),
            position == after_doors(tiles@, i as int, player),
        decreases tiles.len() - i,
    {
        let tile = &tiles[i];
        let closed = match tile.door {
            Some(door) => !door.is_open,
            None => false,
        };
        if closed && is_closer_than(position, tile.position, DOOR_CONTACT) {
            position = push_away(tile.position, position, DOOR_CLEARANCE);
        }
        i = i + 1;
    }
    position
}

} // verus!
