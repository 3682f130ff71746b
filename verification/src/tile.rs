//! Tiles, their kinds, and the doors attached to them.

use vstd::prelude::*;
use crate::geometry::WorldPos;

verus! {

/// Side of one tile of room art, in art pixels.
pub const ROOM_TILE_SIZE: i32 = 16;

/// Scale at which room art and the player are drawn.
pub const PLAYER_SCALE: i32 = 3;

/// Position units in one world unit. Positions are held in thousandths of a
/// world unit, fine enough to carry every distance of the rules.
pub const UNIT: i32 = 1000;

/// Position units covered by one tile: the art size times the scale, in
/// thousandths of a world unit.
pub const TILE_SIZE: i32 = 48_000;

/// A tile covers its art at the drawing scale.
pub proof fn tile_size_is_scaled_art()
    ensures
        TILE_SIZE == ROOM_TILE_SIZE * PLAYER_SCALE * UNIT,
{
}

/// What occupies a grid cell.
#[derive(Clone, Copy, Debug, PartialEq, Eq, Structural)]
pub enum RoomTileType {
    Floor,
    WallNInnerCornerW,
    WallNInnerMid,
    WallNInnerCornerE,
    WallSInnerCapL,
    WallSInnerMid,
    WallSInnerCapR,
    WallSOuterCapL,
    WallSOuterMid,
    WallSOuterCapR,
    WallWSide,
    WallESide,
    DoorClosed,
    DoorOpen,
}

/// Drawing layer of a tile. Carved corridor floor lies above room tiles.
#[derive(Clone, Copy, Debug, PartialEq, Eq, Structural)]
pub enum TileLayer {
    Room,
    Corridor,
}

/// State of a door attached to a tile.
#[derive(Clone, Copy, Debug, PartialEq, Eq, Structural)]
pub struct Door {
    pub is_open: bool,
}

/// A placed tile: its kind, where its center lies, and its door if it has one.
#[derive(Clone, Copy, Debug, PartialEq, Eq, Structural)]
pub struct RoomTile {
    pub tile_type: RoomTileType,
    pub position: WorldPos,
    pub layer: TileLayer,
    pub door: Option<Door>,
}

/// The tile kind that shows a door in the given state.
pub open spec fn door_tile_type(is_open: bool) -> RoomTileType {
    if is_open {
        RoomTileType::DoorOpen
    } else {
        RoomTileType::DoorClosed
    }
}

/// Every kind but floor and open door counts as wall.
pub open spec fn is_wall(tile_type: RoomTileType) -> bool {
    tile_type != RoomTileType::Floor && tile_type != RoomTileType::DoorOpen
}

impl RoomTile {
    /// A door and the kind of its tile agree: open exactly when the tile
    /// shows an open door. Tiles without a door are always consistent.
    pub open spec fn door_consistent(self) -> bool {
        match self.door {
            Some(door) => self.tile_type == door_tile_type(door.is_open),
            None => true,
        }
    }

    /// The tile blocks movement: it is of a wall kind and its door, if any,
    /// is not open.
    pub open spec fn solid(self) -> bool {
        is_wall(self.tile_type) && !(self.door matches Some(door) && door.is_open)
    }

    /// A room tile without a door.
    pub fn plain(tile_type: RoomTileType, position: WorldPos, layer: TileLayer) -> (tile: RoomTile)
        ensures
            tile == (RoomTile { tile_type, position, layer, door: None }),
    {
        RoomTile { tile_type, position, layer, door: None }
    }

    /// A door tile in the given state, on the room layer.
    pub fn with_door(position: WorldPos, is_open: bool) -> (tile: RoomTile)
        ensures
            tile == (RoomTile {
                tile_type: door_tile_type(is_open),
                position,
                layer: TileLayer::Room,
                door: Some(Door { is_open }),
            }),
            tile.door_consistent(),
    {
        let tile_type = if is_open {
            RoomTileType::DoorOpen
        } else {
            RoomTileType::DoorClosed
        };
        RoomTile { tile_type, position, layer: TileLayer::Room, door: Some(Door { is_open }) }
    }

    /// Whether the tile blocks movement.
    pub fn is_solid(&self) -> (r: bool)
        ensures
            r == self.solid(),
    {
        if !is_wall_tile(&self.tile_type) {
            return false;
        }
        match self.door {
            Some(door) => !door.is_open,
            None => true,
        }
    }
}

/// Whether a tile kind is a wall: anything but floor and open door.
pub fn is_wall_tile(tile_type: &RoomTileType) -> (r: bool)
    ensures
        r == is_wall(*tile_type),
{
    match tile_type {
        RoomTileType::Floor => false,
        RoomTileType::DoorOpen => false,
        _ => true,
    }
}

} // verus!
