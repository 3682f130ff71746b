//! The room transition: stepping through an open door moves the player to
//! the far side of its threshold, and a cooldown keeps the step from
//! repeating at once.

use vstd::prelude::*;
use crate::geometry::{clamp, clamped, closer_than, is_closer_than, WorldPos};
use crate::tile::{RoomTile, TILE_SIZE};
use crate::timer::OneShotTimer;

verus! {

/// Eight tenths of a tile: an open door takes the player across when the
/// player is closer than this.
pub const TRANSITION_THRESHOLD: u32 = 38_400;

/// One and a half tiles: how far beyond the door's center the player is
/// put down.
pub const TRANSITION_OFFSET: i32 = 72_000;

/// Half a second, in nanoseconds: the time that must pass after a
/// transition, or after the start, before the next one, with a cooldown
/// made by `default`.
pub const TRANSITION_COOLDOWN_NANOS: u64 = 500_000_000;

/// The distances of the transition as fractions of a tile: within eight
/// tenths of a tile of the door, to one and a half tiles beyond it.
pub proof fn transition_distances_are_fractions_of_a_tile()
    ensures
        10 * TRANSITION_THRESHOLD == 8 * TILE_SIZE,
        2 * TRANSITION_OFFSET == 3 * TILE_SIZE,
{
}

/// The direction the player means to move in, one whole number per axis.
/// The player is moving when the vector is longer than a tenth of a unit,
/// which for whole numbers means that it is not zero.
#[derive(Clone, Copy, Debug, PartialEq, Eq, Structural)]
pub struct MoveIntent {
    pub x: i32,
    pub y: i32,
}

impl MoveIntent {
    /// The player means to move.
    pub open spec fn moving(self) -> bool {
        self.x != 0 || self.y != 0
    }

    /// Whether the player means to move.
    pub fn is_moving(&self) -> (r: bool)
        ensures
            r == self.moving(),
    {
        self.x != 0 || self.y != 0
    }
}

/// A whole-number intent is longer than a tenth of a unit exactly when it
/// is not zero.
pub proof fn moving_is_longer_than_a_tenth(intent: MoveIntent)
    ensures
        intent.moving() <==> 100 * (intent.x * intent.x + intent.y * intent.y) > 1,
{
    assert(intent.x != 0 ==> intent.x * intent.x >= 1) by (nonlinear_arith);
    assert(intent.y != 0 ==> intent.y * intent.y >= 1) by (nonlinear_arith);
    assert(intent.x * intent.x >= 0) by (nonlinear_arith);
    assert(intent.y * intent.y >= 0) by (nonlinear_arith);
}

/// The timer that gates transitions. It runs for the cooldown and lets a
/// transition happen once it has run out.
#[derive(Clone, Copy, Debug, PartialEq, Eq, Structural)]
pub struct TransitionCooldown {
    pub timer: OneShotTimer,
}

impl Default for TransitionCooldown {
    /// A cooldown that has only just started.
    fn default() -> (cooldown: TransitionCooldown)
        ensures
            cooldown.timer == (OneShotTimer {
                elapsed_nanos: 0,
                duration_nanos: TRANSITION_COOLDOWN_NANOS,
            }),
    {
        TransitionCooldown { timer: OneShotTimer::new(TRANSITION_COOLDOWN_NANOS) }
    }
}

/// Where the tile takes the player, if it takes the player anywhere: the
/// tile has an open door, the player is closer than the threshold and means
/// to move, and either stands below the door and means to go up, which
/// leads to the point one and a half tiles above the door, or stands above
/// and means to go down, which leads to the point as far below. A point
/// beyond the end of the world is brought back to it.
pub open spec fn crossing(tile: RoomTile, player: WorldPos, intent: MoveIntent) -> Option<
    WorldPos,
> {
    if tile.door matches Some(door) && door.is_open && closer_than(
        player,
        tile.position,
        TRANSITION_THRESHOLD as int,
    ) && intent.moving() {
        if player.y < tile.position.y && intent.y > 0 {
            Some(
                WorldPos {
                    x: tile.position.x,
                    y: clamped(tile.position.y + TRANSITION_OFFSET) as i32,
                },
            )
        } else if player.y > tile.position.y && intent.y < 0 {
            Some(
                WorldPos {
                    x: tile.position.x,
                    y: clamped(tile.position.y - TRANSITION_OFFSET) as i32,
                },
            )
        } else {
            None
        }
    } else {
        None
    }
}

/// The crossing of the first of the first `count` tiles that has one.
pub open spec fn first_crossing(
    tiles: Seq<RoomTile>,
    count: int,
    player: WorldPos,
    intent: MoveIntent,
) -> Option<WorldPos>
    decreases count,
{
    if count <= 0 {
        None
    } else {
        match first_crossing(tiles, count - 1, player, intent) {
            Some(target) => Some(target),
            None => crossing(tiles[count - 1], player, intent),
        }
    }
}

/// Where one tick moves the player, if anywhere: once the cooldown, with
/// the tick's time added, has run out, to the first crossing there is.
pub open spec fn transition_target(
    tiles: Seq<RoomTile>,
    player: WorldPos,
    intent: MoveIntent,
    cooldown: TransitionCooldown,
    delta_nanos: u64,
) -> Option<WorldPos> {
    if cooldown.timer.after(delta_nanos).finished() {
        first_crossing(tiles, tiles.len() as int, player, intent)
    } else {
        None
    }
}

/// The cooldown after one tick: started anew if the player was moved, else
/// advanced by the tick's time.
pub open spec fn cooldown_after(
    tiles: Seq<RoomTile>,
    player: WorldPos,
    intent: MoveIntent,
    cooldown: TransitionCooldown,
    delta_nanos: u64,
) -> TransitionCooldown {
    if transition_target(tiles, player, intent, cooldown, delta_nanos) is Some {
        TransitionCooldown {
            timer: OneShotTimer { elapsed_nanos: 0, duration_nanos: cooldown.timer.duration_nanos },
        }
    } else {
        TransitionCooldown { timer: cooldown.timer.after(delta_nanos) }
    }
}

/// A transition is not repeated at once: in the tick after one that moved
/// the player, if it is shorter than the cooldown, the player is not moved,
/// wherever the player stands and whatever the doors and the intent are.
pub proof fn no_transition_right_after_one(
    tiles: Seq<RoomTile>,
    player: WorldPos,
    intent: MoveIntent,
    cooldown: TransitionCooldown,
    delta_nanos: u64,
    next_tiles: Seq<RoomTile>,
    next_player: WorldPos,
    next_intent: MoveIntent,
    next_delta_nanos: u64,
)
    requires
        transition_target(tiles, player, intent, cooldown, delta_nanos) is Some,
        next_delta_nanos < cooldown.timer.duration_nanos,
    ensures
        transition_target(
            next_tiles,
            next_player,
            next_intent,
            cooldown_after(tiles, player, intent, cooldown, delta_nanos),
            next_delta_nanos,
        ) is None,
{
}

/// No closed door, and no tile without a door, takes the player anywhere.
pub proof fn only_open_doors_cross(tile: RoomTile, player: WorldPos, intent: MoveIntent)
    requires
        !(tile.door matches Some(door) && door.is_open),
    ensures
        crossing(tile, player, intent) is None,
{
}

/// Where the tile takes the player, if anywhere.
fn crossing_of(tile: &RoomTile, player: WorldPos, intent: MoveIntent) -> (target: Option<WorldPos>)
    ensures
        target == crossing(*tile, player, intent),
{
    let open = match tile.door {
        Some(door) => door.is_open,
        None => false,
    };
    if open && is_closer_than(player, tile.position, TRANSITION_THRESHOLD)
        && intent.is_moving() {
        if player.y < tile.position.y && intent.y > 0 {
            Some(
                WorldPos {
                    x: tile.position.x,
                    y: clamp(tile.position.y as i64 + TRANSITION_OFFSET as i64),
                },
            )
        } else if player.y > tile.position.y && intent.y < 0 {
            Some(
                WorldPos {
                    x: tile.position.x,
                    y: clamp(tile.position.y as i64 - TRANSITION_OFFSET as i64),
                },
            )
        } else {
            None
        }
    } else {
        None
    }
}

/// One tick of the room transition. The cooldown advances by the tick's
/// time. If it has run out, the first open door that the player is close
/// to and is moving through moves the player to its far side, and the
/// cooldown starts anew. The result is the player's new position, or
/// nothing if the player stays.
pub fn room_transition_system(
    tiles: &Vec<RoomTile>,
    player: WorldPos,
    intent: MoveIntent,
    cooldown: &mut TransitionCooldown,
    delta_nanos: u64,
) -> (target: Option<WorldPos>)
    ensures
        target == transition_target(tiles@, player, intent, *old(cooldown), delta_nanos),
        *final(cooldown) == cooldown_after(tiles@, player, intent, *old(cooldown), delta_nanos),
{
    let ghost before = *cooldown;
    cooldown.timer.tick(delta_nanos);
    if !cooldown.timer.is_finished() {
        return None;
    }
    let mut i: usize = 0;
    while i < tiles.len()
        invariant
            i <= tiles.len(),
            first_crossing(tiles@, i as int, player, intent) is None,
            cooldown.timer == before.timer.after(delta_nanos),
            cooldown.timer.finished(),
            before == *old(cooldown),
        decreases tiles.len() - i,
    {
        let target = crossing_of(&tiles[i], player, intent);
        if target.is_some() {
            proof {
                assert(first_crossing(tiles@, i as int + 1, player, intent) == target);
                first_crossing_stays(tiles@, i as int + 1, tiles@.len() as int, player, intent);
            }
            cooldown.timer.reset();
            return target;
        }
        i = i + 1;
    }
    None
}

/// Once the first tiles have a crossing, looking at more tiles does not
/// change it.
proof fn first_crossing_stays(
    tiles: Seq<RoomTile>,
    count: int,
    more: int,
    player: WorldPos,
    intent: MoveIntent,
)
    requires
        0 <= count <= more,
        first_crossing(tiles, count, player, intent) is Some,
    ensures
        first_crossing(tiles, more, player, intent) == first_crossing(
            tiles,
            count,
            player,
            intent,
        ),
    decreases more - count,
{
    if count < more {
        first_crossing_stays(tiles, count, more - 1, player, intent);
    }
}

} // verus!
