//! The eight directions the player's sprite can face.

use vstd::prelude::*;

verus! {

/// A compass direction.
#[derive(Clone, Copy, Debug, PartialEq, Eq, Structural, Hash)]
pub enum Direction {
    North,
    NorthEast,
    East,
    SouthEast,
    South,
    SouthWest,
    West,
    NorthWest,
}

impl Direction {
    /// Where, below the asset directory, the sprite of the player facing
    /// this way is kept.
    pub open spec fn sprite_path(self) -> Seq<char> {
        match self {
            Direction::North => "characters/knight_hero/rotations/north.png"@,
            Direction::NorthEast => "characters/knight_hero/rotations/north-east.png"@,
            Direction::East => "characters/knight_hero/rotations/east.png"@,
            Direction::SouthEast => "characters/knight_hero/rotations/south-east.png"@,
            Direction::South => "characters/knight_hero/rotations/south.png"@,
            Direction::SouthWest => "characters/knight_hero/rotations/south-west.png"@,
            Direction::West => "characters/knight_hero/rotations/west.png"@,
            Direction::NorthWest => "characters/knight_hero/rotations/north-west.png"@,
        }
    }

    /// The path of the sprite of the player facing this way.
    pub fn get_sprite_path(&self) -> (path: &'static str)
        ensures
            path@ == self.sprite_path(),
    {
        match self {
            Direction::North => "characters/knight_hero/rotations/north.png",
            Direction::NorthEast => "characters/knight_hero/rotations/north-east.png",
            Direction::East => "characters/knight_hero/rotations/east.png",
            Direction::SouthEast => "characters/knight_hero/rotations/south-east.png",
            Direction::South => "characters/knight_hero/rotations/south.png",
            Direction::SouthWest => "characters/knight_hero/rotations/south-west.png",
            Direction::West => "characters/knight_hero/rotations/west.png",
            Direction::NorthWest => "characters/knight_hero/rotations/north-west.png",
        }
    }
}

/// The compass point of an angle in whole degrees, counted from east
/// toward north. Each point takes the forty-five degrees around its own
/// direction: east below 23 and from 338, north-east from 23 to 67, and so
/// on around the circle.
pub open spec fn direction_at(degrees: int) -> Direction {
    if degrees <= 22 || 338 <= degrees {
        Direction::East
    } else if degrees <= 67 {
        Direction::NorthEast
    } else if degrees <= 112 {
        Direction::North
    } else if degrees <= 157 {
        Direction::NorthWest
    } else if degrees <= 202 {
        Direction::West
    } else if degrees <= 247 {
        Direction::SouthWest
    } else if degrees <= 292 {
        Direction::South
    } else {
        Direction::SouthEast
    }
}

/// The compass point of an angle in whole degrees from 0 to 360.
pub fn direction_of_degrees(degrees: i32) -> (d: Direction)
    requires
        0 <= degrees <= 360,
    ensures
        d == direction_at(degrees as int),
{
    if degrees <= 22 || degrees >= 338 {
        Direction::East
    } else if degrees <= 67 {
        Direction::NorthEast
    } else if degrees <= 112 {
        Direction::North
    } else if degrees <= 157 {
        Direction::NorthWest
    } else if degrees <= 202 {
        Direction::West
    } else if degrees <= 247 {
        Direction::SouthWest
    } else if degrees <= 292 {
        Direction::South
    } else {
        Direction::SouthEast
    }
}

/// The eight directions themselves, at multiples of forty-five degrees,
/// get their own points.
pub proof fn the_eight_directions_get_their_points()
    ensures
        direction_at(0) == Direction::East,
        direction_at(45) == Direction::NorthEast,
        direction_at(90) == Direction::North,
        direction_at(135) == Direction::NorthWest,
        direction_at(180) == Direction::West,
        direction_at(225) == Direction::SouthWest,
        direction_at(270) == Direction::South,
        direction_at(315) == Direction::SouthEast,
        direction_at(360) == Direction::East,
{
}

/// No two directions share a sprite.
pub proof fn sprite_paths_differ(a: Direction, b: Direction)
    requires
        a != b,
    ensures
        a.sprite_path() != b.sprite_path(),
{
    reveal_strlit("characters/knight_hero/rotations/north.png");
    reveal_strlit("characters/knight_hero/rotations/north-east.png");
    reveal_strlit("characters/knight_hero/rotations/east.png");
    reveal_strlit("characters/knight_hero/rotations/south-east.png");
    reveal_strlit("characters/knight_hero/rotations/south.png");
    reveal_strlit("characters/knight_hero/rotations/south-west.png");
    reveal_strlit("characters/knight_hero/rotations/west.png");
    reveal_strlit("characters/knight_hero/rotations/north-west.png");
    let p = a.sprite_path();
    let q = b.sprite_path();
    if p.len() == q.len() {
        assert(p[34] != q[34] || p[35] != q[35] || p[40] != q[40]);
    }
}

} // verus!
