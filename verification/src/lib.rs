//! Verified core of a tile-based room game: procedural room shapes, their
//! expansion into typed tiles, the per-pass spatial index, collision, door
//! toggling and the door-threshold transition.
//!
//! World positions are whole numbers of thousandths of a world unit
//! ([`tile::UNIT`] to the unit). A tile covers [`tile::TILE_SIZE`] of them.
//! Every distance of the rules is a whole number in that unit, and
//! distances are compared exactly, on their squares.
//!
//! - [`geometry`], [`timer`], [`tile`], [`shape`]: the values everything
//!   else is about.
//! - [`generator`]: room shapes from dimensions and from random draws.
//! - [`materialize`], [`corridor`], [`spawn`]: the tiles of a room.
//! - [`spatial`]: which tile holds each grid cell.
//! - [`push`], [`collision`]: keeping the player out of solid tiles.
//! - [`junction`]: carved junctions can be walked through.
//! - [`door`], [`transition`]: doors and stepping through them.
//! - [`attack`]: the timing attack.
//! - [`direction`]: the directions the player's sprite can face.

pub mod attack;
pub mod collision;
pub mod corridor;
pub mod direction;
pub mod door;
pub mod generator;
pub mod geometry;
pub mod junction;
pub mod materialize;
pub mod push;
pub mod shape;
pub mod spatial;
pub mod spawn;
pub mod tile;
pub mod timer;
pub mod transition;
