//! Room shapes: rectangles on the grid and the compound shapes built of them.

use vstd::prelude::*;

verus! {

/// Largest width, height or arm length a room piece may be built with.
/// It keeps every grid and world coordinate of a room inside `i32`.
pub const MAX_DIMENSION: usize = 10_000;

/// A rectangle of grid cells: columns `x .. x + width`, rows `y .. y + height`.
#[derive(Clone, Copy, Debug, PartialEq, Eq, Structural)]
pub struct RoomRect {
    pub x: i32,
    pub y: i32,
    pub width: usize,
    pub height: usize,
}

/// The topology of a compound room.
#[derive(Clone, Copy, Debug, PartialEq, Eq, Structural)]
pub enum CompoundRoomType {
    Rectangle,
    LShape,
    TShape,
    Plus,
    Custom,
}

/// A room made of overlapping rectangles. The first rectangle is the anchor
/// that all others attach to.
#[derive(Clone, Debug)]
pub struct CompoundRoom {
    pub rectangles: Vec<RoomRect>,
    pub room_type: CompoundRoomType,
}

/// The smaller of two numbers.
pub open spec fn min_int(a: int, b: int) -> int {
    if a <= b {
        a
    } else {
        b
    }
}

/// The larger of two numbers.
pub open spec fn max_int(a: int, b: int) -> int {
    if a >= b {
        a
    } else {
        b
    }
}

impl RoomRect {
    /// Both sides are at least one cell long.
    pub open spec fn positive(self) -> bool {
        self.width >= 1 && self.height >= 1
    }

    /// The cell `(column, row)` lies inside the rectangle.
    pub open spec fn contains_cell(self, column: int, row: int) -> bool {
        self.x <= column < self.x + self.width && self.y <= row < self.y + self.height
    }

    /// Number of grid columns the two rectangles have in common; not
    /// positive when they have none.
    pub open spec fn shared_columns(self, other: RoomRect) -> int {
        min_int(self.x + self.width, other.x + other.width) - max_int(self.x as int, other.x as int)
    }

    /// Number of grid rows the two rectangles have in common; not positive
    /// when they have none.
    pub open spec fn shared_rows(self, other: RoomRect) -> int {
        min_int(self.y + self.height, other.y + other.height) - max_int(
            self.y as int,
            other.y as int,
        )
    }

    /// The rectangles share at least one grid cell.
    pub open spec fn overlaps(self, other: RoomRect) -> bool {
        self.shared_columns(other) >= 1 && self.shared_rows(other) >= 1
    }

    /// The rectangle stays far enough from the ends of `i32` that each of
    /// its tiles, the outer south strip included, has a world position.
    pub open spec fn in_world(self) -> bool {
        &&& -40_000 <= self.x
        &&& -40_000 < self.y
        &&& self.x + self.width <= 40_000
        &&& self.y + self.height <= 40_000
    }
}

/// Two rectangles overlap exactly when some grid cell lies in both.
pub proof fn overlap_is_shared_cell(a: RoomRect, b: RoomRect)
    ensures
        a.overlaps(b) <==> exists|column: int, row: int|
            #[trigger] a.contains_cell(column, row) && b.contains_cell(column, row),
{
    if a.overlaps(b) {
        let column = max_int(a.x as int, b.x as int);
        let row = max_int(a.y as int, b.y as int);
        assert(a.contains_cell(column, row) && b.contains_cell(column, row));
    }
}

/// The number of rectangles a room of the given topology consists of.
/// A custom room may have any number but none.
pub open spec fn piece_count_matches(room_type: CompoundRoomType, count: int) -> bool {
    match room_type {
        CompoundRoomType::Rectangle => count == 1,
        CompoundRoomType::LShape => count == 2,
        CompoundRoomType::TShape => count == 2,
        CompoundRoomType::Plus => count == 5,
        CompoundRoomType::Custom => count >= 1,
    }
}

/// Every rectangle after the first shares a cell with the first.
pub open spec fn anchored(rectangles: Seq<RoomRect>) -> bool {
    forall|i: int| 1 <= i < rectangles.len() ==> rectangles[0].overlaps(#[trigger] rectangles[i])
}

/// Every rectangle has positive sides and a place in the world.
pub open spec fn all_placed(rectangles: Seq<RoomRect>) -> bool {
    forall|i: int|
        0 <= i < rectangles.len() ==> (#[trigger] rectangles[i]).positive()
            && rectangles[i].in_world()
}

impl CompoundRoom {
    /// The room has the number of rectangles its topology asks for, and
    /// each of them has positive sides and lies in the world.
    pub open spec fn well_formed(self) -> bool {
        &&& piece_count_matches(self.room_type, self.rectangles@.len() as int)
        &&& all_placed(self.rectangles@)
    }

    /// Every rectangle is attached to the anchor by a shared cell, so the
    /// room is in one piece.
    pub open spec fn connected(self) -> bool {
        anchored(self.rectangles@)
    }
}

} // verus!
