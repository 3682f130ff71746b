//! Expansion of rectangles into typed, placed tiles.

use vstd::prelude::*;
use vstd::arithmetic::div_mod::lemma_fundamental_div_mod_converse;
use crate::geometry::WorldPos;
use crate::shape::RoomRect;
use crate::tile::{RoomTile, RoomTileType, TileLayer, TILE_SIZE};

verus! {

/// The kind of the tile in the given column and row of a rectangle that is
/// `width` wide and `height` high. Rows count from the bottom: row 0 is the
/// outer south strip, row 1 the inner south wall, row `height` the north
/// wall. The north row wins where rows coincide, and the west column wins
/// over the east.
pub open spec fn tile_kind_at(width: int, height: int, column: int, row: int) -> RoomTileType {
    if row == height {
        if column == 0 {
            RoomTileType::WallNInnerCornerW
        } else if column == width - 1 {
            RoomTileType::WallNInnerCornerE
        } else {
            RoomTileType::WallNInnerMid
        }
    } else if row == 1 {
        if column == 0 {
            RoomTileType::WallSInnerCapL
        } else if column == width - 1 {
            RoomTileType::WallSInnerCapR
        } else {
            RoomTileType::WallSInnerMid
        }
    } else if row == 0 {
        if column == 0 {
            RoomTileType::WallSOuterCapL
        } else if column == width - 1 {
            RoomTileType::WallSOuterCapR
        } else {
            RoomTileType::WallSOuterMid
        }
    } else if column == 0 {
        RoomTileType::WallWSide
    } else if column == width - 1 {
        RoomTileType::WallESide
    } else {
        RoomTileType::Floor
    }
}

/// World coordinate of the center of the tile in grid line `cell`.
pub open spec fn world_coordinate(cell: int) -> int {
    cell * TILE_SIZE
}

/// The tile a rectangle places in the given column and row. Row 0 lies one
/// cell below the rectangle's origin.
pub open spec fn rect_tile(rect: RoomRect, column: int, row: int) -> RoomTile {
    RoomTile {
        tile_type: tile_kind_at(rect.width as int, rect.height as int, column, row),
        position: WorldPos {
            x: world_coordinate(rect.x + column) as i32,
            y: world_coordinate(rect.y + row - 1) as i32,
        },
        layer: TileLayer::Room,
        door: None,
    }
}

/// All tiles of a rectangle, row by row from the outer south strip up, each
/// row from west to east.
pub open spec fn rect_tiles(rect: RoomRect) -> Seq<RoomTile> {
    Seq::new(
        (rect.width * (rect.height + 1)) as nat,
        |i: int| rect_tile(rect, i % (rect.width as int), i / (rect.width as int)),
    )
}

/// A rectangle yields one tile per cell and one more row for the outer
/// south strip, and the tile of column `column` in row `row` stands at
/// index `row * width + column`.
pub proof fn rect_tiles_layout(rect: RoomRect, column: int, row: int)
    requires
        0 <= column < rect.width,
        0 <= row <= rect.height,
    ensures
        rect_tiles(rect).len() == rect.width * (rect.height + 1),
        0 <= row * rect.width + column < rect_tiles(rect).len(),
        rect_tiles(rect)[row * rect.width + column] == rect_tile(rect, column, row),
{
    let w = rect.width as int;
    let h = rect.height as int;
    let i = row * w + column;
    assert(0 <= row * w && row * w + w <= w * (h + 1)) by (nonlinear_arith)
        requires
            0 <= row <= h,
            0 < w,
    ;
    lemma_fundamental_div_mod_converse(i, w, row, column);
}

/// In a rectangle at least two cells wide and one high, the two north
/// corners and the two outer south caps have their own kinds.
pub proof fn corner_kinds(width: int, height: int)
    requires
        width >= 2,
        height >= 1,
    ensures
        tile_kind_at(width, height, 0, height) == RoomTileType::WallNInnerCornerW,
        tile_kind_at(width, height, width - 1, height) == RoomTileType::WallNInnerCornerE,
        tile_kind_at(width, height, 0, 0) == RoomTileType::WallSOuterCapL,
        tile_kind_at(width, height, width - 1, 0) == RoomTileType::WallSOuterCapR,
{
}

/// In a rectangle at least two cells wide and two high, the inner south
/// caps have their own kinds as well.
pub proof fn inner_cap_kinds(width: int, height: int)
    requires
        width >= 2,
        height >= 2,
    ensures
        tile_kind_at(width, height, 0, 1) == RoomTileType::WallSInnerCapL,
        tile_kind_at(width, height, width - 1, 1) == RoomTileType::WallSInnerCapR,
{
}

/// A tile of a rectangle is floor exactly when it lies strictly inside:
/// off both side columns, above the two south rows, below the north row.
pub proof fn floor_is_interior(width: int, height: int, column: int, row: int)
    requires
        0 <= column < width,
        0 <= row <= height,
    ensures
        tile_kind_at(width, height, column, row) == RoomTileType::Floor <==> (0 < column < width
            - 1 && 1 < row < height),
{
}

/// The kind of the tile at `column`, `row` of a `width` by `height`
/// rectangle.
pub fn classify_tile(width: usize, height: usize, column: usize, row: usize) -> (kind:
    RoomTileType)
    requires
        column < width,
        row <= height,
    ensures
        kind == tile_kind_at(width as int, height as int, column as int, row as int),
{
    let west = column == 0;
    let east = column == width - 1;
    if row == height {
        if west {
            RoomTileType::WallNInnerCornerW
        } else if east {
            RoomTileType::WallNInnerCornerE
        } else {
            RoomTileType::WallNInnerMid
        }
    } else if row == 1 {
        if west {
            RoomTileType::WallSInnerCapL
        } else if east {
            RoomTileType::WallSInnerCapR
        } else {
            RoomTileType::WallSInnerMid
        }
    } else if row == 0 {
        if west {
            RoomTileType::WallSOuterCapL
        } else if east {
            RoomTileType::WallSOuterCapR
        } else {
            RoomTileType::WallSOuterMid
        }
    } else if west {
        RoomTileType::WallWSide
    } else if east {
        RoomTileType::WallESide
    } else {
        RoomTileType::Floor
    }
}

/// Lays out the tiles of the rectangle with the given sides and origin:
/// `width * (height + 1)` tiles, row by row from the outer south strip up.
pub fn generate_room_tiles(width: usize, height: usize, start_x: i32, start_y: i32) -> (tiles: Vec<
    RoomTile,
>)
    requires
        (RoomRect { x: start_x, y: start_y, width, height }).in_world(),
    ensures
        tiles@ == rect_tiles(RoomRect { x: start_x, y: start_y, width, height }),
        tiles@.len() == width * (height + 1),
{
    let ghost rect = RoomRect { x: start_x, y: start_y, width, height };
    let mut tiles: Vec<RoomTile> = Vec::new();
    let mut row: usize = 0;
    while row <= height
        invariant
            rect == (RoomRect { x: start_x, y: start_y, width, height }),
            rect.in_world(),
            row <= height + 1,
            tiles@.len() == row * width,
            forall|i: int|
                0 <= i < tiles@.len() ==> tiles@[i] == rect_tile(
                    rect,
                    i % (width as int),
                    i / (width as int),
                ),
        decreases height + 1 - row,
    {
        let mut column: usize = 0;
        while column < width
            invariant
                rect == (RoomRect { x: start_x, y: start_y, width, height }),
                rect.in_world(),
                row <= height,
                column <= width,
                tiles@.len() == row * width + column,
                forall|i: int|
                    0 <= i < tiles@.len() ==> tiles@[i] == rect_tile(
                        rect,
                        i % (width as int),
                        i / (width as int),
                    ),
            decreases width - column,
        {
            let kind = classify_tile(width, height, column, row);
            let x: i32 = (start_x + column as i32) * TILE_SIZE;
            let y: i32 = (start_y + row as i32 - 1) * TILE_SIZE;
            proof {
                lemma_fundamental_div_mod_converse(
                    row * width + column,
                    width as int,
                    row as int,
                    column as int,
                );
            }
            tiles.push(RoomTile::plain(kind, WorldPos { x, y }, TileLayer::Room));
            column = column + 1;
        }
        assert(row * width + width == (row + 1) * width) by (nonlinear_arith);
        row = row + 1;
    }
    assert(row * width == width * (height + 1)) by (nonlinear_arith)
        requires
            row == height + 1,
    ;
    assert(tiles@ =~= rect_tiles(rect));
    tiles
}

} // verus!
