//! Junctions can be walked through: the carved cell and the cells on both
//! sides of it are held by floor, and a player on the straight line across
//! them is never pushed.

use vstd::prelude::*;
use crate::collision::{blocks, nearest_blocker};
use crate::corridor::{
    connection_point, corridor_tile, corridor_tiles, l_corridor_cell, t_corridor_cell,
};
use crate::generator::{
    buildable, drawn_room, l_shape_is_connected, l_shape_rects, plus_shape_is_connected, plus_shape_rects,
    t_shape_is_connected, t_shape_rects,
};
use crate::geometry::WorldPos;
use crate::materialize::{
    floor_is_interior, rect_tile, rect_tiles, rect_tiles_layout, world_coordinate,
};
use crate::shape::{all_placed, min_int, CompoundRoom, CompoundRoomType, RoomRect};
use crate::spatial::{
    cell_center_rounds_to_cell, cell_of, floor_wins_without_doors, occupants,
};
use crate::spawn::{
    compound_tiles, compound_tiles_are_doorless, corridor_tile_lies_in_its_cell,
    corridors_are_open, rect_tile_lies_in_its_cell, room_tiles,
};
use crate::tile::{RoomTile, RoomTileType};

verus! {

/// The cell is held by a floor tile.
pub open spec fn floor_cell(tiles: Seq<RoomTile>, cell: (int, int)) -> bool {
    occupants(tiles).contains_key(cell) && tiles[occupants(tiles)[cell]].tile_type
        == RoomTileType::Floor
}

/// The tile stands on the center of a grid cell.
pub open spec fn on_grid(tile: RoomTile) -> bool {
    exists|column: int, row: int|
        -40_000 <= column <= 40_000 && -40_000 <= row <= 40_000
            && tile.position.x == #[trigger] world_coordinate(column) && tile.position.y
            == #[trigger] world_coordinate(row)
}

/// Every tile stands on the center of a grid cell.
pub open spec fn all_on_grid(tiles: Seq<RoomTile>) -> bool {
    forall|i: int| 0 <= i < tiles.len() ==> on_grid(#[trigger] tiles[i])
}

/// The tiles of the first rectangles are those of each rectangle, one
/// after another: the tiles of rectangle `k` start where those of the
/// rectangles before it end.
pub proof fn room_tiles_of_rectangle(rectangles: Seq<RoomRect>, count: int, k: int, j: int)
    requires
        0 <= k < count <= rectangles.len(),
        0 <= j < rect_tiles(rectangles[k]).len(),
    ensures
        room_tiles(rectangles, k).len() + j < room_tiles(rectangles, count).len(),
        room_tiles(rectangles, count)[room_tiles(rectangles, k).len() + j] == rect_tiles(
            rectangles[k],
        )[j],
    decreases count,
{
    if k < count - 1 {
        room_tiles_of_rectangle(rectangles, count - 1, k, j);
    }
}

/// Every tile of the first rectangles is a tile of one of them.
proof fn room_tile_has_a_rectangle(rectangles: Seq<RoomRect>, count: int, i: int) -> (found: (
    int,
    int,
))
    requires
        0 <= count <= rectangles.len(),
        0 <= i < room_tiles(rectangles, count).len(),
    ensures
        0 <= found.0 < count,
        0 <= found.1 < rect_tiles(rectangles[found.0]).len(),
        room_tiles(rectangles, count)[i] == rect_tiles(rectangles[found.0])[found.1],
    decreases count,
{
    let earlier = room_tiles(rectangles, count - 1);
    if i < earlier.len() {
        room_tile_has_a_rectangle(rectangles, count - 1, i)
    } else {
        (count - 1, i - earlier.len())
    }
}

/// A room laid out in the world has every tile of its rectangles on the
/// grid.
proof fn room_tiles_are_on_grid(rectangles: Seq<RoomRect>, i: int)
    requires
        all_placed(rectangles),
        0 <= i < room_tiles(rectangles, rectangles.len() as int).len(),
    ensures
        on_grid(room_tiles(rectangles, rectangles.len() as int)[i]),
{
    let (k, j) = room_tile_has_a_rectangle(rectangles, rectangles.len() as int, i);
    let rect = rectangles[k];
    let w = rect.width as int;
    assert(rect.positive() && rect.in_world());
    let column = j % w;
    let row = j / w;
    assert(0 <= column < w && 0 <= row <= rect.height) by (nonlinear_arith)
        requires
            0 <= j < w * (rect.height + 1),
            w > 0,
            column == j % w,
            row == j / w,
    ;
    let tile = rect_tile(rect, column, row);
    assert(tile.position.x == world_coordinate(rect.x + column));
    assert(tile.position.y == world_coordinate(rect.y + row - 1));
}

/// A cell strictly inside a rectangle of a room is held by floor, whatever
/// the other rectangles lay over it.
pub proof fn interior_cell_is_floor(
    room_type: CompoundRoomType,
    rectangles: Seq<RoomRect>,
    k: int,
    column: int,
    row: int,
)
    requires
        all_placed(rectangles),
        0 <= k < rectangles.len(),
        0 < column < rectangles[k].width - 1,
        1 < row < rectangles[k].height,
    ensures
        floor_cell(
            compound_tiles(room_type, rectangles),
            (rectangles[k].x + column, rectangles[k].y + row - 1),
        ),
{
    let tiles = compound_tiles(room_type, rectangles);
    let rect = rectangles[k];
    let j = row * rect.width + column;
    assert(rect.positive() && rect.in_world());
    rect_tiles_layout(rect, column, row);
    room_tiles_of_rectangle(rectangles, rectangles.len() as int, k, j);
    let at = room_tiles(rectangles, k).len() + j;
    assert(tiles[at] == rect_tile(rect, column, row));
    floor_is_interior(rect.width as int, rect.height as int, column, row);
    rect_tile_lies_in_its_cell(rect, column, row);
    assert forall|i: int|
        0 <= i < tiles.len() && cell_of(#[trigger] tiles[i].position) == cell_of(
            tiles[at].position,
        ) implies tiles[i].tile_type != RoomTileType::DoorOpen by {
        compound_tiles_are_doorless(room_type, rectangles, i);
    }
    floor_wins_without_doors(tiles, at);
}

/// Three cells in a row held by floor leave the line through their centers
/// free: on it, from the center of the first to the center of the last, no
/// tile is in the player's way.
pub proof fn floor_row_is_clear(tiles: Seq<RoomTile>, column: int, row: int, player: WorldPos)
    requires
        all_on_grid(tiles),
        -40_000 < column < 40_000,
        -40_000 <= row <= 40_000,
        floor_cell(tiles, (column - 1, row)),
        floor_cell(tiles, (column, row)),
        floor_cell(tiles, (column + 1, row)),
        player.y == world_coordinate(row),
        world_coordinate(column - 1) <= player.x <= world_coordinate(column + 1),
    ensures
        nearest_blocker(tiles, player, None),
{
    assert forall|j: int| 0 <= j < tiles.len() implies !#[trigger] blocks(tiles, j, player) by {
        if blocks(tiles, j, player) {
            let tile = tiles[j];
            assert(on_grid(tile));
            let (c, r) = choose|c: int, r: int|
                -40_000 <= c <= 40_000 && -40_000 <= r <= 40_000
                    && tile.position.x == #[trigger] world_coordinate(c) && tile.position.y
                    == #[trigger] world_coordinate(r);
            cell_center_rounds_to_cell(c, r);
            let dx = player.x - tile.position.x;
            let dy = player.y - tile.position.y;
            assert(dx * dx + dy * dy < 33_600 * 33_600);
            assert(dx * dx >= 0 && dy * dy >= 0) by (nonlinear_arith);
            assert(r == row) by (nonlinear_arith)
                requires
                    dy == 48_000 * (row - r),
                    dy * dy < 33_600 * 33_600,
            ;
            assert(column - 1 <= c <= column + 1) by (nonlinear_arith)
                requires
                    48_000 * (column - 1) - 48_000 * c <= dx <= 48_000 * (column + 1) - 48_000 * c,
                    dx * dx < 33_600 * 33_600,
            ;
            assert(floor_cell(tiles, (c, r)));
        }
    }
}

/// Three cells in a column held by floor leave the line through their
/// centers free, as three cells in a row do.
pub proof fn floor_column_is_clear(tiles: Seq<RoomTile>, column: int, row: int, player: WorldPos)
    requires
        all_on_grid(tiles),
        -40_000 <= column <= 40_000,
        -40_000 < row < 40_000,
        floor_cell(tiles, (column, row - 1)),
        floor_cell(tiles, (column, row)),
        floor_cell(tiles, (column, row + 1)),
        player.x == world_coordinate(column),
        world_coordinate(row - 1) <= player.y <= world_coordinate(row + 1),
    ensures
        nearest_blocker(tiles, player, None),
{
    assert forall|j: int| 0 <= j < tiles.len() implies !#[trigger] blocks(tiles, j, player) by {
        if blocks(tiles, j, player) {
            let tile = tiles[j];
            assert(on_grid(tile));
            let (c, r) = choose|c: int, r: int|
                -40_000 <= c <= 40_000 && -40_000 <= r <= 40_000
                    && tile.position.x == #[trigger] world_coordinate(c) && tile.position.y
                    == #[trigger] world_coordinate(r);
            cell_center_rounds_to_cell(c, r);
            let dx = player.x - tile.position.x;
            let dy = player.y - tile.position.y;
            assert(dx * dx + dy * dy < 33_600 * 33_600);
            assert(dx * dx >= 0 && dy * dy >= 0) by (nonlinear_arith);
            assert(c == column) by (nonlinear_arith)
                requires
                    dx == 48_000 * (column - c),
                    dx * dx < 33_600 * 33_600,
            ;
            assert(row - 1 <= r <= row + 1) by (nonlinear_arith)
                requires
                    48_000 * (row - 1) - 48_000 * r <= dy <= 48_000 * (row + 1) - 48_000 * r,
                    dy * dy < 33_600 * 33_600,
            ;
            assert(floor_cell(tiles, (c, r)));
        }
    }
}

/// The cell that corridor `k` of a room is carved into.
pub open spec fn corridor_cell(room_type: CompoundRoomType, rectangles: Seq<RoomRect>, k: int) -> (
    int,
    int,
) {
    match room_type {
        CompoundRoomType::LShape => l_corridor_cell(rectangles),
        CompoundRoomType::TShape => t_corridor_cell(rectangles),
        _ => connection_point(rectangles[0], rectangles[k + 1]),
    }
}

/// The player is on the line across junction `k` of a room: through the
/// centers of the carved cell and of the cells on both sides of it. The
/// line is level in an L and for the left and right arms of a plus (its
/// junctions 2 and 3), upright in a T and for the top and bottom arms of a
/// plus (its junctions 0 and 1).
pub open spec fn on_junction(
    room_type: CompoundRoomType,
    rectangles: Seq<RoomRect>,
    k: int,
    player: WorldPos,
) -> bool {
    let cell = corridor_cell(room_type, rectangles, k);
    let upright = room_type == CompoundRoomType::TShape || (room_type == CompoundRoomType::Plus
        && k < 2);
    if upright {
        player.x == world_coordinate(cell.0) && world_coordinate(cell.1 - 1) <= player.y
            <= world_coordinate(cell.1 + 1)
    } else {
        player.y == world_coordinate(cell.1) && world_coordinate(cell.0 - 1) <= player.x
            <= world_coordinate(cell.0 + 1)
    }
}

/// The rectangles are laid out in the world and have the number that
/// corridors are carved for.
pub open spec fn carved(room_type: CompoundRoomType, rectangles: Seq<RoomRect>) -> bool {
    &&& all_placed(rectangles)
    &&& match room_type {
        CompoundRoomType::LShape | CompoundRoomType::TShape => rectangles.len() == 2,
        CompoundRoomType::Plus => rectangles.len() == 5,
        _ => true,
    }
}

/// Corridor `k` of a room is the floor tile of its cell.
proof fn corridor_is_at_its_cell(room_type: CompoundRoomType, rectangles: Seq<RoomRect>, k: int)
    requires
        carved(room_type, rectangles),
        0 <= k < corridor_tiles(room_type, rectangles).len(),
    ensures
        -40_000 <= corridor_cell(room_type, rectangles, k).0 <= 40_000,
        -40_000 <= corridor_cell(room_type, rectangles, k).1 <= 40_000,
        corridor_tiles(room_type, rectangles)[k] == corridor_tile(
            corridor_cell(room_type, rectangles, k).0,
            corridor_cell(room_type, rectangles, k).1,
        ),
{
    assert(rectangles[0].positive() && rectangles[0].in_world());
    assert(rectangles[1].positive() && rectangles[1].in_world());
    if room_type == CompoundRoomType::Plus {
        assert(rectangles[k + 1].positive() && rectangles[k + 1].in_world());
    }
}

/// A room laid out in the world has every tile on the grid, corridors
/// included.
pub proof fn compound_tiles_are_on_grid(room_type: CompoundRoomType, rectangles: Seq<RoomRect>)
    requires
        carved(room_type, rectangles),
    ensures
        all_on_grid(compound_tiles(room_type, rectangles)),
{
    let tiles = compound_tiles(room_type, rectangles);
    let walls = room_tiles(rectangles, rectangles.len() as int);
    assert forall|i: int| 0 <= i < tiles.len() implies on_grid(#[trigger] tiles[i]) by {
        if i < walls.len() {
            room_tiles_are_on_grid(rectangles, i);
        } else {
            let k = i - walls.len();
            corridor_is_at_its_cell(room_type, rectangles, k);
            let cell = corridor_cell(room_type, rectangles, k);
            assert(tiles[i].position.x == world_coordinate(cell.0));
            assert(tiles[i].position.y == world_coordinate(cell.1));
        }
    }
}

/// The cell that a corridor is carved into is held by floor.
pub proof fn corridor_cell_is_floor(
    room_type: CompoundRoomType,
    rectangles: Seq<RoomRect>,
    k: int,
)
    requires
        carved(room_type, rectangles),
        0 <= k < corridor_tiles(room_type, rectangles).len(),
    ensures
        floor_cell(compound_tiles(room_type, rectangles), corridor_cell(room_type, rectangles, k)),
{
    corridor_is_at_its_cell(room_type, rectangles, k);
    let cell = corridor_cell(room_type, rectangles, k);
    corridor_tile_lies_in_its_cell(cell.0, cell.1);
    corridors_are_open(room_type, rectangles, k, WorldPos { x: 0, y: 0 });
}

/// The junction of an L-shaped room can be walked through. Where the main
/// piece is at least three cells wide and four high and the extension is
/// left at least three cells high, the cells west and east of the carved
/// cell are floor, and on the line through the three centers no tile is in
/// the player's way.
pub proof fn l_shape_junction_is_clear(
    main_width: int,
    main_height: int,
    extension_width: int,
    extension_height: int,
    player: WorldPos,
)
    requires
        buildable(main_width),
        buildable(main_height),
        buildable(extension_width),
        buildable(extension_height),
        main_width >= 3,
        main_height >= 4,
        extension_width >= 2,
        extension_height >= 3,
        on_junction(
            CompoundRoomType::LShape,
            l_shape_rects(main_width, main_height, extension_width, extension_height),
            0,
            player,
        ),
    ensures
        nearest_blocker(
            compound_tiles(
                CompoundRoomType::LShape,
                l_shape_rects(main_width, main_height, extension_width, extension_height),
            ),
            player,
            None,
        ),
{
    let rectangles = l_shape_rects(main_width, main_height, extension_width, extension_height);
    let kind = CompoundRoomType::LShape;
    let tiles = compound_tiles(kind, rectangles);
    let cell = l_corridor_cell(rectangles);
    l_shape_is_connected(main_width, main_height, extension_width, extension_height);
    compound_tiles_are_on_grid(kind, rectangles);
    corridor_cell_is_floor(kind, rectangles, 0);
    interior_cell_is_floor(kind, rectangles, 0, main_width - 2, 2);
    interior_cell_is_floor(kind, rectangles, 1, 1, 2);
    floor_row_is_clear(tiles, cell.0, cell.1, player);
}

/// The junction of a T-shaped room can be walked through. Where the bar is
/// at least five cells wide and three high and the stem at least three
/// cells wide and high, the cells below and above the carved cell are
/// floor, and on the line through the three centers no tile is in the
/// player's way.
pub proof fn t_shape_junction_is_clear(
    top_width: int,
    top_height: int,
    stem_width: int,
    stem_height: int,
    player: WorldPos,
)
    requires
        buildable(top_width),
        buildable(top_height),
        buildable(stem_width),
        buildable(stem_height),
        top_width >= 5,
        top_height >= 3,
        stem_width >= 3,
        stem_height >= 3,
        on_junction(
            CompoundRoomType::TShape,
            t_shape_rects(top_width, top_height, stem_width, stem_height),
            0,
            player,
        ),
    ensures
        nearest_blocker(
            compound_tiles(
                CompoundRoomType::TShape,
                t_shape_rects(top_width, top_height, stem_width, stem_height),
            ),
            player,
            None,
        ),
{
    let rectangles = t_shape_rects(top_width, top_height, stem_width, stem_height);
    let kind = CompoundRoomType::TShape;
    let tiles = compound_tiles(kind, rectangles);
    let cell = t_corridor_cell(rectangles);
    let stem = min_int(stem_width, top_width - 2);
    t_shape_is_connected(top_width, top_height, stem_width, stem_height);
    compound_tiles_are_on_grid(kind, rectangles);
    corridor_cell_is_floor(kind, rectangles, 0);
    interior_cell_is_floor(kind, rectangles, 1, stem / 2, stem_height - 1);
    interior_cell_is_floor(kind, rectangles, 0, top_width / 2, 2);
    floor_column_is_clear(tiles, cell.0, cell.1, player);
}

/// The junctions of a plus-shaped room can be walked through. Where the
/// center is at least four cells wide and high and the arms are at least
/// three cells long and thick, the cells on both sides of each carved cell
/// are floor, and on the line through the three centers no tile is in the
/// player's way.
pub proof fn plus_shape_junction_is_clear(
    center_width: int,
    center_height: int,
    arm_length: int,
    arm_width: int,
    arm: int,
    player: WorldPos,
)
    requires
        buildable(center_width),
        buildable(center_height),
        buildable(arm_length),
        buildable(arm_width),
        center_width >= 4,
        center_height >= 4,
        arm_length >= 3,
        arm_width >= 3,
        0 <= arm < 4,
        on_junction(
            CompoundRoomType::Plus,
            plus_shape_rects(center_width, center_height, arm_length, arm_width),
            arm,
            player,
        ),
    ensures
        nearest_blocker(
            compound_tiles(
                CompoundRoomType::Plus,
                plus_shape_rects(center_width, center_height, arm_length, arm_width),
            ),
            player,
            None,
        ),
{
    let rectangles = plus_shape_rects(center_width, center_height, arm_length, arm_width);
    let kind = CompoundRoomType::Plus;
    let tiles = compound_tiles(kind, rectangles);
    let cell = connection_point(rectangles[0], rectangles[arm + 1]);
    let thick = min_int(min_int(arm_width, center_width - 1), center_height - 1);
    plus_shape_is_connected(center_width, center_height, arm_length, arm_width);
    compound_tiles_are_on_grid(kind, rectangles);
    corridor_cell_is_floor(kind, rectangles, arm);
    assert(corridor_cell(kind, rectangles, arm) == cell);
    if arm == 0 {
        interior_cell_is_floor(kind, rectangles, 0, center_width / 2, center_height - 1);
        interior_cell_is_floor(kind, rectangles, 1, thick / 2, 2);
        floor_column_is_clear(tiles, cell.0, cell.1, player);
    } else if arm == 1 {
        interior_cell_is_floor(kind, rectangles, 0, center_width / 2, 2);
        interior_cell_is_floor(kind, rectangles, 2, thick / 2, arm_length);
        floor_column_is_clear(tiles, cell.0, cell.1, player);
    } else if arm == 2 {
        interior_cell_is_floor(kind, rectangles, 0, 1, center_height / 2 + 1);
        interior_cell_is_floor(kind, rectangles, 3, arm_length - 1, thick / 2 + 1);
        floor_row_is_clear(tiles, cell.0, cell.1, player);
    } else {
        interior_cell_is_floor(kind, rectangles, 0, center_width - 2, center_height / 2 + 1);
        interior_cell_is_floor(kind, rectangles, 4, 1, thick / 2 + 1);
        floor_row_is_clear(tiles, cell.0, cell.1, player);
    }
}

/// Every junction of every room that generation can produce can be walked
/// through: on the line across the carved cell, from the center of the cell
/// on one side to the center of the cell on the other, the collision pass
/// finds nothing in the player's way.
pub proof fn generated_junctions_are_clear(room: CompoundRoom, k: int, player: WorldPos)
    requires
        drawn_room(room),
        0 <= k < corridor_tiles(room.room_type, room.rectangles@).len(),
        on_junction(room.room_type, room.rectangles@, k, player),
    ensures
        nearest_blocker(compound_tiles(room.room_type, room.rectangles@), player, None),
{
    match room.room_type {
        CompoundRoomType::LShape => {
            let (mw, mh, ew, eh) = choose|mw: int, mh: int, ew: int, eh: int|
                6 <= mw < 10 && 8 <= mh < 12 && 5 <= ew < 9 && 4 <= eh < 7 && room.rectangles@
                    == #[trigger] l_shape_rects(mw, mh, ew, eh);
            l_shape_junction_is_clear(mw, mh, ew, eh, player);
        },
        CompoundRoomType::TShape => {
            let (tw, th, sw, sh) = choose|tw: int, th: int, sw: int, sh: int|
                10 <= tw < 14 && 4 <= th < 6 && 4 <= sw < 7 && 6 <= sh < 10 && room.rectangles@
                    == #[trigger] t_shape_rects(tw, th, sw, sh);
            t_shape_junction_is_clear(tw, th, sw, sh, player);
        },
        CompoundRoomType::Plus => {
            let (cw, ch, al, aw) = choose|cw: int, ch: int, al: int, aw: int|
                6 <= cw < 8 && 6 <= ch < 8 && 4 <= al < 7 && 3 <= aw < 5 && room.rectangles@
                    == #[trigger] plus_shape_rects(cw, ch, al, aw);
            plus_shape_junction_is_clear(cw, ch, al, aw, k, player);
        },
        _ => {},
    }
}

} // verus!
