//! Construction of room shapes, from given dimensions and from random draws.

use vstd::prelude::*;
use rand::rngs::ThreadRng;
use rand::Rng;
use crate::shape::{
    all_placed, anchored, min_int, CompoundRoom, CompoundRoomType, RoomRect, MAX_DIMENSION,
};

verus! {

/// `rand::rngs::ThreadRng`, the generator of random numbers that rooms are
/// drawn from. It is only passed through: nothing inside it is visible
/// here.
#[verifier::external_type_specification]
#[verifier::external_body]
pub struct ExThreadRng(rand::rngs::ThreadRng);

/// Calls `rand::thread_rng`, which hands out the calling thread's
/// generator. Nothing is claimed of it.
#[verifier::external_body]
pub(crate) fn thread_generator() -> ThreadRng {
    rand::thread_rng()
}

/// Calls `rand::Rng::gen_range` on the half-open range `low..high`. The
/// claim is the documented one: the value lies in the range. An empty range
/// makes that method panic, so it is excluded.
#[verifier::external_body]
fn draw_in_range(rng: &mut ThreadRng, low: usize, high: usize) -> (value: usize)
    requires
        low < high,
    ensures
        low <= value < high,
{
    rng.gen_range(low..high)
}

/// A rectangle of the given sides whose columns and rows straddle the
/// origin: its origin is `-(width / 2), -(height / 2)`.
pub open spec fn centered_rect(width: int, height: int) -> RoomRect {
    RoomRect {
        x: (-(width / 2)) as i32,
        y: (-(height / 2)) as i32,
        width: width as usize,
        height: height as usize,
    }
}

/// The single rectangle of a plain room.
pub open spec fn rectangle_rects(width: int, height: int) -> Seq<RoomRect> {
    seq![centered_rect(width, height)]
}

/// The two rectangles of an L-shaped room. The main piece is centered. The
/// extension starts on the main piece's last column and bottom row, is one
/// column wider than asked for to make up for the shared column, and is
/// kept lower than the main piece.
pub open spec fn l_shape_rects(
    main_width: int,
    main_height: int,
    extension_width: int,
    extension_height: int,
) -> Seq<RoomRect> {
    let main = centered_rect(main_width, main_height);
    let extension = RoomRect {
        x: (main.x + main_width - 1) as i32,
        y: main.y,
        width: (extension_width + 1) as usize,
        height: min_int(extension_height, main_height - 1) as usize,
    };
    seq![main, extension]
}

/// The two rectangles of a T-shaped room: the top bar, then the stem. The
/// stem is centered and kept at least two columns narrower than the bar.
/// The bar is centered sideways and starts on the stem's topmost row, which
/// is the one row the two share.
pub open spec fn t_shape_rects(
    top_width: int,
    top_height: int,
    stem_width: int,
    stem_height: int,
) -> Seq<RoomRect> {
    let stem = centered_rect(min_int(stem_width, top_width - 2), stem_height);
    let top = RoomRect {
        x: (-(top_width / 2)) as i32,
        y: (stem.y + stem_height - 1) as i32,
        width: top_width as usize,
        height: top_height as usize,
    };
    seq![top, stem]
}

/// The five rectangles of a plus-shaped room: the center, then the top,
/// bottom, left and right arms. Arms are kept thinner than the center is
/// wide and high, are centered across, and reach exactly one cell into the
/// center: the top arm starts on the center's last row, the right arm on
/// its last column, the bottom arm ends on its first row and the left arm
/// on its first column.
pub open spec fn plus_shape_rects(
    center_width: int,
    center_height: int,
    arm_length: int,
    arm_width: int,
) -> Seq<RoomRect> {
    let thickness = min_int(min_int(arm_width, center_width - 1), center_height - 1);
    let center = centered_rect(center_width, center_height);
    let top = RoomRect {
        x: (-(thickness / 2)) as i32,
        y: (center.y + center_height - 1) as i32,
        width: thickness as usize,
        height: (arm_length + 1) as usize,
    };
    let bottom = RoomRect {
        x: (-(thickness / 2)) as i32,
        y: (-(center_height / 2 + arm_length)) as i32,
        width: thickness as usize,
        height: (arm_length + 1) as usize,
    };
    let left = RoomRect {
        x: (-(center_width / 2 + arm_length)) as i32,
        y: (-(thickness / 2)) as i32,
        width: (arm_length + 1) as usize,
        height: thickness as usize,
    };
    let right = RoomRect {
        x: (center.x + center_width - 1) as i32,
        y: (-(thickness / 2)) as i32,
        width: (arm_length + 1) as usize,
        height: thickness as usize,
    };
    seq![center, top, bottom, left, right]
}

/// Each arm of a plus meets the center on one line of cells: the top arm
/// starts on the center's last row, the bottom arm ends on its first row,
/// the left arm ends on its first column and the right arm starts on its
/// last column.
pub open spec fn arms_meet_the_center(rectangles: Seq<RoomRect>) -> bool {
    let center = rectangles[0];
    &&& rectangles[1].y == center.y + center.height - 1
    &&& rectangles[2].y + rectangles[2].height - 1 == center.y
    &&& rectangles[3].x + rectangles[3].width - 1 == center.x
    &&& rectangles[4].x == center.x + center.width - 1
}

/// Whether a dimension is one a room piece may be built with.
pub open spec fn buildable(dimension: int) -> bool {
    1 <= dimension <= MAX_DIMENSION
}

/// A plain room is a single placed rectangle.
pub proof fn rectangle_is_placed(width: int, height: int)
    requires
        buildable(width),
        buildable(height),
    ensures
        rectangle_rects(width, height).len() == 1,
        all_placed(rectangle_rects(width, height)),
        anchored(rectangle_rects(width, height)),
{
}

/// In an L-shaped room whose main piece is at least two rows high, both
/// pieces have positive sides and the extension shares a column with the
/// main piece.
pub proof fn l_shape_is_connected(
    main_width: int,
    main_height: int,
    extension_width: int,
    extension_height: int,
)
    requires
        buildable(main_width),
        buildable(main_height),
        buildable(extension_width),
        buildable(extension_height),
        main_height >= 2,
    ensures
        l_shape_rects(main_width, main_height, extension_width, extension_height).len() == 2,
        all_placed(l_shape_rects(main_width, main_height, extension_width, extension_height)),
        anchored(l_shape_rects(main_width, main_height, extension_width, extension_height)),
        l_shape_rects(main_width, main_height, extension_width, extension_height)[0].shared_columns(
            l_shape_rects(main_width, main_height, extension_width, extension_height)[1],
        ) == 1,
{
}

/// In a T-shaped room whose bar is at least three columns wide, both
/// pieces have positive sides and the bar shares exactly one row with the
/// stem, the stem's topmost.
pub proof fn t_shape_is_connected(
    top_width: int,
    top_height: int,
    stem_width: int,
    stem_height: int,
)
    requires
        buildable(top_width),
        buildable(top_height),
        buildable(stem_width),
        buildable(stem_height),
        top_width >= 3,
    ensures
        t_shape_rects(top_width, top_height, stem_width, stem_height).len() == 2,
        all_placed(t_shape_rects(top_width, top_height, stem_width, stem_height)),
        anchored(t_shape_rects(top_width, top_height, stem_width, stem_height)),
        t_shape_rects(top_width, top_height, stem_width, stem_height)[0].shared_rows(
            t_shape_rects(top_width, top_height, stem_width, stem_height)[1],
        ) == 1,
        t_shape_rects(top_width, top_height, stem_width, stem_height)[0].y == t_shape_rects(
            top_width,
            top_height,
            stem_width,
            stem_height,
        )[1].y + stem_height - 1,
{
}

/// In a plus-shaped room whose center is at least two cells wide and high,
/// all five pieces have positive sides and each arm shares a cell with the
/// center. Every arm reaches exactly one cell into the center, on the
/// edge it is attached to.
pub proof fn plus_shape_is_connected(
    center_width: int,
    center_height: int,
    arm_length: int,
    arm_width: int,
)
    requires
        buildable(center_width),
        buildable(center_height),
        buildable(arm_length),
        buildable(arm_width),
        center_width >= 2,
        center_height >= 2,
    ensures
        plus_shape_rects(center_width, center_height, arm_length, arm_width).len() == 5,
        all_placed(plus_shape_rects(center_width, center_height, arm_length, arm_width)),
        anchored(plus_shape_rects(center_width, center_height, arm_length, arm_width)),
        plus_shape_rects(center_width, center_height, arm_length, arm_width)[0].shared_rows(
            plus_shape_rects(center_width, center_height, arm_length, arm_width)[1],
        ) == 1,
        plus_shape_rects(center_width, center_height, arm_length, arm_width)[0].shared_rows(
            plus_shape_rects(center_width, center_height, arm_length, arm_width)[2],
        ) == 1,
        plus_shape_rects(center_width, center_height, arm_length, arm_width)[0].shared_columns(
            plus_shape_rects(center_width, center_height, arm_length, arm_width)[3],
        ) == 1,
        plus_shape_rects(center_width, center_height, arm_length, arm_width)[0].shared_columns(
            plus_shape_rects(center_width, center_height, arm_length, arm_width)[4],
        ) == 1,
        arms_meet_the_center(plus_shape_rects(center_width, center_height, arm_length, arm_width)),
{
}

/// The rectangle of the given sides that straddles the origin.
fn centered(width: usize, height: usize) -> (rect: RoomRect)
    requires
        width <= MAX_DIMENSION,
        height <= MAX_DIMENSION,
    ensures
        rect == centered_rect(width as int, height as int),
{
    RoomRect { x: -((width / 2) as i32), y: -((height / 2) as i32), width, height }
}

/// A plain room: one centered rectangle.
pub fn rectangle_room(width: usize, height: usize) -> (room: CompoundRoom)
    requires
        buildable(width as int),
        buildable(height as int),
    ensures
        room.room_type == CompoundRoomType::Rectangle,
        room.rectangles@ == rectangle_rects(width as int, height as int),
        room.well_formed(),
        room.connected(),
{
    let mut rectangles: Vec<RoomRect> = Vec::new();
    rectangles.push(centered(width, height));
    proof {
        rectangle_is_placed(width as int, height as int);
        assert(rectangles@ =~= rectangle_rects(width as int, height as int));
    }
    CompoundRoom { rectangles, room_type: CompoundRoomType::Rectangle }
}

/// An L-shaped room of the given dimensions. The extension is cut down to
/// one row less than the main piece where it was asked higher. With a main
/// piece of two rows or more the room is well formed and in one piece.
pub fn l_shape_room(
    main_width: usize,
    main_height: usize,
    extension_width: usize,
    extension_height: usize,
) -> (room: CompoundRoom)
    requires
        buildable(main_width as int),
        buildable(main_height as int),
        buildable(extension_width as int),
        buildable(extension_height as int),
    ensures
        room.room_type == CompoundRoomType::LShape,
        room.rectangles@ == l_shape_rects(
            main_width as int,
            main_height as int,
            extension_width as int,
            extension_height as int,
        ),
        main_height >= 2 ==> room.well_formed() && room.connected(),
{
    let extension_height: usize = if extension_height <= main_height - 1 {
        extension_height
    } else {
        main_height - 1
    };
    let main_rect = centered(main_width, main_height);
    let extension_rect = RoomRect {
        x: main_rect.x + (main_width as i32) - 1,
        y: main_rect.y,
        width: extension_width + 1,
        height: extension_height,
    };
    let mut rectangles: Vec<RoomRect> = Vec::new();
    rectangles.push(main_rect);
    rectangles.push(extension_rect);
    proof {
        let expected = l_shape_rects(
            main_width as int,
            main_height as int,
            extension_width as int,
            extension_height as int,
        );
        assert(rectangles@ =~= expected);
        if main_height >= 2 {
            l_shape_is_connected(
                main_width as int,
                main_height as int,
                extension_width as int,
                extension_height as int,
            );
        }
    }
    CompoundRoom { rectangles, room_type: CompoundRoomType::LShape }
}

/// A T-shaped room of the given dimensions: the bar first, then the stem.
/// The stem is cut down to two columns less than the bar where it was asked
/// wider. With a bar of three columns or more the room is well formed and
/// in one piece.
pub fn t_shape_room(
    top_width: usize,
    top_height: usize,
    stem_width: usize,
    stem_height: usize,
) -> (room: CompoundRoom)
    requires
        buildable(top_width as int),
        buildable(top_height as int),
        buildable(stem_width as int),
        buildable(stem_height as int),
        top_width >= 2,
    ensures
        room.room_type == CompoundRoomType::TShape,
        room.rectangles@ == t_shape_rects(
            top_width as int,
            top_height as int,
            stem_width as int,
            stem_height as int,
        ),
        top_width >= 3 ==> room.well_formed() && room.connected(),
{
    let stem_width: usize = if stem_width <= top_width - 2 {
        stem_width
    } else {
        top_width - 2
    };
    let stem_rect = centered(stem_width, stem_height);
    let top_rect = RoomRect {
        x: -((top_width / 2) as i32),
        y: stem_rect.y + (stem_height as i32) - 1,
        width: top_width,
        height: top_height,
    };
    let mut rectangles: Vec<RoomRect> = Vec::new();
    rectangles.push(top_rect);
    rectangles.push(stem_rect);
    proof {
        let expected = t_shape_rects(
            top_width as int,
            top_height as int,
            stem_width as int,
            stem_height as int,
        );
        assert(rectangles@ =~= expected);
        if top_width >= 3 {
            t_shape_is_connected(
                top_width as int,
                top_height as int,
                stem_width as int,
                stem_height as int,
            );
        }
    }
    CompoundRoom { rectangles, room_type: CompoundRoomType::TShape }
}

/// A plus-shaped room of the given dimensions: the center, then the top,
/// bottom, left and right arms. The arms are cut down to one cell less than
/// the center's smaller side where they were asked thicker. With a center
/// of two cells or more each way the room is well formed and in one piece.
pub fn plus_shape_room(
    center_width: usize,
    center_height: usize,
    arm_length: usize,
    arm_width: usize,
) -> (room: CompoundRoom)
    requires
        buildable(center_width as int),
        buildable(center_height as int),
        buildable(arm_length as int),
        buildable(arm_width as int),
    ensures
        room.room_type == CompoundRoomType::Plus,
        room.rectangles@ == plus_shape_rects(
            center_width as int,
            center_height as int,
            arm_length as int,
            arm_width as int,
        ),
        center_width >= 2 && center_height >= 2 ==> room.well_formed() && room.connected(),
{
    let arm_width: usize = if arm_width <= center_width - 1 {
        arm_width
    } else {
        center_width - 1
    };
    let arm_width: usize = if arm_width <= center_height - 1 {
        arm_width
    } else {
        center_height - 1
    };
    let half_width: i32 = (center_width / 2) as i32;
    let half_height: i32 = (center_height / 2) as i32;
    let half_arm: i32 = (arm_width / 2) as i32;
    let reach: i32 = arm_length as i32;
    let center_rect = centered(center_width, center_height);
    let top_arm = RoomRect {
        x: -half_arm,
        y: center_rect.y + (center_height as i32) - 1,
        width: arm_width,
        height: arm_length + 1,
    };
    let bottom_arm = RoomRect {
        x: -half_arm,
        y: -(half_height + reach),
        width: arm_width,
        height: arm_length + 1,
    };
    let left_arm = RoomRect {
        x: -(half_width + reach),
        y: -half_arm,
        width: arm_length + 1,
        height: arm_width,
    };
    let right_arm = RoomRect {
        x: center_rect.x + (center_width as i32) - 1,
        y: -half_arm,
        width: arm_length + 1,
        height: arm_width,
    };
    let mut rectangles: Vec<RoomRect> = Vec::new();
    rectangles.push(center_rect);
    rectangles.push(top_arm);
    rectangles.push(bottom_arm);
    rectangles.push(left_arm);
    rectangles.push(right_arm);
    proof {
        let expected = plus_shape_rects(
            center_width as int,
            center_height as int,
            arm_length as int,
            arm_width as int,
        );
        assert(rectangles@ =~= expected);
        if center_width >= 2 && center_height >= 2 {
            plus_shape_is_connected(
                center_width as int,
                center_height as int,
                arm_length as int,
                arm_width as int,
            );
        }
    }
    CompoundRoom { rectangles, room_type: CompoundRoomType::Plus }
}

/// The rectangles are those of a plain room whose width was drawn from
/// 8 to 14 and whose height from 6 to 9.
pub open spec fn drawn_rectangle(rectangles: Seq<RoomRect>) -> bool {
    exists|width: int, height: int|
        8 <= width < 15 && 6 <= height < 10 && rectangles == #[trigger] rectangle_rects(
            width,
            height,
        )
}

/// The rectangles are those of an L-shaped room whose main piece was drawn
/// 6 to 9 wide and 8 to 11 high, and whose extension was drawn 5 to 8 wide
/// and 4 to 6 high.
pub open spec fn drawn_l_shape(rectangles: Seq<RoomRect>) -> bool {
    exists|main_width: int, main_height: int, extension_width: int, extension_height: int|
        6 <= main_width < 10 && 8 <= main_height < 12 && 5 <= extension_width < 9 && 4
            <= extension_height < 7 && rectangles == #[trigger] l_shape_rects(
            main_width,
            main_height,
            extension_width,
            extension_height,
        )
}

/// The rectangles are those of a T-shaped room whose bar was drawn 10 to 13
/// wide and 4 to 5 high, and whose stem was drawn 4 to 6 wide and 6 to 9
/// high.
pub open spec fn drawn_t_shape(rectangles: Seq<RoomRect>) -> bool {
    exists|top_width: int, top_height: int, stem_width: int, stem_height: int|
        10 <= top_width < 14 && 4 <= top_height < 6 && 4 <= stem_width < 7 && 6 <= stem_height
            < 10 && rectangles == #[trigger] t_shape_rects(
            top_width,
            top_height,
            stem_width,
            stem_height,
        )
}

/// The rectangles are those of a plus-shaped room whose center was drawn 6
/// to 7 wide and high, and whose arms were drawn 4 to 6 long and 3 to 4
/// thick.
pub open spec fn drawn_plus_shape(rectangles: Seq<RoomRect>) -> bool {
    exists|center_width: int, center_height: int, arm_length: int, arm_width: int|
        6 <= center_width < 8 && 6 <= center_height < 8 && 4 <= arm_length < 7 && 3 <= arm_width
            < 5 && rectangles == #[trigger] plus_shape_rects(
            center_width,
            center_height,
            arm_length,
            arm_width,
        )
}

/// The room is one that random generation can produce: its rectangles come
/// from dimensions in the ranges of its topology. No custom room is.
pub open spec fn drawn_room(room: CompoundRoom) -> bool {
    match room.room_type {
        CompoundRoomType::Rectangle => drawn_rectangle(room.rectangles@),
        CompoundRoomType::LShape => drawn_l_shape(room.rectangles@),
        CompoundRoomType::TShape => drawn_t_shape(room.rectangles@),
        CompoundRoomType::Plus => drawn_plus_shape(room.rectangles@),
        CompoundRoomType::Custom => false,
    }
}

/// Whatever the draws, a generated room has the number of rectangles its
/// topology asks for, all with positive sides, and every rectangle shares a
/// cell with the anchor: no room in pieces can come out of the ranges.
pub proof fn drawn_rooms_are_connected(room: CompoundRoom)
    requires
        drawn_room(room),
    ensures
        room.well_formed(),
        room.connected(),
{
    match room.room_type {
        CompoundRoomType::Rectangle => {
            let (width, height) = choose|width: int, height: int|
                8 <= width < 15 && 6 <= height < 10 && room.rectangles@
                    == #[trigger] rectangle_rects(width, height);
            rectangle_is_placed(width, height);
        },
        CompoundRoomType::LShape => {
            let (mw, mh, ew, eh) = choose|mw: int, mh: int, ew: int, eh: int|
                6 <= mw < 10 && 8 <= mh < 12 && 5 <= ew < 9 && 4 <= eh < 7 && room.rectangles@
                    == #[trigger] l_shape_rects(mw, mh, ew, eh);
            l_shape_is_connected(mw, mh, ew, eh);
        },
        CompoundRoomType::TShape => {
            let (tw, th, sw, sh) = choose|tw: int, th: int, sw: int, sh: int|
                10 <= tw < 14 && 4 <= th < 6 && 4 <= sw < 7 && 6 <= sh < 10 && room.rectangles@
                    == #[trigger] t_shape_rects(tw, th, sw, sh);
            t_shape_is_connected(tw, th, sw, sh);
        },
        CompoundRoomType::Plus => {
            let (cw, ch, al, aw) = choose|cw: int, ch: int, al: int, aw: int|
                6 <= cw < 8 && 6 <= ch < 8 && 4 <= al < 7 && 3 <= aw < 5 && room.rectangles@
                    == #[trigger] plus_shape_rects(cw, ch, al, aw);
            plus_shape_is_connected(cw, ch, al, aw);
        },
        CompoundRoomType::Custom => {},
    }
}

/// The topology that a draw from 0 to 99 selects: thirty of the hundred
/// values give a plain rectangle, twenty-five an L, twenty-five a T and
/// twenty a plus.
pub open spec fn room_type_of_draw(draw: int) -> CompoundRoomType {
    if draw < 30 {
        CompoundRoomType::Rectangle
    } else if draw < 55 {
        CompoundRoomType::LShape
    } else if draw < 80 {
        CompoundRoomType::TShape
    } else {
        CompoundRoomType::Plus
    }
}

/// The topology selected by a draw from 0 to 99.
pub fn pick_room_type(draw: usize) -> (room_type: CompoundRoomType)
    requires
        draw < 100,
    ensures
        room_type == room_type_of_draw(draw as int),
{
    if draw < 30 {
        CompoundRoomType::Rectangle
    } else if draw < 55 {
        CompoundRoomType::LShape
    } else if draw < 80 {
        CompoundRoomType::TShape
    } else {
        CompoundRoomType::Plus
    }
}

/// Draws the sides of a plain room and builds it.
pub fn generate_rectangle_room(rng: &mut ThreadRng) -> (room: CompoundRoom)
    ensures
        room.room_type == CompoundRoomType::Rectangle,
        drawn_room(room),
        room.well_formed(),
        room.connected(),
{
    let width: usize = draw_in_range(rng, 8, 15);
    let height: usize = draw_in_range(rng, 6, 10);
    let room = rectangle_room(width, height);
    assert(room.rectangles@ == rectangle_rects(width as int, height as int));
    room
}

/// Draws the dimensions of an L-shaped room and builds it.
pub fn generate_l_shape_room(rng: &mut ThreadRng) -> (room: CompoundRoom)
    ensures
        room.room_type == CompoundRoomType::LShape,
        drawn_room(room),
        room.well_formed(),
        room.connected(),
{
    let main_width: usize = draw_in_range(rng, 6, 10);
    let main_height: usize = draw_in_range(rng, 8, 12);
    let extension_width: usize = draw_in_range(rng, 5, 9);
    let extension_height: usize = draw_in_range(rng, 4, 7);
    let room = l_shape_room(main_width, main_height, extension_width, extension_height);
    assert(room.rectangles@ == l_shape_rects(
        main_width as int,
        main_height as int,
        extension_width as int,
        extension_height as int,
    ));
    room
}

/// Draws the dimensions of a T-shaped room and builds it.
pub fn generate_t_shape_room(rng: &mut ThreadRng) -> (room: CompoundRoom)
    ensures
        room.room_type == CompoundRoomType::TShape,
        drawn_room(room),
        room.well_formed(),
        room.connected(),
{
    let top_width: usize = draw_in_range(rng, 10, 14);
    let top_height: usize = draw_in_range(rng, 4, 6);
    let stem_width: usize = draw_in_range(rng, 4, 7);
    let stem_height: usize = draw_in_range(rng, 6, 10);
    let room = t_shape_room(top_width, top_height, stem_width, stem_height);
    assert(room.rectangles@ == t_shape_rects(
        top_width as int,
        top_height as int,
        stem_width as int,
        stem_height as int,
    ));
    room
}

/// Draws the dimensions of a plus-shaped room and builds it.
pub fn generate_plus_shape_room(rng: &mut ThreadRng) -> (room: CompoundRoom)
    ensures
        room.room_type == CompoundRoomType::Plus,
        drawn_room(room),
        room.well_formed(),
        room.connected(),
{
    let center_width: usize = draw_in_range(rng, 6, 8);
    let center_height: usize = draw_in_range(rng, 6, 8);
    let arm_length: usize = draw_in_range(rng, 4, 7);
    let arm_width: usize = draw_in_range(rng, 3, 5);
    let room = plus_shape_room(center_width, center_height, arm_length, arm_width);
    assert(room.rectangles@ == plus_shape_rects(
        center_width as int,
        center_height as int,
        arm_length as int,
        arm_width as int,
    ));
    room
}

/// Draws a topology, thirty times in a hundred a plain rectangle,
/// twenty-five an L, twenty-five a T and twenty a plus, and then a room of
/// that topology.
pub fn generate_room(rng: &mut ThreadRng) -> (room: CompoundRoom)
    ensures
        drawn_room(room),
        room.well_formed(),
        room.connected(),
{
    let draw: usize = draw_in_range(rng, 0, 100);
    room_of_draw(draw, rng)
}

/// Draws a room of the topology that `draw` selects.
pub fn room_of_draw(draw: usize, rng: &mut ThreadRng) -> (room: CompoundRoom)
    requires
        draw < 100,
    ensures
        room.room_type == room_type_of_draw(draw as int),
        drawn_room(room),
        room.well_formed(),
        room.connected(),
{
    match pick_room_type(draw) {
        CompoundRoomType::Rectangle => generate_rectangle_room(rng),
        CompoundRoomType::LShape => generate_l_shape_room(rng),
        CompoundRoomType::TShape => generate_t_shape_room(rng),
        _ => generate_plus_shape_room(rng),
    }
}

} // verus!
