use tile_rooms::generator::{
    generate_l_shape_room, generate_plus_shape_room, generate_rectangle_room, generate_room,
    generate_t_shape_room, l_shape_room, pick_room_type, plus_shape_room, rectangle_room,
    room_of_draw, t_shape_room,
};
use tile_rooms::shape::{CompoundRoom, CompoundRoomType, RoomRect};

fn rect(x: i32, y: i32, width: usize, height: usize) -> RoomRect {
    RoomRect { x, y, width, height }
}

fn shared(a_start: i32, a_len: usize, b_start: i32, b_len: usize) -> i64 {
    let a_end = a_start as i64 + a_len as i64;
    let b_end = b_start as i64 + b_len as i64;
    a_end.min(b_end) - (a_start as i64).max(b_start as i64)
}

fn overlaps(a: &RoomRect, b: &RoomRect) -> bool {
    shared(a.x, a.width, b.x, b.width) >= 1 && shared(a.y, a.height, b.y, b.height) >= 1
}

fn assert_in_one_piece(room: &CompoundRoom) {
    let expected = match room.room_type {
        CompoundRoomType::Rectangle => 1,
        CompoundRoomType::LShape | CompoundRoomType::TShape => 2,
        CompoundRoomType::Plus => 5,
        CompoundRoomType::Custom => panic!("no custom room is generated"),
    };
    assert_eq!(room.rectangles.len(), expected);
    for piece in &room.rectangles {
        assert!(piece.width >= 1 && piece.height >= 1);
    }
    for piece in &room.rectangles[1..] {
        assert!(overlaps(&room.rectangles[0], piece), "{:?}", room);
    }
}

#[test]
fn rectangle_room_is_centered() {
    let room = rectangle_room(8, 6);
    assert_eq!(room.room_type, CompoundRoomType::Rectangle);
    assert_eq!(room.rectangles, vec![rect(-4, -3, 8, 6)]);
    let odd = rectangle_room(9, 7);
    assert_eq!(odd.rectangles, vec![rect(-4, -3, 9, 7)]);
}

#[test]
fn l_shape_with_given_dimensions() {
    let room = l_shape_room(8, 10, 6, 9);
    assert_eq!(room.room_type, CompoundRoomType::LShape);
    assert_eq!(room.rectangles, vec![rect(-4, -5, 8, 10), rect(3, -5, 7, 9)]);
}

#[test]
fn l_shape_extension_is_cut_below_the_main_height() {
    let room = l_shape_room(6, 8, 5, 12);
    assert_eq!(room.rectangles[1], rect(2, -4, 6, 7));
    let low = l_shape_room(7, 9, 8, 4);
    assert_eq!(low.rectangles, vec![rect(-3, -4, 7, 9), rect(3, -4, 9, 4)]);
}

#[test]
fn l_shape_shares_exactly_one_column() {
    let room = l_shape_room(9, 11, 8, 6);
    let main = &room.rectangles[0];
    let extension = &room.rectangles[1];
    assert_eq!(shared(main.x, main.width, extension.x, extension.width), 1);
    assert_eq!(shared(main.y, main.height, extension.y, extension.height), 6);
}

#[test]
fn t_shape_with_given_dimensions() {
    let room = t_shape_room(10, 4, 4, 6);
    assert_eq!(room.room_type, CompoundRoomType::TShape);
    assert_eq!(room.rectangles, vec![rect(-5, 2, 10, 4), rect(-2, -3, 4, 6)]);
    let odd = t_shape_room(13, 5, 6, 9);
    assert_eq!(odd.rectangles, vec![rect(-6, 4, 13, 5), rect(-3, -4, 6, 9)]);
    let tall = t_shape_room(10, 4, 4, 7);
    assert_eq!(tall.rectangles, vec![rect(-5, 3, 10, 4), rect(-2, -3, 4, 7)]);
}

#[test]
fn t_shape_stem_is_cut_to_two_less_than_the_bar() {
    let room = t_shape_room(5, 4, 6, 7);
    assert_eq!(room.rectangles[1], rect(-1, -3, 3, 7));
}

#[test]
fn plus_shape_with_given_dimensions() {
    let room = plus_shape_room(6, 6, 4, 3);
    assert_eq!(room.room_type, CompoundRoomType::Plus);
    assert_eq!(
        room.rectangles,
        vec![
            rect(-3, -3, 6, 6),
            rect(-1, 2, 3, 5),
            rect(-1, -7, 3, 5),
            rect(-7, -1, 5, 3),
            rect(2, -1, 5, 3),
        ]
    );
}

#[test]
fn plus_shape_arms_are_cut_below_the_center() {
    let room = plus_shape_room(7, 4, 6, 9);
    assert_eq!(room.rectangles[0], rect(-3, -2, 7, 4));
    assert_eq!(room.rectangles[1], rect(-1, 1, 3, 7));
    assert_eq!(room.rectangles[2], rect(-1, -8, 3, 7));
    assert_eq!(room.rectangles[3], rect(-9, -1, 7, 3));
    assert_eq!(room.rectangles[4], rect(3, -1, 7, 3));
    let odd = plus_shape_room(7, 7, 4, 3);
    assert_eq!(
        odd.rectangles,
        vec![
            rect(-3, -3, 7, 7),
            rect(-1, 3, 3, 5),
            rect(-1, -7, 3, 5),
            rect(-7, -1, 5, 3),
            rect(3, -1, 5, 3),
        ]
    );
}

#[test]
fn every_attached_piece_shares_exactly_one_line_of_cells() {
    for center_width in 6..8 {
        for center_height in 6..8 {
            for arm_length in 4..7 {
                for arm_width in 3..5 {
                    let room = plus_shape_room(center_width, center_height, arm_length, arm_width);
                    let center = room.rectangles[0];
                    let [top, bottom, left, right] =
                        [room.rectangles[1], room.rectangles[2], room.rectangles[3], room.rectangles[4]];
                    assert_eq!(top.y, center.y + center.height as i32 - 1);
                    assert_eq!(bottom.y + bottom.height as i32 - 1, center.y);
                    assert_eq!(left.x + left.width as i32 - 1, center.x);
                    assert_eq!(right.x, center.x + center.width as i32 - 1);
                    assert_eq!(shared(center.y, center.height, top.y, top.height), 1);
                    assert_eq!(shared(center.y, center.height, bottom.y, bottom.height), 1);
                    assert_eq!(shared(center.x, center.width, left.x, left.width), 1);
                    assert_eq!(shared(center.x, center.width, right.x, right.width), 1);
                }
            }
        }
    }
    for stem_height in 6..10 {
        for top_height in 4..6 {
            let room = t_shape_room(12, top_height, 5, stem_height);
            let top = room.rectangles[0];
            let stem = room.rectangles[1];
            assert_eq!(top.y, stem.y + stem.height as i32 - 1);
            assert_eq!(shared(top.y, top.height, stem.y, stem.height), 1);
        }
    }
}

#[test]
fn exact_rooms_in_every_range_are_in_one_piece() {
    for main_width in 6..10 {
        for main_height in 8..12 {
            for extension_width in 5..9 {
                for extension_height in 4..7 {
                    assert_in_one_piece(&l_shape_room(
                        main_width,
                        main_height,
                        extension_width,
                        extension_height,
                    ));
                }
            }
        }
    }
    for top_width in 10..14 {
        for top_height in 4..6 {
            for stem_width in 4..7 {
                for stem_height in 6..10 {
                    assert_in_one_piece(&t_shape_room(
                        top_width,
                        top_height,
                        stem_width,
                        stem_height,
                    ));
                }
            }
        }
    }
    for center_width in 6..8 {
        for center_height in 6..8 {
            for arm_length in 4..7 {
                for arm_width in 3..5 {
                    assert_in_one_piece(&plus_shape_room(
                        center_width,
                        center_height,
                        arm_length,
                        arm_width,
                    ));
                }
            }
        }
    }
    for width in 8..15 {
        for height in 6..10 {
            assert_in_one_piece(&rectangle_room(width, height));
        }
    }
}

#[test]
fn draws_select_topologies_in_the_stated_shares() {
    let mut counts = [0usize; 4];
    for draw in 0..100 {
        match pick_room_type(draw) {
            CompoundRoomType::Rectangle => counts[0] += 1,
            CompoundRoomType::LShape => counts[1] += 1,
            CompoundRoomType::TShape => counts[2] += 1,
            CompoundRoomType::Plus => counts[3] += 1,
            CompoundRoomType::Custom => panic!("never drawn"),
        }
    }
    assert_eq!(counts, [30, 25, 25, 20]);
    assert_eq!(pick_room_type(0), CompoundRoomType::Rectangle);
    assert_eq!(pick_room_type(29), CompoundRoomType::Rectangle);
    assert_eq!(pick_room_type(30), CompoundRoomType::LShape);
    assert_eq!(pick_room_type(54), CompoundRoomType::LShape);
    assert_eq!(pick_room_type(55), CompoundRoomType::TShape);
    assert_eq!(pick_room_type(79), CompoundRoomType::TShape);
    assert_eq!(pick_room_type(80), CompoundRoomType::Plus);
    assert_eq!(pick_room_type(99), CompoundRoomType::Plus);
}

#[test]
fn generated_rectangles_stay_in_range_and_vary() {
    let mut rng = rand::thread_rng();
    let mut widths = std::collections::BTreeSet::new();
    for _ in 0..400 {
        let room = generate_rectangle_room(&mut rng);
        assert_eq!(room.room_type, CompoundRoomType::Rectangle);
        assert_in_one_piece(&room);
        let piece = room.rectangles[0];
        assert!((8..15).contains(&piece.width));
        assert!((6..10).contains(&piece.height));
        assert_eq!(piece.x, -((piece.width / 2) as i32));
        assert_eq!(piece.y, -((piece.height / 2) as i32));
        widths.insert(piece.width);
    }
    assert!(widths.len() > 1);
}

#[test]
fn generated_l_shapes_stay_in_range() {
    let mut rng = rand::thread_rng();
    for _ in 0..300 {
        let room = generate_l_shape_room(&mut rng);
        assert_eq!(room.room_type, CompoundRoomType::LShape);
        assert_in_one_piece(&room);
        let main = room.rectangles[0];
        let extension = room.rectangles[1];
        assert!((6..10).contains(&main.width));
        assert!((8..12).contains(&main.height));
        assert!((6..10).contains(&extension.width));
        assert!((4..7).contains(&extension.height));
        assert!(extension.height <= main.height - 1);
        assert_eq!(extension.x, main.x + main.width as i32 - 1);
        assert_eq!(extension.y, main.y);
    }
}

#[test]
fn generated_t_shapes_stay_in_range() {
    let mut rng = rand::thread_rng();
    for _ in 0..300 {
        let room = generate_t_shape_room(&mut rng);
        assert_eq!(room.room_type, CompoundRoomType::TShape);
        assert_in_one_piece(&room);
        let top = room.rectangles[0];
        let stem = room.rectangles[1];
        assert!((10..14).contains(&top.width));
        assert!((4..6).contains(&top.height));
        assert!((4..7).contains(&stem.width));
        assert!((6..10).contains(&stem.height));
        assert!(stem.width <= top.width - 2);
        assert_eq!(top.y, stem.y + stem.height as i32 - 1);
    }
}

#[test]
fn generated_plus_shapes_stay_in_range() {
    let mut rng = rand::thread_rng();
    for _ in 0..300 {
        let room = generate_plus_shape_room(&mut rng);
        assert_eq!(room.room_type, CompoundRoomType::Plus);
        assert_in_one_piece(&room);
        let center = room.rectangles[0];
        assert!((6..8).contains(&center.width));
        assert!((6..8).contains(&center.height));
        let top = room.rectangles[1];
        assert!((3..5).contains(&top.width));
        assert!((5..8).contains(&top.height));
        assert!(top.width <= center.width - 1 && top.width <= center.height - 1);
    }
}

#[test]
fn generated_rooms_of_any_topology_are_in_one_piece() {
    let mut rng = rand::thread_rng();
    let mut seen = std::collections::BTreeSet::new();
    for _ in 0..400 {
        let room = generate_room(&mut rng);
        assert_in_one_piece(&room);
        seen.insert(format!("{:?}", room.room_type));
    }
    assert!(seen.len() > 1);
}

#[test]
fn room_of_draw_has_the_topology_of_the_draw() {
    let mut rng = rand::thread_rng();
    for draw in 0..100 {
        let room = room_of_draw(draw, &mut rng);
        assert_eq!(room.room_type, pick_room_type(draw));
        assert_in_one_piece(&room);
    }
}
