use snake::food::Food;
use snake::geometry::{rects_overlap, Direction, SCREEN_HEIGHT, SCREEN_WIDTH, SPRITE_TILE_SIZE};
use snake::orientation::{body_role, Axis, Corner, Role};
use snake::snake::Snake;
use snake::sprites::{SnakeParts, FOOD_SPRITE};

const ALL: [Direction; 4] = [Direction::Up, Direction::Down, Direction::Right, Direction::Left];

#[test]
fn edge_sharing_rects_do_not_overlap() {
    assert!(!rects_overlap(0, 0, 40, 40, 40, 0, 40, 40));
    assert!(!rects_overlap(40, 0, 40, 40, 0, 0, 40, 40));
    assert!(!rects_overlap(0, 0, 40, 40, 0, 40, 40, 40));
    assert!(!rects_overlap(0, 40, 40, 40, 0, 0, 40, 40));
    assert!(!rects_overlap(0, 0, 40, 40, 40, 40, 40, 40));
}

#[test]
fn interior_overlap_is_detected() {
    assert!(rects_overlap(0, 0, 40, 40, 20, 0, 40, 40));
    assert!(rects_overlap(0, 0, 40, 40, 39, 39, 40, 40));
    assert!(rects_overlap(10, 10, 5, 5, 0, 0, 40, 40));
    assert!(!rects_overlap(0, 0, 40, 40, 100, 0, 40, 40));
}

#[test]
fn extreme_rects_do_not_overflow() {
    assert!(!rects_overlap(i32::MAX, 0, i32::MAX, 10, i32::MIN, 0, 10, 10));
    assert!(rects_overlap(i32::MAX - 5, 0, 10, 10, i32::MAX - 1, 5, 10, 10));
}

#[test]
fn food_under_head_counts_as_eaten() {
    let food = Food::at(40, 40);
    assert!(food.is_snake_collision(&Snake::new(40, 40)));
    assert!(!Food::at(80, 40).is_snake_collision(&Snake::new(40, 40)));
    assert!(Food::at(79, 79).is_snake_collision(&Snake::new(40, 40)));
}

#[test]
fn random_food_lies_inside_the_field() {
    let mut seen = Vec::new();
    for _ in 0..50 {
        let f = Food::new();
        assert!(f.pos_x >= 0 && f.pos_x < SCREEN_WIDTH - SPRITE_TILE_SIZE);
        assert!(f.pos_y >= 0 && f.pos_y < SCREEN_HEIGHT - SPRITE_TILE_SIZE);
        seen.push((f.pos_x, f.pos_y));
    }
    assert!(seen.iter().any(|p| *p != seen[0]));
    assert!(seen.iter().any(|p| p.0 != 0));
}

#[test]
fn every_pair_of_headings_has_a_tile() {
    for a in ALL {
        for b in ALL {
            let r = body_role(a, b);
            let va = matches!(a, Direction::Up | Direction::Down);
            let vb = matches!(b, Direction::Up | Direction::Down);
            if va == vb {
                let axis = if va { Axis::Vertical } else { Axis::Horizontal };
                assert_eq!(r, Role::Straight(axis));
            } else {
                assert!(matches!(r, Role::Bend(_)));
            }
        }
    }
}

#[test]
fn bend_table() {
    let cases = [
        (Direction::Up, Direction::Right, Corner::BottomRight),
        (Direction::Left, Direction::Down, Corner::BottomRight),
        (Direction::Up, Direction::Left, Corner::BottomLeft),
        (Direction::Right, Direction::Down, Corner::BottomLeft),
        (Direction::Right, Direction::Up, Corner::TopLeft),
        (Direction::Down, Direction::Left, Corner::TopLeft),
        (Direction::Down, Direction::Right, Corner::TopRight),
        (Direction::Left, Direction::Up, Corner::TopRight),
    ];
    for (a, b, c) in cases {
        assert_eq!(body_role(a, b), Role::Bend(c));
    }
}

#[test]
fn sprite_sheet_layout() {
    let sheet = SnakeParts::new();
    assert_eq!(sheet.sprite_index(Role::Tail(Direction::Down)), 0);
    assert_eq!(sheet.sprite_index(Role::Tail(Direction::Left)), 1);
    assert_eq!(sheet.sprite_index(Role::Tail(Direction::Right)), 2);
    assert_eq!(sheet.sprite_index(Role::Tail(Direction::Up)), 3);
    assert_eq!(sheet.sprite_index(Role::Head(Direction::Up)), 4);
    assert_eq!(sheet.sprite_index(Role::Head(Direction::Right)), 5);
    assert_eq!(sheet.sprite_index(Role::Head(Direction::Left)), 6);
    assert_eq!(sheet.sprite_index(Role::Head(Direction::Down)), 7);
    assert_eq!(sheet.sprite_index(Role::Straight(Axis::Vertical)), 8);
    assert_eq!(sheet.sprite_index(Role::Bend(Corner::TopRight)), 9);
    assert_eq!(sheet.sprite_index(Role::Bend(Corner::TopLeft)), 10);
    assert_eq!(sheet.sprite_index(Role::Straight(Axis::Horizontal)), 11);
    assert_eq!(sheet.sprite_index(Role::Bend(Corner::BottomRight)), 12);
    assert_eq!(sheet.sprite_index(Role::Bend(Corner::BottomLeft)), 13);
    assert_eq!(sheet.body_bottomleft.pos_y, 520);
    assert_eq!(sheet.tail_right.pos_y, 40);
    assert_eq!(FOOD_SPRITE, 14);
}
