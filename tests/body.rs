use snake::geometry::{direction_between, Direction, SnakePart};
use snake::orientation::{Axis, Corner, Role};
use snake::snake::Snake;

fn parts(s: &Snake) -> Vec<(i32, i32)> {
    s.snake_parts.iter().map(|p| (p.x, p.y)).collect()
}

fn assert_adjacent(s: &Snake) {
    let ps = parts(s);
    for w in ps.windows(2) {
        let (dx, dy) = ((w[0].0 - w[1].0).abs(), (w[0].1 - w[1].1).abs());
        assert_eq!(dx + dy, s.speed);
        assert!((dx == 0) != (dy == 0));
    }
}

#[test]
fn new_body_is_a_row_heading_right() {
    let s = Snake::new(80, 0);
    assert_eq!(parts(&s), vec![(80, 0), (40, 0), (0, 0)]);
    assert_eq!(s.heading, Direction::Right);
    assert_eq!(s.speed, 40);
    assert!(!s.growing);
}

#[test]
fn step_drops_tail_and_adds_head() {
    let mut s = Snake::new(80, 0);
    s.slither();
    assert_eq!(parts(&s), vec![(120, 0), (80, 0), (40, 0)]);
}

#[test]
fn growing_step_keeps_tail() {
    let mut s = Snake::new(80, 0);
    s.grow();
    assert_eq!(parts(&s), vec![(80, 0), (40, 0), (0, 0)]);
    s.slither();
    assert_eq!(parts(&s), vec![(120, 0), (80, 0), (40, 0), (0, 0)]);
    assert!(!s.growing);
    s.slither();
    assert_eq!(parts(&s).len(), 4);
}

#[test]
fn each_heading_moves_by_one_step() {
    let cases = [
        (Direction::Up, (200, 160)),
        (Direction::Down, (200, 240)),
        (Direction::Left, (160, 200)),
        (Direction::Right, (240, 200)),
    ];
    for (d, head) in cases {
        let mut s = Snake::new(200, 200);
        s.change_direction(d);
        assert_eq!(s.heading, d);
        s.slither();
        assert_eq!(parts(&s)[0], head);
    }
}

#[test]
fn segments_stay_one_step_apart() {
    let mut s = Snake::new(400, 400);
    let turns = [
        Direction::Down,
        Direction::Down,
        Direction::Left,
        Direction::Up,
        Direction::Up,
        Direction::Right,
        Direction::Right,
        Direction::Down,
    ];
    for (k, d) in turns.iter().enumerate() {
        s.change_direction(*d);
        if k % 3 == 0 {
            s.grow();
        }
        s.slither();
        assert_adjacent(&s);
    }
    assert_eq!(parts(&s).len(), 6);
}

#[test]
fn reversing_into_neck_bites_at_once() {
    let mut s = Snake::new(280, 80);
    s.grow();
    s.slither();
    assert_eq!(parts(&s).len(), 4);
    assert!(!s.is_self_collision());
    s.change_direction(Direction::Left);
    s.slither();
    assert!(s.is_self_collision());
}

#[test]
fn three_segments_reversing_also_bite() {
    let mut s = Snake::new(280, 80);
    s.change_direction(Direction::Left);
    s.slither();
    assert!(s.is_self_collision());
}

#[test]
fn loop_of_four_turns_is_no_bite() {
    let mut s = Snake::new(280, 80);
    for d in [Direction::Down, Direction::Left, Direction::Up] {
        s.change_direction(d);
        s.slither();
        assert!(!s.is_self_collision());
    }
}

#[test]
fn wall_bounds_are_exclusive_of_far_edge() {
    let s = Snake::new(1760, 1160);
    assert!(!s.is_wall_collision(1800, 1200));
    assert!(s.is_wall_collision(1760, 1200));
    assert!(s.is_wall_collision(1800, 1160));
    let mut t = Snake::new(80, 0);
    t.change_direction(Direction::Up);
    t.slither();
    assert!(t.is_wall_collision(1800, 1200));
    let mut u = Snake::new(0, 40);
    u.change_direction(Direction::Left);
    u.slither();
    assert!(u.is_wall_collision(1800, 1200));
}

#[test]
fn head_part_is_first_segment() {
    let s = Snake::new(120, 40);
    assert_eq!(s.head_part(), SnakePart { x: 120, y: 40 });
}

#[test]
fn direction_between_compares_coordinates() {
    let o = SnakePart { x: 40, y: 40 };
    assert_eq!(direction_between(&o, &SnakePart { x: 80, y: 40 }), Direction::Right);
    assert_eq!(direction_between(&o, &SnakePart { x: 0, y: 40 }), Direction::Left);
    assert_eq!(direction_between(&o, &SnakePart { x: 40, y: 80 }), Direction::Down);
    assert_eq!(direction_between(&o, &SnakePart { x: 40, y: 0 }), Direction::Up);
}

#[test]
fn roles_of_a_straight_body() {
    let s = Snake::new(280, 80);
    assert_eq!(s.role_at(0), Role::Head(Direction::Right));
    assert_eq!(s.role_at(1), Role::Straight(Axis::Horizontal));
    assert_eq!(s.role_at(2), Role::Tail(Direction::Right));
}

#[test]
fn roles_after_a_turn() {
    let mut s = Snake::new(280, 80);
    s.change_direction(Direction::Down);
    s.slither();
    // (280,120) head, (280,80) bend, (240,80) tail
    assert_eq!(s.role_at(0), Role::Head(Direction::Down));
    assert_eq!(s.role_at(1), Role::Bend(Corner::BottomLeft));
    assert_eq!(s.role_at(2), Role::Tail(Direction::Right));
    s.slither();
    assert_eq!(s.role_at(1), Role::Straight(Axis::Vertical));
    assert_eq!(s.role_at(2), Role::Tail(Direction::Down));
}

#[test]
fn single_segment_body_is_all_head() {
    let mut s = Snake::new(280, 80);
    s.snake_parts.truncate(1);
    s.change_direction(Direction::Up);
    assert_eq!(s.role_at(0), Role::Head(Direction::Up));
    assert!(!s.is_self_collision());
}
