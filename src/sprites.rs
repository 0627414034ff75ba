use vstd::prelude::*;
use crate::geometry::{Direction, SPRITE_TILE_SIZE};
use crate::orientation::{Axis, Corner, Role};

verus! {

/// Sprite of the food in the sheet, drawn after the fourteen body tiles.
pub const FOOD_SPRITE: usize = 14;

/// Where one tile sits in the sprite sheet: its number among the sheet's
/// sprites, and the row of pixels at which its square starts.
#[derive(Clone, Copy, Debug, PartialEq, Eq, Structural)]
pub struct SnakePartSpriteLocation {
    pub index: usize,
    pub pos_y: i32,
}

/// The sheet's tiles for every look of a segment. Tail tiles are named by the
/// way their tip points, which is away from the rest of the body.
#[derive(Clone, Copy, Debug, PartialEq, Eq, Structural)]
pub struct SnakeParts {
    pub tail_up: SnakePartSpriteLocation,
    pub tail_right: SnakePartSpriteLocation,
    pub tail_left: SnakePartSpriteLocation,
    pub tail_down: SnakePartSpriteLocation,
    pub head_up: SnakePartSpriteLocation,
    pub head_right: SnakePartSpriteLocation,
    pub head_left: SnakePartSpriteLocation,
    pub head_down: SnakePartSpriteLocation,
    pub body_vertical: SnakePartSpriteLocation,
    pub body_topright: SnakePartSpriteLocation,
    pub body_topleft: SnakePartSpriteLocation,
    pub body_horizontal: SnakePartSpriteLocation,
    pub body_bottomright: SnakePartSpriteLocation,
    pub body_bottomleft: SnakePartSpriteLocation,
}

/// Position of a role's tile in the sheet, which stacks the tiles in one
/// column: tails, heads, then the inner pieces.
pub open spec fn sheet_slot(role: Role) -> nat {
    match role {
        Role::Tail(Direction::Down) => 0,
        Role::Tail(Direction::Left) => 1,
        Role::Tail(Direction::Right) => 2,
        Role::Tail(Direction::Up) => 3,
        Role::Head(Direction::Up) => 4,
        Role::Head(Direction::Right) => 5,
        Role::Head(Direction::Left) => 6,
        Role::Head(Direction::Down) => 7,
        Role::Straight(Axis::Vertical) => 8,
        Role::Bend(Corner::TopRight) => 9,
        Role::Bend(Corner::TopLeft) => 10,
        Role::Straight(Axis::Horizontal) => 11,
        Role::Bend(Corner::BottomRight) => 12,
        Role::Bend(Corner::BottomLeft) => 13,
    }
}

impl SnakeParts {
    /// The tile drawn for `role`. A tail whose body continues in heading `d`
    /// points the other way, so it takes the tile named after `d.opposite()`.
    pub open spec fn location(self, role: Role) -> SnakePartSpriteLocation {
        match role {
            Role::Tail(Direction::Down) => self.tail_up,
            Role::Tail(Direction::Left) => self.tail_right,
            Role::Tail(Direction::Right) => self.tail_left,
            Role::Tail(Direction::Up) => self.tail_down,
            Role::Head(Direction::Up) => self.head_up,
            Role::Head(Direction::Right) => self.head_right,
            Role::Head(Direction::Left) => self.head_left,
            Role::Head(Direction::Down) => self.head_down,
            Role::Straight(Axis::Vertical) => self.body_vertical,
            Role::Straight(Axis::Horizontal) => self.body_horizontal,
            Role::Bend(Corner::TopRight) => self.body_topright,
            Role::Bend(Corner::TopLeft) => self.body_topleft,
            Role::Bend(Corner::BottomRight) => self.body_bottomright,
            Role::Bend(Corner::BottomLeft) => self.body_bottomleft,
        }
    }

    /// The sheet's layout: each role's tile at its slot, one tile height
    /// below the one before.
    pub fn new() -> (r: SnakeParts)
        ensures
            forall|role: Role|
                #![trigger r.location(role)]
                r.location(role).index == sheet_slot(role) && r.location(role).pos_y == sheet_slot(
                    role,
                ) * SPRITE_TILE_SIZE,
    {
        SnakeParts {
            tail_up: SnakePartSpriteLocation { index: 0, pos_y: 0 },
            tail_right: SnakePartSpriteLocation { index: 1, pos_y: 40 },
            tail_left: SnakePartSpriteLocation { index: 2, pos_y: 80 },
            tail_down: SnakePartSpriteLocation { index: 3, pos_y: 120 },
            head_up: SnakePartSpriteLocation { index: 4, pos_y: 160 },
            head_right: SnakePartSpriteLocation { index: 5, pos_y: 200 },
            head_left: SnakePartSpriteLocation { index: 6, pos_y: 240 },
            head_down: SnakePartSpriteLocation { index: 7, pos_y: 280 },
            body_vertical: SnakePartSpriteLocation { index: 8, pos_y: 320 },
            body_topright: SnakePartSpriteLocation { index: 9, pos_y: 360 },
            body_topleft: SnakePartSpriteLocation { index: 10, pos_y: 400 },
            body_horizontal: SnakePartSpriteLocation { index: 11, pos_y: 440 },
            body_bottomright: SnakePartSpriteLocation { index: 12, pos_y: 480 },
            body_bottomleft: SnakePartSpriteLocation { index: 13, pos_y: 520 },
        }
    }

    /// Number of the sprite to draw for a segment in `role`.
    pub fn sprite_index(&self, role: Role) -> (r: usize)
        ensures
            r == self.location(role).index,
    {
        match role {
            Role::Tail(Direction::Down) => self.tail_up.index,
            Role::Tail(Direction::Left) => self.tail_right.index,
            Role::Tail(Direction::Right) => self.tail_left.index,
            Role::Tail(Direction::Up) => self.tail_down.index,
            Role::Head(Direction::Up) => self.head_up.index,
            Role::Head(Direction::Right) => self.head_right.index,
            Role::Head(Direction::Left) => self.head_left.index,
            Role::Head(Direction::Down) => self.head_down.index,
            Role::Straight(Axis::Vertical) => self.body_vertical.index,
            Role::Straight(Axis::Horizontal) => self.body_horizontal.index,
            Role::Bend(Corner::TopRight) => self.body_topright.index,
            Role::Bend(Corner::TopLeft) => self.body_topleft.index,
            Role::Bend(Corner::BottomRight) => self.body_bottomright.index,
            Role::Bend(Corner::BottomLeft) => self.body_bottomleft.index,
        }
    }
}

} // verus!
