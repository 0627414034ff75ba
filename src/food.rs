use vstd::prelude::*;
use crate::geometry::{overlapping, SnakePart, rects_overlap, SCREEN_HEIGHT, SCREEN_WIDTH, SPRITE_TILE_SIZE};
use crate::snake::Snake;

verus! {

/// Relies on bracket_lib's `RandomNumberGenerator::range`, called on a
/// generator that `RandomNumberGenerator::new` seeds afresh: it returns a
/// value in `[min, max)`, and panics when that range is empty.
#[verifier::external_body]
fn random_range(min: i32, max: i32) -> (r: i32)
    requires
        min < max,
    ensures
        min <= r < max,
{
    bracket_lib::random::RandomNumberGenerator::new().range(min, max)
}

/// The piece of food: the top-left cell of its square footprint.
#[derive(Clone, Copy, Debug, PartialEq, Eq, Structural)]
pub struct Food {
    pub pos_x: i32,
    pub pos_y: i32,
}

impl Food {
    /// The footprint lies wholly inside the field.
    pub open spec fn in_field(self) -> bool {
        &&& 0 <= self.pos_x < SCREEN_WIDTH - SPRITE_TILE_SIZE
        &&& 0 <= self.pos_y < SCREEN_HEIGHT - SPRITE_TILE_SIZE
    }

    /// A head at `head` overlaps the food.
    pub open spec fn covers(self, head: SnakePart) -> bool {
        overlapping(
            head.x as int,
            head.y as int,
            SPRITE_TILE_SIZE as int,
            SPRITE_TILE_SIZE as int,
            self.pos_x as int,
            self.pos_y as int,
            SPRITE_TILE_SIZE as int,
            SPRITE_TILE_SIZE as int,
        )
    }

    /// Food placed at `(pos_x, pos_y)`.
    pub fn at(pos_x: i32, pos_y: i32) -> (r: Food)
        ensures
            r.pos_x == pos_x,
            r.pos_y == pos_y,
    {
        Food { pos_x, pos_y }
    }

    /// Food at a random place inside the field.
    pub fn new() -> (r: Food)
        ensures
            r.in_field(),
    {
        let pos_x = random_range(0, SCREEN_WIDTH - SPRITE_TILE_SIZE);
        let pos_y = random_range(0, SCREEN_HEIGHT - SPRITE_TILE_SIZE);
        Food { pos_x, pos_y }
    }

    /// The head overlaps the food; footprints that only touch along an edge
    /// do not count.
    pub fn is_snake_collision(&self, snake: &Snake) -> (r: bool)
        requires
            snake.wf(),
        ensures
            r == self.covers(snake.head()),
    {
        let head = snake.head_part();
        rects_overlap(
            head.x,
            head.y,
            SPRITE_TILE_SIZE,
            SPRITE_TILE_SIZE,
            self.pos_x,
            self.pos_y,
            SPRITE_TILE_SIZE,
            SPRITE_TILE_SIZE,
        )
    }
}

} // verus!
