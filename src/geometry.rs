use vstd::prelude::*;

verus! {

/// Side of the square footprint of a segment, of the food, and of one sprite
/// of the sheet; the body also moves by this many cells per step.
pub const SPRITE_TILE_SIZE: i32 = 40;

/// Width of the playing field, in cells.
pub const SCREEN_WIDTH: i32 = 1800;

/// Height of the playing field, in cells.
pub const SCREEN_HEIGHT: i32 = 1200;

/// One of the four headings; each stands for a unit vector on the grid,
/// with y growing downwards.
#[derive(Clone, Copy, Debug, PartialEq, Eq, Structural)]
pub enum Direction {
    Up,
    Down,
    Right,
    Left,
}

impl Direction {
    /// Horizontal component of the unit vector.
    pub open spec fn dx(self) -> int {
        match self {
            Direction::Right => 1,
            Direction::Left => -1,
            _ => 0,
        }
    }

    /// Vertical component of the unit vector.
    pub open spec fn dy(self) -> int {
        match self {
            Direction::Down => 1,
            Direction::Up => -1,
            _ => 0,
        }
    }

    pub open spec fn is_vertical(self) -> bool {
        self is Up || self is Down
    }

    /// The heading that points the other way.
    pub open spec fn opposite(self) -> Direction {
        match self {
            Direction::Up => Direction::Down,
            Direction::Down => Direction::Up,
            Direction::Right => Direction::Left,
            Direction::Left => Direction::Right,
        }
    }

}

/// A grid position occupied by one segment of the body.
#[derive(Clone, Copy, Debug, PartialEq, Eq, Structural)]
pub struct SnakePart {
    pub x: i32,
    pub y: i32,
}

/// `a` and `b` lie on one row or one column, `step` apart.
pub open spec fn adjacent(a: SnakePart, b: SnakePart, step: int) -> bool {
    ||| a.y == b.y && (b.x - a.x == step || a.x - b.x == step)
    ||| a.x == b.x && (b.y - a.y == step || a.y - b.y == step)
}

/// `a` and `b` are distinct and share a row or a column.
pub open spec fn aligned(a: SnakePart, b: SnakePart) -> bool {
    (a.x == b.x) != (a.y == b.y)
}

/// The heading that leads from `a` towards `b`.
pub open spec fn direction_towards(a: SnakePart, b: SnakePart) -> Direction
    recommends
        aligned(a, b),
{
    if a.y == b.y {
        if b.x > a.x {
            Direction::Right
        } else {
            Direction::Left
        }
    } else {
        if b.y > a.y {
            Direction::Down
        } else {
            Direction::Up
        }
    }
}

/// The heading travelled from `a` to `b`, for two parts on one row or one
/// column. Parts on a diagonal, or one on top of the other, break the body's
/// invariant and are excluded.
pub fn direction_between(a: &SnakePart, b: &SnakePart) -> (r: Direction)
    requires
        aligned(*a, *b),
    ensures
        r == direction_towards(*a, *b),
{
    if b.y == a.y {
        if b.x > a.x {
            Direction::Right
        } else {
            Direction::Left
        }
    } else if b.y > a.y {
        Direction::Down
    } else {
        Direction::Up
    }
}

/// Two rectangles of integer cells, each given y2 its corner and size, share
/// at least one cell. Rectangles that only touch along an edge do not.
pub open spec fn overlapping(x1: int, y1: int, w1: int, h1: int, x2: int, y2: int, w2: int, h2: int) -> bool {
    &&& x1 < x2 + w2
    &&& x2 < x1 + w1
    &&& y1 < y2 + h2
    &&& y2 < y1 + h1
}

/// Whether the two rectangles overlap, edges that merely touch
/// not counting.
pub fn rects_overlap(x1: i32, y1: i32, w1: i32, h1: i32, x2: i32, y2: i32, w2: i32, h2: i32) -> (r: bool)
    ensures
        r == overlapping(x1 as int, y1 as int, w1 as int, h1 as int, x2 as int, y2 as int, w2 as int, h2 as int),
{
    let (x1, y1, w1, h1) = (x1 as i64, y1 as i64, w1 as i64, h1 as i64);
    let (x2, y2, w2, h2) = (x2 as i64, y2 as i64, w2 as i64, h2 as i64);
    !(x1 + w1 <= x2 || x1 >= x2 + w2 || y1 + h1 <= y2 || y1 >= y2 + h2)
}

/// Rectangles that meet only along an edge do not overlap: when one ends
/// exactly where the other begins, on either axis, no cell is shared.
pub proof fn lemma_touching_rects_do_not_overlap(x1: int, y1: int, w1: int, h1: int, x2: int, y2: int, w2: int, h2: int)
    requires
        x1 + w1 == x2 || x2 + w2 == x1 || y1 + h1 == y2 || y2 + h2 == y1,
    ensures
        !overlapping(x1, y1, w1, h1, x2, y2, w2, h2),
{
}

/// Coordinate `p` falls in the span of `len` cells that starts at `start`.
pub open spec fn in_span(p: int, start: int, len: int) -> bool {
    start <= p < start + len
}

/// Some cell lies inside both rectangles.
pub open spec fn share_a_cell(x1: int, y1: int, w1: int, h1: int, x2: int, y2: int, w2: int, h2: int) -> bool {
    exists|px: int, py: int|
        #![trigger in_span(px, x1, w1), in_span(py, y1, h1)]
        in_span(px, x1, w1) && in_span(px, x2, w2) && in_span(py, y1, h1) && in_span(py, y2, h2)
}

/// Rectangles overlap exactly when some cell lies inside both of them.
pub proof fn lemma_overlap_iff_shared_cell(x1: int, y1: int, w1: int, h1: int, x2: int, y2: int, w2: int, h2: int)
    requires
        w1 > 0 && h1 > 0 && w2 > 0 && h2 > 0,
    ensures
        overlapping(x1, y1, w1, h1, x2, y2, w2, h2) == share_a_cell(
            x1, y1, w1, h1, x2, y2, w2, h2,
        ),
{
    if overlapping(x1, y1, w1, h1, x2, y2, w2, h2) {
        let px = if x1 > x2 { x1 } else { x2 };
        let py = if y1 > y2 { y1 } else { y2 };
        assert(in_span(px, x1, w1) && in_span(px, x2, w2) && in_span(py, y1, h1) && in_span(py, y2, h2));
    }
}

} // verus!
