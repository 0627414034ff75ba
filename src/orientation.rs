use vstd::prelude::*;
use crate::geometry::Direction;

verus! {

/// Axis along which a straight piece of body runs.
#[derive(Clone, Copy, Debug, PartialEq, Eq, Structural)]
pub enum Axis {
    Vertical,
    Horizontal,
}

/// A bend of the body, named by the two sides of the tile it joins.
#[derive(Clone, Copy, Debug, PartialEq, Eq, Structural)]
pub enum Corner {
    TopLeft,
    TopRight,
    BottomLeft,
    BottomRight,
}

/// What a segment looks like on screen: a head facing its heading, a tail
/// facing the segment it follows, a straight piece or a bend.
#[derive(Clone, Copy, Debug, PartialEq, Eq, Structural)]
pub enum Role {
    Head(Direction),
    Tail(Direction),
    Straight(Axis),
    Bend(Corner),
}

/// The corner made by side `a` and side `b` of a tile, one of them on the
/// top or bottom, the other on the left or right.
pub open spec fn corner_joining(a: Direction, b: Direction) -> Corner
    recommends
        a.is_vertical() != b.is_vertical(),
{
    let (v, h) = if a.is_vertical() { (a, b) } else { (b, a) };
    match (v, h) {
        (Direction::Up, Direction::Left) => Corner::TopLeft,
        (Direction::Up, _) => Corner::TopRight,
        (_, Direction::Left) => Corner::BottomLeft,
        _ => Corner::BottomRight,
    }
}

/// Role of an inner segment that the body enters travelling `from_prev` and
/// leaves travelling `to_next`: straight when both lie on one axis (a
/// reversal included), otherwise the bend joining the side it enters by
/// (opposite to `from_prev`) and the side it leaves by (`to_next`).
pub open spec fn inner_role(from_prev: Direction, to_next: Direction) -> Role {
    if from_prev.is_vertical() == to_next.is_vertical() {
        Role::Straight(if from_prev.is_vertical() { Axis::Vertical } else { Axis::Horizontal })
    } else {
        Role::Bend(corner_joining(from_prev.opposite(), to_next))
    }
}

/// Picks the tile of an inner segment from the heading travelled into it and
/// the heading travelled out of it. Every pair of headings has a tile.
pub fn body_role(from_prev: Direction, to_next: Direction) -> (r: Role)
    ensures
        r == inner_role(from_prev, to_next),
{
    match (from_prev, to_next) {
        (Direction::Up, Direction::Down)
        | (Direction::Down, Direction::Up)
        | (Direction::Up, Direction::Up)
        | (Direction::Down, Direction::Down) => Role::Straight(Axis::Vertical),
        (Direction::Left, Direction::Right)
        | (Direction::Right, Direction::Left)
        | (Direction::Right, Direction::Right)
        | (Direction::Left, Direction::Left) => Role::Straight(Axis::Horizontal),
        (Direction::Up, Direction::Right) | (Direction::Left, Direction::Down) => Role::Bend(
            Corner::BottomRight,
        ),
        (Direction::Up, Direction::Left) | (Direction::Right, Direction::Down) => Role::Bend(
            Corner::BottomLeft,
        ),
        (Direction::Right, Direction::Up) | (Direction::Down, Direction::Left) => Role::Bend(
            Corner::TopLeft,
        ),
        (Direction::Down, Direction::Right) | (Direction::Left, Direction::Up) => Role::Bend(
            Corner::TopRight,
        ),
    }
}

/// Every pair of headings resolves to exactly one tile: a straight piece on
/// the shared axis when the headings share one, and otherwise one of the
/// four bends, each bend being reached from exactly two pairs.
pub proof fn lemma_inner_roles_cover_all_pairs(from_prev: Direction, to_next: Direction)
    ensures
        from_prev.is_vertical() == to_next.is_vertical() ==> inner_role(from_prev, to_next)
            == Role::Straight(if from_prev.is_vertical() { Axis::Vertical } else { Axis::Horizontal }),
        from_prev.is_vertical() != to_next.is_vertical() ==> inner_role(from_prev, to_next) is Bend,
        inner_role(from_prev, to_next) is Bend ==> inner_role(to_next.opposite(), from_prev.opposite())
            == inner_role(from_prev, to_next),
        inner_role(from_prev, to_next) is Bend ==> forall|a: Direction, b: Direction|
            #[trigger] inner_role(a, b) == inner_role(from_prev, to_next) ==> (a == from_prev && b
                == to_next) || (a == to_next.opposite() && b == from_prev.opposite()),
{
}

} // verus!
