use vstd::prelude::*;
use vstd::math::abs;
use std::collections::VecDeque;
use crate::geometry::{
    adjacent, aligned, direction_between, direction_towards, Direction, SnakePart, SPRITE_TILE_SIZE,
};
use crate::orientation::{body_role, inner_role, Role};

verus! {

/// Number of segments of a freshly made body.
pub const DEFAULT_SNAKE_LENGTH: i32 = 3;

/// The body: its segments from head (first) to tail (last), the heading of
/// the next step, the distance covered per step, and whether the next step
/// keeps the tail in place.
pub struct Snake {
    pub speed: i32,
    pub heading: Direction,
    pub snake_parts: VecDeque<SnakePart>,
    pub growing: bool,
}

/// The body bumps into itself: some segment besides the head sits where the
/// head is.
pub open spec fn bites_itself(parts: Seq<SnakePart>) -> bool {
    exists|i: int| 1 <= i < parts.len() && #[trigger] parts[i] == parts[0]
}

/// The segments after one step of `speed` cells along `heading`: a new head
/// in front, and the tail dropped unless the body is growing.
pub open spec fn step_parts(parts: Seq<SnakePart>, heading: Direction, speed: int, growing: bool) -> Seq<
    SnakePart,
> {
    let new_head = SnakePart {
        x: (parts[0].x + heading.dx() * speed) as i32,
        y: (parts[0].y + heading.dy() * speed) as i32,
    };
    if growing {
        seq![new_head] + parts
    } else {
        seq![new_head] + parts.drop_last()
    }
}

/// The segments of a new body whose head is at `(x, y)`: a row running
/// leftwards from the head, one step apart.
pub open spec fn initial_parts(x: int, y: int) -> Seq<SnakePart> {
    Seq::new(
        DEFAULT_SNAKE_LENGTH as nat,
        |j: int| SnakePart { x: (x - j * SPRITE_TILE_SIZE) as i32, y: y as i32 },
    )
}

impl Snake {
    pub open spec fn len(self) -> nat {
        self.snake_parts@.len()
    }

    pub open spec fn head(self) -> SnakePart {
        self.snake_parts@[0]
    }

    /// Segments `i` and `i + 1` lie one step apart on a row or a column.
    pub open spec fn linked(self, i: int) -> bool {
        adjacent(self.snake_parts@[i], self.snake_parts@[i + 1], self.speed as int)
    }

    /// A body has a head, moves by a positive step, and each segment lies
    /// exactly one step from the next, never diagonally.
    pub open spec fn wf(self) -> bool {
        &&& self.speed > 0
        &&& self.len() >= 1
        &&& forall|i: int| 0 <= i < self.len() - 1 ==> #[trigger] self.linked(i)
    }

    /// The next head position is representable.
    pub open spec fn can_advance(self) -> bool {
        &&& i32::MIN <= self.head().x + self.heading.dx() * self.speed <= i32::MAX
        &&& i32::MIN <= self.head().y + self.heading.dy() * self.speed <= i32::MAX
    }

    /// The segments after one step.
    pub open spec fn advanced_parts(self) -> Seq<SnakePart> {
        step_parts(self.snake_parts@, self.heading, self.speed as int, self.growing)
    }

    /// How segment `index` is drawn: the head by its heading, the tail by
    /// the heading towards the segment it follows, and an inner segment by
    /// the headings into and out of it.
    pub open spec fn role_of(self, index: int) -> Role {
        let parts = self.snake_parts@;
        if index == 0 {
            Role::Head(self.heading)
        } else if index == parts.len() - 1 {
            Role::Tail(direction_towards(parts[index], parts[index - 1]))
        } else {
            inner_role(
                direction_towards(parts[index + 1], parts[index]),
                direction_towards(parts[index], parts[index - 1]),
            )
        }
    }

    /// A body of the default length with its head at `(head_pos_x,
    /// head_pos_y)`, heading right and stepping one tile at a time.
    pub fn new(head_pos_x: i32, head_pos_y: i32) -> (r: Snake)
        requires
            head_pos_x - (DEFAULT_SNAKE_LENGTH - 1) * SPRITE_TILE_SIZE >= i32::MIN,
        ensures
            r.wf(),
            r.snake_parts@ == initial_parts(head_pos_x as int, head_pos_y as int),
            r.heading == Direction::Right,
            r.speed == SPRITE_TILE_SIZE,
            !r.growing,
    {
        let mut snake_parts: VecDeque<SnakePart> = VecDeque::new();
        let mut i: i32 = 0;
        while i < DEFAULT_SNAKE_LENGTH
            invariant
                0 <= i <= DEFAULT_SNAKE_LENGTH,
                head_pos_x - (DEFAULT_SNAKE_LENGTH - 1) * SPRITE_TILE_SIZE >= i32::MIN,
                snake_parts@ == initial_parts(head_pos_x as int, head_pos_y as int).take(i as int),
            decreases DEFAULT_SNAKE_LENGTH - i,
        {
            snake_parts.push_back(SnakePart { x: head_pos_x - i * SPRITE_TILE_SIZE, y: head_pos_y });
            i += 1;
            assert(snake_parts@ =~= initial_parts(head_pos_x as int, head_pos_y as int).take(i as int));
        }
        let r = Snake { speed: SPRITE_TILE_SIZE, heading: Direction::Right, snake_parts, growing: false };
        assert(r.snake_parts@ =~= initial_parts(head_pos_x as int, head_pos_y as int));
        assert forall|j: int| 0 <= j < r.len() - 1 implies #[trigger] r.linked(j) by {
            assert(r.snake_parts@[j].x - r.snake_parts@[j + 1].x == SPRITE_TILE_SIZE);
        }
        r
    }

    /// Sets the heading of the next step. Any heading is taken, the one
    /// back into the neck included.
    pub fn change_direction(&mut self, direction: Direction)
        ensures
            *final(self) == (Snake { heading: direction, ..*old(self) }),
            old(self).wf() ==> final(self).wf(),
    {
        self.heading = direction;
        assert(forall|i: int| old(self).linked(i) ==> #[trigger] self.linked(i));
    }
    /// Moves the body one step along its heading: a new head goes in front
    /// and, unless the body is growing, the tail is dropped. The growth is
    /// then spent.
    pub fn slither(&mut self)
        requires
            old(self).wf(),
            old(self).can_advance(),
        ensures
            final(self).wf(),
            final(self).snake_parts@ == old(self).advanced_parts(),
            final(self).heading == old(self).heading,
            final(self).speed == old(self).speed,
            !final(self).growing,
    {
        let head = self.snake_parts[0];
        let (step_x, step_y): (i32, i32) = match self.heading {
            Direction::Up => (0, -self.speed),
            Direction::Down => (0, self.speed),
            Direction::Right => (self.speed, 0),
            Direction::Left => (-self.speed, 0),
        };
        assert(step_x == self.heading.dx() * self.speed && step_y == self.heading.dy() * self.speed);
        let new_head = SnakePart { x: head.x + step_x, y: head.y + step_y };
        let ghost before = *self;
        self.snake_parts.push_front(new_head);
        if !self.growing {
            self.snake_parts.pop_back();
        }
        self.growing = false;
        assert(self.snake_parts@ =~= before.advanced_parts());
        assert forall|i: int| 0 <= i < self.len() - 1 implies #[trigger] self.linked(i) by {
            if i > 0 {
                assert(before.linked(i - 1));
            }
        }
    }

    /// Marks the next step as one that keeps the tail, so that the body
    /// ends up one segment longer.
    pub fn grow(&mut self)
        ensures
            *final(self) == (Snake { growing: true, ..*old(self) }),
            old(self).wf() ==> final(self).wf(),
    {
        self.growing = true;
        assert(forall|i: int| old(self).linked(i) ==> #[trigger] self.linked(i));
    }

    /// The segment at the front.
    pub fn head_part(&self) -> (r: SnakePart)
        requires
            self.wf(),
        ensures
            r == self.head(),
    {
        self.snake_parts[0]
    }

    /// The head has left the field `[0, width) x [0, height)`.
    pub fn is_wall_collision(&self, width: i32, height: i32) -> (r: bool)
        requires
            self.wf(),
        ensures
            r == !(0 <= self.head().x < width && 0 <= self.head().y < height),
    {
        let head = self.snake_parts[0];
        head.x < 0 || head.x >= width || head.y < 0 || head.y >= height
    }

    /// The head shares its position with another segment.
    pub fn is_self_collision(&self) -> (r: bool)
        requires
            self.wf(),
        ensures
            r == bites_itself(self.snake_parts@),
    {
        let head = self.snake_parts[0];
        let mut i: usize = 1;
        while i < self.snake_parts.len()
            invariant
                1 <= i <= self.snake_parts@.len(),
                head == self.snake_parts@[0],
                forall|j: int| 1 <= j < i ==> self.snake_parts@[j] != head,
            decreases self.snake_parts@.len() - i,
        {
            if self.snake_parts[i] == head {
                return true;
            }
            i += 1;
        }
        false
    }

    /// How segment `index` is drawn.
    pub fn role_at(&self, index: usize) -> (r: Role)
        requires
            self.wf(),
            index < self.len(),
        ensures
            r == self.role_of(index as int),
    {
        let last = self.snake_parts.len() - 1;
        if index == 0 {
            Role::Head(self.heading)
        } else if index == last {
            proof {
                lemma_linked_parts_aligned(*self, index - 1);
            }
            Role::Tail(direction_between(&self.snake_parts[index], &self.snake_parts[index - 1]))
        } else {
            proof {
                lemma_linked_parts_aligned(*self, index - 1);
                lemma_linked_parts_aligned(*self, index as int);
            }
            let from_prev = direction_between(&self.snake_parts[index + 1], &self.snake_parts[index]);
            let to_next = direction_between(&self.snake_parts[index], &self.snake_parts[index - 1]);
            body_role(from_prev, to_next)
        }
    }
}

/// Neighbouring segments of a body are on one row or one column, in either
/// order, and never on top of each other.
proof fn lemma_linked_parts_aligned(s: Snake, i: int)
    requires
        s.wf(),
        0 <= i < s.len() - 1,
    ensures
        aligned(s.snake_parts@[i], s.snake_parts@[i + 1]),
        aligned(s.snake_parts@[i + 1], s.snake_parts@[i]),
{
    assert(s.linked(i));
}


/// Any two neighbouring segments of a body are exactly one step apart in
/// Manhattan distance, and they differ along exactly one axis.
pub proof fn lemma_segments_one_step_apart(s: Snake, i: int)
    requires
        s.wf(),
        0 <= i < s.len() - 1,
    ensures
        ({
            let (a, b) = (s.snake_parts@[i], s.snake_parts@[i + 1]);
            &&& abs(a.x - b.x) + abs(a.y - b.y) == s.speed
            &&& (a.x == b.x) != (a.y == b.y)
        }),
{
    assert(s.linked(i));
}

/// A body of three or more segments that turns straight back into its neck
/// has its head land on the neck with the very next step, so the bite is
/// seen at once. A growing body keeps its tail, so two segments already do.
pub proof fn lemma_reversal_bites_neck(s: Snake)
    requires
        s.wf(),
        s.len() >= 3 || (s.growing && s.len() >= 2),
        s.heading == direction_towards(s.snake_parts@[0], s.snake_parts@[1]),
    ensures
        bites_itself(s.advanced_parts()),
{
    assert(s.linked(0));
    let next = s.advanced_parts();
    assert(next[2] == s.snake_parts@[1]);
    assert(next[0] == next[2]);
}

} // verus!
