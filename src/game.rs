use vstd::prelude::*;
use crate::food::Food;
use crate::geometry::{Direction, SnakePart, SCREEN_HEIGHT, SCREEN_WIDTH, SPRITE_TILE_SIZE};
use crate::snake::{bites_itself, step_parts, Snake, DEFAULT_SNAKE_LENGTH};

verus! {

/// Time, in microseconds, that must pass between two steps of the body.
pub const FRAME_DURATION: u64 = 66000;

/// Column of the head of a new body.
pub const START_X: i32 = 280;

/// Row of the head of a new body.
pub const START_Y: i32 = 80;

#[derive(Clone, Copy, Debug, PartialEq, Eq, Structural)]
pub enum GameMode {
    Menu,
    Playing,
    Dead,
}

/// A key press, as far as the game cares.
#[derive(Clone, Copy, Debug, PartialEq, Eq, Structural)]
pub enum Command {
    Turn(Direction),
    Start,
    Quit,
}

/// What the frame loop is to do after a frame.
#[derive(Clone, Copy, Debug, PartialEq, Eq, Structural)]
pub enum Action {
    Continue,
    Exit,
}

/// The head is off the field.
pub open spec fn outside_field(head: SnakePart) -> bool {
    !(0 <= head.x < SCREEN_WIDTH && 0 <= head.y < SCREEN_HEIGHT)
}

/// A body in this position is dead: off the field or biting itself.
pub open spec fn crashed(parts: Seq<SnakePart>) -> bool {
    outside_field(parts[0]) || bites_itself(parts)
}

/// The heading after `command` has been read.
pub open spec fn heading_after(heading: Direction, command: Option<Command>) -> Direction {
    match command {
        Some(Command::Turn(d)) => d,
        _ => heading,
    }
}

/// The game: its mode, the body, the food, the time gathered towards the
/// next step, and the number of pieces of food eaten.
pub struct State {
    pub game_mode: GameMode,
    pub snake: Snake,
    pub food: Food,
    pub timer: u64,
    pub score: u64,
}

/// `post` is `pre` after one step of the body along `heading`, where the food
/// is left aside: the body advances, eats when its new head overlaps the
/// food (growing on the next step and scoring one), and dies when the new
/// head is off the field or on another segment.
pub open spec fn stepped(pre: State, post: State, heading: Direction) -> bool {
    let parts = step_parts(
        pre.snake.snake_parts@,
        heading,
        pre.snake.speed as int,
        pre.snake.growing,
    );
    let ate = pre.food.covers(parts[0]);
    &&& post.snake.snake_parts@ == parts
    &&& post.snake.heading == heading
    &&& post.snake.speed == pre.snake.speed
    &&& post.snake.growing == ate
    &&& post.score == pre.score + if ate { 1int } else { 0int }
    &&& post.game_mode == if crashed(parts) { GameMode::Dead } else { GameMode::Playing }
}

/// What a frame of play does: a quit ends the round at once; otherwise the
/// heading follows a turn, and the elapsed time is gathered until it passes
/// one step's worth, when it is cleared and the body takes a step. Food that
/// was eaten then lies at some new place inside the field.
pub open spec fn play_outcome(
    pre: State,
    post: State,
    command: Option<Command>,
    elapsed: u32,
    r: Action,
) -> bool {
    let heading = heading_after(pre.snake.heading, command);
    &&& r == Action::Continue
    &&& command == Some(Command::Quit) ==> post == (State { game_mode: GameMode::Dead, ..pre })
    &&& command != Some(Command::Quit) && pre.timer + elapsed <= FRAME_DURATION ==> post == (State {
        timer: (pre.timer + elapsed) as u64,
        snake: Snake { heading, ..pre.snake },
        ..pre
    })
    &&& command != Some(Command::Quit) && pre.timer + elapsed > FRAME_DURATION ==> {
        &&& stepped(pre, post, heading)
        &&& post.timer == 0
        &&& post.snake.growing ==> post.food.in_field()
        &&& !post.snake.growing ==> post.food == pre.food
    }
}

/// What a frame in the menu, or after death, does: the start key begins a
/// fresh round with the food somewhere inside the field, the quit key asks
/// to leave, and anything else changes nothing.
pub open spec fn menu_outcome(pre: State, post: State, command: Option<Command>, r: Action) -> bool {
    &&& command == Some(Command::Start) ==> {
        &&& post.is_fresh()
        &&& post.food.in_field()
        &&& post.game_mode == GameMode::Playing
        &&& r == Action::Continue
    }
    &&& command == Some(Command::Quit) ==> post == pre && r == Action::Exit
    &&& command != Some(Command::Start) && command != Some(Command::Quit) ==> post == pre && r
        == Action::Continue
}

impl State {
    /// A valid game: a well-formed body stepping one tile at a time, whose
    /// length (counting a pending growth) is the starting length plus one per
    /// piece of food eaten; food inside the field; a head on the field while
    /// playing; and no more time gathered than one step's worth.
    pub open spec fn wf(self) -> bool {
        &&& self.snake.wf()
        &&& self.snake.speed == SPRITE_TILE_SIZE
        &&& self.owed_length() == DEFAULT_SNAKE_LENGTH + self.score
        &&& self.food.in_field()
        &&& self.game_mode == GameMode::Playing ==> !outside_field(self.snake.head())
        &&& self.timer <= FRAME_DURATION
    }

    /// Length of the body once a pending growth has taken place.
    pub open spec fn owed_length(self) -> int {
        self.snake.len() + if self.snake.growing { 1int } else { 0int }
    }

    /// A fresh body at the starting place, no time gathered and no score.
    pub open spec fn is_fresh(self) -> bool {
        &&& self.snake.snake_parts@ == crate::snake::initial_parts(START_X as int, START_Y as int)
        &&& self.snake.heading == Direction::Right
        &&& self.snake.speed == SPRITE_TILE_SIZE
        &&& !self.snake.growing
        &&& self.timer == 0
        &&& self.score == 0
    }

    /// A game in the menu, with the food at `food`.
    pub fn with_food(food: Food) -> (r: State)
        requires
            food.in_field(),
        ensures
            r.wf(),
            r.is_fresh(),
            r.food == food,
            r.game_mode == GameMode::Menu,
    {
        State { game_mode: GameMode::Menu, snake: Snake::new(START_X, START_Y), food, timer: 0, score: 0 }
    }

    /// A game in the menu, with the food at a random place.
    pub fn new() -> (r: State)
        ensures
            r.wf(),
            r.is_fresh(),
            r.game_mode == GameMode::Menu,
    {
        State::with_food(Food::new())
    }

    /// Starts a new round with the food at `food`: a fresh body, no time
    /// gathered, no score.
    pub fn restart_with(&mut self, food: Food)
        requires
            food.in_field(),
        ensures
            final(self).wf(),
            final(self).is_fresh(),
            final(self).food == food,
            final(self).game_mode == GameMode::Playing,
    {
        self.game_mode = GameMode::Playing;
        self.timer = 0;
        self.score = 0;
        self.food = food;
        self.snake = Snake::new(START_X, START_Y);
    }

    /// Starts a new round with the food at a random place.
    pub fn restart(&mut self)
        ensures
            final(self).wf(),
            final(self).is_fresh(),
            final(self).game_mode == GameMode::Playing,
    {
        self.restart_with(Food::new());
    }

    /// One step of the body, then the collisions it may have led to. Returns
    /// whether the food was eaten; the food is left where it was.
    pub fn advance(&mut self) -> (eaten: bool)
        requires
            old(self).wf(),
            old(self).game_mode == GameMode::Playing,
        ensures
            stepped(*old(self), *final(self), old(self).snake.heading),
            final(self).food == old(self).food,
            final(self).timer == old(self).timer,
            eaten == final(self).snake.growing,
            final(self).wf(),
    {
        self.snake.slither();
        let eaten = self.food.is_snake_collision(&self.snake);
        if eaten {
            let len = self.snake.snake_parts.len();
            assert(len as int == self.score + DEFAULT_SNAKE_LENGTH);
            self.score = self.score + 1;
            self.snake.grow();
        }
        if self.snake.is_wall_collision(SCREEN_WIDTH, SCREEN_HEIGHT) || self.snake.is_self_collision() {
            self.game_mode = GameMode::Dead;
        }
        eaten
    }

    /// A frame of play, given the key pressed during it, if any, and the
    /// microseconds since the previous frame.
    pub fn play(&mut self, command: Option<Command>, elapsed: u32) -> (r: Action)
        requires
            old(self).wf(),
            old(self).game_mode == GameMode::Playing,
        ensures
            final(self).wf(),
            play_outcome(*old(self), *final(self), command, elapsed, r),
    {
        match command {
            Some(Command::Quit) => {
                self.game_mode = GameMode::Dead;
                return Action::Continue;
            },
            Some(Command::Turn(direction)) => self.snake.change_direction(direction),
            _ => {},
        }
        self.timer = self.timer + elapsed as u64;
        if self.timer > FRAME_DURATION {
            self.timer = 0;
            if self.advance() {
                self.food = Food::new();
            }
        }
        Action::Continue
    }

    /// A frame in the menu.
    pub fn main_menu(&mut self, command: Option<Command>) -> (r: Action)
        requires
            old(self).wf(),
        ensures
            final(self).wf(),
            menu_outcome(*old(self), *final(self), command, r),
    {
        match command {
            Some(Command::Start) => {
                self.restart();
                Action::Continue
            },
            Some(Command::Quit) => Action::Exit,
            _ => Action::Continue,
        }
    }

    /// A frame after death, which shows the menu and reads it the same way.
    pub fn dead(&mut self, command: Option<Command>) -> (r: Action)
        requires
            old(self).wf(),
        ensures
            final(self).wf(),
            menu_outcome(*old(self), *final(self), command, r),
    {
        self.main_menu(command)
    }

    /// One frame of the game in whatever mode it is.
    pub fn tick(&mut self, command: Option<Command>, elapsed: u32) -> (r: Action)
        requires
            old(self).wf(),
        ensures
            final(self).wf(),
            old(self).game_mode == GameMode::Playing ==> play_outcome(
                *old(self),
                *final(self),
                command,
                elapsed,
                r,
            ),
            old(self).game_mode != GameMode::Playing ==> menu_outcome(
                *old(self),
                *final(self),
                command,
                r,
            ),
    {
        match self.game_mode {
            GameMode::Menu => self.main_menu(command),
            GameMode::Dead => self.dead(command),
            GameMode::Playing => self.play(command, elapsed),
        }
    }
}

/// During play the body never shrinks, and it gains exactly one segment
/// for each piece of food eaten: over any frame of play the score rises by
/// zero or one, and the length, once pending growth is counted, rises by
/// the same amount. Only a restart makes the body short again.
pub proof fn lemma_length_follows_score(
    pre: State,
    post: State,
    command: Option<Command>,
    elapsed: u32,
    r: Action,
)
    requires
        pre.wf(),
        pre.game_mode == GameMode::Playing,
        play_outcome(pre, post, command, elapsed, r),
    ensures
        post.snake.len() >= pre.snake.len(),
        post.score == pre.score || post.score == pre.score + 1,
        post.owed_length() == pre.owed_length() + (post.score - pre.score),
{
}

} // verus!
