use crate::food::{clear_of, has_food_at, without_position, Food, FoodManager};
use crate::geometry::{in_bounds, inside, opposite_of, stepped, Direction, Position};
use crate::snake::{shifted, spawn_body, spawn_head, turned, Snake};
use crate::timer::RepeatingTimer;
use vstd::prelude::*;

verus! {

/// The size of the arena and the cadence of the two clocks.
#[derive(Clone, Copy, Debug, PartialEq, Eq)]
pub struct Config {
    pub arena_width: u32,
    pub arena_height: u32,
    pub move_interval_ms: u64,
    pub food_interval_ms: u64,
}

impl Config {
    /// A non-empty arena whose cells `i32` can address, and positive intervals.
    pub open spec fn wf(&self) -> bool {
        0 < self.arena_width <= i32::MAX && 0 < self.arena_height <= i32::MAX
            && self.move_interval_ms > 0 && self.food_interval_ms > 0
    }

    /// A ten by ten arena; the snake moves every 150 ms, food appears every second.
    pub fn standard() -> (r: Config)
        ensures
            r.wf(),
            r.arena_width == 10,
            r.arena_height == 10,
            r.move_interval_ms == 150,
            r.food_interval_ms == 1000,
    {
        Config { arena_width: 10, arena_height: 10, move_interval_ms: 150, food_interval_ms: 1000 }
    }
}

/// What one tick did.
#[derive(Clone, Copy, Debug, PartialEq, Eq)]
pub struct TickReport {
    /// A turn was asked for that would have reversed the snake; it was refused.
    pub reversal_refused: bool,
    /// The movement clock fired and the snake took a step.
    pub moved: bool,
    /// The step ran into a wall or into the snake itself, and the round restarted.
    pub game_over: bool,
    /// The head reached food: the snake grew and a point was scored.
    pub ate: bool,
    /// The points of a round that just ended, when there were any.
    pub round_points: Option<u64>,
    /// How many items of food the food clock asks for.
    pub food_due: u64,
}

/// The heading after the optional input of a tick.
pub open spec fn heading_after(current: Direction, input: Option<Direction>) -> Direction {
    match input {
        Some(d) => turned(current, d),
        None => current,
    }
}

/// The whole state of a game: snake, food, score and movement clock.
pub struct Round {
    pub config: Config,
    pub snake: Snake,
    pub food: FoodManager,
    pub score: u64,
    pub move_timer: RepeatingTimer,
}

impl Round {
    /// The parts are well formed, the head can take a step without leaving
    /// `i32`, and every point scored is a segment grown.
    pub open spec fn wf(&self) -> bool {
        &&& self.config.wf()
        &&& self.snake.wf()
        &&& self.food.wf()
        &&& self.move_timer.wf()
        &&& self.food.spawn_timer.interval_ms == self.config.food_interval_ms
        &&& self.move_timer.interval_ms == self.config.move_interval_ms
        &&& 0 <= self.snake.head_spec().x < i32::MAX
        &&& 0 <= self.snake.head_spec().y < i32::MAX
        &&& self.score + 2 == self.snake.segments@.len()
    }

    /// Whether `elapsed_ms` more makes the movement clock fire.
    pub open spec fn moves(&self, elapsed_ms: u64) -> bool {
        (self.move_timer.elapsed_ms + elapsed_ms) / (self.move_timer.interval_ms as int) > 0
    }

    /// The cell the head enters on a step after `input`.
    pub open spec fn target(&self, input: Option<Direction>) -> Position {
        stepped(self.snake.head_spec(), heading_after(self.snake.heading, input))
    }

    /// Whether that cell lies outside the arena or on the snake as it stands.
    pub open spec fn hits(&self, input: Option<Direction>) -> bool {
        !inside(self.target(input), self.config.arena_width, self.config.arena_height)
            || self.snake.segments@.contains(self.target(input))
    }

    /// The segments after a step after `input` that hits nothing.
    pub open spec fn segments_after_step(&self, input: Option<Direction>) -> Seq<Position> {
        let moved = shifted(self.snake.segments@, heading_after(self.snake.heading, input));
        if has_food_at(self.food.items@, self.target(input)) {
            moved.push(self.snake.segments@.last())
        } else {
            moved
        }
    }

    /// What a tick after `input` and `elapsed_ms` does to the snake, the score,
    /// the clocks and the report, whatever food then appears.
    pub open spec fn ticked(
        &self,
        input: Option<Direction>,
        elapsed_ms: u64,
        new: &Round,
        r: TickReport,
    ) -> bool {
        let heading = heading_after(self.snake.heading, input);
        let moved = self.moves(elapsed_ms);
        let over = moved && self.hits(input);
        &&& new.wf()
        &&& new.config == self.config
        &&& r.reversal_refused == (input == Some(opposite_of(self.snake.heading)))
        &&& r.moved == moved
        &&& r.game_over == over
        &&& r.ate == (moved && !over && has_food_at(self.food.items@, self.target(input)))
        &&& r.food_due as int == (self.food.spawn_timer.elapsed_ms + elapsed_ms) / (
        self.food.spawn_timer.interval_ms as int)
        &&& new.food.spawn_timer.elapsed_ms as int == (self.food.spawn_timer.elapsed_ms
            + elapsed_ms) % (self.food.spawn_timer.interval_ms as int)
        &&& new.move_timer.elapsed_ms as int == (self.move_timer.elapsed_ms + elapsed_ms) % (
        self.move_timer.interval_ms as int)
        &&& !moved ==> {
            &&& new.snake.segments@ == self.snake.segments@
            &&& new.snake.heading == heading
            &&& new.score == self.score
            &&& r.round_points.is_none()
        }
        &&& over ==> {
            &&& new.snake.segments@ == seq![spawn_head(), spawn_body()]
            &&& new.snake.heading == Direction::Up
            &&& new.score == 0
            &&& r.round_points == (if self.score != 0 {
                Some(self.score)
            } else {
                None::<u64>
            })
        }
        &&& (moved && !over) ==> {
            &&& new.snake.segments@ == self.segments_after_step(input)
            &&& new.snake.heading == heading
            &&& new.score == self.score + (if r.ate {
                1int
            } else {
                0int
            })
            &&& r.round_points.is_none()
        }
    }

    /// The food after such a tick, before any new food appears.
    pub open spec fn food_after(
        &self,
        input: Option<Direction>,
        elapsed_ms: u64,
        new_segments: Seq<Position>,
    ) -> Seq<Food> {
        if !self.moves(elapsed_ms) {
            clear_of(self.food.items@, new_segments)
        } else if self.hits(input) {
            seq![]
        } else {
            clear_of(without_position(self.food.items@, self.target(input)), new_segments)
        }
    }

    /// A fresh round: the spawned snake, no food, no points.
    pub fn new(config: Config) -> (r: Round)
        requires
            config.wf(),
        ensures
            r.wf(),
            r.config == config,
            r.snake.segments@ == seq![spawn_head(), spawn_body()],
            r.snake.heading == Direction::Up,
            r.score == 0,
            r.food.items@.len() == 0,
            r.move_timer.elapsed_ms == 0,
            r.food.spawn_timer.elapsed_ms == 0,
    {
        Round {
            config,
            snake: Snake::spawn(),
            food: FoodManager::new(config.food_interval_ms),
            score: 0,
            move_timer: RepeatingTimer::new(config.move_interval_ms),
        }
    }

    /// Ends the round: the food goes, the score goes back to zero and the snake
    /// is spawned anew. Returns the points of the round, when there were any.
    fn restart(&mut self) -> (points: Option<u64>)
        requires
            old(self).wf(),
        ensures
            final(self).wf(),
            final(self).config == old(self).config,
            final(self).snake.segments@ == seq![spawn_head(), spawn_body()],
            final(self).snake.heading == Direction::Up,
            final(self).score == 0,
            final(self).food.items@.len() == 0,
            final(self).food.spawn_timer == old(self).food.spawn_timer,
            final(self).move_timer == old(self).move_timer,
            points == (if old(self).score != 0 {
                Some(old(self).score)
            } else {
                None::<u64>
            }),
    {
        let points = if self.score != 0 {
            Some(self.score)
        } else {
            None
        };
        self.food.clear();
        self.score = 0;
        self.snake = Snake::spawn();
        points
    }

    /// One tick without the food that appears: the turn asked for, then, when
    /// the movement clock fires, a step, the check for walls and for the
    /// snake's own body, and eating; food lying on the snake is cleared.
    pub fn advance_tick(&mut self, input: Option<Direction>, elapsed_ms: u64) -> (r: TickReport)
        requires
            old(self).wf(),
        ensures
            old(self).ticked(input, elapsed_ms, final(self), r),
            final(self).food.items@ == old(self).food_after(
                input,
                elapsed_ms,
                final(self).snake.segments@,
            ),
    {
        let reversal_refused = match input {
            Some(d) => !self.snake.set_heading(d),
            None => false,
        };
        let fired = self.move_timer.tick(elapsed_ms);
        let mut game_over = false;
        let mut ate = false;
        let mut round_points: Option<u64> = None;
        if fired > 0 {
            let next = self.snake.next_head();
            let hit_self = self.snake.contains_body(next);
            let hit_wall = !in_bounds(next, self.config.arena_width, self.config.arena_height);
            if hit_wall || hit_self {
                game_over = true;
                round_points = self.restart();
            } else {
                let (head, tail) = self.snake.advance();
                ate = self.food.eat_at(head);
                if ate {
                    self.snake.grow(tail);
                    // the length of a `Vec` bounds the score, which is two less
                    let grown = self.snake.len();
                    assert(grown == self.snake.segments@.len() && usize::MAX <= u64::MAX);
                    self.score = self.score + 1;
                }
            }
        }
        self.food.clear_overlaps(&self.snake.segments);
        let food_due = self.food.tick(elapsed_ms);
        TickReport { reversal_refused, moved: fired > 0, game_over, ate, round_points, food_due }
    }

    /// One whole tick: `advance_tick`, then as many items of food as the food
    /// clock asks for, each on a cell of the arena drawn at random.
    pub fn tick(&mut self, input: Option<Direction>, elapsed_ms: u64) -> (r: TickReport)
        requires
            old(self).wf(),
        ensures
            old(self).ticked(input, elapsed_ms, final(self), r),
            final(self).food.items@.len() == old(self).food_after(
                input,
                elapsed_ms,
                final(self).snake.segments@,
            ).len() + r.food_due,
            final(self).food.items@.subrange(
                0,
                old(self).food_after(input, elapsed_ms, final(self).snake.segments@).len() as int,
            ) == old(self).food_after(input, elapsed_ms, final(self).snake.segments@),
            forall|i: int|
                old(self).food_after(input, elapsed_ms, final(self).snake.segments@).len() <= i
                    < final(self).food.items@.len() ==> inside(
                    #[trigger] final(self).food.items@[i].position,
                    final(self).config.arena_width,
                    final(self).config.arena_height,
                ),
    {
        let r = self.advance_tick(input, elapsed_ms);
        let ghost after = self.food.items@;
        let ghost mid = *self;
        let mut k: u64 = 0;
        while k < r.food_due
            invariant
                mid.wf(),
                self.wf(),
                self.config == mid.config,
                self.snake == mid.snake,
                self.score == mid.score,
                self.move_timer == mid.move_timer,
                self.food.spawn_timer == mid.food.spawn_timer,
                k <= r.food_due,
                self.food.items@.len() == after.len() + k,
                self.food.items@.subrange(0, after.len() as int) == after,
                forall|i: int|
                    after.len() <= i < self.food.items@.len() ==> inside(
                        #[trigger] self.food.items@[i].position,
                        self.config.arena_width,
                        self.config.arena_height,
                    ),
            decreases r.food_due - k,
        {
            let ghost before = self.food.items@;
            self.food.spawn_random(self.config.arena_width, self.config.arena_height);
            assert(self.food.items@.subrange(0, after.len() as int) == before.subrange(
                0,
                after.len() as int,
            ));
            assert forall|i: int|
                after.len() <= i < self.food.items@.len() implies inside(
                    #[trigger] self.food.items@[i].position,
                    self.config.arena_width,
                    self.config.arena_height,
                ) by {
                if i < before.len() {
                    assert(self.food.items@[i] == self.food.items@.drop_last()[i]);
                }
            }
            k = k + 1;
        }
        r
    }

    /// Puts an item of food at `pos`, whatever lies there already.
    pub fn spawn_food_at(&mut self, pos: Position) -> (id: u64)
        requires
            old(self).wf(),
        ensures
            final(self).wf(),
            final(self).config == old(self).config,
            final(self).snake == old(self).snake,
            final(self).score == old(self).score,
            final(self).move_timer == old(self).move_timer,
            id == old(self).food.next_id,
            final(self).food.items@ == old(self).food.items@.push(Food { id, position: pos }),
    {
        self.food.spawn_at(pos)
    }

    pub fn score(&self) -> (r: u64)
        ensures
            r == self.score,
    {
        self.score
    }

    /// The cells of the snake, head first.
    pub fn snake_positions(&self) -> (r: &Vec<Position>)
        ensures
            r@ == self.snake.segments@,
    {
        &self.snake.segments
    }

    /// The items of food on the board.
    pub fn food_items(&self) -> (r: &Vec<Food>)
        ensures
            r@ == self.food.items@,
    {
        &self.food.items
    }
}

/// A step to the left from the left-hand column always ends the round, on
/// every row.
pub proof fn lemma_left_wall_ends_round(round: Round, input: Option<Direction>)
    requires
        round.wf(),
        round.snake.head_spec().x == 0,
        heading_after(round.snake.heading, input) == Direction::Left,
    ensures
        round.hits(input),
{
}

/// A tick whose movement clock does not fire leaves every segment where it
/// was, whatever the input.
pub proof fn lemma_still_without_step(
    round: Round,
    input: Option<Direction>,
    elapsed_ms: u64,
    new: Round,
    r: TickReport,
)
    requires
        round.wf(),
        round.ticked(input, elapsed_ms, &new, r),
        !round.moves(elapsed_ms),
    ensures
        new.snake.segments@ == round.snake.segments@,
{
}

/// After a round ends, the next one starts from the spawned snake heading up,
/// with no points and no food.
pub proof fn lemma_restart_is_fresh(
    round: Round,
    input: Option<Direction>,
    elapsed_ms: u64,
    new: Round,
    r: TickReport,
)
    requires
        round.wf(),
        round.ticked(input, elapsed_ms, &new, r),
        new.food.items@ == round.food_after(input, elapsed_ms, new.snake.segments@),
        r.game_over,
    ensures
        new.snake.segments@ == seq![spawn_head(), spawn_body()],
        new.snake.heading == Direction::Up,
        new.score == 0,
        new.food.items@.len() == 0,
{
}

} // verus!
