use vstd::prelude::*;
use crate::food::{free_list, place_food, place_food_with};
use crate::grid::{Coordinates, Direction};
use crate::snake::{has_overlap, AdvanceResult, Snake, SnakeDirection};

verus! {

/// Phase of a game: it is played until the snake runs into itself or fills
/// the board; both ends are final.
#[derive(Debug, Clone, Copy, PartialEq, Eq, Hash, Structural)]
pub enum AppState {
    Game,
    GameOver,
    Won,
}

impl Default for AppState {
    fn default() -> (r: AppState)
        ensures
            r == AppState::Game,
    {
        AppState::Game
    }
}

/// Resolves this tick's heading and advances the snake with it.
pub fn move_snake(snake_direction: &mut SnakeDirection, snake: &mut Snake, apple: Coordinates) -> (r:
    AdvanceResult)
    requires
        old(snake).wf(),
    ensures
        final(snake_direction).prev_direction == old(snake_direction).resolved(),
        final(snake_direction).direction == old(snake_direction).resolved(),
        final(snake).array@ == Snake::advanced(
            old(snake).array@,
            old(snake_direction).resolved(),
            apple,
        ),
        r.food_consumed == (final(snake).array@[0] == apple),
        r.overlap == has_overlap(final(snake).array@),
        final(snake).wf(),
{
    let d = snake_direction.resolve_for_tick();
    snake.advance(d, apple)
}

/// Ends the game when the snake occupies some cell twice.
pub fn check_snake_overlap(state: AppState, snake: &Snake) -> (r: AppState)
    requires
        snake.wf(),
    ensures
        r == (if has_overlap(snake.array@) {
            AppState::GameOver
        } else {
            state
        }),
{
    if snake.has_duplicates() {
        AppState::GameOver
    } else {
        state
    }
}

/// What a tick did, for the presentation layer to decide on a redraw.
#[derive(Debug, Clone, Copy, PartialEq, Eq, Structural)]
pub struct TickReport {
    pub moved: bool,
    pub food_consumed: bool,
    pub overlap: bool,
    pub board_full: bool,
}

/// All state of one game, owned and threaded by the loop that drives it.
#[derive(Debug)]
pub struct Game {
    pub snake: Snake,
    pub food: Coordinates,
    pub directions: SnakeDirection,
    pub state: AppState,
}

impl Game {
    /// The snake has a head and it and the food lie on the board.
    pub open spec fn wf(&self) -> bool {
        self.snake.wf() && self.food.wf()
    }

    /// The heading of the next tick.
    pub open spec fn tick_direction(&self) -> Direction {
        self.directions.resolved()
    }

    /// The snake's cells after the next tick.
    pub open spec fn next_cells(&self) -> Seq<Coordinates> {
        Snake::advanced(self.snake.array@, self.tick_direction(), self.food)
    }

    /// The next tick lands the head on the food.
    pub open spec fn eats_next(&self) -> bool {
        self.snake.array@[0].step(self.tick_direction()) == self.food
    }

    /// The state a tick leaves behind, given whether new food found no room.
    pub open spec fn next_state(&self, board_full: bool) -> AppState {
        if has_overlap(self.next_cells()) {
            AppState::GameOver
        } else if board_full {
            AppState::Won
        } else {
            AppState::Game
        }
    }

    /// A tick on a finished game: nothing changes.
    pub open spec fn idle(pre: &Game, post: &Game, r: TickReport) -> bool {
        &&& post.snake.array@ == pre.snake.array@
        &&& post.food == pre.food
        &&& post.directions == pre.directions
        &&& post.state == pre.state
        &&& r == TickReport { moved: false, food_consumed: false, overlap: false, board_full: false }
    }

    /// What every tick of a running game does, whatever the food draw.
    pub open spec fn ticked(pre: &Game, post: &Game, r: TickReport) -> bool {
        &&& post.directions.prev_direction == pre.tick_direction()
        &&& post.directions.direction == pre.tick_direction()
        &&& post.snake.array@ == pre.next_cells()
        &&& r.moved
        &&& r.food_consumed == pre.eats_next()
        &&& r.overlap == has_overlap(pre.next_cells())
        &&& r.board_full == (pre.eats_next() && free_list(pre.next_cells()).len() == 0)
        &&& post.state == pre.next_state(r.board_full)
        &&& (!pre.eats_next() || r.board_full) ==> post.food == pre.food
    }

    /// A fresh game: the starting snake heading right, food at (8, 8).
    pub fn new() -> (r: Game)
        ensures
            r.wf(),
            r.snake.array@ == crate::snake::start_cells(),
            r.food == (Coordinates { x: 8, y: 8 }),
            r.directions == (SnakeDirection {
                prev_direction: Direction::RIGHT,
                direction: Direction::RIGHT,
            }),
            r.state == AppState::Game,
    {
        Game {
            snake: Snake::default(),
            food: Coordinates::new(8, 8),
            directions: SnakeDirection::default(),
            state: AppState::Game,
        }
    }

    /// Records the player's latest heading request; ignored once the game is over.
    pub fn request_direction(&mut self, d: Direction)
        ensures
            final(self).snake.array@ == old(self).snake.array@,
            final(self).food == old(self).food,
            final(self).state == old(self).state,
            final(self).directions.prev_direction == old(self).directions.prev_direction,
            final(self).directions.direction == if old(self).state == AppState::Game {
                d
            } else {
                old(self).directions.direction
            },
    {
        if self.state == AppState::Game {
            self.directions.set_pending(d);
        }
    }

    /// Moves the snake and applies the food and collision rules; the food
    /// cell that new food takes is passed in as `placement`.
    fn settle(&mut self, adv: AdvanceResult, placement: Option<Coordinates>) -> (r: TickReport)
        requires
            old(self).wf(),
            adv.overlap == has_overlap(old(self).snake.array@),
            adv.food_consumed ==> (placement is None <==> forall|c: Coordinates|
                c.wf() ==> old(self).snake.array@.contains(c)),
            placement matches Some(c) ==> c.wf(),
        ensures
            final(self).snake.array@ == old(self).snake.array@,
            final(self).directions == old(self).directions,
            final(self).food == (if adv.food_consumed && placement is Some {
                placement->0
            } else {
                old(self).food
            }),
            r == (TickReport {
                moved: true,
                food_consumed: adv.food_consumed,
                overlap: adv.overlap,
                board_full: adv.food_consumed && placement is None,
            }),
            final(self).state == (if adv.overlap {
                AppState::GameOver
            } else if r.board_full {
                AppState::Won
            } else {
                AppState::Game
            }),
            final(self).wf(),
    {
        let mut board_full = false;
        if adv.food_consumed {
            match placement {
                Some(c) => {
                    self.food = c;
                },
                None => {
                    board_full = true;
                },
            }
        }
        let state = if board_full {
            AppState::Won
        } else {
            AppState::Game
        };
        self.state = check_snake_overlap(state, &self.snake);
        TickReport {
            moved: true,
            food_consumed: adv.food_consumed,
            overlap: adv.overlap,
            board_full,
        }
    }

    /// One fixed tick with a chosen food draw: the new food, when needed,
    /// takes the free cell that `place_food_with` selects for `draw`.
    pub fn tick_with_draw(&mut self, draw: usize) -> (r: TickReport)
        requires
            old(self).wf(),
        ensures
            final(self).wf(),
            old(self).state != AppState::Game ==> Game::idle(old(self), final(self), r),
            old(self).state == AppState::Game ==> Game::ticked(old(self), final(self), r),
            old(self).state == AppState::Game && old(self).eats_next() && !r.board_full
                ==> final(self).food == free_list(old(self).next_cells())[draw as int % free_list(
                old(self).next_cells(),
            ).len() as int],
    {
        if self.state != AppState::Game {
            return TickReport { moved: false, food_consumed: false, overlap: false, board_full: false };
        }
        let adv = move_snake(&mut self.directions, &mut self.snake, self.food);
        let placement = if adv.food_consumed {
            place_food_with(&self.snake.array, draw)
        } else {
            None
        };
        self.settle(adv, placement)
    }

    /// One fixed tick: resolve the heading, advance the snake, put new food on
    /// a random free cell when the old one was eaten, and end the game on a
    /// self-overlap or a full board.
    pub fn tick(&mut self) -> (r: TickReport)
        requires
            old(self).wf(),
        ensures
            final(self).wf(),
            old(self).state != AppState::Game ==> Game::idle(old(self), final(self), r),
            old(self).state == AppState::Game ==> Game::ticked(old(self), final(self), r),
            old(self).state == AppState::Game && old(self).eats_next() && !r.board_full
                ==> !final(self).snake.array@.contains(final(self).food),
    {
        if self.state != AppState::Game {
            return TickReport { moved: false, food_consumed: false, overlap: false, board_full: false };
        }
        let adv = move_snake(&mut self.directions, &mut self.snake, self.food);
        let placement = if adv.food_consumed {
            place_food(&self.snake.array)
        } else {
            None
        };
        self.settle(adv, placement)
    }
}

} // verus!
