use snake_core::food::{free_cells, place_food, place_food_with};
use snake_core::game::{check_snake_overlap, move_snake, AppState, Game, TickReport};
use snake_core::grid::{get_snake_image, Coordinates, Direction, BOARDSIZE, CELL_COUNT};
use snake_core::snake::{Snake, SnakeDirection};

const ALL_DIRECTIONS: [Direction; 4] = [Direction::UP, Direction::RIGHT, Direction::DOWN, Direction::LEFT];

fn c(x: usize, y: usize) -> Coordinates {
    Coordinates::new(x, y)
}

fn snake(cells: &[(usize, usize)]) -> Snake {
    Snake { array: cells.iter().map(|&(x, y)| c(x, y)).collect() }
}

fn all_cells() -> Vec<Coordinates> {
    let mut v = Vec::new();
    for x in 0..BOARDSIZE {
        for y in 0..BOARDSIZE {
            v.push(c(x, y));
        }
    }
    v
}

#[test]
fn step_round_trip_everywhere() {
    for cell in all_cells() {
        for d in ALL_DIRECTIONS {
            let there = cell.clone_in_direction(&d);
            assert_eq!(there.clone_in_direction(&d.to_oposite()), cell);
        }
    }
}

#[test]
fn adjacency_of_step_everywhere() {
    for cell in all_cells() {
        for d in ALL_DIRECTIONS {
            assert_eq!(cell.is_adjacent(cell.clone_in_direction(&d)), Some(d));
        }
    }
}

#[test]
fn adjacency_none_for_far_or_same_cells() {
    assert_eq!(c(3, 3).is_adjacent(c(3, 3)), None);
    assert_eq!(c(3, 3).is_adjacent(c(5, 3)), None);
    assert_eq!(c(3, 3).is_adjacent(c(4, 4)), None);
    assert_eq!(c(0, 5).is_adjacent(c(9, 5)), Some(Direction::LEFT));
    assert_eq!(c(5, 9).is_adjacent(c(5, 0)), Some(Direction::UP));
}

#[test]
fn step_wraps_at_edges() {
    assert_eq!(c(9, 2).clone_in_direction(&Direction::RIGHT), c(0, 2));
    assert_eq!(c(0, 2).clone_in_direction(&Direction::LEFT), c(9, 2));
    assert_eq!(c(4, 9).clone_in_direction(&Direction::UP), c(4, 0));
    assert_eq!(c(4, 0).clone_in_direction(&Direction::DOWN), c(4, 9));
    assert_eq!(c(4, 5).clone_in_direction(&Direction::UP), c(4, 6));
    assert_eq!(c(4, 5).get_xy(), (4, 5));
}

#[test]
fn opposites_and_default_direction() {
    assert_eq!(Direction::UP.to_oposite(), Direction::DOWN);
    assert_eq!(Direction::DOWN.to_oposite(), Direction::UP);
    assert_eq!(Direction::LEFT.to_oposite(), Direction::RIGHT);
    assert_eq!(Direction::RIGHT.to_oposite(), Direction::LEFT);
    assert_eq!(Direction::default(), Direction::RIGHT);
}

#[test]
fn reversal_guard_keeps_previous_direction() {
    let mut dirs = SnakeDirection { prev_direction: Direction::RIGHT, direction: Direction::RIGHT };
    dirs.set_pending(Direction::LEFT);
    assert_eq!(dirs.resolve_for_tick(), Direction::RIGHT);
    assert_eq!(dirs.prev_direction, Direction::RIGHT);
}

#[test]
fn turn_is_taken_and_last_request_wins() {
    let mut dirs = SnakeDirection::default();
    dirs.set_pending(Direction::LEFT);
    dirs.set_pending(Direction::UP);
    assert_eq!(dirs.resolve_for_tick(), Direction::UP);
    assert_eq!(dirs.prev_direction, Direction::UP);
    assert_eq!(dirs.direction, Direction::UP);
}

#[test]
fn growth_only_when_food_eaten() {
    let mut s = snake(&[(4, 4), (3, 4), (2, 4)]);
    let r = s.advance(Direction::UP, c(8, 8));
    assert!(!r.food_consumed);
    assert_eq!(s.array, vec![c(4, 5), c(4, 4), c(3, 4)]);
    let r = s.advance(Direction::UP, c(4, 6));
    assert!(r.food_consumed);
    assert_eq!(s.array, vec![c(4, 6), c(4, 5), c(4, 4), c(3, 4)]);
}

#[test]
fn overlap_detected_for_duplicate_cells() {
    let s = snake(&[(2, 2), (2, 2), (3, 2)]);
    assert!(s.has_duplicates());
    let far = snake(&[(1, 1), (5, 5), (1, 1)]);
    assert!(far.has_duplicates());
}

#[test]
fn no_overlap_for_distinct_cells() {
    let s = snake(&[(2, 2), (3, 2), (4, 2)]);
    assert!(!s.has_duplicates());
    assert!(!Snake::default().has_duplicates());
    assert!(!Snake { array: all_cells() }.has_duplicates());
}

#[test]
fn scenario_eat_food_to_the_right() {
    let mut s = snake(&[(4, 4), (3, 4), (2, 4)]);
    let food = c(5, 4);
    let r = s.advance(Direction::RIGHT, food);
    assert_eq!(s.array[0], c(5, 4));
    assert!(r.food_consumed);
    assert!(!r.overlap);
    assert_eq!(s.array.len(), 4);
    assert_eq!(s.array[0], food);
}

#[test]
fn scenario_wrap_left_from_origin() {
    let mut s = snake(&[(0, 0), (1, 0)]);
    let r = s.advance(Direction::LEFT, c(8, 8));
    assert_eq!(s.array, vec![c(9, 0), c(0, 0)]);
    assert!(!r.overlap);
    assert!(!r.food_consumed);
}

#[test]
fn scenario_run_into_own_segment() {
    // Length four, the head moves onto array[2], which the move retains.
    let mut s = snake(&[(5, 5), (5, 4), (6, 5), (7, 5)]);
    let r = s.advance(Direction::RIGHT, c(8, 8));
    assert_eq!(s.array, vec![c(6, 5), c(5, 5), c(5, 4), c(6, 5)]);
    assert!(r.overlap);
    assert!(!r.food_consumed);

    // A tight square: the head moves onto the tail cell, which is vacated.
    let mut s = snake(&[(5, 5), (5, 4), (4, 4), (4, 5)]);
    let r = s.advance(Direction::LEFT, c(8, 8));
    assert_eq!(s.array[0], c(4, 5));
    assert!(!r.overlap, "the old tail cell is vacated in the same step");

    let mut s = snake(&[(5, 5), (5, 4), (4, 4), (4, 5), (4, 6)]);
    let r = s.advance(Direction::DOWN, c(8, 8));
    assert_eq!(s.array[0], c(5, 4));
    assert!(r.overlap);

    let mut s = snake(&[(5, 5), (5, 4), (4, 4), (4, 5)]);
    let r = s.advance(Direction::LEFT, c(4, 5));
    assert!(r.food_consumed);
    assert!(r.overlap, "a grown snake keeps its tail, which then blocks the head");
}

#[test]
fn free_cells_in_row_major_order() {
    let free = free_cells(&vec![]);
    assert_eq!(free.len(), CELL_COUNT);
    assert_eq!(free, all_cells());
    let free = free_cells(&vec![c(0, 0), c(0, 1), c(0, 0)]);
    assert_eq!(free.len(), CELL_COUNT - 2);
    assert_eq!(free[0], c(0, 2));
    assert_eq!(free[8], c(1, 0));
    assert!(free_cells(&all_cells()).is_empty());
}

#[test]
fn food_with_draw_is_exact() {
    assert_eq!(place_food_with(&vec![], 0), Some(c(0, 0)));
    assert_eq!(place_food_with(&vec![], 13), Some(c(1, 3)));
    assert_eq!(place_food_with(&vec![], 113), Some(c(1, 3)));
    assert_eq!(place_food_with(&vec![c(0, 0)], 0), Some(c(0, 1)));
    let mut occupied = all_cells();
    occupied.retain(|&cell| cell != c(6, 2));
    assert_eq!(place_food_with(&occupied, 57), Some(c(6, 2)));
    assert_eq!(place_food_with(&all_cells(), 3), None);
}

#[test]
fn random_food_avoids_the_snake() {
    let s = Snake::default();
    for _ in 0..200 {
        let food = place_food(&s.array).expect("board has room");
        assert!(!s.array.contains(&food));
        assert!(food.x < BOARDSIZE && food.y < BOARDSIZE);
    }
    let mut occupied = all_cells();
    occupied.retain(|&cell| cell != c(3, 7));
    for _ in 0..20 {
        assert_eq!(place_food(&occupied), Some(c(3, 7)));
    }
    assert_eq!(place_food(&all_cells()), None);
}

#[test]
fn random_food_reaches_more_than_one_cell() {
    let s = Snake::default();
    let first = place_food(&s.array).unwrap();
    let mut other = false;
    for _ in 0..500 {
        if place_food(&s.array).unwrap() != first {
            other = true;
        }
    }
    assert!(other);
}

#[test]
fn segment_images_of_starting_snake() {
    let s = Snake::default();
    assert_eq!(s.array, vec![c(4, 4), c(3, 4), c(2, 4)]);
    let dirs = s.segment_directions();
    assert_eq!(
        dirs,
        vec![
            (None, Some(Direction::LEFT)),
            (Some(Direction::RIGHT), Some(Direction::LEFT)),
            (Some(Direction::RIGHT), None),
        ]
    );
    let images: Vec<&str> = dirs.iter().map(|&(i, o)| get_snake_image(i, o).unwrap()).collect();
    assert_eq!(images, vec!["head_right.png", "body_horizontal.png", "tail_left.png"]);
}

#[test]
fn snake_images_table() {
    assert_eq!(get_snake_image(Some(Direction::UP), Some(Direction::DOWN)), Some("body_vertical.png"));
    assert_eq!(get_snake_image(None, Some(Direction::DOWN)), Some("head_up.png"));
    assert_eq!(get_snake_image(Some(Direction::UP), None), Some("tail_down.png"));
    assert_eq!(get_snake_image(Some(Direction::LEFT), Some(Direction::DOWN)), Some("body_bottomleft.png"));
    assert_eq!(get_snake_image(Some(Direction::RIGHT), Some(Direction::UP)), Some("body_topright.png"));
    assert_eq!(get_snake_image(None, None), None);
    assert_eq!(get_snake_image(Some(Direction::UP), Some(Direction::UP)), None);
}

#[test]
fn move_snake_applies_reversal_guard() {
    let mut dirs = SnakeDirection::default();
    let mut s = Snake::default();
    dirs.set_pending(Direction::LEFT);
    let r = move_snake(&mut dirs, &mut s, c(8, 8));
    assert_eq!(s.array, vec![c(5, 4), c(4, 4), c(3, 4)]);
    assert!(!r.food_consumed && !r.overlap);
    assert_eq!(dirs.prev_direction, Direction::RIGHT);
}

#[test]
fn overlap_ends_the_game() {
    assert_eq!(check_snake_overlap(AppState::Game, &snake(&[(2, 2), (2, 2), (3, 2)])), AppState::GameOver);
    assert_eq!(check_snake_overlap(AppState::Game, &Snake::default()), AppState::Game);
    assert_eq!(AppState::default(), AppState::Game);
}

#[test]
fn game_tick_moves_and_eats() {
    let mut g = Game::new();
    assert_eq!(g.food, c(8, 8));
    let r = g.tick();
    assert_eq!(r, TickReport { moved: true, food_consumed: false, overlap: false, board_full: false });
    assert_eq!(g.snake.array, vec![c(5, 4), c(4, 4), c(3, 4)]);
    g.food = c(6, 4);
    let r = g.tick_with_draw(0);
    assert!(r.food_consumed);
    assert_eq!(g.snake.array.len(), 4);
    assert_eq!(g.food, c(0, 0));
    assert_eq!(g.state, AppState::Game);
    g.food = c(7, 4);
    g.tick();
    assert!(!g.snake.array.contains(&g.food));
}

#[test]
fn game_over_is_terminal() {
    let mut g = Game::new();
    g.snake = snake(&[(5, 5), (5, 4), (4, 4), (4, 5), (4, 6)]);
    g.directions = SnakeDirection { prev_direction: Direction::LEFT, direction: Direction::DOWN };
    let r = g.tick();
    assert!(r.overlap);
    assert_eq!(g.state, AppState::GameOver);
    let before = g.snake.array.clone();
    g.request_direction(Direction::UP);
    let r = g.tick();
    assert_eq!(r, TickReport { moved: false, food_consumed: false, overlap: false, board_full: false });
    assert_eq!(g.snake.array, before);
    assert_eq!(g.directions.direction, Direction::DOWN);
}

#[test]
fn full_board_is_a_win() {
    let mut cells: Vec<Coordinates> = vec![c(9, 8)];
    for cell in all_cells() {
        if cell != c(9, 8) && cell != c(9, 9) {
            cells.push(cell);
        }
    }
    let mut g = Game::new();
    g.snake = Snake { array: cells };
    g.food = c(9, 9);
    g.directions = SnakeDirection { prev_direction: Direction::UP, direction: Direction::UP };
    let r = g.tick_with_draw(5);
    assert!(r.food_consumed && r.board_full && !r.overlap);
    assert_eq!(g.state, AppState::Won);
    assert_eq!(g.snake.array.len(), CELL_COUNT);
    assert_eq!(g.food, c(9, 9));
}

#[test]
fn advancing_keeps_segments_adjacent() {
    let mut s = Snake::default();
    let moves = [Direction::UP, Direction::UP, Direction::LEFT, Direction::DOWN, Direction::LEFT];
    for (k, d) in moves.iter().enumerate() {
        let food = if k == 2 { s.array[0].clone_in_direction(d) } else { c(9, 9) };
        s.advance(*d, food);
        for i in 1..s.array.len() {
            assert!(s.array[i - 1].is_adjacent(s.array[i]).is_some());
        }
    }
    assert_eq!(s.array.len(), 4);
}
