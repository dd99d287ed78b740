use vstd::prelude::*;

verus! {

/// Width and height of the square, wrap-around board.
pub const BOARDSIZE: usize = 10;

/// Number of cells on the board.
pub const CELL_COUNT: usize = BOARDSIZE * BOARDSIZE;

/// One of the four headings a snake can take.
#[derive(Debug, Clone, Copy, PartialEq, Eq, Structural)]
pub enum Direction {
    UP,
    RIGHT,
    DOWN,
    LEFT,
}

impl Default for Direction {
    fn default() -> (r: Direction)
        ensures
            r == Direction::RIGHT,
    {
        Direction::RIGHT
    }
}

impl Direction {
    /// The heading that undoes this one.
    pub open spec fn opposite(self) -> Direction {
        match self {
            Direction::UP => Direction::DOWN,
            Direction::DOWN => Direction::UP,
            Direction::RIGHT => Direction::LEFT,
            Direction::LEFT => Direction::RIGHT,
        }
    }

    pub fn to_oposite(&self) -> (r: Direction)
        ensures
            r == self.opposite(),
    {
        match self {
            Direction::DOWN => Direction::UP,
            Direction::UP => Direction::DOWN,
            Direction::RIGHT => Direction::LEFT,
            Direction::LEFT => Direction::RIGHT,
        }
    }
}

/// A cell of the board; `UP` increases `y`, `RIGHT` increases `x`.
#[derive(Debug, Clone, Copy, PartialEq, Eq, Hash, Structural)]
pub struct Coordinates {
    pub x: usize,
    pub y: usize,
}

/// The next index along an axis, wrapping from the last back to zero.
pub open spec fn succ(v: usize) -> usize {
    if v + 1 >= BOARDSIZE {
        0
    } else {
        (v + 1) as usize
    }
}

/// The previous index along an axis, wrapping from zero to the last.
pub open spec fn pred(v: usize) -> usize {
    if v == 0 {
        (BOARDSIZE - 1) as usize
    } else {
        (v - 1) as usize
    }
}

/// `(v + 1) mod BOARDSIZE` on an index of the board.
fn next_index(v: usize) -> (r: usize)
    requires
        v < BOARDSIZE,
    ensures
        r == succ(v),
{
    (v + 1) % BOARDSIZE
}

impl Coordinates {
    /// The cell lies on the board.
    pub open spec fn wf(self) -> bool {
        self.x < BOARDSIZE && self.y < BOARDSIZE
    }

    /// The cell one step away in direction `d`, wrapping at the edges.
    pub open spec fn step(self, d: Direction) -> Coordinates {
        match d {
            Direction::UP => Coordinates { x: self.x, y: succ(self.y) },
            Direction::DOWN => Coordinates { x: self.x, y: pred(self.y) },
            Direction::RIGHT => Coordinates { x: succ(self.x), y: self.y },
            Direction::LEFT => Coordinates { x: pred(self.x), y: self.y },
        }
    }

    pub fn new(x: usize, y: usize) -> (r: Coordinates)
        ensures
            r.x == x,
            r.y == y,
    {
        Coordinates { x, y }
    }

    pub fn clone_in_direction(&self, dir: &Direction) -> (r: Coordinates)
        requires
            self.wf(),
        ensures
            r == self.step(*dir),
            r.wf(),
    {
        match dir {
            Direction::UP => Coordinates { x: self.x, y: next_index(self.y) },
            Direction::RIGHT => Coordinates { x: next_index(self.x), y: self.y },
            Direction::DOWN => Coordinates {
                x: self.x,
                y: if self.y == 0 {
                    BOARDSIZE - 1
                } else {
                    self.y - 1
                },
            },
            Direction::LEFT => Coordinates {
                x: if self.x == 0 {
                    BOARDSIZE - 1
                } else {
                    self.x - 1
                },
                y: self.y,
            },
        }
    }

    pub fn get_xy(&self) -> (r: (usize, usize))
        ensures
            r == (self.x, self.y),
    {
        (self.x, self.y)
    }

    pub fn is_adjacent(&self, other: Coordinates) -> (r: Option<Direction>)
        requires
            self.wf(),
            other.wf(),
        ensures
            r == adjacency(*self, other),
    {
        if self.x == other.x {
            if next_index(self.y) == other.y {
                return Some(Direction::UP);
            } else if next_index(other.y) == self.y {
                return Some(Direction::DOWN);
            }
        } else if self.y == other.y {
            if next_index(self.x) == other.x {
                return Some(Direction::RIGHT);
            } else if next_index(other.x) == self.x {
                return Some(Direction::LEFT);
            }
        }
        None
    }
}

/// The direction whose single step leads from `a` to `b`, if there is one.
pub open spec fn adjacency(a: Coordinates, b: Coordinates) -> Option<Direction> {
    if a.step(Direction::UP) == b {
        Some(Direction::UP)
    } else if a.step(Direction::DOWN) == b {
        Some(Direction::DOWN)
    } else if a.step(Direction::RIGHT) == b {
        Some(Direction::RIGHT)
    } else if a.step(Direction::LEFT) == b {
        Some(Direction::LEFT)
    } else {
        None
    }
}

/// Stepping in a direction and then in its opposite returns to the start cell.
pub proof fn lemma_step_round_trip(c: Coordinates, d: Direction)
    requires
        c.wf(),
    ensures
        c.step(d).wf(),
        c.step(d).step(d.opposite()) == c,
{
}

/// A step in direction `d` leads to a cell that is adjacent in direction `d`.
pub proof fn lemma_adjacency_of_step(c: Coordinates, d: Direction)
    requires
        c.wf(),
    ensures
        adjacency(c, c.step(d)) == Some(d),
{
}

/// The artwork for a segment whose neighbours lie in `direction_in` (towards
/// the head) and `direction_out` (towards the tail); `None` for a pair that no
/// well-formed snake produces.
pub open spec fn segment_image(
    direction_in: Option<Direction>,
    direction_out: Option<Direction>,
) -> Option<&'static str> {
    match (direction_in, direction_out) {
        (Some(Direction::UP), Some(Direction::DOWN)) => Some("body_vertical.png"),
        (Some(Direction::DOWN), Some(Direction::UP)) => Some("body_vertical.png"),
        (Some(Direction::LEFT), Some(Direction::RIGHT)) => Some("body_horizontal.png"),
        (Some(Direction::RIGHT), Some(Direction::LEFT)) => Some("body_horizontal.png"),
        (None, Some(Direction::DOWN)) => Some("head_up.png"),
        (None, Some(Direction::UP)) => Some("head_down.png"),
        (None, Some(Direction::RIGHT)) => Some("head_left.png"),
        (None, Some(Direction::LEFT)) => Some("head_right.png"),
        (Some(Direction::DOWN), None) => Some("tail_up.png"),
        (Some(Direction::UP), None) => Some("tail_down.png"),
        (Some(Direction::RIGHT), None) => Some("tail_left.png"),
        (Some(Direction::LEFT), None) => Some("tail_right.png"),
        (Some(Direction::UP), Some(Direction::LEFT)) => Some("body_topleft.png"),
        (Some(Direction::UP), Some(Direction::RIGHT)) => Some("body_topright.png"),
        (Some(Direction::DOWN), Some(Direction::LEFT)) => Some("body_bottomleft.png"),
        (Some(Direction::DOWN), Some(Direction::RIGHT)) => Some("body_bottomright.png"),
        (Some(Direction::LEFT), Some(Direction::UP)) => Some("body_topleft.png"),
        (Some(Direction::RIGHT), Some(Direction::UP)) => Some("body_topright.png"),
        (Some(Direction::LEFT), Some(Direction::DOWN)) => Some("body_bottomleft.png"),
        (Some(Direction::RIGHT), Some(Direction::DOWN)) => Some("body_bottomright.png"),
        _ => None,
    }
}

pub fn get_snake_image(direction_in: Option<Direction>, direction_out: Option<Direction>) -> (r:
    Option<&'static str>)
    ensures
        r == segment_image(direction_in, direction_out),
{
    match (direction_in, direction_out) {
        (Some(Direction::UP), Some(Direction::DOWN)) => Some("body_vertical.png"),
        (Some(Direction::DOWN), Some(Direction::UP)) => Some("body_vertical.png"),
        (Some(Direction::LEFT), Some(Direction::RIGHT)) => Some("body_horizontal.png"),
        (Some(Direction::RIGHT), Some(Direction::LEFT)) => Some("body_horizontal.png"),
        (None, Some(Direction::DOWN)) => Some("head_up.png"),
        (None, Some(Direction::UP)) => Some("head_down.png"),
        (None, Some(Direction::RIGHT)) => Some("head_left.png"),
        (None, Some(Direction::LEFT)) => Some("head_right.png"),
        (Some(Direction::DOWN), None) => Some("tail_up.png"),
        (Some(Direction::UP), None) => Some("tail_down.png"),
        (Some(Direction::RIGHT), None) => Some("tail_left.png"),
        (Some(Direction::LEFT), None) => Some("tail_right.png"),
        (Some(Direction::UP), Some(Direction::LEFT)) => Some("body_topleft.png"),
        (Some(Direction::UP), Some(Direction::RIGHT)) => Some("body_topright.png"),
        (Some(Direction::DOWN), Some(Direction::LEFT)) => Some("body_bottomleft.png"),
        (Some(Direction::DOWN), Some(Direction::RIGHT)) => Some("body_bottomright.png"),
        (Some(Direction::LEFT), Some(Direction::UP)) => Some("body_topleft.png"),
        (Some(Direction::RIGHT), Some(Direction::UP)) => Some("body_topright.png"),
        (Some(Direction::LEFT), Some(Direction::DOWN)) => Some("body_bottomleft.png"),
        (Some(Direction::RIGHT), Some(Direction::DOWN)) => Some("body_bottomright.png"),
        _ => None,
    }
}

} // verus!
