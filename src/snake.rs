use vstd::prelude::*;
use crate::grid::{
    adjacency, lemma_adjacency_of_step, lemma_step_round_trip, BOARDSIZE, CELL_COUNT, Coordinates,
    Direction,
};

verus! {

/// Cells of a fresh snake: head, body and tail in a row, heading right.
pub open spec fn start_cells() -> Seq<Coordinates> {
    seq![Coordinates { x: 4, y: 4 }, Coordinates { x: 3, y: 4 }, Coordinates { x: 2, y: 4 }]
}

/// Position of a cell in a row-major enumeration of the board.
pub open spec fn cell_index(c: Coordinates) -> int {
    c.x * BOARDSIZE + c.y
}

/// Some cell occurs twice in `s`.
pub open spec fn has_overlap(s: Seq<Coordinates>) -> bool {
    exists|i: int, j: int| 0 <= i < j < s.len() && s[i] == s[j]
}

/// Each cell of `s` after the first is a single step from the one before it.
pub open spec fn is_chain(s: Seq<Coordinates>) -> bool {
    forall|i: int| 0 < i < s.len() ==> #[trigger] adjacency(s[i - 1], s[i]) is Some
}

/// The occupied cells, head first and tail last.
#[derive(Debug)]
pub struct Snake {
    pub array: Vec<Coordinates>,
}

/// What one advance of the snake did.
#[derive(Debug, Clone, Copy, PartialEq, Eq, Structural)]
pub struct AdvanceResult {
    pub food_consumed: bool,
    pub overlap: bool,
}

impl Default for Snake {
    fn default() -> (r: Snake)
        ensures
            r.array@ == start_cells(),
            r.wf(),
    {
        let mut array: Vec<Coordinates> = Vec::new();
        array.push(Coordinates::new(4, 4));
        array.push(Coordinates::new(3, 4));
        array.push(Coordinates::new(2, 4));
        assert(array@ =~= start_cells());
        Snake { array }
    }
}

impl Snake {
    /// The snake has a head and lies on the board.
    pub open spec fn wf(&self) -> bool {
        &&& self.array@.len() >= 1
        &&& forall|i: int| 0 <= i < self.array@.len() ==> #[trigger] self.array@[i].wf()
    }

    /// The cells after one advance in direction `d`: the new head in front,
    /// the old tail kept only when the new head lands on `food`.
    pub open spec fn advanced(cells: Seq<Coordinates>, d: Direction, food: Coordinates) -> Seq<
        Coordinates,
    > {
        let head = cells[0].step(d);
        if head == food {
            seq![head] + cells
        } else {
            seq![head] + cells.drop_last()
        }
    }

    pub fn has_duplicates(&self) -> (r: bool)
        requires
            self.wf(),
        ensures
            r == has_overlap(self.array@),
    {
        let cells = &self.array;
        let mut seen: Vec<bool> = Vec::new();
        let mut k: usize = 0;
        while k < CELL_COUNT
            invariant
                k <= CELL_COUNT,
                seen@.len() == k,
                forall|j: int| 0 <= j < k ==> !#[trigger] seen@[j],
            decreases CELL_COUNT - k,
        {
            seen.push(false);
            k = k + 1;
        }
        let mut i: usize = 0;
        while i < cells.len()
            invariant
                self.wf(),
                cells == &self.array,
                i <= cells@.len(),
                seen@.len() == CELL_COUNT,
                forall|j: int, l: int| 0 <= j < l < i ==> cells@[j] != cells@[l],
                forall|c: Coordinates|
                    c.wf() ==> (seen@[cell_index(c)] <==> exists|j: int|
                        0 <= j < i && #[trigger] cells@[j] == c),
            decreases cells@.len() - i,
        {
            let c = cells[i];
            assert(c.wf());
            let idx: usize = c.x * BOARDSIZE + c.y;
            if seen[idx] {
                let ghost j = choose|j: int| 0 <= j < i && cells@[j] == c;
                assert(cells@[j] == cells@[i as int]);
                return true;
            }
            seen.set(idx, true);
            proof {
                assert forall|c2: Coordinates| c2.wf() implies (seen@[cell_index(c2)] <==> exists|
                    j: int,
                | 0 <= j < i + 1 && #[trigger] cells@[j] == c2) by {
                    if cell_index(c2) == idx {
                        assert(c2 == c);
                        assert(cells@[i as int] == c2);
                    } else {
                        assert(c2 != c);
                    }
                }
            }
            i = i + 1;
        }
        false
    }

    /// Moves the head one cell in `d`; the tail stays only when the new head
    /// lands on `food`, so the snake then grows by one.
    pub fn advance(&mut self, d: Direction, food: Coordinates) -> (r: AdvanceResult)
        requires
            old(self).wf(),
        ensures
            final(self).array@ == Snake::advanced(old(self).array@, d, food),
            r.food_consumed == (old(self).array@[0].step(d) == food),
            final(self).array@.len() == old(self).array@.len() + if r.food_consumed {
                1int
            } else {
                0int
            },
            final(self).array@[0] == old(self).array@[0].step(d),
            r.overlap == has_overlap(final(self).array@),
            final(self).wf(),
    {
        let ghost before = self.array@;
        let new_head = self.array[0].clone_in_direction(&d);
        self.array.insert(0, new_head);
        let food_consumed = new_head == food;
        if !food_consumed {
            self.array.pop();
        }
        assert(self.array@ =~= Snake::advanced(before, d, food));
        assert forall|i: int| 0 <= i < self.array@.len() implies #[trigger] self.array@[i].wf() by {
            if i > 0 {
                assert(self.array@[i] == before[i - 1]);
            }
        }
        let overlap = self.has_duplicates();
        AdvanceResult { food_consumed, overlap }
    }

    /// For each segment, the direction towards its neighbour nearer the head
    /// and the direction towards its neighbour nearer the tail.
    pub fn segment_directions(&self) -> (r: Vec<(Option<Direction>, Option<Direction>)>)
        requires
            self.wf(),
        ensures
            r@.len() == self.array@.len(),
            forall|i: int|
                0 <= i < r@.len() ==> #[trigger] r@[i] == (
                    if i == 0 {
                        None
                    } else {
                        adjacency(self.array@[i], self.array@[i - 1])
                    },
                    if i == self.array@.len() - 1 {
                        None
                    } else {
                        adjacency(self.array@[i], self.array@[i + 1])
                    },
                ),
    {
        let cells = &self.array;
        let n = cells.len();
        let mut r: Vec<(Option<Direction>, Option<Direction>)> = Vec::new();
        let mut i: usize = 0;
        while i < n
            invariant
                self.wf(),
                cells == &self.array,
                n == cells@.len(),
                i <= n,
                r@.len() == i,
                forall|j: int|
                    0 <= j < i ==> #[trigger] r@[j] == (
                        if j == 0 {
                            None
                        } else {
                            adjacency(cells@[j], cells@[j - 1])
                        },
                        if j == n - 1 {
                            None
                        } else {
                            adjacency(cells@[j], cells@[j + 1])
                        },
                    ),
            decreases n - i,
        {
            let direction_in = if i == 0 {
                None
            } else {
                cells[i].is_adjacent(cells[i - 1])
            };
            let direction_out = if i == n - 1 {
                None
            } else {
                cells[i].is_adjacent(cells[i + 1])
            };
            r.push((direction_in, direction_out));
            i = i + 1;
        }
        r
    }
}

/// The heading used on the last tick and the latest one the player asked for.
#[derive(Debug, Clone, Copy, PartialEq, Eq, Structural)]
pub struct SnakeDirection {
    pub prev_direction: Direction,
    pub direction: Direction,
}

impl Default for SnakeDirection {
    fn default() -> (r: SnakeDirection)
        ensures
            r.prev_direction == Direction::RIGHT,
            r.direction == Direction::RIGHT,
    {
        SnakeDirection { prev_direction: Direction::RIGHT, direction: Direction::RIGHT }
    }
}

impl SnakeDirection {
    /// The heading a tick uses: the requested one, unless it would reverse the
    /// snake onto its own neck, in which case the previous one.
    pub open spec fn resolved(self) -> Direction {
        if self.direction == self.prev_direction.opposite() {
            self.prev_direction
        } else {
            self.direction
        }
    }

    /// Records a request; the last one before a tick wins.
    pub fn set_pending(&mut self, d: Direction)
        ensures
            final(self).direction == d,
            final(self).prev_direction == old(self).prev_direction,
    {
        self.direction = d;
    }

    /// Picks the heading for this tick and remembers it as the previous one.
    pub fn resolve_for_tick(&mut self) -> (r: Direction)
        ensures
            r == old(self).resolved(),
            final(self).prev_direction == r,
            final(self).direction == r,
    {
        if self.prev_direction == self.direction.to_oposite() {
            self.direction = self.prev_direction;
        }
        self.prev_direction = self.direction;
        self.direction
    }
}

/// A request to turn back the way the snake came is ignored: the tick keeps
/// the previous heading.
pub proof fn lemma_reversal_ignored(prev: Direction)
    ensures
        (SnakeDirection { prev_direction: prev, direction: prev.opposite() }).resolved() == prev,
{
}

/// Every advance grows the snake by one cell when it eats and keeps its length
/// otherwise.
pub proof fn lemma_growth(cells: Seq<Coordinates>, d: Direction, food: Coordinates)
    requires
        cells.len() >= 1,
    ensures
        Snake::advanced(cells, d, food).len() == cells.len() + if cells[0].step(d) == food {
            1int
        } else {
            0int
        },
        Snake::advanced(cells, d, food)[0] == cells[0].step(d),
{
}

/// An advance keeps a snake of adjacent cells connected: the new head is a
/// single step from the old one, and dropping the tail breaks no link.
pub proof fn lemma_advance_keeps_chain(cells: Seq<Coordinates>, d: Direction, food: Coordinates)
    requires
        cells.len() >= 1,
        cells[0].wf(),
        is_chain(cells),
    ensures
        is_chain(Snake::advanced(cells, d, food)),
{
    let head = cells[0].step(d);
    lemma_step_round_trip(cells[0], d);
    lemma_adjacency_of_step(head, d.opposite());
    let s = Snake::advanced(cells, d, food);
    assert forall|i: int| 0 < i < s.len() implies #[trigger] adjacency(s[i - 1], s[i]) is Some by {
        if i > 1 {
            assert(s[i - 1] == cells[i - 2] && s[i] == cells[i - 1]);
        }
    }
}

} // verus!
