use vstd::prelude::*;
use crate::grid::{BOARDSIZE, CELL_COUNT, Coordinates};

verus! {

/// The cell at position `k` of the row-major enumeration of the board.
pub open spec fn cell_at(k: int) -> Coordinates {
    Coordinates { x: (k / BOARDSIZE as int) as usize, y: (k % BOARDSIZE as int) as usize }
}

/// The cells among the first `k` of the enumeration that `occupied` leaves
/// free, in enumeration order.
pub open spec fn free_prefix(occupied: Seq<Coordinates>, k: nat) -> Seq<Coordinates>
    decreases k,
{
    if k == 0 {
        Seq::empty()
    } else {
        let rest = free_prefix(occupied, (k - 1) as nat);
        let c = cell_at(k - 1);
        if occupied.contains(c) {
            rest
        } else {
            rest.push(c)
        }
    }
}

/// Every free cell of the board, in row-major order.
pub open spec fn free_list(occupied: Seq<Coordinates>) -> Seq<Coordinates> {
    free_prefix(occupied, CELL_COUNT as nat)
}

proof fn lemma_cell_at_index(c: Coordinates)
    requires
        c.wf(),
    ensures
        cell_at(c.x * BOARDSIZE + c.y) == c,
        0 <= c.x * BOARDSIZE + c.y < CELL_COUNT,
{
}

proof fn lemma_free_prefix_members(occupied: Seq<Coordinates>, k: nat)
    requires
        k <= CELL_COUNT,
    ensures
        forall|c: Coordinates|
            free_prefix(occupied, k).contains(c) <==> (c.wf() && !occupied.contains(c) && c.x
                * BOARDSIZE + c.y < k),
    decreases k,
{
    assert(CELL_COUNT == 100);
    if k > 0 {
        lemma_free_prefix_members(occupied, (k - 1) as nat);
        let rest = free_prefix(occupied, (k - 1) as nat);
        let last = cell_at(k - 1);
        assert(last.wf());
        assert(last.x * BOARDSIZE + last.y == k - 1);
        assert forall|c: Coordinates|
            free_prefix(occupied, k).contains(c) <==> (c.wf() && !occupied.contains(c) && c.x
                * BOARDSIZE + c.y < k) by {
            if !occupied.contains(last) {
                let s = rest.push(last);
                if s.contains(c) && c != last {
                    let i = choose|i: int| 0 <= i < s.len() && s[i] == c;
                    assert(rest[i] == c);
                }
                if rest.contains(c) {
                    let i = choose|i: int| 0 <= i < rest.len() && rest[i] == c;
                    assert(s[i] == c);
                }
                if c == last {
                    assert(s[s.len() - 1] == c);
                }
            }
            if c.wf() && c.x * BOARDSIZE + c.y == k - 1 {
                lemma_cell_at_index(c);
            }
        }
    }
}

/// A cell is listed as free exactly when it lies on the board and is not occupied.
pub proof fn lemma_free_list_members(occupied: Seq<Coordinates>)
    ensures
        forall|c: Coordinates|
            #[trigger] free_list(occupied).contains(c) <==> (c.wf() && !occupied.contains(c)),
{
    lemma_free_prefix_members(occupied, CELL_COUNT as nat);
    assert forall|c: Coordinates| c.wf() implies c.x * BOARDSIZE + c.y < CELL_COUNT by {
        lemma_cell_at_index(c);
    }
}

/// Whether `c` occurs in `cells`.
fn contains_cell(cells: &Vec<Coordinates>, c: Coordinates) -> (r: bool)
    ensures
        r == cells@.contains(c),
{
    let mut i: usize = 0;
    while i < cells.len()
        invariant
            i <= cells@.len(),
            forall|j: int| 0 <= j < i ==> cells@[j] != c,
        decreases cells@.len() - i,
    {
        if cells[i] == c {
            assert(cells@[i as int] == c);
            return true;
        }
        i = i + 1;
    }
    false
}

/// The free cells of the board, in row-major order.
pub fn free_cells(occupied: &Vec<Coordinates>) -> (r: Vec<Coordinates>)
    ensures
        r@ == free_list(occupied@),
{
    let mut r: Vec<Coordinates> = Vec::new();
    let mut k: usize = 0;
    while k < CELL_COUNT
        invariant
            k <= CELL_COUNT,
            r@ == free_prefix(occupied@, k as nat),
        decreases CELL_COUNT - k,
    {
        let c = Coordinates::new(k / BOARDSIZE, k % BOARDSIZE);
        if !contains_cell(occupied, c) {
            r.push(c);
        }
        k = k + 1;
    }
    r
}

/// Relies on rand's `Rng::gen_range` over `thread_rng`: a value drawn from
/// `0..n`; the call panics on an empty range, hence `n > 0`.
#[verifier::external_body]
fn random_below(n: usize) -> (r: usize)
    requires
        n > 0,
    ensures
        r < n,
{
    rand::Rng::gen_range(&mut rand::thread_rng(), 0..n)
}

/// The free cell that a draw of `draw` selects: its remainder modulo the
/// number of free cells indexes the row-major list of them; `None` when the
/// board is full.
pub fn place_food_with(occupied: &Vec<Coordinates>, draw: usize) -> (r: Option<Coordinates>)
    ensures
        r == (if free_list(occupied@).len() == 0 {
            None
        } else {
            Some(free_list(occupied@)[draw as int % free_list(occupied@).len() as int])
        }),
        r matches Some(c) ==> c.wf() && !occupied@.contains(c),
        r is None <==> forall|c: Coordinates| c.wf() ==> occupied@.contains(c),
{
    proof {
        lemma_free_list_members(occupied@);
    }
    let free = free_cells(occupied);
    if free.len() == 0 {
        proof {
            assert forall|c: Coordinates| c.wf() implies occupied@.contains(c) by {
                assert(!free@.contains(c));
            }
        }
        None
    } else {
        let c = free[draw % free.len()];
        assert(free@[(draw % free.len()) as int] == c);
        assert(free_list(occupied@).contains(c));
        assert(c.wf() && !occupied@.contains(c));
        Some(c)
    }
}

/// Puts the food on a free cell chosen at random; `None` when the board is
/// full, which ends the game in a win.
pub fn place_food(occupied: &Vec<Coordinates>) -> (r: Option<Coordinates>)
    ensures
        r is None <==> free_list(occupied@).len() == 0,
        r matches Some(c) ==> free_list(occupied@).contains(c),
        r matches Some(c) ==> c.wf() && !occupied@.contains(c),
        r is None <==> forall|c: Coordinates| c.wf() ==> occupied@.contains(c),
{
    proof {
        lemma_free_list_members(occupied@);
    }
    let free = free_cells(occupied);
    if free.len() == 0 {
        proof {
            assert forall|c: Coordinates| c.wf() implies occupied@.contains(c) by {
                assert(!free@.contains(c));
            }
        }
        None
    } else {
        let c = free[random_below(free.len())];
        assert(free@.contains(c));
        assert(c.wf() && !occupied@.contains(c));
        Some(c)
    }
}

} // verus!
