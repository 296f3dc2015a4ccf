//! Food: where it may go, and how a place for it is found.

use vstd::prelude::*;
use crate::coord::Coordinate;
use crate::creature::CreatureView;
use crate::error::GameError;
use crate::grid::{CellType, Grid, GridView};

verus! {

/// Row-major order of cells: `a` comes no later than `b`.
pub open spec fn precedes(a: Coordinate, b: Coordinate) -> bool {
    a.y < b.y || (a.y == b.y && a.x <= b.x)
}

impl GridView {
    /// Food may be put at `c`: the cell lies on the grid and shows neither
    /// body nor head.
    pub open spec fn accepts_food(self, c: Coordinate) -> bool {
        self.in_bounds(c) && self.cells[c] != CellType::SnakeBody && self.cells[c]
            != CellType::SnakeHead
    }

    /// None of the samples may take food.
    pub open spec fn rejects_all(self, samples: Seq<Coordinate>) -> bool {
        forall|j: int| 0 <= j < samples.len() ==> !self.accepts_food(#[trigger] samples[j])
    }

    /// `c` is the first empty cell in row-major order.
    pub open spec fn is_first_empty(self, c: Coordinate) -> bool {
        &&& self.in_bounds(c)
        &&& self.cells[c] == CellType::Empty
        &&& forall|d: Coordinate|
            self.in_bounds(d) && #[trigger] self.cells[d] == CellType::Empty ==> precedes(c, d)
    }

    /// Sample `i` is the first that may take food.
    pub open spec fn is_first_accepted(self, samples: Seq<Coordinate>, i: int) -> bool {
        &&& 0 <= i < samples.len()
        &&& self.accepts_food(samples[i])
        &&& self.rejects_all(samples.take(i))
    }

    /// `c` is where food goes, given the sampled cells: the first sample that
    /// may take food or, when every sample is rejected, the first empty
    /// cell of the grid.
    pub open spec fn is_food_pick(self, samples: Seq<Coordinate>, c: Coordinate) -> bool {
        ||| exists|i: int| #[trigger] self.is_first_accepted(samples, i) && samples[i] == c
        ||| self.rejects_all(samples) && self.is_first_empty(c)
    }

    /// Where food goes, given the sampled cells, if it can go anywhere.
    pub open spec fn food_pick(self, samples: Seq<Coordinate>) -> Option<Coordinate> {
        if exists|c: Coordinate| self.is_food_pick(samples, c) {
            Some(choose|c: Coordinate| self.is_food_pick(samples, c))
        } else {
            None
        }
    }

    /// The grid after food has been placed by the samples; unchanged when
    /// food finds no place.
    pub open spec fn fed(self, samples: Seq<Coordinate>) -> GridView {
        match self.food_pick(samples) {
            Some(c) => self.put(c, CellType::Food),
            None => self,
        }
    }

    /// No two cells hold food.
    pub open spec fn at_most_one_food(self) -> bool {
        forall|a: Coordinate, b: Coordinate|
            self.in_bounds(a) && self.in_bounds(b) && #[trigger] self.cells[a] == CellType::Food
                && #[trigger] self.cells[b] == CellType::Food ==> a == b
    }
}

/// The place where food goes is determined: a cell that qualifies is the
/// pick.
pub proof fn lemma_food_pick_is(g: GridView, samples: Seq<Coordinate>, c: Coordinate)
    requires
        g.is_food_pick(samples, c),
    ensures
        g.food_pick(samples) == Some(c),
{
    assert forall|i: int, k: int|
        g.is_first_accepted(samples, i) && g.is_first_accepted(samples, k) implies i == k by {
        if i < k {
            assert(samples.take(k)[i] == samples[i]);
        }
        if k < i {
            assert(samples.take(i)[k] == samples[k]);
        }
    }
}

/// Food finds a place exactly when some sample may take it or some cell of
/// the grid is empty.
pub proof fn lemma_food_pick_exists(g: GridView, samples: Seq<Coordinate>)
    requires
        g.wf(),
    ensures
        g.food_pick(samples) is Some <==> !g.rejects_all(samples) || exists|c: Coordinate|
            g.in_bounds(c) && #[trigger] g.cells[c] == CellType::Empty,
        g.food_pick(samples) matches Some(c) ==> g.is_food_pick(samples, c),
{
    if !g.rejects_all(samples) {
        assert(samples.take(samples.len() as int) =~= samples);
        lemma_first_accepted(g, samples, samples.len() as int);
    } else if exists|c: Coordinate| g.in_bounds(c) && #[trigger] g.cells[c] == CellType::Empty {
        let c = choose|c: Coordinate| g.in_bounds(c) && #[trigger] g.cells[c] == CellType::Empty;
        lemma_first_empty(g, c.y as int + 1, g.width as int);
        let e = choose|e: Coordinate| g.is_first_empty(e);
        assert(g.is_food_pick(samples, e));
    }
}

/// If one of the first `n` samples may take food, one of them is the first
/// that may.
proof fn lemma_first_accepted(g: GridView, samples: Seq<Coordinate>, n: int)
    requires
        0 <= n <= samples.len(),
        !g.rejects_all(samples.take(n)),
    ensures
        exists|c: Coordinate| g.is_food_pick(samples, c),
    decreases n,
{
    let j = choose|j: int| 0 <= j < n && g.accepts_food(#[trigger] samples.take(n)[j]);
    if g.rejects_all(samples.take(j)) {
        assert(g.is_first_accepted(samples, j));
        assert(g.is_food_pick(samples, samples[j]));
    } else {
        lemma_first_accepted(g, samples, j);
    }
}

/// Some cell before row `y`, column `x` in row-major order is empty.
spec fn empty_before(g: GridView, y: int, x: int) -> bool {
    exists|c: Coordinate|
        g.in_bounds(c) && #[trigger] g.cells[c] == CellType::Empty && (c.y < y || (c.y == y
            && c.x < x))
}

/// If the grid has an empty cell before row `y`, column `x`, it has a first
/// empty cell.
proof fn lemma_first_empty(g: GridView, y: int, x: int)
    requires
        g.wf(),
        0 <= y <= g.height,
        0 <= x <= g.width,
        empty_before(g, y, x),
    ensures
        exists|c: Coordinate| g.is_first_empty(c),
    decreases y, x,
{
    if x == 0 {
        if y == 0 {
        } else {
            lemma_first_empty(g, y - 1, g.width as int);
        }
    } else {
        let last = Coordinate { x: (x - 1) as i32, y: y as i32 };
        if empty_before(g, y, x - 1) {
            lemma_first_empty(g, y, x - 1);
        } else {
            assert(g.is_first_empty(last));
        }
    }
}

/// Placing food on a grid that holds none leaves exactly one food cell, and
/// that cell was empty before.
pub proof fn lemma_food_placed_once(g: GridView, samples: Seq<Coordinate>, c: Coordinate)
    requires
        g.wf(),
        g.cells_of(CellType::Food) =~= Set::<Coordinate>::empty(),
        g.food_pick(samples) == Some(c),
    ensures
        g.cells[c] == CellType::Empty,
        g.fed(samples).cells_of(CellType::Food) == set![c],
        g.fed(samples).cells_of(CellType::Food).len() == 1,
{
    lemma_food_pick_exists(g, samples);
    assert forall|d: Coordinate| g.in_bounds(d) implies g.cells[d] != CellType::Food by {
        assert(!g.cells_of(CellType::Food).contains(d));
    }
    assert(g.fed(samples).cells_of(CellType::Food) =~= set![c]);
}

/// Placing food never disturbs the creature's placement.
pub proof fn lemma_feeding_keeps_placement(s: CreatureView, g: GridView, samples: Seq<Coordinate>)
    requires
        s.placed_on(g),
    ensures
        s.placed_on(g.fed(samples)),
{
    lemma_food_pick_exists(g, samples);
}

impl Grid {
    /// Finds where food goes: the first sample that may take it or, failing
    /// that, the first empty cell in row-major order.
    fn pick_food(&self, samples: &Vec<Coordinate>) -> (r: Option<Coordinate>)
        requires
            self.wf(),
        ensures
            r == self@.food_pick(samples@),
    {
        let mut i: usize = 0;
        while i < samples.len()
            invariant
                i <= samples.len(),
                self.wf(),
                self@.rejects_all(samples@.take(i as int)),
            decreases samples.len() - i,
        {
            let c = samples[i];
            if self.contains(c) {
                let t = self.at(c);
                if !(t == CellType::SnakeBody) && !(t == CellType::SnakeHead) {
                    proof {
                        assert(self@.is_first_accepted(samples@, i as int));
                        lemma_food_pick_is(self@, samples@, c);
                    }
                    return Some(c);
                }
            }
            i = i + 1;
        }
        assert(samples@.take(i as int) =~= samples@);
        let mut y: i32 = 0;
        while y < self.height()
            invariant
                0 <= y <= self@.height,
                self.wf(),
                self@.rejects_all(samples@),
                forall|c: Coordinate|
                    self@.in_bounds(c) && c.y < y ==> #[trigger] self@.cells[c] != CellType::Empty,
            decreases self@.height - y,
        {
            let mut x: i32 = 0;
            while x < self.width()
                invariant
                    0 <= y < self@.height,
                    0 <= x <= self@.width,
                    self.wf(),
                    self@.rejects_all(samples@),
                    forall|c: Coordinate|
                        self@.in_bounds(c) && (c.y < y || (c.y == y && c.x < x))
                            ==> #[trigger] self@.cells[c] != CellType::Empty,
                decreases self@.width - x,
            {
                let c = Coordinate { x, y };
                if self.at(c) == CellType::Empty {
                    proof {
                        lemma_food_pick_is(self@, samples@, c);
                    }
                    return Some(c);
                }
                x = x + 1;
            }
            y = y + 1;
        }
        proof {
            lemma_food_pick_exists(self@, samples@);
        }
        None
    }

    /// Places food: at the first sample that lies on the grid and shows
    /// neither body nor head or, when no sample does, at the first empty
    /// cell in row-major order. Returns the cell that took the food. Fails
    /// with `NoFreeCell`, changing nothing, exactly when no sample qualifies
    /// and no cell is empty. On a grid without food the result is a single
    /// food cell, which was empty.
    pub fn place_food(&mut self, samples: &Vec<Coordinate>) -> (r: Result<Coordinate, GameError>)
        requires
            old(self).wf(),
        ensures
            final(self).wf(),
            final(self)@ == old(self)@.fed(samples@),
            match old(self)@.food_pick(samples@) {
                Some(c) => r == Ok::<Coordinate, GameError>(c),
                None => r == Err::<Coordinate, GameError>(GameError::NoFreeCell),
            },
            r is Ok ==> old(self)@.is_food_pick(samples@, r->Ok_0),
            r is Err <==> old(self)@.rejects_all(samples@) && old(self)@.cells_of(CellType::Empty)
                =~= Set::<Coordinate>::empty(),
            r is Ok && old(self)@.cells_of(CellType::Food) =~= Set::<Coordinate>::empty()
                ==> old(self)@.cells[r->Ok_0] == CellType::Empty && final(self)@.cells_of(
                CellType::Food,
            ) == set![r->Ok_0],
    {
        proof {
            lemma_food_pick_exists(self@, samples@);
        }
        match self.pick_food(samples) {
            Some(c) => {
                proof {
                    if self@.cells_of(CellType::Food) =~= Set::<Coordinate>::empty() {
                        lemma_food_placed_once(self@, samples@, c);
                    }
                }
                self.put(c, CellType::Food);
                Ok(c)
            },
            None => {
                proof {
                    assert forall|c: Coordinate| !self@.cells_of(CellType::Empty).contains(c) by {}
                }
                Err(GameError::NoFreeCell)
            },
        }
    }
}

} // verus!
