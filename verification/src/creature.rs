//! The creature: an ordered body of cells with a heading, and the rules by
//! which it turns, moves, grows and dies on a grid.
//!
//! The creature marks the grid as it goes. Its placement on a grid,
//! [`CreatureView::placed_on`], ties the two together: the body marks are
//! exactly the segments behind the head, and the head's cell shows the head,
//! or the food that the head has just reached.

use std::collections::VecDeque;
use vstd::prelude::*;
use crate::coord::{adjacent, Coordinate, Direction};
use crate::error::GameError;
use crate::grid::{CellType, Grid, GridView};

verus! {

/// Column of the cell where a new creature starts.
pub const START_X: i32 = 15;

/// Row of the cell where a new creature starts.
pub const START_Y: i32 = 15;

/// The mathematical content of a creature: its body from head to tail, and
/// its heading.
pub struct CreatureView {
    pub body: Seq<Coordinate>,
    pub heading: Direction,
}

impl CreatureView {
    /// A creature as it is created: one segment at the start cell, heading
    /// right.
    pub open spec fn initial() -> CreatureView {
        CreatureView {
            body: seq![Coordinate { x: START_X, y: START_Y }],
            heading: Direction::Right,
        }
    }

    /// The first segment.
    pub open spec fn head(self) -> Coordinate {
        self.body[0]
    }

    /// The last segment.
    pub open spec fn tail(self) -> Coordinate {
        self.body[self.body.len() - 1]
    }

    /// Whether `c` is a segment other than the head.
    pub open spec fn in_trail(self, c: Coordinate) -> bool {
        exists|i: int| 1 <= i < self.body.len() && (#[trigger] self.body[i]) == c
    }

    /// The body is not empty, no cell occurs in it twice, and consecutive
    /// segments are neighbours.
    pub open spec fn wf(self) -> bool {
        &&& self.body.len() > 0
        &&& self.body.no_duplicates()
        &&& forall|i: int, j: int|
            0 <= i && j == i + 1 && j < self.body.len() ==> adjacent(
                #[trigger] self.body[i],
                #[trigger] self.body[j],
            )
    }

    /// The creature after a request to head in direction `d`: the request is
    /// dropped when `d` is the reverse of the current heading.
    pub open spec fn rotated(self, d: Direction) -> CreatureView {
        if d == self.heading.reversed() {
            self
        } else {
            CreatureView { body: self.body, heading: d }
        }
    }

    /// Column and row one step ahead of the head.
    pub open spec fn target(self) -> (int, int) {
        (self.head().x + self.heading.dx(), self.head().y + self.heading.dy())
    }

    /// The cell one step ahead of the head; meaningful when it lies on the
    /// grid.
    pub open spec fn target_cell(self) -> Coordinate {
        Coordinate { x: self.target().0 as i32, y: self.target().1 as i32 }
    }

    /// The step ahead leaves the grid.
    pub open spec fn hits_wall(self, g: GridView) -> bool {
        !(0 <= self.target().0 < g.width && 0 <= self.target().1 < g.height)
    }

    /// The step ahead stays on the grid and runs into the body. The tail's
    /// cell does not count when the creature is not growing, as the tail
    /// leaves it in the same step.
    pub open spec fn hits_body(self, g: GridView, grow: bool) -> bool {
        &&& !self.hits_wall(g)
        &&& g.cells[self.target_cell()] == CellType::SnakeBody
        &&& (grow || self.target_cell() != self.tail())
    }

    /// Why a step cannot be made, if it cannot.
    pub open spec fn obstacle(self, g: GridView, grow: bool) -> Option<GameError> {
        if self.hits_wall(g) {
            Some(GameError::CollisionWall)
        } else if self.hits_body(g, grow) {
            Some(GameError::CollisionSelf)
        } else {
            None
        }
    }

    /// What an attempt to step returns: the collision, if there is an
    /// obstacle.
    pub open spec fn attempt(self, g: GridView, grow: bool) -> Result<(), GameError> {
        match self.obstacle(g, grow) {
            Some(e) => Err(e),
            None => Ok(()),
        }
    }

    /// The creature after one step: the cell ahead becomes the head, and the
    /// tail is dropped unless the creature grows.
    pub open spec fn moved(self, grow: bool) -> CreatureView {
        CreatureView {
            body: seq![self.target_cell()] + (if grow {
                self.body
            } else {
                self.body.drop_last()
            }),
            heading: self.heading,
        }
    }

    /// The head stands on a cell of the grid that holds food.
    pub open spec fn occupies_food(self, g: GridView) -> bool {
        g.read(self.head()) == Ok::<CellType, GameError>(CellType::Food)
    }

    /// Every segment lies on the grid.
    pub open spec fn fits(self, g: GridView) -> bool {
        forall|i: int| 0 <= i < self.body.len() ==> g.in_bounds(#[trigger] self.body[i])
    }

    /// The grid shows this creature and no other: the cells marked as body
    /// are exactly the segments behind the head, no cell but the head's is
    /// marked as head, and the head's cell is marked as head unless it still
    /// shows the food that the head has just reached.
    pub open spec fn placed_on(self, g: GridView) -> bool {
        &&& g.wf()
        &&& self.wf()
        &&& self.fits(g)
        &&& forall|c: Coordinate|
            g.in_bounds(c) ==> (#[trigger] g.cells[c] == CellType::SnakeBody <==> self.in_trail(c))
        &&& forall|c: Coordinate|
            g.in_bounds(c) && #[trigger] g.cells[c] == CellType::SnakeHead ==> c == self.head()
        &&& (g.cells[self.head()] == CellType::SnakeHead || g.cells[self.head()]
            == CellType::Food)
    }
}

impl GridView {
    /// No cell is marked as head or body.
    pub open spec fn bare(self) -> bool {
        forall|c: Coordinate|
            self.in_bounds(c) ==> #[trigger] self.cells[c] != CellType::SnakeBody && self.cells[c]
                != CellType::SnakeHead
    }

    /// The mark that the head leaves on the cell it enters: food stays
    /// visible until the creature moves on, any other cell shows the head.
    pub open spec fn head_mark(self, c: Coordinate) -> CellType {
        if self.cells[c] == CellType::Food {
            CellType::Food
        } else {
            CellType::SnakeHead
        }
    }

    /// The grid after creature `s` has made one step on it: the old head's
    /// cell turns into body, the tail's cell is emptied unless the creature
    /// grows, and the cell ahead takes the head.
    pub open spec fn after_move(self, s: CreatureView, grow: bool) -> GridView {
        let demoted = self.put(s.head(), CellType::SnakeBody);
        let vacated = if grow {
            demoted
        } else {
            demoted.put(s.tail(), CellType::Empty)
        };
        vacated.put(s.target_cell(), self.head_mark(s.target_cell()))
    }

    /// The grid after creature `s` has been drawn on it: head at the first
    /// segment, body at the others.
    pub open spec fn with_creature(self, s: CreatureView) -> GridView {
        GridView {
            width: self.width,
            height: self.height,
            cells: Map::new(
                |c: Coordinate| self.in_bounds(c),
                |c: Coordinate|
                    if c == s.head() {
                        CellType::SnakeHead
                    } else if s.in_trail(c) {
                        CellType::SnakeBody
                    } else {
                        self.cells[c]
                    },
            ),
        }
    }
}

/// A step that meets no obstacle keeps the creature and the grid in
/// agreement: the moved creature is placed on the grid as left by the move.
pub proof fn lemma_move_keeps_placement(s: CreatureView, g: GridView, grow: bool)
    requires
        s.placed_on(g),
        s.obstacle(g, grow) is None,
    ensures
        s.moved(grow).placed_on(g.after_move(s, grow)),
        s.moved(grow).body.len() == s.body.len() + (if grow { 1int } else { 0int }),
{
    let m = s.moved(grow);
    let h = g.after_move(s, grow);
    assert forall|c: Coordinate| h.in_bounds(c) implies (#[trigger] h.cells[c]
        == CellType::SnakeBody <==> m.in_trail(c)) by {
        if h.cells[c] == CellType::SnakeBody {
            // every segment that stays lies one position further back
            if c == s.head() {
                assert(m.body[1] == c);
            } else {
                let i = choose|i: int| 1 <= i < s.body.len() && (#[trigger] s.body[i]) == c;
                assert(m.body[i + 1] == c);
            }
        }
    }
}

/// For a creature placed on a grid, the cells marked as body are exactly the
/// segments behind the head, and no cell but the head's is marked as head.
/// The head's cell carries the one head mark, except while it still shows
/// the food that the head has reached: then no cell is marked as head.
pub proof fn lemma_marks_match_body(s: CreatureView, g: GridView)
    requires
        s.placed_on(g),
    ensures
        g.cells_of(CellType::SnakeBody) == s.body.skip(1).to_set(),
        g.cells_of(CellType::SnakeHead).subset_of(set![s.head()]),
        !s.occupies_food(g) ==> g.cells_of(CellType::SnakeHead) == set![s.head()] && g.cells_of(
            CellType::SnakeHead,
        ).len() == 1,
        s.occupies_food(g) ==> g.cells_of(CellType::SnakeHead) == Set::<Coordinate>::empty(),
{
    let trail = s.body.skip(1);
    assert forall|c: Coordinate|
        g.cells_of(CellType::SnakeBody).contains(c) <==> trail.to_set().contains(c) by {
        if g.cells_of(CellType::SnakeBody).contains(c) {
            let i = choose|i: int| 1 <= i < s.body.len() && (#[trigger] s.body[i]) == c;
            assert(trail[i - 1] == c);
        }
    }
}

/// A well-formed creature that fits on a grid without snake marks is placed
/// on the grid once drawn there.
pub proof fn lemma_drawn_is_placed(s: CreatureView, g: GridView)
    requires
        g.wf(),
        g.bare(),
        s.wf(),
        s.fits(g),
    ensures
        s.placed_on(g.with_creature(s)),
{
}

/// The creature: its segments from head to tail, and its heading.
pub struct Creature {
    body: VecDeque<Coordinate>,
    heading: Direction,
}

impl View for Creature {
    type V = CreatureView;

    closed spec fn view(&self) -> CreatureView {
        CreatureView { body: self.body@, heading: self.heading }
    }
}

impl Creature {
    /// Validity of a creature: its content is a well-formed [`CreatureView`].
    pub open spec fn wf(&self) -> bool {
        self@.wf()
    }

    /// Creates a creature of one segment at the start cell, heading right.
    /// It is on no grid yet.
    pub fn new() -> (s: Creature)
        ensures
            s.wf(),
            s@ == CreatureView::initial(),
    {
        let mut body: VecDeque<Coordinate> = VecDeque::new();
        body.push_back(Coordinate { x: START_X, y: START_Y });
        let s = Creature { body, heading: Direction::Right };
        s
    }

    /// Number of segments.
    pub fn len(&self) -> (n: usize)
        ensures
            n == self@.body.len(),
    {
        self.body.len()
    }

    /// The segment at position `i`, counted from the head.
    pub fn segment(&self, i: usize) -> (c: Coordinate)
        requires
            i < self@.body.len(),
        ensures
            c == self@.body[i as int],
    {
        self.body[i]
    }

    /// The first segment.
    pub fn head(&self) -> (c: Coordinate)
        requires
            self.wf(),
        ensures
            c == self@.head(),
    {
        self.body[0]
    }

    /// The last segment.
    pub fn tail(&self) -> (c: Coordinate)
        requires
            self.wf(),
        ensures
            c == self@.tail(),
    {
        self.body[self.body.len() - 1]
    }

    /// The current heading.
    pub fn heading(&self) -> (d: Direction)
        ensures
            d == self@.heading,
    {
        self.heading
    }

    /// Draws the creature on `grid`: head mark at the first segment, body
    /// mark at the others. Fails with `OutOfBounds`, changing nothing,
    /// exactly when some segment lies outside the grid. On a grid without
    /// snake marks the creature is placed afterwards.
    pub fn place_on_grid(&self, grid: &mut Grid) -> (r: Result<(), GameError>)
        requires
            self.wf(),
            old(grid).wf(),
        ensures
            final(grid).wf(),
            r is Ok <==> self@.fits(old(grid)@),
            r is Ok ==> final(grid)@ == old(grid)@.with_creature(self@),
            r is Err ==> r->Err_0 == GameError::OutOfBounds && final(grid)@ == old(grid)@,
            r is Ok && old(grid)@.bare() ==> self@.placed_on(final(grid)@),
    {
        let n = self.body.len();
        let mut i: usize = 0;
        while i < n
            invariant
                n == self@.body.len(),
                i <= n,
                grid.wf(),
                grid@ == old(grid)@,
                forall|j: int| 0 <= j < i ==> grid@.in_bounds(#[trigger] self@.body[j]),
            decreases n - i,
        {
            if !grid.contains(self.body[i]) {
                return Err(GameError::OutOfBounds);
            }
            i = i + 1;
        }
        let mut k: usize = 1;
        while k < n
            invariant
                n == self@.body.len(),
                1 <= k <= n,
                grid.wf(),
                self@.fits(old(grid)@),
                grid@.width == old(grid)@.width,
                grid@.height == old(grid)@.height,
                forall|c: Coordinate|
                    grid@.in_bounds(c) ==> #[trigger] grid@.cells[c] == (if exists|j: int|
                        1 <= j < k && (#[trigger] self@.body[j]) == c {
                        CellType::SnakeBody
                    } else {
                        old(grid)@.cells[c]
                    }),
            decreases n - k,
        {
            grid.put(self.body[k], CellType::SnakeBody);
            k = k + 1;
        }
        grid.put(self.body[0], CellType::SnakeHead);
        proof {
            assert(grid@.cells =~= old(grid)@.with_creature(self@).cells);
            if old(grid)@.bare() {
                lemma_drawn_is_placed(self@, old(grid)@);
            }
        }
        Ok(())
    }

    /// Turns to heading `d`, unless `d` is the reverse of the current
    /// heading: then nothing changes. The body is never touched.
    pub fn rotate(&mut self, d: Direction)
        ensures
            final(self)@ == old(self)@.rotated(d),
            final(self)@.body == old(self)@.body,
            d == old(self)@.heading.reversed() ==> final(self)@.heading == old(self)@.heading,
            d != old(self)@.heading.reversed() ==> final(self)@.heading == d,
    {
        if !(d == self.heading.opposite()) {
            self.heading = d;
        }
    }

    /// Whether the head stands on a cell of `grid` that holds food.
    pub fn occupies_food(&self, grid: &Grid) -> (b: bool)
        requires
            self.wf(),
            grid.wf(),
        ensures
            b == self@.occupies_food(grid@),
    {
        let head = self.head();
        grid.contains(head) && grid.at(head) == CellType::Food
    }

    /// One step ahead, with or without growth; a failed step changes
    /// nothing.
    fn slide(&mut self, grid: &mut Grid, grow: bool) -> (r: Result<(), GameError>)
        requires
            old(grid).wf(),
            old(self)@.placed_on(old(grid)@),
        ensures
            final(grid).wf(),
            final(self)@.placed_on(final(grid)@),
            r == old(self)@.attempt(old(grid)@, grow),
            r is Err ==> final(self)@ == old(self)@ && final(grid)@ == old(grid)@,
            r is Ok ==> final(self)@ == old(self)@.moved(grow),
            r is Ok ==> final(grid)@ == old(grid)@.after_move(old(self)@, grow),
    {
        let head = self.head();
        let tail = self.tail();
        let (dx, dy) = self.heading.delta();
        let target = Coordinate { x: head.x + dx, y: head.y + dy };
        if !grid.contains(target) {
            return Err(GameError::CollisionWall);
        }
        let ahead = grid.at(target);
        if ahead == CellType::SnakeBody && (grow || !(target == tail)) {
            return Err(GameError::CollisionSelf);
        }
        grid.put(head, CellType::SnakeBody);
        if !grow {
            let _ = self.body.pop_back();
            grid.put(tail, CellType::Empty);
        }
        let mark = if ahead == CellType::Food {
            CellType::Food
        } else {
            CellType::SnakeHead
        };
        grid.put(target, mark);
        self.body.push_front(target);
        proof {
            lemma_move_keeps_placement(old(self)@, old(grid)@, grow);
        }
        Ok(())
    }

    /// Moves one cell ahead, keeping the length: the cell ahead becomes the
    /// head, the old head's cell turns into body and the tail's cell is
    /// emptied. The cell ahead takes the head mark, unless it holds food:
    /// food stays visible under the head until the creature moves on, which
    /// is how [`Creature::occupies_food`] finds it. Fails with
    /// `CollisionWall` when the cell ahead is off the grid and with
    /// `CollisionSelf` when it is marked as body, other than the tail's
    /// cell; a failed move changes nothing.
    pub fn advance(&mut self, grid: &mut Grid) -> (r: Result<(), GameError>)
        requires
            old(grid).wf(),
            old(self)@.placed_on(old(grid)@),
        ensures
            final(grid).wf(),
            final(self)@.placed_on(final(grid)@),
            r == old(self)@.attempt(old(grid)@, false),
            r is Err ==> final(self)@ == old(self)@ && final(grid)@ == old(grid)@,
            r is Ok ==> final(self)@ == old(self)@.moved(false),
            r is Ok ==> final(grid)@ == old(grid)@.after_move(old(self)@, false),
            r is Ok ==> final(self)@.body.len() == old(self)@.body.len(),
    {
        self.slide(grid, false)
    }

    /// Moves one cell ahead and grows by one segment: the cell ahead becomes
    /// the head and the tail stays. Fails as [`Creature::advance`] does,
    /// except that the tail's cell counts as body too.
    pub fn grow_and_advance(&mut self, grid: &mut Grid) -> (r: Result<(), GameError>)
        requires
            old(grid).wf(),
            old(self)@.placed_on(old(grid)@),
        ensures
            final(grid).wf(),
            final(self)@.placed_on(final(grid)@),
            r == old(self)@.attempt(old(grid)@, true),
            r is Err ==> final(self)@ == old(self)@ && final(grid)@ == old(grid)@,
            r is Ok ==> final(self)@ == old(self)@.moved(true),
            r is Ok ==> final(grid)@ == old(grid)@.after_move(old(self)@, true),
            r is Ok ==> final(self)@.body.len() == old(self)@.body.len() + 1,
    {
        self.slide(grid, true)
    }
}

} // verus!
