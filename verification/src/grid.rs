//! The grid: a fixed rectangle of cells, read and written by coordinate.

use vstd::prelude::*;
use crate::coord::Coordinate;
use crate::error::GameError;

verus! {

/// What a cell of the grid holds.
#[derive(Clone, Copy, Debug, PartialEq, Eq, Structural)]
pub enum CellType {
    Empty,
    SnakeBody,
    SnakeHead,
    Food,
}

/// The mathematical content of a grid: its size and the kind of every cell.
pub struct GridView {
    pub width: int,
    pub height: int,
    pub cells: Map<Coordinate, CellType>,
}

impl GridView {
    /// Whether `c` names a cell of the grid.
    pub open spec fn in_bounds(self, c: Coordinate) -> bool {
        0 <= c.x < self.width && 0 <= c.y < self.height
    }

    /// The size is positive and fits the coordinate type, and exactly the
    /// cells in bounds have a kind.
    pub open spec fn wf(self) -> bool {
        &&& 0 < self.width <= i32::MAX
        &&& 0 < self.height <= i32::MAX
        &&& forall|c: Coordinate| #[trigger] self.cells.dom().contains(c) <==> self.in_bounds(c)
    }

    /// The grid of the given size with every cell empty.
    pub open spec fn blank(width: int, height: int) -> GridView {
        GridView {
            width,
            height,
            cells: Map::new(
                |c: Coordinate| 0 <= c.x < width && 0 <= c.y < height,
                |c: Coordinate| CellType::Empty,
            ),
        }
    }

    /// What reading `c` gives: the cell's kind, or `OutOfBounds`.
    pub open spec fn read(self, c: Coordinate) -> Result<CellType, GameError> {
        if self.in_bounds(c) {
            Ok(self.cells[c])
        } else {
            Err(GameError::OutOfBounds)
        }
    }

    /// The grid with cell `c` holding `t` and every other cell as before.
    pub open spec fn put(self, c: Coordinate, t: CellType) -> GridView {
        GridView { width: self.width, height: self.height, cells: self.cells.insert(c, t) }
    }

    /// The grid after an attempt to write `t` at `c`: changed in bounds,
    /// untouched out of bounds.
    pub open spec fn written(self, c: Coordinate, t: CellType) -> GridView {
        if self.in_bounds(c) {
            self.put(c, t)
        } else {
            self
        }
    }

    /// The cells that hold `t`.
    pub open spec fn cells_of(self, t: CellType) -> Set<Coordinate> {
        Set::new(|c: Coordinate| self.in_bounds(c) && self.cells[c] == t)
    }
}

/// Reading a cell right after a successful write yields the written kind, a
/// write leaves every other cell alone, and the grid stays well formed.
pub proof fn lemma_read_after_write(g: GridView, c: Coordinate, t: CellType)
    requires
        g.wf(),
        g.in_bounds(c),
    ensures
        g.written(c, t).wf(),
        g.written(c, t).read(c) == Ok::<CellType, GameError>(t),
        forall|d: Coordinate| d != c ==> g.written(c, t).read(d) == g.read(d),
{
}

/// A grid of fixed size. Cells are stored row by row.
pub struct Grid {
    width: i32,
    height: i32,
    rows: Vec<Vec<CellType>>,
}

impl View for Grid {
    type V = GridView;

    closed spec fn view(&self) -> GridView {
        GridView {
            width: self.width as int,
            height: self.height as int,
            cells: Map::new(
                |c: Coordinate| 0 <= c.x < self.width && 0 <= c.y < self.height,
                |c: Coordinate| self.rows[c.y as int][c.x as int],
            ),
        }
    }
}

impl Grid {
    /// The stored rows match the size: `height` rows of `width` cells each.
    pub closed spec fn rows_match(&self) -> bool {
        &&& self.rows.len() == self.height
        &&& forall|y: int| 0 <= y < self.height ==> (#[trigger] self.rows[y]).len() == self.width
    }

    /// Validity of a grid: its storage is consistent and its content is a
    /// well-formed [`GridView`].
    pub open spec fn wf(&self) -> bool {
        self.rows_match() && self@.wf()
    }

    /// Creates a grid with every cell empty. Fails with `InvalidDimensions`
    /// exactly when `width` or `height` is not positive.
    pub fn new(width: i32, height: i32) -> (r: Result<Grid, GameError>)
        ensures
            width <= 0 || height <= 0 ==> r == Err::<Grid, GameError>(GameError::InvalidDimensions),
            width > 0 && height > 0 ==> r is Ok && r->Ok_0.wf() && r->Ok_0@ == GridView::blank(
                width as int,
                height as int,
            ),
    {
        if width <= 0 || height <= 0 {
            return Err(GameError::InvalidDimensions);
        }
        let mut rows: Vec<Vec<CellType>> = Vec::new();
        let mut y: i32 = 0;
        while y < height
            invariant
                0 <= y <= height,
                0 < width,
                rows.len() == y,
                forall|j: int| 0 <= j < y ==> (#[trigger] rows[j]).len() == width,
                forall|j: int, i: int|
                    0 <= j < y && 0 <= i < width ==> (#[trigger] rows[j][i]) == CellType::Empty,
            decreases height - y,
        {
            let mut row: Vec<CellType> = Vec::new();
            let mut x: i32 = 0;
            while x < width
                invariant
                    0 <= x <= width,
                    row.len() == x,
                    forall|i: int| 0 <= i < x ==> (#[trigger] row[i]) == CellType::Empty,
                decreases width - x,
            {
                row.push(CellType::Empty);
                x = x + 1;
            }
            rows.push(row);
            y = y + 1;
        }
        let grid = Grid { width, height, rows };
        assert(grid@.cells =~= GridView::blank(width as int, height as int).cells);
        Ok(grid)
    }

    /// Number of columns.
    pub fn width(&self) -> (w: i32)
        ensures
            w == self@.width,
    {
        self.width
    }

    /// Number of rows.
    pub fn height(&self) -> (h: i32)
        ensures
            h == self@.height,
    {
        self.height
    }

    /// Whether `c` names a cell of this grid.
    pub fn contains(&self, c: Coordinate) -> (b: bool)
        ensures
            b == self@.in_bounds(c),
    {
        0 <= c.x && c.x < self.width && 0 <= c.y && c.y < self.height
    }

    /// Reads the cell at `c`, which lies on the grid.
    pub(crate) fn at(&self, c: Coordinate) -> (t: CellType)
        requires
            self.wf(),
            self@.in_bounds(c),
        ensures
            t == self@.cells[c],
    {
        self.rows[c.y as usize][c.x as usize]
    }

    /// Writes `t` to the cell at `c`, which lies on the grid.
    pub(crate) fn put(&mut self, c: Coordinate, t: CellType)
        requires
            old(self).wf(),
            old(self)@.in_bounds(c),
        ensures
            final(self).wf(),
            final(self)@ == old(self)@.put(c, t),
    {
        self.rows[c.y as usize][c.x as usize] = t;
        assert(self@.cells =~= old(self)@.cells.insert(c, t));
    }

    /// Reads the cell at `c`. Fails with `OutOfBounds` exactly when `c` lies
    /// outside the grid.
    pub fn get(&self, c: Coordinate) -> (r: Result<CellType, GameError>)
        requires
            self.wf(),
        ensures
            r == self@.read(c),
    {
        if self.contains(c) {
            Ok(self.at(c))
        } else {
            Err(GameError::OutOfBounds)
        }
    }

    /// Writes `t` to the cell at `c`. Fails with `OutOfBounds`, changing
    /// nothing, exactly when `c` lies outside the grid.
    pub fn set(&mut self, c: Coordinate, t: CellType) -> (r: Result<(), GameError>)
        requires
            old(self).wf(),
        ensures
            final(self).wf(),
            final(self)@ == old(self)@.written(c, t),
            old(self)@.in_bounds(c) ==> r == Ok::<(), GameError>(()),
            !old(self)@.in_bounds(c) ==> r == Err::<(), GameError>(GameError::OutOfBounds),
    {
        if self.contains(c) {
            self.put(c, t);
            Ok(())
        } else {
            Err(GameError::OutOfBounds)
        }
    }
}

} // verus!
