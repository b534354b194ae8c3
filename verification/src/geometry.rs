//! Integer screen geometry: points, rectangles and the keypad grid.
//!
//! Coordinates are kept inside a generous bound so that every layout
//! computation is free of overflow.

use vstd::prelude::*;

verus! {

/// Largest coordinate magnitude the layout ever works with.
pub const COORD_LIMIT: i32 = 32768;

/// A screen position.
#[derive(Clone, Copy, PartialEq, Eq, Structural, Debug)]
pub struct Point {
    pub x: i32,
    pub y: i32,
}

/// An axis-aligned rectangle: the half-open area `[x0, x1) x [y0, y1)`.
#[derive(Clone, Copy, PartialEq, Eq, Structural, Debug)]
pub struct Rect {
    pub x0: i32,
    pub y0: i32,
    pub x1: i32,
    pub y1: i32,
}

impl Rect {
    /// A rectangle is well formed when its corners are ordered and within
    /// the coordinate bound.
    pub open spec fn wf(self) -> bool {
        &&& -COORD_LIMIT <= self.x0 <= self.x1 <= COORD_LIMIT
        &&& -COORD_LIMIT <= self.y0 <= self.y1 <= COORD_LIMIT
    }

    pub open spec fn spec_contains(self, p: Point) -> bool {
        self.x0 <= p.x < self.x1 && self.y0 <= p.y < self.y1
    }

    /// The degenerate rectangle at the origin.
    pub fn zero() -> (r: Rect)
        ensures
            r == (Rect { x0: 0, y0: 0, x1: 0, y1: 0 }),
            r.wf(),
    {
        Rect { x0: 0, y0: 0, x1: 0, y1: 0 }
    }

    pub fn new(x0: i32, y0: i32, x1: i32, y1: i32) -> (r: Rect)
        ensures
            r == (Rect { x0, y0, x1, y1 }),
    {
        Rect { x0, y0, x1, y1 }
    }

    pub open spec fn spec_width(self) -> int {
        self.x1 - self.x0
    }

    pub open spec fn spec_height(self) -> int {
        self.y1 - self.y0
    }

    /// Whether `p` falls inside this rectangle.
    pub fn contains(&self, p: Point) -> (r: bool)
        ensures
            r == self.spec_contains(p),
    {
        self.x0 <= p.x && p.x < self.x1 && self.y0 <= p.y && p.y < self.y1
    }

    /// The point halfway up the left edge.
    pub fn left_center(&self) -> (r: Point)
        requires
            self.wf(),
        ensures
            r.x == self.x0,
            r.y == self.y0 + self.spec_height() / 2,
    {
        Point { x: self.x0, y: self.y0 + (self.y1 - self.y0) / 2 }
    }

    /// Shrinks the rectangle by the given padding on each side.
    pub fn inset(&self, top: i32, side: i32, bottom: i32) -> (r: Rect)
        requires
            self.wf(),
            0 <= top,
            0 <= side,
            0 <= bottom,
            top + bottom <= self.spec_height(),
            2 * side <= self.spec_width(),
        ensures
            r == (Rect {
                x0: (self.x0 + side) as i32,
                y0: (self.y0 + top) as i32,
                x1: (self.x1 - side) as i32,
                y1: (self.y1 - bottom) as i32,
            }),
            r.wf(),
    {
        Rect { x0: self.x0 + side, y0: self.y0 + top, x1: self.x1 - side, y1: self.y1 - bottom }
    }

    /// Splits off a strip of height `h` from the bottom; returns the
    /// remainder on top first, the strip second.
    pub fn split_bottom(&self, h: i32) -> (r: (Rect, Rect))
        requires
            self.wf(),
            0 <= h <= self.spec_height(),
        ensures
            r.0 == (Rect { x0: self.x0, y0: self.y0, x1: self.x1, y1: (self.y1 - h) as i32 }),
            r.1 == (Rect { x0: self.x0, y0: (self.y1 - h) as i32, x1: self.x1, y1: self.y1 }),
            r.0.wf(),
            r.1.wf(),
    {
        let top = Rect { x0: self.x0, y0: self.y0, x1: self.x1, y1: self.y1 - h };
        let bottom = Rect { x0: self.x0, y0: self.y1 - h, x1: self.x1, y1: self.y1 };
        (top, bottom)
    }
}

/// An evenly spaced grid of cells laid over an area, as the keypad's
/// button rows use it.
#[derive(Clone, Copy, PartialEq, Eq, Structural, Debug)]
pub struct Grid {
    pub area: Rect,
    pub rows: i32,
    pub cols: i32,
    pub spacing: i32,
}

impl Grid {
    pub open spec fn wf(self) -> bool {
        &&& self.area.wf()
        &&& 1 <= self.rows <= 16
        &&& 1 <= self.cols <= 16
        &&& 0 <= self.spacing <= 64
        &&& (self.cols - 1) * self.spacing <= self.area.spec_width()
        &&& (self.rows - 1) * self.spacing <= self.area.spec_height()
    }

    /// The width of one cell.
    pub open spec fn spec_cell_width(self) -> int {
        (self.area.spec_width() - (self.cols - 1) * (self.spacing as int)) / (self.cols as int)
    }

    /// The height of one cell.
    pub open spec fn spec_cell_height(self) -> int {
        (self.area.spec_height() - (self.rows - 1) * (self.spacing as int)) / (self.rows as int)
    }

    /// The cell at the given row and column: each cell is offset from the
    /// area's corner by a whole number of cell-plus-spacing steps.
    pub open spec fn spec_cell(self, row: int, col: int) -> Rect {
        let w = self.spec_cell_width();
        let h = self.spec_cell_height();
        let x0 = self.area.x0 + col * (w + self.spacing as int);
        let y0 = self.area.y0 + row * (h + self.spacing as int);
        Rect { x0: x0 as i32, y0: y0 as i32, x1: (x0 + w) as i32, y1: (y0 + h) as i32 }
    }

    pub fn new(area: Rect, rows: i32, cols: i32, spacing: i32) -> (r: Grid)
        requires
            (Grid { area, rows, cols, spacing }).wf(),
        ensures
            r == (Grid { area, rows, cols, spacing }),
            r.wf(),
    {
        Grid { area, rows, cols, spacing }
    }

    proof fn lemma_cell_bounds(self)
        requires
            self.wf(),
        ensures
            0 <= self.spec_cell_width() <= self.area.spec_width(),
            0 <= self.spec_cell_height() <= self.area.spec_height(),
    {
        let cols = self.cols as int;
        let rows = self.rows as int;
        let w_avail = self.area.spec_width() - (cols - 1) * (self.spacing as int);
        let h_avail = self.area.spec_height() - (rows - 1) * (self.spacing as int);
        assert(0 <= w_avail / cols <= w_avail) by (nonlinear_arith)
            requires 0 <= w_avail && 1 <= cols;
        assert(0 <= h_avail / rows <= h_avail) by (nonlinear_arith)
            requires 0 <= h_avail && 1 <= rows;
    }

    proof fn lemma_cell_step_bounds(self, row: int, col: int)
        requires
            self.wf(),
            0 <= row < self.rows,
            0 <= col < self.cols,
        ensures
            0 <= col * (self.spec_cell_width() + self.spacing),
            col * (self.spec_cell_width() + self.spacing) + self.spec_cell_width()
                <= self.area.spec_width(),
            0 <= row * (self.spec_cell_height() + self.spacing),
            row * (self.spec_cell_height() + self.spacing) + self.spec_cell_height()
                <= self.area.spec_height(),
    {
        self.lemma_cell_bounds();
        let cols = self.cols as int;
        let rows = self.rows as int;
        let sp = self.spacing as int;
        let cw = self.spec_cell_width();
        let ch = self.spec_cell_height();
        let w_avail = self.area.spec_width() - (cols - 1) * sp;
        let h_avail = self.area.spec_height() - (rows - 1) * sp;
        assert(0 <= col * (cw + sp) <= (cols - 1) * (cw + sp)) by (nonlinear_arith)
            requires 0 <= cw + sp && 0 <= col <= cols - 1;
        assert((cols - 1) * (cw + sp) + cw == cols * cw + (cols - 1) * sp) by (nonlinear_arith);
        assert(cols * (w_avail / cols) <= w_avail) by (nonlinear_arith)
            requires 1 <= cols && 0 <= w_avail;
        assert(0 <= row * (ch + sp) <= (rows - 1) * (ch + sp)) by (nonlinear_arith)
            requires 0 <= ch + sp && 0 <= row <= rows - 1;
        assert((rows - 1) * (ch + sp) + ch == rows * ch + (rows - 1) * sp) by (nonlinear_arith);
        assert(rows * (h_avail / rows) <= h_avail) by (nonlinear_arith)
            requires 1 <= rows && 0 <= h_avail;
    }

    /// The cell at `(row, col)`.
    pub fn row_col(&self, row: i32, col: i32) -> (r: Rect)
        requires
            self.wf(),
            0 <= row < self.rows,
            0 <= col < self.cols,
        ensures
            r == self.spec_cell(row as int, col as int),
            r.wf(),
    {
        proof {
            self.lemma_cell_bounds();
            self.lemma_cell_step_bounds(row as int, col as int);
        }
        let avail_w = (self.area.x1 - self.area.x0) - (self.cols - 1) * self.spacing;
        let avail_h = (self.area.y1 - self.area.y0) - (self.rows - 1) * self.spacing;
        let w = avail_w / self.cols;
        let h = avail_h / self.rows;
        let x0 = self.area.x0 + col * (w + self.spacing);
        let y0 = self.area.y0 + row * (h + self.spacing);
        Rect { x0, y0, x1: x0 + w, y1: y0 + h }
    }

    /// The cell at `index` counted in reading order: left to right, then
    /// top to bottom.
    pub fn cell(&self, index: i32) -> (r: Rect)
        requires
            self.wf(),
            0 <= index < self.rows * self.cols,
        ensures
            r == self.spec_cell(index as int / self.cols as int, index as int % self.cols as int),
            r.wf(),
    {
        proof {
            assert(0 <= index / self.cols < self.rows && 0 <= index % self.cols < self.cols)
                by (nonlinear_arith)
                requires
                    0 <= index < self.rows * self.cols,
                    1 <= self.cols,
                    1 <= self.rows;
        }
        self.row_col(index / self.cols, index % self.cols)
    }
}

} // verus!
