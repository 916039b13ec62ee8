use vstd::prelude::*;

verus! {

/// Display coordinates are non-negative and small enough that any expression
/// built from a handful of additions, or a multiplication by a small grid
/// index, stays well inside `i32`.
pub open spec fn coord_ok(c: int) -> bool {
    0 <= c <= 0x10000
}

/// A point on the display, in pixels.
#[derive(Clone, Copy, PartialEq, Eq, Structural, Debug)]
pub struct Point {
    pub x: i32,
    pub y: i32,
}

impl Point {
    pub open spec fn wf(self) -> bool {
        coord_ok(self.x as int) && coord_ok(self.y as int)
    }

    pub fn new(x: i32, y: i32) -> (r: Point)
        ensures
            r == (Point { x, y }),
    {
        Point { x, y }
    }
}

/// Margins taken off the four sides of a rectangle.
#[derive(Clone, Copy, PartialEq, Eq, Structural, Debug)]
pub struct Insets {
    pub top: i32,
    pub right: i32,
    pub bottom: i32,
    pub left: i32,
}

impl Insets {
    pub open spec fn wf(self) -> bool {
        0 <= self.top <= 0x10000 && 0 <= self.right <= 0x10000 && 0 <= self.bottom <= 0x10000
            && 0 <= self.left <= 0x10000
    }

    pub fn uniform(d: i32) -> (r: Insets)
        ensures
            r == (Insets { top: d, right: d, bottom: d, left: d }),
    {
        Insets { top: d, right: d, bottom: d, left: d }
    }
}

/// An axis-aligned rectangle: `x0 <= x < x1`, `y0 <= y < y1`.
#[derive(Clone, Copy, PartialEq, Eq, Structural, Debug)]
pub struct Rect {
    pub x0: i32,
    pub y0: i32,
    pub x1: i32,
    pub y1: i32,
}

impl Rect {
    pub open spec fn wf(self) -> bool {
        coord_ok(self.x0 as int) && coord_ok(self.y0 as int) && coord_ok(self.x1 as int)
            && coord_ok(self.y1 as int) && self.x0 <= self.x1 && self.y0 <= self.y1
    }

    pub fn new(p0: Point, p1: Point) -> (r: Rect)
        ensures
            r == (Rect { x0: p0.x, y0: p0.y, x1: p1.x, y1: p1.y }),
    {
        Rect { x0: p0.x, y0: p0.y, x1: p1.x, y1: p1.y }
    }

    pub open spec fn spec_width(self) -> int {
        self.x1 - self.x0
    }

    pub open spec fn spec_height(self) -> int {
        self.y1 - self.y0
    }

    pub fn width(&self) -> (r: i32)
        requires
            self.wf(),
        ensures
            r == self.spec_width(),
    {
        self.x1 - self.x0
    }

    pub fn height(&self) -> (r: i32)
        requires
            self.wf(),
        ensures
            r == self.spec_height(),
    {
        self.y1 - self.y0
    }

    pub open spec fn spec_contains(self, p: Point) -> bool {
        self.x0 <= p.x && p.x < self.x1 && self.y0 <= p.y && p.y < self.y1
    }

    pub fn contains(&self, p: Point) -> (r: bool)
        ensures
            r == self.spec_contains(p),
    {
        self.x0 <= p.x && p.x < self.x1 && self.y0 <= p.y && p.y < self.y1
    }

    pub open spec fn spec_center(self) -> Point {
        Point { x: ((self.x0 + self.x1) / 2) as i32, y: ((self.y0 + self.y1) / 2) as i32 }
    }

    pub fn center(&self) -> (r: Point)
        requires
            self.wf(),
        ensures
            r == self.spec_center(),
            self.spec_contains(r) || (self.spec_width() == 0 || self.spec_height() == 0),
    {
        Point { x: (self.x0 + self.x1) / 2, y: (self.y0 + self.y1) / 2 }
    }

    pub fn top_left(&self) -> (r: Point)
        ensures
            r == (Point { x: self.x0, y: self.y0 }),
    {
        Point { x: self.x0, y: self.y0 }
    }

    pub fn bottom_right(&self) -> (r: Point)
        ensures
            r == (Point { x: self.x1, y: self.y1 }),
    {
        Point { x: self.x1, y: self.y1 }
    }

    /// The rectangle shrunk by the given margins on each side; a margin
    /// larger than the rectangle collapses the respective axis to a line
    /// through its interior rather than turning the rectangle inside out.
    pub open spec fn spec_inset(self, i: Insets) -> Rect {
        Rect {
            x0: if self.x0 + i.left <= self.x1 - i.right {
                (self.x0 + i.left) as i32
            } else {
                self.x0
            },
            y0: if self.y0 + i.top <= self.y1 - i.bottom {
                (self.y0 + i.top) as i32
            } else {
                self.y0
            },
            x1: if self.x0 + i.left <= self.x1 - i.right {
                (self.x1 - i.right) as i32
            } else {
                self.x0
            },
            y1: if self.y0 + i.top <= self.y1 - i.bottom {
                (self.y1 - i.bottom) as i32
            } else {
                self.y0
            },
        }
    }

    pub fn inset(&self, i: Insets) -> (r: Rect)
        requires
            self.wf(),
            i.wf(),
        ensures
            r == self.spec_inset(i),
            r.wf(),
    {
        let (x0, x1) = if self.x0 + i.left <= self.x1 - i.right {
            (self.x0 + i.left, self.x1 - i.right)
        } else {
            (self.x0, self.x0)
        };
        let (y0, y1) = if self.y0 + i.top <= self.y1 - i.bottom {
            (self.y0 + i.top, self.y1 - i.bottom)
        } else {
            (self.y0, self.y0)
        };
        Rect { x0, y0, x1, y1 }
    }

    /// Split off a strip of height `h` from the bottom; returns
    /// (rest above, bottom strip).
    pub open spec fn spec_split_bottom(self, h: int) -> (Rect, Rect) {
        (
            Rect { x0: self.x0, y0: self.y0, x1: self.x1, y1: (self.y1 - h) as i32 },
            Rect { x0: self.x0, y0: (self.y1 - h) as i32, x1: self.x1, y1: self.y1 },
        )
    }

    pub fn split_bottom(&self, h: i32) -> (r: (Rect, Rect))
        requires
            self.wf(),
            0 <= h <= self.spec_height(),
        ensures
            r == self.spec_split_bottom(h as int),
            r.0.wf(),
            r.1.wf(),
            r.0.spec_height() + r.1.spec_height() == self.spec_height(),
    {
        let cut = self.y1 - h;
        (
            Rect { x0: self.x0, y0: self.y0, x1: self.x1, y1: cut },
            Rect { x0: self.x0, y0: cut, x1: self.x1, y1: self.y1 },
        )
    }

    /// Split off a strip of height `h` from the top; returns
    /// (top strip, rest below).
    pub open spec fn spec_split_top(self, h: int) -> (Rect, Rect) {
        (
            Rect { x0: self.x0, y0: self.y0, x1: self.x1, y1: (self.y0 + h) as i32 },
            Rect { x0: self.x0, y0: (self.y0 + h) as i32, x1: self.x1, y1: self.y1 },
        )
    }

    pub fn split_top(&self, h: i32) -> (r: (Rect, Rect))
        requires
            self.wf(),
            0 <= h <= self.spec_height(),
        ensures
            r == self.spec_split_top(h as int),
            r.0.wf(),
            r.1.wf(),
    {
        let cut = self.y0 + h;
        (
            Rect { x0: self.x0, y0: self.y0, x1: self.x1, y1: cut },
            Rect { x0: self.x0, y0: cut, x1: self.x1, y1: self.y1 },
        )
    }

    /// Split the width into `n` equal columns and return the `c`-th.
    pub open spec fn spec_column(self, c: int, n: int) -> Rect {
        Rect {
            x0: (self.x0 + (self.spec_width() * c) / n) as i32,
            y0: self.y0,
            x1: (self.x0 + (self.spec_width() * (c + 1)) / n) as i32,
            y1: self.y1,
        }
    }

    pub fn column(&self, c: i32, n: i32) -> (r: Rect)
        requires
            self.wf(),
            0 <= c < n,
            1 <= n <= 8,
        ensures
            r == self.spec_column(c as int, n as int),
            r.wf(),
            self.x0 <= r.x0 && r.x1 <= self.x1,
    {
        proof {
            lemma_column_bounds(self.spec_width(), c as int, n as int);
        }
        let w = self.x1 - self.x0;
        Rect { x0: self.x0 + (w * c) / n, y0: self.y0, x1: self.x0 + (w * (c + 1)) / n, y1: self.y1 }
    }
}

/// For `0 <= w <= 2 * 0x10000` and `0 <= c < n <= 8`, the `c`-th of `n`
/// equal columns of a width-`w` span is ordered and stays inside the span.
proof fn lemma_column_bounds(w: int, c: int, n: int)
    requires
        0 <= w <= 0x20000,
        0 <= c < n,
        1 <= n <= 8,
    ensures
        0 <= w * c <= 0x100000,
        0 <= w * (c + 1) <= 0x100000,
        0 <= (w * c) / n,
        (w * c) / n <= (w * (c + 1)) / n,
        (w * (c + 1)) / n <= w,
{
    assert(0 <= w * c && w * c <= w * (c + 1) && w * (c + 1) <= w * n && w * n <= 0x20000 * 8)
        by (nonlinear_arith)
        requires
            0 <= w <= 0x20000,
            0 <= c < n <= 8,
    ;
    assert(0 <= (w * c) / n) by (nonlinear_arith)
        requires
            0 <= w * c,
            n >= 1,
    ;
    assert((w * c) / n <= (w * (c + 1)) / n) by (nonlinear_arith)
        requires
            w * c <= w * (c + 1),
            n >= 1,
    ;
    assert((w * (c + 1)) / n <= (w * n) / n) by (nonlinear_arith)
        requires
            w * (c + 1) <= w * n,
            n >= 1,
    ;
    assert((w * n) / n == w) by (nonlinear_arith)
        requires
            n >= 1,
    ;
}

/// The `c`-th of `n` equal columns of a well-formed rectangle is well
/// formed and lies inside it.
pub proof fn lemma_spec_column_wf(r: Rect, c: int, n: int)
    requires
        r.wf(),
        0 <= c < n,
        1 <= n <= 8,
    ensures
        r.spec_column(c, n).wf(),
        r.x0 <= r.spec_column(c, n).x0,
        r.spec_column(c, n).x1 <= r.x1,
{
    lemma_column_bounds(r.spec_width(), c, n);
}

/// A uniform grid laid over a rectangle; cells are addressed by row and
/// column and shrunk by `spacing` pixels on their inner edges.
#[derive(Clone, Copy, PartialEq, Eq, Structural, Debug)]
pub struct Grid {
    pub area: Rect,
    pub rows: i32,
    pub cols: i32,
    pub spacing: i32,
}

impl Grid {
    pub open spec fn wf(self) -> bool {
        self.area.wf() && 1 <= self.rows <= 8 && 1 <= self.cols <= 8 && 0 <= self.spacing <= 64
    }

    pub fn new(area: Rect, rows: i32, cols: i32) -> (r: Grid)
        requires
            area.wf(),
            1 <= rows <= 8,
            1 <= cols <= 8,
        ensures
            r == (Grid { area, rows, cols, spacing: 0 }),
            r.wf(),
    {
        Grid { area, rows, cols, spacing: 0 }
    }

    pub fn with_spacing(self, spacing: i32) -> (r: Grid)
        requires
            0 <= spacing <= 64,
        ensures
            r == (Grid { spacing, ..self }),
    {
        Grid { spacing, ..self }
    }

    /// The cell at the given row and column: the row/column slice of the
    /// area, shrunk by half the spacing on every side.
    pub open spec fn spec_row_col(self, r: int, c: int) -> Rect {
        self.area.spec_column(c, self.cols as int).spec_row_slice(r, self.rows as int).spec_inset(
            Insets {
                top: (self.spacing / 2) as i32,
                right: (self.spacing / 2) as i32,
                bottom: (self.spacing / 2) as i32,
                left: (self.spacing / 2) as i32,
            },
        )
    }

    pub fn row_col(&self, r: i32, c: i32) -> (cell: Rect)
        requires
            self.wf(),
            0 <= r < self.rows,
            0 <= c < self.cols,
        ensures
            cell == self.spec_row_col(r as int, c as int),
            cell.wf(),
    {
        let col = self.area.column(c, self.cols);
        let row = col.row_slice(r, self.rows);
        row.inset(Insets::uniform(self.spacing / 2))
    }
}

impl Rect {
    /// Split the height into `n` equal rows and return the `r`-th.
    pub open spec fn spec_row_slice(self, r: int, n: int) -> Rect {
        Rect {
            x0: self.x0,
            y0: (self.y0 + (self.spec_height() * r) / n) as i32,
            x1: self.x1,
            y1: (self.y0 + (self.spec_height() * (r + 1)) / n) as i32,
        }
    }

    pub fn row_slice(&self, r: i32, n: i32) -> (cell: Rect)
        requires
            self.wf(),
            0 <= r < n,
            1 <= n <= 8,
        ensures
            cell == self.spec_row_slice(r as int, n as int),
            cell.wf(),
            self.y0 <= cell.y0 && cell.y1 <= self.y1,
    {
        proof {
            lemma_column_bounds(self.spec_height(), r as int, n as int);
        }
        let h = self.y1 - self.y0;
        Rect { x0: self.x0, y0: self.y0 + (h * r) / n, x1: self.x1, y1: self.y0 + (h * (r + 1)) / n }
    }
}

} // verus!
