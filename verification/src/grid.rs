//! The world grid: a rectangle of cells, each open floor or a wall variant.

use vstd::prelude::*;

verus! {

/// Widest and tallest grid: every cell of it can be reached by a coordinate.
pub const MAX_DIM: usize = 32768;

/// Wall id that every cell outside the grid reports.
pub const BOUNDARY_WALL: u8 = 1;

/// Cells in row-major order. Id 0 is open floor, any other id a wall variant.
pub struct Grid {
    w: usize,
    h: usize,
    data: Vec<u8>,
}

impl Grid {
    /// Number of columns.
    pub closed spec fn spec_w(&self) -> int {
        self.w as int
    }

    /// Number of rows.
    pub closed spec fn spec_h(&self) -> int {
        self.h as int
    }

    /// The cell ids, row after row.
    pub closed spec fn cells(&self) -> Seq<u8> {
        self.data@
    }

    /// What holds of every grid: its size is bounded and matches its cells.
    pub open spec fn wf(&self) -> bool {
        &&& 0 <= self.spec_w() <= MAX_DIM
        &&& 0 <= self.spec_h() <= MAX_DIM
        &&& self.cells().len() == self.spec_w() * self.spec_h()
    }

    #[verifier::type_invariant]
    closed spec fn inv(&self) -> bool {
        self.wf()
    }

    /// Whether the cell lies inside the grid.
    pub open spec fn in_bounds(&self, x: int, y: int) -> bool {
        0 <= x < self.spec_w() && 0 <= y < self.spec_h()
    }

    /// Id of the cell at column `x`, row `y`; outside the grid, the boundary wall.
    pub open spec fn occupancy(&self, x: int, y: int) -> int {
        if self.in_bounds(x, y) {
            self.cells()[y * self.spec_w() + x] as int
        } else {
            BOUNDARY_WALL as int
        }
    }

    /// Whether the cell stops movement and sight.
    pub open spec fn solid(&self, x: int, y: int) -> bool {
        self.occupancy(x, y) > 0
    }

    /// In a well-formed grid a cell inside the bounds has its place among the cells.
    pub proof fn lemma_index_in_range(&self, x: int, y: int)
        requires
            self.wf(),
            self.in_bounds(x, y),
        ensures
            0 <= y * self.spec_w() + x < self.cells().len(),
    {
        let w = self.spec_w();
        let h = self.spec_h();
        assert(y * w + x < w * h && y * w >= 0) by (nonlinear_arith)
            requires
                0 <= x < w,
                0 <= y < h,
        ;
    }

    /// Builds a grid of `w` columns and `h` rows from its cells in row-major
    /// order, if there are `w * h` of them and neither side exceeds `MAX_DIM`.
    pub fn new(w: usize, h: usize, data: Vec<u8>) -> (g: Option<Grid>)
        ensures
            g is Some <==> (w <= MAX_DIM && h <= MAX_DIM && data@.len() == w * h),
            g is Some ==> {
                &&& g->0.wf()
                &&& g->0.spec_w() == w
                &&& g->0.spec_h() == h
                &&& g->0.cells() == data@
            },
    {
        if w > MAX_DIM || h > MAX_DIM {
            return None;
        }
        assert(w * h <= 32768 * 32768) by (nonlinear_arith)
            requires
                w <= 32768,
                h <= 32768,
        ;
        if data.len() != w * h {
            return None;
        }
        Some(Grid { w, h, data })
    }

    /// Number of columns.
    pub fn w(&self) -> (n: usize)
        ensures
            n == self.spec_w(),
            n <= MAX_DIM,
            self.wf(),
    {
        proof {
            use_type_invariant(self);
        }
        self.w
    }

    /// Number of rows.
    pub fn h(&self) -> (n: usize)
        ensures
            n == self.spec_h(),
            n <= MAX_DIM,
            self.wf(),
    {
        proof {
            use_type_invariant(self);
        }
        self.h
    }

    /// Id of the cell at column `x`, row `y`. Every cell outside the grid
    /// reports a wall, so the world is closed on all sides.
    pub fn at(&self, x: i32, y: i32) -> (id: u8)
        ensures
            id == self.occupancy(x as int, y as int),
            !self.in_bounds(x as int, y as int) ==> id != 0,
    {
        proof {
            use_type_invariant(self);
        }
        if x < 0 || y < 0 || x as usize >= self.w || y as usize >= self.h {
            BOUNDARY_WALL
        } else {
            proof {
                self.lemma_index_in_range(x as int, y as int);
            }
            assert(y * self.w <= 32768 * 32768) by (nonlinear_arith)
                requires
                    0 <= y < 32768,
                    self.w <= 32768,
            ;
            self.data[y as usize * self.w + x as usize]
        }
    }

    /// Whether the cell at column `x`, row `y` is a wall.
    pub fn is_solid(&self, x: i32, y: i32) -> (b: bool)
        ensures
            b == self.solid(x as int, y as int),
            !self.in_bounds(x as int, y as int) ==> b,
    {
        self.at(x, y) > 0
    }
}

} // verus!
