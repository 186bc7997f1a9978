//! A dense, bounds-checked 2D container addressed by integer points.
//!
//! Row-major layout is an implementation detail: the contract speaks only of
//! cells addressed by `(x, y)`. Reads of out-of-bounds points return nothing
//! and writes to them change nothing.

use vstd::prelude::*;
use crate::point::{Point2d, UVec2};

verus! {

pub struct Grid<T> {
    width: u32,
    height: u32,
    cells: Vec<T>,
}

impl<T> Grid<T> {
    /// Well-formedness: the backing store matches the stated size. Every
    /// constructor establishes it and every method preserves it.
    pub closed spec fn wf(&self) -> bool {
        self.cells.len() == self.width as int * self.height as int
    }

    /// The grid's width.
    pub closed spec fn spec_width(&self) -> int {
        self.width as int
    }

    /// The grid's height.
    pub closed spec fn spec_height(&self) -> int {
        self.height as int
    }

    /// Whether `(x, y)` addresses a cell.
    pub open spec fn spec_in_bounds(&self, x: int, y: int) -> bool {
        0 <= x < self.spec_width() && 0 <= y < self.spec_height()
    }

    /// The cell at `(x, y)`; meaningful only in bounds.
    pub closed spec fn spec_cell(&self, x: int, y: int) -> T {
        self.cells[y * self.width as int + x]
    }

    /// The cells in row-major order.
    pub closed spec fn spec_cells(&self) -> Seq<T> {
        self.cells@
    }

    /// Relates the cell at `(x, y)` to its place in the row-major sequence.
    pub proof fn lemma_cell_index(&self, x: int, y: int)
        requires
            self.wf(),
            self.spec_in_bounds(x, y),
        ensures
            self.spec_cells().len() == self.spec_width() * self.spec_height(),
            0 <= y * self.spec_width() + x < self.spec_cells().len(),
            self.spec_cell(x, y) == self.spec_cells()[y * self.spec_width() + x],
    {
        self.lemma_index_in_range(x, y);
    }

    /// Both grids have the same size.
    pub open spec fn spec_same_size(&self, other: &Grid<T>) -> bool {
        self.spec_width() == other.spec_width() && self.spec_height() == other.spec_height()
    }

    /// All cells of both grids agree.
    pub open spec fn spec_same_cells(&self, other: &Grid<T>) -> bool {
        &&& self.spec_same_size(other)
        &&& forall|x: int, y: int|
            self.spec_in_bounds(x, y) ==> self.spec_cell(x, y) == other.spec_cell(x, y)
    }

    /// The row-major index of an in-bounds cell lies within the backing store.
    proof fn lemma_index_in_range(&self, x: int, y: int)
        requires
            self.wf(),
            self.spec_in_bounds(x, y),
        ensures
            0 <= y * self.spec_width() + x < self.cells.len(),
            self.spec_cell(x, y) == self.cells[y * self.spec_width() + x],
    {
        let w = self.width as int;
        let h = self.height as int;
        assert(0 <= y * w && y * w + x < w * h) by (nonlinear_arith)
            requires
                0 <= x < w,
                0 <= y < h,
        ;
    }

    /// A grid of the given size with every cell set to `fill`.
    pub fn new_fill(size: UVec2, fill: T) -> (r: Grid<T>)
        where T: Copy
        requires
            size.x as int * size.y as int <= usize::MAX,
        ensures
            r.wf(),
            r.spec_width() == size.x,
            r.spec_height() == size.y,
            forall|x: int, y: int| r.spec_in_bounds(x, y) ==> r.spec_cell(x, y) == fill,
            forall|j: int| 0 <= j < r.spec_cells().len() ==> r.spec_cells()[j] == fill,
    {
        let count: usize = (size.x as usize) * (size.y as usize);
        let mut cells: Vec<T> = Vec::new();
        let mut i: usize = 0;
        while i < count
            invariant
                i <= count,
                cells.len() == i,
                forall|j: int| 0 <= j < i ==> cells[j] == fill,
            decreases count - i,
        {
            cells.push(fill);
            i += 1;
        }
        let r = Grid { width: size.x, height: size.y, cells };
        proof {
            assert forall|x: int, y: int| r.spec_in_bounds(x, y) implies r.spec_cell(x, y)
                == fill by {
                r.lemma_index_in_range(x, y);
            }
        }
        r
    }

    /// A grid of the given size over an explicit row-major cell vector.
    pub fn from_vec(size: UVec2, cells: Vec<T>) -> (r: Grid<T>)
        requires
            cells.len() == size.x as int * size.y as int,
        ensures
            r.wf(),
            r.spec_width() == size.x,
            r.spec_height() == size.y,
            forall|x: int, y: int|
                r.spec_in_bounds(x, y) ==> r.spec_cell(x, y) == cells[y * size.x as int + x],
            r.spec_cells() == cells@,
    {
        let r = Grid { width: size.x, height: size.y, cells };
        proof {
            assert forall|x: int, y: int| r.spec_in_bounds(x, y) implies r.spec_cell(x, y)
                == r.cells[y * size.x as int + x] by {
                r.lemma_index_in_range(x, y);
            }
        }
        r
    }

    /// The grid's width.
    pub fn width(&self) -> (r: u32)
        ensures
            r as int == self.spec_width(),
    {
        self.width
    }

    /// The grid's height.
    pub fn height(&self) -> (r: u32)
        ensures
            r as int == self.spec_height(),
    {
        self.height
    }

    /// The grid's size.
    pub fn size(&self) -> (r: UVec2)
        ensures
            r.x as int == self.spec_width(),
            r.y as int == self.spec_height(),
    {
        UVec2 { x: self.width, y: self.height }
    }

    /// Whether a point addresses a cell.
    pub fn in_bounds<P: Point2d>(&self, point: P) -> (r: bool)
        ensures
            r == self.spec_in_bounds(point.spec_x(), point.spec_y()),
    {
        point.is_valid(UVec2 { x: self.width, y: self.height })
    }

    /// The cell at a point, or nothing for an out-of-bounds point.
    pub fn get<P: Point2d>(&self, point: P) -> (r: Option<&T>)
        requires
            self.wf(),
        ensures
            self.spec_in_bounds(point.spec_x(), point.spec_y()) ==> (r matches Some(v) && *v
                == self.spec_cell(point.spec_x(), point.spec_y())),
            !self.spec_in_bounds(point.spec_x(), point.spec_y()) ==> r is None,
    {
        if !self.in_bounds(point) {
            return None;
        }
        proof {
            self.lemma_index_in_range(point.spec_x(), point.spec_y());
        }
        let i = point.as_index(self.width as usize);
        Some(&self.cells[i])
    }

    /// Overwrite the cell at a point; a no-op for an out-of-bounds point.
    pub fn set<P: Point2d>(&mut self, point: P, value: T)
        requires
            old(self).wf(),
        ensures
            final(self).wf(),
            final(self).spec_width() == old(self).spec_width(),
            final(self).spec_height() == old(self).spec_height(),
            old(self).spec_in_bounds(point.spec_x(), point.spec_y()) ==> final(self).spec_cell(
                point.spec_x(), point.spec_y()) == value,
            forall|x: int, y: int|
                old(self).spec_in_bounds(x, y) && !(x == point.spec_x() && y == point.spec_y())
                    ==> final(self).spec_cell(x, y) == old(self).spec_cell(x, y),
            !old(self).spec_in_bounds(point.spec_x(), point.spec_y()) ==> *final(self) == *old(
                self),
            old(self).spec_in_bounds(point.spec_x(), point.spec_y()) ==> final(self).spec_cells()
                == old(self).spec_cells().update(point.spec_y() * old(self).spec_width()
                + point.spec_x(), value),
    {
        if !self.in_bounds(point) {
            return ;
        }
        proof {
            self.lemma_index_in_range(point.spec_x(), point.spec_y());
        }
        let i = point.as_index(self.width as usize);
        self.cells[i] = value;
        proof {
            assert forall|x: int, y: int|
                old(self).spec_in_bounds(x, y) && !(x == point.spec_x() && y
                    == point.spec_y()) implies self.spec_cell(x, y) == old(self).spec_cell(x,
                y) by {
                self.lemma_index_in_range(x, y);
                old(self).lemma_index_in_range(x, y);
                assert(y * self.width as int + x != point.spec_y() * self.width as int
                    + point.spec_x()) by (nonlinear_arith)
                    requires
                        0 <= x < self.width as int,
                        0 <= point.spec_x() < self.width as int,
                        !(x == point.spec_x() && y == point.spec_y()),
                ;
            }
        }
    }
}

} // verus!
