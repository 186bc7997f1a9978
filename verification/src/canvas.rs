//! A character canvas for sketching grid content.

use vstd::prelude::*;
use crate::point::{Point2d, UVec2};

verus! {

/// A `width x height` sheet of glyphs, blank until drawn on. Rendering the
/// sheet to a terminal belongs to the caller; the canvas only holds cells.
pub struct Canvas {
    size: UVec2,
    cells: Vec<char>,
}

impl Canvas {
    /// Well-formedness: the sheet matches the stated size. Every
    /// constructor establishes it and every method preserves it.
    pub closed spec fn wf(&self) -> bool {
        self.cells.len() == self.size.x as int * self.size.y as int
    }

    /// The canvas size.
    pub closed spec fn spec_size(&self) -> UVec2 {
        self.size
    }

    /// The glyph at `(x, y)`; meaningful only in bounds.
    pub closed spec fn spec_glyph(&self, x: int, y: int) -> char {
        self.cells[y * self.size.x as int + x]
    }

    /// Whether `(x, y)` addresses a cell.
    pub open spec fn spec_in_bounds(&self, x: int, y: int) -> bool {
        0 <= x < self.spec_size().x && 0 <= y < self.spec_size().y
    }

    /// A blank canvas of the given size.
    pub fn new(size: UVec2) -> (r: Canvas)
        requires
            size.x as int * size.y as int <= usize::MAX,
        ensures
            r.wf(),
            r.spec_size() == size,
            forall|x: int, y: int| r.spec_in_bounds(x, y) ==> r.spec_glyph(x, y) == ' ',
    {
        let count: usize = (size.x as usize) * (size.y as usize);
        let mut cells: Vec<char> = Vec::new();
        let mut i: usize = 0;
        while i < count
            invariant
                i <= count,
                cells.len() == i,
                forall|j: int| 0 <= j < i ==> cells[j] == ' ',
            decreases count - i,
        {
            cells.push(' ');
            i += 1;
        }
        let r = Canvas { size, cells };
        proof {
            assert forall|x: int, y: int| r.spec_in_bounds(x, y) implies r.spec_glyph(x, y)
                == ' ' by {
                r.lemma_index_in_range(x, y);
            }
        }
        r
    }

    proof fn lemma_index_in_range(&self, x: int, y: int)
        requires
            self.wf(),
            self.spec_in_bounds(x, y),
        ensures
            0 <= y * self.size.x as int + x < self.cells.len(),
    {
        let w = self.size.x as int;
        let h = self.size.y as int;
        assert(0 <= y * w && y * w + x < w * h) by (nonlinear_arith)
            requires
                0 <= x < w,
                0 <= y < h,
        ;
    }

    fn to_index<P: Point2d>(&self, point: P) -> (r: usize)
        requires
            self.wf(),
            self.spec_in_bounds(point.spec_x(), point.spec_y()),
        ensures
            r == point.spec_y() * self.spec_size().x + point.spec_x(),
            r < self.cells@.len(),
    {
        proof {
            self.lemma_index_in_range(point.spec_x(), point.spec_y());
        }
        point.as_index(self.size.x as usize)
    }

    /// Draw one glyph at an in-bounds position.
    pub fn put<P: Point2d>(&mut self, pos: P, glyph: char)
        requires
            old(self).wf(),
            old(self).spec_in_bounds(pos.spec_x(), pos.spec_y()),
        ensures
            final(self).wf(),
            final(self).spec_size() == old(self).spec_size(),
            final(self).spec_glyph(pos.spec_x(), pos.spec_y()) == glyph,
            forall|x: int, y: int|
                old(self).spec_in_bounds(x, y) && !(x == pos.spec_x() && y == pos.spec_y()) ==>
                    final(self).spec_glyph(x, y) == old(self).spec_glyph(x, y),
    {
        let i = self.to_index(pos);
        self.cells[i] = glyph;
        proof {
            assert forall|x: int, y: int|
                old(self).spec_in_bounds(x, y) && !(x == pos.spec_x() && y
                    == pos.spec_y()) implies self.spec_glyph(x, y) == old(self).spec_glyph(x,
                y) by {
                self.lemma_index_in_range(x, y);
                assert(y * self.size.x as int + x != pos.spec_y() * self.size.x as int
                    + pos.spec_x()) by (nonlinear_arith)
                    requires
                        0 <= x < self.size.x as int,
                        0 <= pos.spec_x() < self.size.x as int,
                        !(x == pos.spec_x() && y == pos.spec_y()),
                ;
            }
        }
    }

    /// The glyph at a position, or nothing out of bounds.
    pub fn get<P: Point2d>(&self, pos: P) -> (r: Option<char>)
        requires
            self.wf(),
        ensures
            self.spec_in_bounds(pos.spec_x(), pos.spec_y()) ==> r == Some(self.spec_glyph(
                pos.spec_x(), pos.spec_y())),
            !self.spec_in_bounds(pos.spec_x(), pos.spec_y()) ==> r is None,
    {
        if !pos.is_valid(self.size) {
            return None;
        }
        let i = self.to_index(pos);
        Some(self.cells[i])
    }

    /// The canvas size.
    pub fn size(&self) -> (r: UVec2)
        ensures
            r == self.spec_size(),
    {
        self.size
    }
}

} // verus!
