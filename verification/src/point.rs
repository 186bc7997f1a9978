//! Integer 2D points and the `Point2d` trait that grid containers accept.

use vstd::prelude::*;

verus! {

/// A signed 2D grid coordinate.
#[derive(Clone, Copy, Debug, PartialEq, Eq, Structural, Hash)]
pub struct IVec2 {
    pub x: i32,
    pub y: i32,
}

/// An unsigned 2D extent or coordinate.
#[derive(Clone, Copy, Debug, PartialEq, Eq, Structural, Hash)]
pub struct UVec2 {
    pub x: u32,
    pub y: u32,
}

/// A grid coordinate; deltas and absolute positions share this shape.
pub type Position = IVec2;

/// The address of one play area in the wider world.
#[derive(Clone, Copy, Debug, PartialEq, Eq, Structural, Hash)]
pub struct WorldPosition {
    pub x: i32,
    pub y: i32,
    pub z: i32,
}

impl IVec2 {
    pub fn new(x: i32, y: i32) -> (r: IVec2)
        ensures
            r.x == x,
            r.y == y,
    {
        IVec2 { x, y }
    }
}

impl UVec2 {
    pub fn new(x: u32, y: u32) -> (r: UVec2)
        ensures
            r.x == x,
            r.y == y,
    {
        UVec2 { x, y }
    }
}

/// A trait for types representing a 2D point.
pub trait Point2d: Sized + Clone + Copy {
    /// The x coordinate this point stands for, as a mathematical integer.
    spec fn spec_x(&self) -> int;

    /// The y coordinate this point stands for, as a mathematical integer.
    spec fn spec_y(&self) -> int;

    /// Returns the x position.
    fn x(&self) -> (r: i32)
        ensures
            r as int == self.spec_x(),
    ;

    /// Returns the y position.
    fn y(&self) -> (r: i32)
        ensures
            r as int == self.spec_y(),
    ;

    /// Construct an `IVec2`.
    fn new(x: i32, y: i32) -> (r: IVec2)
        ensures
            r.x == x,
            r.y == y,
    {
        IVec2 { x, y }
    }

    /// Convert the point to an `IVec2`.
    fn as_ivec2(&self) -> (r: IVec2)
        ensures
            r.x as int == self.spec_x(),
            r.y as int == self.spec_y(),
    {
        IVec2 { x: self.x(), y: self.y() }
    }

    /// Convert the point to a `UVec2`; meaningful only for non-negative coordinates.
    fn as_uvec2(&self) -> (r: UVec2)
        requires
            0 <= self.spec_x(),
            0 <= self.spec_y(),
        ensures
            r.x as int == self.spec_x(),
            r.y as int == self.spec_y(),
    {
        UVec2 { x: self.x() as u32, y: self.y() as u32 }
    }

    /// Convert the point to `[i32; 2]`.
    fn as_array(&self) -> (r: [i32; 2])
        ensures
            r[0] as int == self.spec_x(),
            r[1] as int == self.spec_y(),
    {
        [self.x(), self.y()]
    }

    /// The point's corresponding 1D index in a row-major grid of the given width.
    fn as_index(&self, width: usize) -> (r: usize)
        requires
            0 <= self.spec_x(),
            0 <= self.spec_y(),
            self.spec_y() * width + self.spec_x() <= usize::MAX,
        ensures
            r as int == self.spec_y() * width + self.spec_x(),
    {
        let x = self.x();
        let y = self.y();
        proof {
            vstd::arithmetic::mul::lemma_mul_nonnegative(y as int, width as int);
        }
        y as usize * width + x as usize
    }

    /// Returns true if the point lies inside a grid of the given size.
    fn is_valid(&self, size: UVec2) -> (r: bool)
        ensures
            r == (0 <= self.spec_x() && self.spec_x() < size.x
                && 0 <= self.spec_y() && self.spec_y() < size.y),
    {
        let x = self.x();
        let y = self.y();
        x >= 0 && y >= 0 && (x as u32) < size.x && (y as u32) < size.y
    }
}

impl Point2d for IVec2 {
    open spec fn spec_x(&self) -> int {
        self.x as int
    }

    open spec fn spec_y(&self) -> int {
        self.y as int
    }

    fn x(&self) -> i32 {
        self.x
    }

    fn y(&self) -> i32 {
        self.y
    }
}

impl Point2d for UVec2 {
    /// Coordinates above `i32::MAX` wrap, as an `as i32` cast does.
    open spec fn spec_x(&self) -> int {
        self.x as i32 as int
    }

    open spec fn spec_y(&self) -> int {
        self.y as i32 as int
    }

    fn x(&self) -> i32 {
        self.x as i32
    }

    fn y(&self) -> i32 {
        self.y as i32
    }
}

/// The `k`-th point of a row-major walk over a grid of the given size, or
/// none once `k` passes the cell count: `(k % width, k / width)`.
pub open spec fn spec_row_major_point(size: UVec2, k: int) -> Option<IVec2> {
    if 0 <= k < size.x as int * size.y as int {
        Some(IVec2 { x: (k % (size.x as int)) as i32, y: (k / (size.x as int)) as i32 })
    } else {
        None
    }
}

/// An iterator over the points of a `width x height` grid in row-major order.
pub struct PointIterRowMajor {
    coord: IVec2,
    size: UVec2,
}

impl PointIterRowMajor {
    /// The grid size being iterated over.
    pub closed spec fn spec_size(&self) -> UVec2 {
        self.size
    }

    /// How many points have been produced so far.
    pub closed spec fn spec_index(&self) -> int {
        self.coord.y * self.size.x + self.coord.x
    }

    /// How many points remain to be produced.
    pub closed spec fn spec_remaining(&self) -> int {
        (self.size.y - self.coord.y) * self.size.x - self.coord.x
    }

    /// The next point to be produced, or none when the iteration is over.
    pub closed spec fn spec_peek(&self) -> Option<IVec2> {
        if self.coord.y == self.size.y {
            None
        } else {
            Some(self.coord)
        }
    }

    #[verifier::type_invariant]
    spec fn wf(&self) -> bool {
        &&& self.size.x <= i32::MAX
        &&& self.size.y <= i32::MAX
        &&& 0 <= self.coord.y <= self.size.y
        &&& 0 <= self.coord.x
        &&& if self.size.x == 0 || self.size.y == 0 {
            self.coord.x == 0 && self.coord.y == self.size.y
        } else {
            self.coord.x < self.size.x && (self.coord.y < self.size.y || self.coord.y
                == self.size.y && self.coord.x == 0)
        }
    }

    pub fn new(size: UVec2) -> (r: PointIterRowMajor)
        requires
            size.x <= i32::MAX,
            size.y <= i32::MAX,
        ensures
            r.spec_size() == size,
            r.spec_index() == 0,
            size.x > 0 && size.y > 0 ==> r.spec_peek() == Some(IVec2 { x: 0, y: 0 }),
            size.x == 0 || size.y == 0 ==> r.spec_peek() is None,
    {
        if size.x == 0 || size.y == 0 {
            PointIterRowMajor { size, coord: IVec2 { x: 0, y: size.y as i32 } }
        } else {
            PointIterRowMajor { size, coord: IVec2 { x: 0, y: 0 } }
        }
    }

    /// Produces the `spec_index()`-th row-major point of the grid — so the
    /// whole walk yields `(0,0), (1,0), ...` row by row, each cell exactly
    /// once — then none forever.
    pub fn next(&mut self) -> (r: Option<IVec2>)
        ensures
            r == old(self).spec_peek(),
            r == spec_row_major_point(old(self).spec_size(), old(self).spec_index()),
            final(self).spec_size() == old(self).spec_size(),
            r is Some ==> final(self).spec_index() == old(self).spec_index() + 1,
            r is Some ==> final(self).spec_remaining() < old(self).spec_remaining(),
            r is None <==> old(self).spec_index() == old(self).spec_size().x as int * old(
                self).spec_size().y as int,
            r is None ==> *final(self) == *old(self),
    {
        proof {
            use_type_invariant(&*self);
            let w = self.size.x as int;
            let h = self.size.y as int;
            let cx = self.coord.x as int;
            let cy = self.coord.y as int;
            if self.coord.y == self.size.y {
                assert(self.spec_index() == w * h) by (nonlinear_arith)
                    requires
                        cx == 0,
                        cy == h,
                        self.spec_index() == cy * w + cx,
                ;
            } else {
                assert(0 <= cy * w + cx < w * h && cy * w + cx + 1 <= w * h) by (nonlinear_arith)
                    requires
                        0 <= cx < w,
                        0 <= cy < h,
                ;
                vstd::arithmetic::div_mod::lemma_fundamental_div_mod_converse(cy * w + cx, w, cy,
                    cx);
            }
        }
        if self.coord.y == self.size.y as i32 {
            return None;
        }
        let coord = self.coord;
        let mut nx = coord.x + 1;
        let mut ny = coord.y;
        if nx == self.size.x as i32 {
            nx = 0;
            ny = coord.y + 1;
        }
        self.coord = IVec2 { x: nx, y: ny };
        proof {
            assert((self.size.y - self.coord.y) * self.size.x - self.coord.x < (self.size.y
                - coord.y) * self.size.x - coord.x && self.coord.y * self.size.x + self.coord.x
                == coord.y * self.size.x + coord.x + 1) by (nonlinear_arith)
                requires
                    self.size.x > 0,
                    coord.y < self.size.y,
                    0 <= coord.x,
                    self.coord.y == coord.y && self.coord.x == coord.x + 1 || self.coord.y == coord.y
                        + 1 && self.coord.x == 0 && coord.x + 1 == self.size.x,
            ;
        }
        Some(coord)
    }
}

} // verus!
