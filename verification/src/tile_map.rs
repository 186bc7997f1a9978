//! A simple tile map of plain tile categories, for play areas that need no
//! feature or item layers.

use vstd::prelude::*;
use crate::grid::Grid;
use crate::point::{Point2d, UVec2};

verus! {

/// A plain tile category.
#[derive(Clone, Copy, Debug, Default, PartialEq, Eq, Structural, Hash)]
pub enum TileType {
    #[default]
    Wall,
    Floor,
    DownStairs,
}

impl TileType {
    pub fn is_wall(self) -> (r: bool)
        ensures
            r == (self is Wall),
    {
        matches!(self, TileType::Wall)
    }

    pub fn is_floor(self) -> (r: bool)
        ensures
            r == (self is Floor),
    {
        matches!(self, TileType::Floor)
    }

    /// Floors and stairways can be walked on; walls cannot.
    pub fn is_walkable(self) -> (r: bool)
        ensures
            r == (self is Floor || self is DownStairs),
    {
        matches!(self, TileType::Floor | TileType::DownStairs)
    }
}

/// A play area made of one tile grid, plus the cells awaiting a redraw.
pub struct TileMap {
    size: UVec2,
    tile_types: Grid<TileType>,
    update_tiles: Vec<UVec2>,
}

impl TileMap {
    /// Well-formedness: the tile grid has the stated size. Both
    /// constructors establish it and every method preserves it.
    pub open spec fn wf(&self) -> bool {
        &&& self.spec_tiles().wf()
        &&& self.spec_tiles().spec_width() == self.spec_size().x as int
        &&& self.spec_tiles().spec_height() == self.spec_size().y as int
    }

    /// The map's size.
    pub closed spec fn spec_size(&self) -> UVec2 {
        self.size
    }

    /// The tile grid.
    pub closed spec fn spec_tiles(&self) -> Grid<TileType> {
        self.tile_types
    }

    /// The recorded dirty cells, in insertion order.
    pub closed spec fn spec_dirty_seq(&self) -> Seq<UVec2> {
        self.update_tiles@
    }

    /// A map of the given size, every cell a wall.
    pub fn new(size: UVec2) -> (r: TileMap)
        requires
            size.x as int * size.y as int <= usize::MAX,
        ensures
            r.wf(),
            r.spec_size() == size,
            forall|x: int, y: int|
                r.spec_tiles().spec_in_bounds(x, y) ==> r.spec_tiles().spec_cell(x, y)
                    == TileType::Wall,
            r.spec_dirty_seq() == Seq::<UVec2>::empty(),
    {
        let r = TileMap {
            size,
            update_tiles: Vec::new(),
            tile_types: Grid::new_fill(size, TileType::Wall),
        };
        proof {
            assert(r.spec_dirty_seq() =~= Seq::<UVec2>::empty());
        }
        r
    }

    /// A map over an already-populated tile grid of the given size.
    pub fn new_with_tiles(size: UVec2, tile_types: Grid<TileType>) -> (r: TileMap)
        requires
            tile_types.wf(),
            tile_types.spec_width() == size.x as int,
            tile_types.spec_height() == size.y as int,
        ensures
            r.wf(),
            r.spec_size() == size,
            r.spec_tiles() == tile_types,
            r.spec_dirty_seq() == Seq::<UVec2>::empty(),
    {
        let r = TileMap { tile_types, size, update_tiles: Vec::new() };
        proof {
            assert(r.spec_dirty_seq() =~= Seq::<UVec2>::empty());
        }
        r
    }

    /// The map's size.
    pub fn size(&self) -> (r: UVec2)
        ensures
            r == self.spec_size(),
    {
        self.size
    }

    /// The tile at a point, or nothing for an out-of-bounds point.
    pub fn tile_at<P: Point2d>(&self, point: P) -> (r: Option<TileType>)
        requires
            self.wf(),
        ensures
            self.spec_tiles().spec_in_bounds(point.spec_x(), point.spec_y()) ==> r == Some(
                self.spec_tiles().spec_cell(point.spec_x(), point.spec_y())),
            !self.spec_tiles().spec_in_bounds(point.spec_x(), point.spec_y()) ==> r is None,
    {
        match self.tile_types.get(point) {
            Some(t) => Some(*t),
            None => None,
        }
    }
}

} // verus!
