//! The map generation pipeline: shared grid state threaded through an
//! ordered list of builders.
//!
//! Each builder satisfies one capability — rework the shared state — and
//! the generator applies them strictly in order. Builders draw raw cell
//! values; what category a value decodes to is the map's business.

use vstd::prelude::*;
use core::marker::PhantomData;
use crate::grid::Grid;
use crate::point::{IVec2, UVec2};
use crate::random::Random;
use crate::shapes::{RectIter, Rectangle};

verus! {

/// The state a generation pipeline builds: the target size, the random
/// stream the builders draw from, the raw terrain values, and caller data
/// passed through untouched.
pub struct MapGenData<T> {
    size: UVec2,
    random: Random,
    terrain_grid: Grid<u32>,
    user_data: T,
}

impl<T> MapGenData<T> {
    /// Well-formedness: the terrain grid has the stated size. The
    /// constructor establishes it and every builder preserves it.
    pub open spec fn wf(&self) -> bool {
        &&& self.spec_grid().wf()
        &&& self.spec_grid().spec_width() == self.spec_size().x as int
        &&& self.spec_grid().spec_height() == self.spec_size().y as int
    }

    /// The target size.
    pub closed spec fn spec_size(&self) -> UVec2 {
        self.size
    }

    /// The raw terrain values.
    pub closed spec fn spec_grid(&self) -> Grid<u32> {
        self.terrain_grid
    }

    /// The caller data passed through.
    pub closed spec fn spec_user_data(&self) -> T {
        self.user_data
    }

    /// The random stream the builders draw from.
    pub closed spec fn spec_random(&self) -> Random {
        self.random
    }

    pub fn new(size: UVec2, random: Random, user_data: T) -> (r: MapGenData<T>)
        requires
            size.x as int * size.y as int <= usize::MAX,
        ensures
            r.wf(),
            r.spec_size() == size,
            r.spec_user_data() == user_data,
            forall|x: int, y: int|
                r.spec_grid().spec_in_bounds(x, y) ==> r.spec_grid().spec_cell(x, y) == 0u32,
    {
        MapGenData { size, random, terrain_grid: Grid::new_fill(size, 0u32), user_data }
    }

    /// The target size.
    pub fn size(&self) -> (r: UVec2)
        ensures
            r == self.spec_size(),
    {
        self.size
    }

    /// The raw terrain values.
    pub fn terrain_grid(&self) -> (r: &Grid<u32>)
        ensures
            r == self.spec_grid(),
    {
        &self.terrain_grid
    }

    /// The caller data passed through.
    pub fn user_data(&self) -> (r: &T)
        ensures
            r == self.spec_user_data(),
    {
        &self.user_data
    }
}

/// One step of the generation pipeline. An architect reworks the raw
/// terrain values; it never resizes the state and never touches the caller
/// data.
pub trait MapArchitect<T> {
    fn generate(&mut self, data: &mut MapGenData<T>)
        requires
            old(data).wf(),
        ensures
            final(data).wf(),
            final(data).spec_size() == old(data).spec_size(),
            final(data).spec_user_data() == old(data).spec_user_data(),
    ;
}

/// Scatters random raw values over a rectangle of the terrain grid — over
/// the whole grid when no rectangle was given.
pub struct ScatterBuilder<T> {
    rect: Option<Rectangle>,
    phantom: PhantomData<T>,
}

impl<T> ScatterBuilder<T> {
    /// The rectangle to scatter over, if one was given.
    pub closed spec fn spec_rect(&self) -> Option<Rectangle> {
        self.rect
    }

    pub fn new() -> (r: Box<ScatterBuilder<T>>)
        ensures
            r.spec_rect() is None,
    {
        Box::new(ScatterBuilder { rect: None, phantom: PhantomData })
    }

    pub fn with_rect(self, rectangle: Rectangle) -> (r: Box<ScatterBuilder<T>>)
        ensures
            r.spec_rect() == Some(rectangle),
    {
        Box::new(ScatterBuilder { rect: Some(rectangle), phantom: self.phantom })
    }

    /// The cells a scatter may rework on a grid of the given size: its own
    /// rectangle, or the whole grid when none was given.
    pub open spec fn spec_target(&self, size: UVec2) -> Rectangle {
        match self.spec_rect() {
            Some(r) => r,
            None => Rectangle {
                min: IVec2 { x: 0, y: 0 },
                max: IVec2 { x: (size.x - 1) as i32, y: (size.y - 1) as i32 },
            },
        }
    }
}

impl<T> MapArchitect<T> for ScatterBuilder<T> {
    /// Fills the chosen rectangle with successive draws of the state's
    /// random stream, row by row, leaving every cell outside it untouched;
    /// a rectangle that does not fit the grid (or spans no cell) leaves the
    /// state completely unchanged.
    fn generate(&mut self, data: &mut MapGenData<T>)
        ensures
            *final(self) == *old(self),
            forall|x: int, y: int|
                {
                    let target = old(self).spec_target(old(data).spec_size());
                    old(data).spec_grid().spec_in_bounds(x, y) && !(target.min.x <= x
                        <= target.max.x && target.min.y <= y <= target.max.y) ==> #[trigger] final(
                        data).spec_grid().spec_cell(x, y) == old(data).spec_grid().spec_cell(x, y)
                },
            ({
                let target = old(self).spec_target(old(data).spec_size());
                !(old(data).spec_grid().spec_in_bounds(target.min.x as int, target.min.y as int)
                    && old(data).spec_grid().spec_in_bounds(target.max.x as int,
                    target.max.y as int))
            }) ==> *final(data) == *old(data),
            ({
                let target = old(self).spec_target(old(data).spec_size());
                old(data).spec_grid().spec_in_bounds(target.min.x as int, target.min.y as int)
                    && old(data).spec_grid().spec_in_bounds(target.max.x as int,
                    target.max.y as int) && (target.max.x < target.min.x || target.max.y
                    < target.min.y)
            }) ==> *final(data) == *old(data),
    {
        let size = data.size;
        if size.x == 0 || size.y == 0 || size.x > i32::MAX as u32 || size.y > i32::MAX as u32 {
            return ;
        }
        let rect = match &self.rect {
            Some(r) => *r,
            None => Rectangle::new(IVec2 { x: 0, y: 0 }, IVec2 {
                x: (size.x - 1) as i32,
                y: (size.y - 1) as i32,
            }),
        };
        if !data.terrain_grid.in_bounds(rect.min()) || !data.terrain_grid.in_bounds(rect.max()) {
            return ;
        }
        if rect.max().x < rect.min().x || rect.max().y < rect.min().y {
            return ;
        }
        let mut iter = RectIter::new(rect.min(), rect.max());
        loop
            invariant
                old(data).wf(),
                data.wf(),
                data.spec_size() == old(data).spec_size(),
                data.spec_user_data() == old(data).spec_user_data(),
                rect == old(self).spec_target(old(data).spec_size()),
                rect.min.x <= rect.max.x && rect.min.y <= rect.max.y,
                old(data).spec_grid().spec_in_bounds(rect.min.x as int, rect.min.y as int),
                old(data).spec_grid().spec_in_bounds(rect.max.x as int, rect.max.y as int),
                iter.spec_min() == rect.min,
                iter.spec_max_offset().x == rect.max.x - rect.min.x,
                iter.spec_max_offset().y == rect.max.y - rect.min.y,
                forall|x: int, y: int|
                    old(data).spec_grid().spec_in_bounds(x, y) && !(rect.min.x <= x <= rect.max.x
                        && rect.min.y <= y <= rect.max.y) ==> #[trigger] data.spec_grid().spec_cell(
                        x, y) == old(data).spec_grid().spec_cell(x, y),
            decreases iter.spec_remaining(),
        {
            match iter.next() {
                None => {
                    return ;
                },
                Some(v) => {
                    let value = data.random.range_u32(0, u32::MAX);
                    let ghost pre = data.spec_grid();
                    data.terrain_grid.set(v, value);
                    proof {
                        assert forall|x: int, y: int|
                            old(data).spec_grid().spec_in_bounds(x, y) && !(rect.min.x <= x
                                <= rect.max.x && rect.min.y <= y
                                <= rect.max.y) implies #[trigger] data.spec_grid().spec_cell(x, y)
                            == old(data).spec_grid().spec_cell(x, y) by {
                            assert(data.spec_grid().spec_cell(x, y) == pre.spec_cell(x, y));
                        }
                    }
                },
            }
        }
    }
}

/// The generation pipeline: seed state plus an ordered list of builders.
#[verifier::reject_recursive_types(T)]
pub struct MapGenerator<T> {
    map_gen_data: MapGenData<T>,
    builders: Vec<Box<dyn MapArchitect<T>>>,
}

impl<T> MapGenerator<T> {
    /// The state built so far.
    pub closed spec fn spec_data(&self) -> MapGenData<T> {
        self.map_gen_data
    }

    /// A pipeline that starts from blank state and one starting builder.
    pub fn new(size: UVec2, random: Random, starter: Box<dyn MapArchitect<T>>, user_data: T) -> (r:
        MapGenerator<T>)
        requires
            size.x as int * size.y as int <= usize::MAX,
        ensures
            r.spec_data().wf(),
            r.spec_data().spec_size() == size,
            r.spec_data().spec_user_data() == user_data,
    {
        let mut builders: Vec<Box<dyn MapArchitect<T>>> = Vec::new();
        builders.push(starter);
        MapGenerator { builders, map_gen_data: MapGenData::new(size, random, user_data) }
    }

    /// Append one more builder to run after the ones already given.
    pub fn with(self, builder: Box<dyn MapArchitect<T>>) -> (r: MapGenerator<T>)
        ensures
            r.spec_data() == self.spec_data(),
    {
        let mut builders = self.builders;
        builders.push(builder);
        MapGenerator { builders, map_gen_data: self.map_gen_data }
    }

    /// Run every builder, in order, over the shared state and hand the
    /// state back; its size and caller data come through unchanged.
    pub fn generate(self) -> (r: MapGenData<T>)
        requires
            self.spec_data().wf(),
        ensures
            r.wf(),
            r.spec_size() == self.spec_data().spec_size(),
            r.spec_user_data() == self.spec_data().spec_user_data(),
    {
        let mut data = self.map_gen_data;
        let mut builders = self.builders;
        let n = builders.len();
        let mut i: usize = 0;
        while i < n
            invariant
                n == builders@.len(),
                i <= n,
                data.wf(),
                data.spec_size() == self.spec_data().spec_size(),
                data.spec_user_data() == self.spec_data().spec_user_data(),
            decreases n - i,
        {
            builders[i].generate(&mut data);
            i += 1;
        }
        data
    }
}

} // verus!

