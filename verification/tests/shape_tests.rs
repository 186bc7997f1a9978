use atrl_core::grid::Grid;
use atrl_core::map_gen::{MapArchitect, MapGenData, ScatterBuilder};
use atrl_core::point::{IVec2, UVec2};
use atrl_core::random::Random;
use atrl_core::shapes::{draw_shape, Line, RectIter, Rectangle, Triangle};

#[test]
fn grid_reads_and_writes_are_bounds_checked() {
    let mut grid: Grid<u8> = Grid::new_fill(UVec2 { x: 3, y: 2 }, 0);
    assert_eq!(grid.width(), 3);
    assert_eq!(grid.height(), 2);
    assert!(grid.in_bounds(IVec2::new(2, 1)));
    assert!(!grid.in_bounds(IVec2::new(3, 1)));
    grid.set(IVec2::new(2, 1), 9);
    assert_eq!(grid.get(IVec2::new(2, 1)), Some(&9));
    assert_eq!(grid.get(IVec2::new(0, 0)), Some(&0));
    // Out of bounds: reads return nothing, writes change nothing.
    assert_eq!(grid.get(IVec2::new(3, 1)), None);
    assert_eq!(grid.get(IVec2::new(-1, 0)), None);
    grid.set(IVec2::new(3, 1), 7);
    assert_eq!(grid.get(IVec2::new(2, 1)), Some(&9));
}

#[test]
fn rect_iteration_covers_the_rectangle() {
    let rect = Rectangle::new(IVec2::new(1, 1), IVec2::new(2, 3));
    let mut it = RectIter::new(rect.min(), rect.max());
    let mut seen = Vec::new();
    while let Some(p) = it.next() {
        seen.push(p);
    }
    assert_eq!(
        seen,
        vec![
            IVec2::new(1, 1),
            IVec2::new(2, 1),
            IVec2::new(1, 2),
            IVec2::new(2, 2),
            IVec2::new(1, 3),
            IVec2::new(2, 3),
        ]
    );
}

#[test]
fn line_walks_between_its_endpoints() {
    let line = Line::new(IVec2::new(0, 0), IVec2::new(3, 3));
    let points = line.get_points();
    assert_eq!(
        points,
        vec![IVec2::new(0, 0), IVec2::new(1, 1), IVec2::new(2, 2), IVec2::new(3, 3)]
    );
    assert_eq!(line.get_count(), 4);
    assert!(line.contains(IVec2::new(2, 2)));
    assert!(!line.contains(IVec2::new(2, 1)));
    // A degenerate line is its single point.
    let dot = Line::new(IVec2::new(5, 5), IVec2::new(5, 5));
    assert_eq!(dot.get_points(), vec![IVec2::new(5, 5)]);
    // A shallow line still takes one step per unit of the longer axis.
    let shallow = Line::new(IVec2::new(0, 0), IVec2::new(4, 1));
    assert_eq!(shallow.get_count(), 5);
    // Direction reverses cleanly.
    let back = Line::new(IVec2::new(3, 0), IVec2::new(0, 0));
    assert_eq!(
        back.get_points(),
        vec![IVec2::new(3, 0), IVec2::new(2, 0), IVec2::new(1, 0), IVec2::new(0, 0)]
    );
}

#[test]
fn triangle_fill_and_border() {
    let t = Triangle::new(IVec2::new(0, 0), IVec2::new(3, 0), IVec2::new(0, 3));
    let fill = t.get_positions();
    // Every corner is part of the fill, each point appears once.
    assert!(fill.contains(&IVec2::new(0, 0)));
    assert!(fill.contains(&IVec2::new(3, 0)));
    assert!(fill.contains(&IVec2::new(0, 3)));
    assert!(t.contains(IVec2::new(2, 1)));
    assert!(!t.contains(IVec2::new(3, 3)));
    assert_eq!(fill.len(), t.get_count());
    for (i, p) in fill.iter().enumerate() {
        assert!(!fill[i + 1..].contains(p));
    }
    let border = t.get_border_positions();
    assert!(t.border_contains(IVec2::new(2, 0)));
    assert_eq!(border.len(), t.get_border_count());
    // The border is part of the fill for this shape.
    assert!(border.iter().all(|p| fill.contains(p)));
}

#[test]
fn cursor_shape_is_a_small_triangle() {
    let points = draw_shape(IVec2::new(10, 10));
    let same = Triangle::new(IVec2::new(10, 10), IVec2::new(13, 15), IVec2::new(13, 12))
        .get_positions();
    assert_eq!(points, same);
    assert!(points.contains(&IVec2::new(10, 10)));
}

#[test]
fn scatter_builder_reworks_only_its_rectangle() {
    let mut data: MapGenData<u8> = MapGenData::new(UVec2 { x: 4, y: 4 }, Random::new(11), 0);
    let mut builder = *ScatterBuilder::new().with_rect(Rectangle {
        min: IVec2::new(1, 1),
        max: IVec2::new(2, 2),
    });
    builder.generate(&mut data);
    // Cells outside the rectangle keep their blank value.
    assert_eq!(data.terrain_grid().get(IVec2::new(0, 0)), Some(&0));
    assert_eq!(data.terrain_grid().get(IVec2::new(3, 3)), Some(&0));
    assert_eq!(data.size(), UVec2 { x: 4, y: 4 });
    // A rectangle that does not fit leaves the state untouched.
    let mut bad = *ScatterBuilder::new().with_rect(Rectangle {
        min: IVec2::new(0, 0),
        max: IVec2::new(9, 9),
    });
    let before: Vec<Option<u32>> = (0..4)
        .flat_map(|y| (0..4).map(move |x| (x, y)))
        .map(|(x, y)| data.terrain_grid().get(IVec2::new(x, y)).copied())
        .collect();
    bad.generate(&mut data);
    let after: Vec<Option<u32>> = (0..4)
        .flat_map(|y| (0..4).map(move |x| (x, y)))
        .map(|(x, y)| data.terrain_grid().get(IVec2::new(x, y)).copied())
        .collect();
    assert_eq!(before, after);
}
