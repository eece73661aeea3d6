use implicit_plot::squares::{
    case_table, cell_segment, configuration_index, marching_squares, Edge, GridError, HalfPoint,
    Segment,
};

fn signs(values: &[i32]) -> Vec<bool> {
    values.iter().map(|v| *v < 0).collect()
}

#[test]
fn uniform_grid_gives_no_segment() {
    let grid = signs(&[1, 2, 3, 4, 5, 6, 7, 8, 9]);
    assert_eq!(marching_squares(3, 3, grid), Ok(vec![]));
    let grid = vec![true; 9];
    assert_eq!(marching_squares(3, 3, grid), Ok(vec![]));
}

#[test]
fn top_left_corner_joins_top_and_left_midpoints() {
    let grid = signs(&[-1, 1, 1, 1]);
    let lines = marching_squares(2, 2, grid).unwrap();
    assert_eq!(
        lines,
        vec![Segment { start: HalfPoint { hx: 0, hy: 1 }, end: HalfPoint { hx: 1, hy: 0 } }]
    );
}

#[test]
fn saddle_cells_give_two_segments() {
    let expected = vec![
        Segment { start: HalfPoint { hx: 0, hy: 1 }, end: HalfPoint { hx: 1, hy: 0 } },
        Segment { start: HalfPoint { hx: 1, hy: 2 }, end: HalfPoint { hx: 2, hy: 1 } },
    ];
    let lines = marching_squares(2, 2, signs(&[-1, 1, 1, -1])).unwrap();
    assert_eq!(lines.len(), 2);
    assert_eq!(lines, expected);
    let lines = marching_squares(2, 2, signs(&[1, -1, -1, 1])).unwrap();
    assert_eq!(lines.len(), 2);
    assert_eq!(lines, expected);
}

#[test]
fn every_configuration_has_its_segment_count() {
    for index in 0u8..16 {
        let expected = match index {
            0 | 15 => 0,
            5 | 10 => 2,
            _ => 1,
        };
        assert_eq!(case_table(index).len(), expected, "configuration {}", index);
    }
}

#[test]
fn complementary_configurations_share_geometry() {
    for index in 0u8..16 {
        assert_eq!(case_table(index), case_table(15 - index), "configuration {}", index);
    }
    let a = marching_squares(2, 2, signs(&[1, -1, -1, -1])).unwrap();
    let b = marching_squares(2, 2, signs(&[-1, 1, 1, 1])).unwrap();
    assert_eq!(a, b);
}

#[test]
fn segments_end_on_crossing_edges() {
    for index in 0u8..16 {
        let (a, b, c, d) = (index & 8 != 0, index & 4 != 0, index & 1 != 0, index & 2 != 0);
        let crosses = |e: Edge| match e {
            Edge::Top => a != b,
            Edge::Right => b != d,
            Edge::Bottom => c != d,
            Edge::Left => a != c,
        };
        let mut ends = Vec::new();
        for (s, t) in case_table(index) {
            ends.push(s);
            ends.push(t);
        }
        assert!(ends.iter().all(|e| crosses(*e)));
        let crossing = [Edge::Top, Edge::Right, Edge::Bottom, Edge::Left]
            .iter()
            .filter(|e| crosses(**e))
            .count();
        assert_eq!(ends.len(), crossing);
        for i in 0..ends.len() {
            for j in i + 1..ends.len() {
                assert_ne!(ends[i], ends[j]);
            }
        }
    }
}

#[test]
fn configuration_packs_corners() {
    assert_eq!(configuration_index(false, false, false, false), 0);
    assert_eq!(configuration_index(false, false, true, false), 1);
    assert_eq!(configuration_index(false, false, false, true), 2);
    assert_eq!(configuration_index(false, true, false, false), 4);
    assert_eq!(configuration_index(true, false, false, false), 8);
    assert_eq!(configuration_index(true, true, true, true), 15);
    assert_eq!(configuration_index(true, false, true, true), 11);
}

#[test]
fn cell_segment_places_edge_midpoints() {
    let s = cell_segment(2, 3, (Edge::Top, Edge::Right));
    assert_eq!(s.start, HalfPoint { hx: 5, hy: 6 });
    assert_eq!(s.end, HalfPoint { hx: 6, hy: 7 });
    let s = cell_segment(2, 3, (Edge::Bottom, Edge::Left));
    assert_eq!(s.start, HalfPoint { hx: 5, hy: 8 });
    assert_eq!(s.end, HalfPoint { hx: 4, hy: 7 });
}

#[test]
fn contour_of_a_larger_grid_follows_scan_order() {
    // a single negative point in the middle of a 3 by 3 grid
    let grid = signs(&[1, 1, 1, 1, -1, 1, 1, 1, 1]);
    let lines = marching_squares(3, 3, grid).unwrap();
    assert_eq!(lines.len(), 4);
    // top-left cell: bottom-right corner set, bottom to right
    assert_eq!(
        lines[0],
        Segment { start: HalfPoint { hx: 1, hy: 2 }, end: HalfPoint { hx: 2, hy: 1 } }
    );
    // top-right cell: bottom-left corner set, left to bottom
    assert_eq!(
        lines[1],
        Segment { start: HalfPoint { hx: 2, hy: 1 }, end: HalfPoint { hx: 3, hy: 2 } }
    );
    // bottom-left cell: top-right corner set, top to right
    assert_eq!(
        lines[2],
        Segment { start: HalfPoint { hx: 1, hy: 2 }, end: HalfPoint { hx: 2, hy: 3 } }
    );
    // bottom-right cell: top-left corner set, left to top
    assert_eq!(
        lines[3],
        Segment { start: HalfPoint { hx: 2, hy: 3 }, end: HalfPoint { hx: 3, hy: 2 } }
    );
}

#[test]
fn small_dimensions_are_refused() {
    assert_eq!(marching_squares(1, 3, vec![false; 3]), Err(GridError::DimensionTooSmall));
    assert_eq!(marching_squares(3, 1, vec![false; 3]), Err(GridError::DimensionTooSmall));
    assert_eq!(marching_squares(0, 0, vec![]), Err(GridError::DimensionTooSmall));
}

#[test]
fn wrong_grid_length_is_refused() {
    assert_eq!(marching_squares(3, 3, vec![false; 8]), Err(GridError::LengthMismatch));
    assert_eq!(marching_squares(2, 2, vec![false; 5]), Err(GridError::LengthMismatch));
}
