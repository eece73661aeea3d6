use implicit_plot::cube_table::triangle_table;
use implicit_plot::cubes::{marching_cubes, Triangle, Vertex};
use implicit_plot::squares::GridError;

fn v(hx: usize, hy: usize, hz: usize) -> Vertex {
    Vertex { hx, hy, hz }
}

#[test]
fn uniform_cube_gives_no_triangle() {
    assert_eq!(marching_cubes(2, 2, 2, vec![false; 8]), Ok(vec![]));
    assert_eq!(marching_cubes(2, 2, 2, vec![true; 8]), Ok(vec![]));
    assert_eq!(marching_cubes(3, 3, 3, vec![false; 27]), Ok(vec![]));
    assert_eq!(marching_cubes(4, 3, 5, vec![true; 60]), Ok(vec![]));
}

#[test]
fn single_inside_corner_gives_its_table_entry() {
    let mut grid = vec![false; 8];
    grid[0] = true;
    let tris = marching_cubes(2, 2, 2, grid).unwrap();
    assert_eq!(triangle_table(1), vec![0, 8, 3]);
    assert_eq!(tris, vec![Triangle { a: v(1, 0, 0), b: v(0, 0, 1), c: v(0, 1, 0) }]);

    // the far corner (1, 1, 1) is corner 6
    let mut grid = vec![false; 8];
    grid[7] = true;
    let tris = marching_cubes(2, 2, 2, grid).unwrap();
    assert_eq!(triangle_table(64), vec![10, 6, 5]);
    assert_eq!(tris, vec![Triangle { a: v(2, 2, 1), b: v(1, 2, 2), c: v(2, 1, 2) }]);
}

#[test]
fn single_outside_corner_uses_same_edges() {
    let mut grid = vec![true; 8];
    grid[0] = false;
    let tris = marching_cubes(2, 2, 2, grid).unwrap();
    assert_eq!(triangle_table(254), vec![0, 3, 8]);
    assert_eq!(tris, vec![Triangle { a: v(1, 0, 0), b: v(0, 1, 0), c: v(0, 0, 1) }]);
}

#[test]
fn half_cube_gives_a_quad() {
    // the bottom face (z = 0) inside
    let grid = vec![true, true, true, true, false, false, false, false];
    let tris = marching_cubes(2, 2, 2, grid).unwrap();
    assert_eq!(triangle_table(15), vec![9, 8, 10, 10, 8, 11]);
    assert_eq!(tris.len(), 2);
    for t in &tris {
        for p in [t.a, t.b, t.c] {
            assert_eq!(p.hz, 1);
        }
    }
}

#[test]
fn table_rows_hold_whole_triangles() {
    for c in 0..=255u8 {
        let row = triangle_table(c);
        assert_eq!(row.len() % 3, 0);
        assert!(row.len() <= 15);
        assert!(row.iter().all(|e| *e < 12));
    }
    assert!(triangle_table(0).is_empty());
    assert!(triangle_table(255).is_empty());
}

#[test]
fn larger_grid_offsets_cells() {
    // one inside point at the centre of a 3 by 3 by 3 grid touches all eight cells
    let mut grid = vec![false; 27];
    grid[13] = true;
    let tris = marching_cubes(3, 3, 3, grid).unwrap();
    assert_eq!(tris.len(), 8);
    // the first cell has the centre as its corner 6
    assert_eq!(tris[0], Triangle { a: v(2, 2, 1), b: v(1, 2, 2), c: v(2, 1, 2) });
}

#[test]
fn cube_dimensions_are_checked() {
    assert_eq!(marching_cubes(1, 2, 2, vec![false; 4]), Err(GridError::DimensionTooSmall));
    assert_eq!(marching_cubes(2, 2, 1, vec![false; 4]), Err(GridError::DimensionTooSmall));
    assert_eq!(marching_cubes(2, 2, 2, vec![false; 7]), Err(GridError::LengthMismatch));
    assert_eq!(
        marching_cubes(usize::MAX, 2, 2, vec![false; 8]),
        Err(GridError::LengthMismatch)
    );
}
