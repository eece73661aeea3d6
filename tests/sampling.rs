use implicit_plot::coordinate::{coordinate, half_coordinate, Fraction};
use implicit_plot::grid::{GridShape, SampleError};
use implicit_plot::sampler::{sample, sample_field, sample_range, split_samples, Sample, SampledField};

#[test]
fn grid_offsets_are_distinct() {
    let (w, h) = (5usize, 4usize);
    let mut seen = vec![false; w * h];
    for y in 0..h {
        for x in 0..w {
            let k = x + y * w;
            assert!(!seen[k]);
            seen[k] = true;
        }
    }
    assert!(seen.iter().all(|s| *s));
}

#[test]
fn coordinate_is_antisymmetric_on_symmetric_window() {
    for i in -4i64..=4 {
        let a = coordinate(i, 4, -3, 3).unwrap();
        let b = coordinate(-i, 4, -3, 3).unwrap();
        assert_eq!(b.num, -a.num);
        assert_eq!(b.den, a.den);
    }
}

#[test]
fn coordinate_has_exact_value() {
    assert_eq!(coordinate(1, 2, -3, 3), Ok(Fraction { num: 6, den: 4 }));
    assert_eq!(coordinate(-2, 2, 0, 10), Ok(Fraction { num: -20, den: 4 }));
    assert_eq!(coordinate(0, 7, -1, 1), Ok(Fraction { num: 0, den: 14 }));
    assert_eq!(coordinate(2, 2, -1, 1), Ok(Fraction { num: 4, den: 4 }));
}

#[test]
fn empty_window_is_refused() {
    assert_eq!(coordinate(1, 2, 3, 3), Err(SampleError::EmptyWindow));
    assert_eq!(coordinate(1, 2, 4, -4), Err(SampleError::EmptyWindow));
}

#[test]
fn shapes_check_fidelity() {
    assert_eq!(GridShape::plane(0, 3), Err(SampleError::FidelityTooSmall));
    assert_eq!(GridShape::plane(3, 0), Err(SampleError::FidelityTooSmall));
    assert_eq!(GridShape::volume(1, 1, 0), Err(SampleError::FidelityTooSmall));
    let s = GridShape::plane(2, 1).unwrap();
    assert_eq!(s.len(), 15);
    let s = GridShape::volume(1, 1, 1).unwrap();
    assert_eq!(s.len(), 27);
    assert_eq!(
        GridShape::volume(u32::MAX, u32::MAX, u32::MAX),
        Err(SampleError::TooLarge)
    );
}

#[test]
fn points_run_x_fastest() {
    let s = GridShape::plane(1, 1).unwrap();
    assert_eq!(s.point_of(0), (-1, -1, 0));
    assert_eq!(s.point_of(1), (0, -1, 0));
    assert_eq!(s.point_of(3), (-1, 0, 0));
    assert_eq!(s.point_of(8), (1, 1, 0));
    let v = GridShape::volume(1, 2, 1).unwrap();
    assert_eq!(v.point_of(0), (-1, -2, -1));
    assert_eq!(v.point_of(3), (-1, -1, -1));
    assert_eq!(v.point_of(15), (-1, -2, 0));
    assert_eq!(v.point_of(44), (1, 2, 1));
}

#[test]
fn sampling_calls_every_point_in_order() {
    let s = GridShape::plane(1, 2).unwrap();
    let values = sample(&s, &|i: i64, j: i64, _l: i64| i * 10 + j);
    assert_eq!(values.len(), 15);
    assert_eq!(values[0], -12);
    assert_eq!(values[2], 8);
    assert_eq!(values[3], -11);
    assert_eq!(values[14], 12);
}

#[test]
fn partitioned_sampling_matches_one_pass() {
    let s = GridShape::volume(2, 1, 1).unwrap();
    let eval = |i: i64, j: i64, l: i64| i * i - 3 * j + 7 * l;
    let full = sample(&s, &eval);
    for bounds in [vec![0, 45], vec![0, 10, 45], vec![0, 0, 7, 8, 30, 45, 45]] {
        let mut merged = Vec::new();
        for w in bounds.windows(2) {
            merged.extend(sample_range(&s, w[0], w[1], &eval));
        }
        assert_eq!(merged, full);
    }
}

#[test]
fn residual_pass_gives_value_grid() {
    let samples = vec![Sample::Residual(3i32), Sample::Residual(-1), Sample::Residual(0)];
    match split_samples(&samples) {
        Ok(SampledField::Residuals(v)) => assert_eq!(v, vec![3, -1, 0]),
        other => panic!("unexpected {:?}", other),
    }
}

#[test]
fn predicate_pass_gives_marked_points() {
    let samples: Vec<Sample<i32>> =
        vec![Sample::Holds(false), Sample::Holds(true), Sample::Holds(false), Sample::Holds(true)];
    match split_samples(&samples) {
        Ok(SampledField::Marked(m)) => assert_eq!(m, vec![1, 3]),
        other => panic!("unexpected {:?}", other),
    }
}

#[test]
fn mixed_pass_is_refused() {
    let samples = vec![Sample::Residual(2i32), Sample::Holds(true)];
    assert!(matches!(split_samples(&samples), Err(SampleError::MixedResults)));
}

#[test]
fn sample_field_on_circle() {
    let s = GridShape::plane(2, 2).unwrap();
    let field = sample_field(&s, &|i: i64, j: i64, _l: i64| Sample::Residual(i * i + j * j - 2));
    match field {
        Ok(SampledField::Residuals(v)) => {
            assert_eq!(v.len(), 25);
            assert_eq!(v[12], -2);
            assert_eq!(v[0], 6);
        }
        other => panic!("unexpected {:?}", other),
    }
    let marks = sample_field(&s, &|i: i64, j: i64, _l: i64| Sample::<i64>::Holds(i == j));
    match marks {
        Ok(SampledField::Marked(m)) => assert_eq!(m, vec![0, 6, 12, 18, 24]),
        other => panic!("unexpected {:?}", other),
    }
}

#[test]
fn half_positions_line_up_with_grid_points() {
    // fidelity 2: grid points at offsets -2..=2, half positions 0..=8
    assert_eq!(half_coordinate(0, 2, -3, 3), Ok(Fraction { num: -24, den: 8 }));
    assert_eq!(half_coordinate(4, 2, -3, 3), Ok(Fraction { num: 0, den: 8 }));
    assert_eq!(half_coordinate(5, 2, -3, 3), Ok(Fraction { num: 6, den: 8 }));
    assert_eq!(half_coordinate(8, 2, -3, 3), Ok(Fraction { num: 24, den: 8 }));
    for x in 0..=4i64 {
        let h = half_coordinate(2 * x as usize, 2, -3, 3).unwrap();
        let g = coordinate(x - 2, 2, -3, 3).unwrap();
        assert_eq!(h.num * g.den as i128, g.num * h.den as i128);
    }
    assert_eq!(half_coordinate(3, 2, 1, 1), Err(SampleError::EmptyWindow));
}
