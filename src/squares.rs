//! Marching squares over a grid of corner signs.
//!
//! The grid is `width * height` flags in row-major order (x fastest); a flag
//! is `true` where the sampled value is negative ("inside"). Each cell with
//! top-left corner `(x, y)` is classified by its four corner flags and
//! yields zero, one or two segments joining midpoints of its edges.
//!
//! Points are given in half-cell positions: `(hx, hy)` is the midpoint
//! between grid points `hx / 2` and `(hx + 1) / 2` along x (the grid point
//! itself when `hx` is even), and likewise along y, so that every edge
//! midpoint has integer coordinates. `coordinate::half_coordinate` maps a
//! position to the domain coordinate the sampler used on that axis.
use vstd::prelude::*;

verus! {

/// An edge of a grid cell.
#[derive(Clone, Copy, Debug, PartialEq, Eq, Structural)]
pub enum Edge {
    Top,
    Right,
    Bottom,
    Left,
}

/// A point in half-cell units.
#[derive(Clone, Copy, Debug, PartialEq, Eq, Structural)]
pub struct HalfPoint {
    pub hx: usize,
    pub hy: usize,
}

/// A contour segment between two edge midpoints.
#[derive(Clone, Copy, Debug, PartialEq, Eq, Structural)]
pub struct Segment {
    pub start: HalfPoint,
    pub end: HalfPoint,
}

/// Why a grid was not accepted for contour extraction.
#[derive(Clone, Copy, Debug, PartialEq, Eq, Structural)]
pub enum GridError {
    /// The width or the height is below two.
    DimensionTooSmall,
    /// The number of values is not `width * height`.
    LengthMismatch,
}

/// The packed configuration of a cell: `c + 2d + 4b + 8a`, where `a` is the
/// top-left, `b` the top-right, `c` the bottom-left and `d` the
/// bottom-right corner flag.
pub open spec fn configuration(a: bool, b: bool, c: bool, d: bool) -> nat {
    (if c { 1nat } else { 0nat }) + (if d { 2nat } else { 0nat }) + (if b { 4nat } else { 0nat })
        + (if a { 8nat } else { 0nat })
}

/// The edge pairs that the table gives for a configuration below 16.
pub open spec fn case_edges(index: nat) -> Seq<(Edge, Edge)> {
    if index == 1 || index == 14 {
        seq![(Edge::Left, Edge::Bottom)]
    } else if index == 2 || index == 13 {
        seq![(Edge::Bottom, Edge::Right)]
    } else if index == 3 || index == 12 {
        seq![(Edge::Left, Edge::Right)]
    } else if index == 4 || index == 11 {
        seq![(Edge::Top, Edge::Right)]
    } else if index == 5 || index == 10 {
        seq![(Edge::Left, Edge::Top), (Edge::Bottom, Edge::Right)]
    } else if index == 6 || index == 9 {
        seq![(Edge::Top, Edge::Bottom)]
    } else if index == 7 || index == 8 {
        seq![(Edge::Left, Edge::Top)]
    } else {
        seq![]
    }
}

/// The midpoint of an edge of the cell at `(x, y)`, in half-cell units.
pub open spec fn midpoint(x: nat, y: nat, e: Edge) -> (nat, nat) {
    match e {
        Edge::Top => (2 * x + 1, 2 * y),
        Edge::Right => (2 * x + 2, 2 * y + 1),
        Edge::Bottom => (2 * x + 1, 2 * y + 2),
        Edge::Left => (2 * x, 2 * y + 1),
    }
}

/// The corner flags' configuration of the cell at `(x, y)`.
pub open spec fn cell_configuration(inside: Seq<bool>, w: nat, x: nat, y: nat) -> nat {
    configuration(
        inside[(x + y * w) as int],
        inside[(x + 1 + y * w) as int],
        inside[(x + (y + 1) * w) as int],
        inside[(x + 1 + (y + 1) * w) as int],
    )
}

/// The segment joining the midpoints of the edges `e` of the cell at `(x, y)`.
pub open spec fn segment_of(x: nat, y: nat, e: (Edge, Edge)) -> Segment {
    let p = midpoint(x, y, e.0);
    let q = midpoint(x, y, e.1);
    Segment {
        start: HalfPoint { hx: p.0 as usize, hy: p.1 as usize },
        end: HalfPoint { hx: q.0 as usize, hy: q.1 as usize },
    }
}

/// The segments of the cell at `(x, y)`.
pub open spec fn cell_segments(inside: Seq<bool>, w: nat, x: nat, y: nat) -> Seq<Segment> {
    case_edges(cell_configuration(inside, w, x, y)).map_values(|e: (Edge, Edge)| segment_of(x, y, e))
}

/// The segments of the first `n` cells of row `y`, in scan order.
pub open spec fn row_segments(inside: Seq<bool>, w: nat, y: nat, n: nat) -> Seq<Segment>
    decreases n,
{
    if n == 0 {
        seq![]
    } else {
        row_segments(inside, w, y, (n - 1) as nat) + cell_segments(inside, w, (n - 1) as nat, y)
    }
}

/// The segments of the first `m` rows of cells, in scan order.
pub open spec fn rows_segments(inside: Seq<bool>, w: nat, m: nat) -> Seq<Segment>
    decreases m,
{
    if m == 0 {
        seq![]
    } else {
        rows_segments(inside, w, (m - 1) as nat) + row_segments(inside, w, (m - 1) as nat, (w - 1) as nat)
    }
}

/// The contour of a `w` by `h` grid: every cell's segments in scan order.
pub open spec fn contour(inside: Seq<bool>, w: nat, h: nat) -> Seq<Segment> {
    rows_segments(inside, w, (h - 1) as nat)
}

/// Packs four corner flags into their configuration.
pub fn configuration_index(a: bool, b: bool, c: bool, d: bool) -> (r: u8)
    ensures
        r as nat == configuration(a, b, c, d),
        r < 16,
{
    let mut r: u8 = 0;
    if c {
        r = r + 1;
    }
    if d {
        r = r + 2;
    }
    if b {
        r = r + 4;
    }
    if a {
        r = r + 8;
    }
    r
}

/// The table's edge pairs for a configuration.
pub fn case_table(index: u8) -> (r: Vec<(Edge, Edge)>)
    requires
        index < 16,
    ensures
        r@ == case_edges(index as nat),
{
    match index {
        1 | 14 => vec![(Edge::Left, Edge::Bottom)],
        2 | 13 => vec![(Edge::Bottom, Edge::Right)],
        3 | 12 => vec![(Edge::Left, Edge::Right)],
        4 | 11 => vec![(Edge::Top, Edge::Right)],
        // the two saddles share one fixed resolution
        5 | 10 => vec![(Edge::Left, Edge::Top), (Edge::Bottom, Edge::Right)],
        6 | 9 => vec![(Edge::Top, Edge::Bottom)],
        7 | 8 => vec![(Edge::Left, Edge::Top)],
        // 0 and 15: every corner on one side, no crossing
        _ => Vec::new(),
    }
}

fn midpoint_exec(x: usize, y: usize, e: Edge) -> (r: HalfPoint)
    requires
        2 * x + 2 <= usize::MAX,
        2 * y + 2 <= usize::MAX,
    ensures
        r.hx == midpoint(x as nat, y as nat, e).0,
        r.hy == midpoint(x as nat, y as nat, e).1,
{
    match e {
        Edge::Top => HalfPoint { hx: 2 * x + 1, hy: 2 * y },
        Edge::Right => HalfPoint { hx: 2 * x + 2, hy: 2 * y + 1 },
        Edge::Bottom => HalfPoint { hx: 2 * x + 1, hy: 2 * y + 2 },
        Edge::Left => HalfPoint { hx: 2 * x, hy: 2 * y + 1 },
    }
}

/// The segment joining the midpoints of two edges of the cell at `(x, y)`.
pub fn cell_segment(x: usize, y: usize, e: (Edge, Edge)) -> (r: Segment)
    requires
        2 * x + 2 <= usize::MAX,
        2 * y + 2 <= usize::MAX,
    ensures
        r == segment_of(x as nat, y as nat, e),
{
    Segment { start: midpoint_exec(x, y, e.0), end: midpoint_exec(x, y, e.1) }
}

/// Extracts the contour of a `width` by `height` grid of corner flags
/// (`true` where the sampled value is negative).
///
/// Fails with `DimensionTooSmall` when either dimension is below two, and
/// otherwise with `LengthMismatch` when the grid does not hold exactly
/// `width * height` flags. On success the segments are those of every cell
/// in scan order (rows top to bottom, cells left to right).
pub fn marching_squares(width: usize, height: usize, value_grid: Vec<bool>) -> (r: Result<
    Vec<Segment>,
    GridError,
>)
    ensures
        (width < 2 || height < 2) <==> r == Err::<Vec<Segment>, GridError>(
            GridError::DimensionTooSmall,
        ),
        (width >= 2 && height >= 2 && value_grid@.len() != width * height) <==> r == Err::<
            Vec<Segment>,
            GridError,
        >(GridError::LengthMismatch),
        r is Ok ==> r->Ok_0@ == contour(value_grid@, width as nat, height as nat),
{
    if width < 2 || height < 2 {
        return Err(GridError::DimensionTooSmall);
    }
    if value_grid.len() / width != height || value_grid.len() % width != 0 {
        proof {
            assert(value_grid@.len() != width * height) by (nonlinear_arith)
                requires
                    value_grid.len() / width != height || value_grid.len() % width != 0,
                    width >= 2,
            ;
        }
        return Err(GridError::LengthMismatch);
    }
    proof {
        assert(value_grid@.len() == width * height) by (nonlinear_arith)
            requires
                value_grid.len() / width == height,
                value_grid.len() % width == 0,
                width >= 2,
        ;
        assert(2 * width <= width * height) by (nonlinear_arith)
            requires
                height >= 2,
        ;
    }
    assert(width * height <= usize::MAX);
    let ghost g = value_grid@;
    let ghost w = width as nat;
    let mut lines: Vec<Segment> = Vec::new();
    let mut y: usize = 0;
    while y < height - 1
        invariant
            g == value_grid@,
            w == width,
            width >= 2,
            height >= 2,
            g.len() == width * height,
            2 * width <= width * height,
            width * height <= usize::MAX,
            0 <= y <= height - 1,
            lines@ == rows_segments(g, w, y as nat),
        decreases height - 1 - y,
    {
        let mut x: usize = 0;
        while x < width - 1
            invariant
                g == value_grid@,
                w == width,
                width >= 2,
                height >= 2,
                g.len() == width * height,
                2 * width <= width * height,
            width * height <= usize::MAX,
                0 <= y < height - 1,
                0 <= x <= width - 1,
                lines@ == rows_segments(g, w, y as nat) + row_segments(g, w, y as nat, x as nat),
            decreases width - 1 - x,
        {
            proof {
                assert(x + 1 + (y + 1) * width < width * height) by (nonlinear_arith)
                    requires
                        x < width - 1,
                        y < height - 1,
                ;
                assert(y * width <= width * height) by (nonlinear_arith)
                    requires
                        y < height - 1,
                ;
                assert((y + 1) * width == y * width + width) by (nonlinear_arith);
                assert(2 * height <= width * height) by (nonlinear_arith)
                    requires
                        width >= 2,
                ;
                assert(x + 1 + y * width < width * height);
                assert(2 * y + 2 <= usize::MAX);
            }
            let a = value_grid[x + y * width];
            let b = value_grid[x + 1 + y * width];
            let c = value_grid[x + (y + 1) * width];
            let d = value_grid[x + 1 + (y + 1) * width];
            let index = configuration_index(a, b, c, d);
            let edges = case_table(index);
            let ghost before = lines@;
            let ghost cell = cell_segments(g, w, x as nat, y as nat);
            assert(index as nat == cell_configuration(g, w, x as nat, y as nat));
            let mut k: usize = 0;
            while k < edges.len()
                invariant
                    0 <= k <= edges@.len(),
                    edges@ == case_edges(index as nat),
                    cell.len() == edges@.len(),
                    cell == edges@.map_values(|e: (Edge, Edge)| segment_of(x as nat, y as nat, e)),
                    2 * x + 2 <= usize::MAX,
                    2 * y + 2 <= usize::MAX,
                    lines@ == before + cell.take(k as int),
                decreases edges.len() - k,
            {
                let s = cell_segment(x, y, edges[k]);
                lines.push(s);
                proof {
                    assert(cell.take(k + 1) == cell.take(k as int).push(cell[k as int]));
                }
                k = k + 1;
            }
            proof {
                assert(cell.take(k as int) == cell);
            }
            x = x + 1;
        }
        y = y + 1;
    }
    Ok(lines)
}

/// The number of corner flags set.
pub open spec fn corners_set(a: bool, b: bool, c: bool, d: bool) -> nat {
    (if a { 1nat } else { 0nat }) + (if b { 1nat } else { 0nat }) + (if c { 1nat } else { 0nat })
        + (if d { 1nat } else { 0nat })
}

/// A saddle: the two diagonals carry opposite flags.
pub open spec fn is_saddle(a: bool, b: bool, c: bool, d: bool) -> bool {
    a == d && b == c && a != b
}

/// Uniform cells give no segment, saddles give two, every other cell (one,
/// two adjacent or three corners set) gives exactly one.
pub proof fn lemma_segment_counts(a: bool, b: bool, c: bool, d: bool)
    ensures
        case_edges(configuration(a, b, c, d)).len() == if corners_set(a, b, c, d) == 0
            || corners_set(a, b, c, d) == 4 {
            0nat
        } else if is_saddle(a, b, c, d) {
            2nat
        } else {
            1nat
        },
{
}

/// Flipping every corner turns configuration `i` into `15 - i` and leaves
/// the cell's segments unchanged.
pub proof fn lemma_complement_symmetry(a: bool, b: bool, c: bool, d: bool)
    ensures
        configuration(!a, !b, !c, !d) == 15 - configuration(a, b, c, d),
        case_edges(configuration(a, b, c, d)) == case_edges(configuration(!a, !b, !c, !d)),
{
}

/// A grid and its sign-flipped copy give the same segments at every cell.
pub proof fn lemma_complement_cell(g: Seq<bool>, flipped: Seq<bool>, w: nat, h: nat, x: nat, y: nat)
    requires
        g.len() == w * h,
        flipped.len() == g.len(),
        forall|i: int| 0 <= i < g.len() ==> #[trigger] flipped[i] == !g[i],
        x + 1 < w,
        y + 1 < h,
    ensures
        cell_segments(flipped, w, x, y) == cell_segments(g, w, x, y),
{
    assert(x + 1 + (y + 1) * w < w * h) by (nonlinear_arith)
        requires
            x + 1 < w,
            y + 1 < h,
    ;
    assert((y + 1) * w == y * w + w) by (nonlinear_arith);
    let a = g[(x + y * w) as int];
    let b = g[(x + 1 + y * w) as int];
    let c = g[(x + (y + 1) * w) as int];
    let d = g[(x + 1 + (y + 1) * w) as int];
    assert(flipped[(x + y * w) as int] == !a);
    assert(flipped[(x + 1 + y * w) as int] == !b);
    assert(flipped[(x + (y + 1) * w) as int] == !c);
    assert(flipped[(x + 1 + (y + 1) * w) as int] == !d);
    lemma_complement_symmetry(a, b, c, d);
}

/// Edge `e` joins two corners of opposite flags (corners `a` top-left, `b`
/// top-right, `c` bottom-left, `d` bottom-right).
pub open spec fn edge_crosses(a: bool, b: bool, c: bool, d: bool, e: Edge) -> bool {
    match e {
        Edge::Top => a != b,
        Edge::Right => b != d,
        Edge::Bottom => c != d,
        Edge::Left => a != c,
    }
}

/// The number of edges of a cell that join corners of opposite flags.
pub open spec fn crossing_count(a: bool, b: bool, c: bool, d: bool) -> nat {
    (if a != b { 1nat } else { 0nat }) + (if b != d { 1nat } else { 0nat }) + (if c != d {
        1nat
    } else {
        0nat
    }) + (if a != c { 1nat } else { 0nat })
}

/// The endpoints' edges of a table row, in order: start and end of the
/// first segment, then of the second.
pub open spec fn row_edges(pairs: Seq<(Edge, Edge)>) -> Seq<Edge> {
    Seq::new(2 * pairs.len(), |i: int| if i % 2 == 0 { pairs[i / 2].0 } else { pairs[i / 2].1 })
}

/// Every segment of the table joins two edges that cross between an inside
/// and an outside corner, and every crossing edge of the cell is the end of
/// exactly one segment.
pub proof fn lemma_segments_join_crossing_edges(a: bool, b: bool, c: bool, d: bool)
    ensures
        forall|i: int|
            0 <= i < row_edges(case_edges(configuration(a, b, c, d))).len() ==> edge_crosses(
                a,
                b,
                c,
                d,
                #[trigger] row_edges(case_edges(configuration(a, b, c, d)))[i],
            ),
        forall|i: int, j: int|
            0 <= i < j < row_edges(case_edges(configuration(a, b, c, d))).len() ==> #[trigger] row_edges(
                case_edges(configuration(a, b, c, d)),
            )[i] != #[trigger] row_edges(case_edges(configuration(a, b, c, d)))[j],
        row_edges(case_edges(configuration(a, b, c, d))).len() == crossing_count(a, b, c, d),
{
    let e = row_edges(case_edges(configuration(a, b, c, d)));
    let p = case_edges(configuration(a, b, c, d));
    assert(e.len() == 0 || e[0] == p[0].0);
    assert(e.len() == 0 || e[1] == p[0].1);
    assert(e.len() <= 2 || e[2] == p[1].0);
    assert(e.len() <= 2 || e[3] == p[1].1);
}

} // verus!
