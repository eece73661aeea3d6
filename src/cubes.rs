//! Marching cubes over a grid of corner signs.
//!
//! The grid is `width * height * depth` flags, x fastest, then y, then z; a
//! flag is `true` where the sampled value is negative. Each cell is
//! classified by its eight corner flags and yields the triangles of its
//! table row, each vertex at the midpoint of its edge.
//!
//! Vertices are given in half-cell positions, as in `squares`;
//! `coordinate::half_coordinate` maps each to the domain coordinate the
//! sampler used on that axis.
use vstd::prelude::*;
use crate::cube_table::{corner_offset, edge_corners, triangle_row, triangle_table};
use crate::squares::GridError;

verus! {

/// A point in half-cell units.
#[derive(Clone, Copy, Debug, PartialEq, Eq, Structural)]
pub struct Vertex {
    pub hx: usize,
    pub hy: usize,
    pub hz: usize,
}

/// A surface triangle.
#[derive(Clone, Copy, Debug, PartialEq, Eq, Structural)]
pub struct Triangle {
    pub a: Vertex,
    pub b: Vertex,
    pub c: Vertex,
}

/// The flag of corner `v` of the cell at `(x, y, z)`.
pub open spec fn cell_corner(g: Seq<bool>, w: nat, h: nat, x: nat, y: nat, z: nat, v: int) -> bool {
    let o = corner_offset(v);
    g[((x + o.0) + (y + o.1) * w + (z + o.2) * w * h) as int]
}

pub open spec fn bit(b: bool, p: nat) -> nat {
    if b {
        p
    } else {
        0
    }
}

/// The configuration of the cell at `(x, y, z)`: bit `v` is the flag of
/// corner `v`.
pub open spec fn cube_configuration(g: Seq<bool>, w: nat, h: nat, x: nat, y: nat, z: nat) -> u8 {
    (bit(cell_corner(g, w, h, x, y, z, 0), 1) + bit(cell_corner(g, w, h, x, y, z, 1), 2) + bit(
        cell_corner(g, w, h, x, y, z, 2),
        4,
    ) + bit(cell_corner(g, w, h, x, y, z, 3), 8) + bit(cell_corner(g, w, h, x, y, z, 4), 16)
        + bit(cell_corner(g, w, h, x, y, z, 5), 32) + bit(cell_corner(g, w, h, x, y, z, 6), 64)
        + bit(cell_corner(g, w, h, x, y, z, 7), 128)) as u8
}

/// The midpoint of edge `e` of the cell at `(x, y, z)`, in half-cell units.
pub open spec fn edge_midpoint(x: nat, y: nat, z: nat, e: int) -> Vertex {
    let oa = corner_offset(edge_corners(e).0);
    let ob = corner_offset(edge_corners(e).1);
    Vertex {
        hx: (2 * x + oa.0 + ob.0) as usize,
        hy: (2 * y + oa.1 + ob.1) as usize,
        hz: (2 * z + oa.2 + ob.2) as usize,
    }
}

/// The triangles of the cell at `(x, y, z)`, one per triple of its row.
pub open spec fn cell_triangles(g: Seq<bool>, w: nat, h: nat, x: nat, y: nat, z: nat) -> Seq<
    Triangle,
> {
    let row = triangle_row(cube_configuration(g, w, h, x, y, z));
    Seq::new(
        row.len() / 3,
        |t: int|
            Triangle {
                a: edge_midpoint(x, y, z, row[3 * t] as int),
                b: edge_midpoint(x, y, z, row[3 * t + 1] as int),
                c: edge_midpoint(x, y, z, row[3 * t + 2] as int),
            },
    )
}

/// The triangles of the first `n` cells of row `y` of slab `z`.
pub open spec fn line_triangles(g: Seq<bool>, w: nat, h: nat, y: nat, z: nat, n: nat) -> Seq<
    Triangle,
>
    decreases n,
{
    if n == 0 {
        seq![]
    } else {
        line_triangles(g, w, h, y, z, (n - 1) as nat) + cell_triangles(
            g,
            w,
            h,
            (n - 1) as nat,
            y,
            z,
        )
    }
}

/// The triangles of the first `m` rows of cells of slab `z`.
pub open spec fn slab_triangles(g: Seq<bool>, w: nat, h: nat, z: nat, m: nat) -> Seq<Triangle>
    decreases m,
{
    if m == 0 {
        seq![]
    } else {
        slab_triangles(g, w, h, z, (m - 1) as nat) + line_triangles(
            g,
            w,
            h,
            (m - 1) as nat,
            z,
            (w - 1) as nat,
        )
    }
}

/// The triangles of the first `k` slabs of cells.
pub open spec fn volume_triangles(g: Seq<bool>, w: nat, h: nat, k: nat) -> Seq<Triangle>
    decreases k,
{
    if k == 0 {
        seq![]
    } else {
        volume_triangles(g, w, h, (k - 1) as nat) + slab_triangles(
            g,
            w,
            h,
            (k - 1) as nat,
            (h - 1) as nat,
        )
    }
}

/// The isosurface of a `w` by `h` by `d` grid: every cell's triangles in
/// scan order.
pub open spec fn isosurface(g: Seq<bool>, w: nat, h: nat, d: nat) -> Seq<Triangle> {
    volume_triangles(g, w, h, (d - 1) as nat)
}

fn corner_offset_exec(v: u8) -> (r: (usize, usize, usize))
    ensures
        r.0 == corner_offset(v as int).0,
        r.1 == corner_offset(v as int).1,
        r.2 == corner_offset(v as int).2,
{
    match v {
        0 => (0, 0, 0),
        1 => (1, 0, 0),
        2 => (1, 1, 0),
        3 => (0, 1, 0),
        4 => (0, 0, 1),
        5 => (1, 0, 1),
        6 => (1, 1, 1),
        _ => (0, 1, 1),
    }
}

fn edge_corners_exec(e: u8) -> (r: (u8, u8))
    ensures
        r.0 == edge_corners(e as int).0,
        r.1 == edge_corners(e as int).1,
{
    if e < 4 {
        (e, (e + 1) % 4)
    } else if e < 8 {
        (e, 4 + (e - 3) % 4)
    } else {
        (e - 8, e - 4)
    }
}

fn edge_vertex(x: usize, y: usize, z: usize, e: u8) -> (r: Vertex)
    requires
        2 * x + 2 <= usize::MAX,
        2 * y + 2 <= usize::MAX,
        2 * z + 2 <= usize::MAX,
    ensures
        r == edge_midpoint(x as nat, y as nat, z as nat, e as int),
{
    let (va, vb) = edge_corners_exec(e);
    let oa = corner_offset_exec(va);
    let ob = corner_offset_exec(vb);
    Vertex { hx: 2 * x + oa.0 + ob.0, hy: 2 * y + oa.1 + ob.1, hz: 2 * z + oa.2 + ob.2 }
}

fn flag_bit(b: bool, p: u8) -> (r: u8)
    ensures
        r == bit(b, p as nat),
{
    if b {
        p
    } else {
        0
    }
}

fn cell_configuration(
    g: &Vec<bool>,
    w: usize,
    h: usize,
    d: usize,
    x: usize,
    y: usize,
    z: usize,
) -> (r: u8)
    requires
        g@.len() == w * h * d,
        x + 1 < w,
        y + 1 < h,
        z + 1 < d,
    ensures
        r == cube_configuration(g@, w as nat, h as nat, x as nat, y as nat, z as nat),
{
    let n = g.len();
    proof {
        assert(w * h <= w * h * d) by (nonlinear_arith)
            requires
                z + 1 < d,
        ;
        assert(x + 1 + (y + 1) * w + (z + 1) * w * h < w * h * d) by (nonlinear_arith)
            requires
                x + 1 < w,
                y + 1 < h,
                z + 1 < d,
        ;
        assert((y + 1) * w == y * w + w) by (nonlinear_arith);
        assert((z + 1) * w * h == z * w * h + w * h) by (nonlinear_arith);
        assert(0 <= y * w && 0 <= z * w * h && 0 <= w * h) by (nonlinear_arith);
        assert(z * (w * h) == z * w * h) by (nonlinear_arith);
    }
    let wh = w * h;
    let base = x + y * w + z * wh;
    let c0 = g[base];
    let c1 = g[base + 1];
    let c2 = g[base + w + 1];
    let c3 = g[base + w];
    let c4 = g[base + wh];
    let c5 = g[base + wh + 1];
    let c6 = g[base + wh + w + 1];
    let c7 = g[base + wh + w];
    flag_bit(c0, 1) + flag_bit(c1, 2) + flag_bit(c2, 4) + flag_bit(c3, 8) + flag_bit(c4, 16)
        + flag_bit(c5, 32) + flag_bit(c6, 64) + flag_bit(c7, 128)
}

/// Extracts the isosurface of a `width` by `height` by `depth` grid of
/// corner flags (`true` where the sampled value is negative).
///
/// Fails with `DimensionTooSmall` when a dimension is below two, and
/// otherwise with `LengthMismatch` when the grid does not hold exactly
/// `width * height * depth` flags. On success the triangles are those of
/// every cell in scan order (x fastest, then y, then z).
pub fn marching_cubes(width: usize, height: usize, depth: usize, value_grid: Vec<bool>) -> (r:
    Result<Vec<Triangle>, GridError>)
    ensures
        (width < 2 || height < 2 || depth < 2) <==> r == Err::<Vec<Triangle>, GridError>(
            GridError::DimensionTooSmall,
        ),
        (width >= 2 && height >= 2 && depth >= 2 && value_grid@.len() != width * height * depth)
            <==> r == Err::<Vec<Triangle>, GridError>(GridError::LengthMismatch),
        r is Ok ==> r->Ok_0@ == isosurface(
            value_grid@,
            width as nat,
            height as nat,
            depth as nat,
        ),
{
    if width < 2 || height < 2 || depth < 2 {
        return Err(GridError::DimensionTooSmall);
    }
    let n = value_grid.len();
    let size = match width.checked_mul(height) {
        Some(wh) => wh.checked_mul(depth),
        None => None,
    };
    match size {
        Some(s) => {
            if s != n {
                return Err(GridError::LengthMismatch);
            }
        },
        None => {
            proof {
                if width * height <= usize::MAX {
                    assert(width * height * depth > usize::MAX);
                } else {
                    assert(width * height <= width * height * depth) by (nonlinear_arith)
                        requires
                            depth >= 2,
                    ;
                }
            }
            return Err(GridError::LengthMismatch);
        },
    }
    let ghost g = value_grid@;
    let ghost w = width as nat;
    let ghost h = height as nat;
    proof {
        assert(2 * width <= width * height * depth && 2 * height <= width * height * depth && 2
            * depth <= width * height * depth) by (nonlinear_arith)
            requires
                width >= 2,
                height >= 2,
                depth >= 2,
        ;
    }
    let mut tris: Vec<Triangle> = Vec::new();
    let mut z: usize = 0;
    while z < depth - 1
        invariant
            g == value_grid@,
            w == width,
            h == height,
            width >= 2,
            height >= 2,
            depth >= 2,
            g.len() == width * height * depth,
            width * height * depth <= usize::MAX,
            2 * width <= width * height * depth,
            2 * height <= width * height * depth,
            2 * depth <= width * height * depth,
            0 <= z <= depth - 1,
            tris@ == volume_triangles(g, w, h, z as nat),
        decreases depth - 1 - z,
    {
        let mut y: usize = 0;
        while y < height - 1
            invariant
                g == value_grid@,
                w == width,
                h == height,
                width >= 2,
                height >= 2,
                depth >= 2,
                g.len() == width * height * depth,
                width * height * depth <= usize::MAX,
                2 * width <= width * height * depth,
                2 * height <= width * height * depth,
                2 * depth <= width * height * depth,
                0 <= z < depth - 1,
                0 <= y <= height - 1,
                tris@ == volume_triangles(g, w, h, z as nat) + slab_triangles(
                    g,
                    w,
                    h,
                    z as nat,
                    y as nat,
                ),
            decreases height - 1 - y,
        {
            let mut x: usize = 0;
            while x < width - 1
                invariant
                    g == value_grid@,
                    w == width,
                    h == height,
                    width >= 2,
                    height >= 2,
                    depth >= 2,
                    g.len() == width * height * depth,
                    width * height * depth <= usize::MAX,
                    2 * width <= width * height * depth,
                    2 * height <= width * height * depth,
                    2 * depth <= width * height * depth,
                    0 <= z < depth - 1,
                    0 <= y < height - 1,
                    0 <= x <= width - 1,
                    tris@ == volume_triangles(g, w, h, z as nat) + slab_triangles(
                        g,
                        w,
                        h,
                        z as nat,
                        y as nat,
                    ) + line_triangles(g, w, h, y as nat, z as nat, x as nat),
                decreases width - 1 - x,
            {
                let config = cell_configuration(&value_grid, width, height, depth, x, y, z);
                let row = triangle_table(config);
                let ghost before = tris@;
                let ghost cell = cell_triangles(g, w, h, x as nat, y as nat, z as nat);
                let count = row.len() / 3;
                let mut t: usize = 0;
                while t < count
                    invariant
                        0 <= t <= count,
                        count == row@.len() / 3,
                        row@ == triangle_row(config),
                        config == cube_configuration(g, w, h, x as nat, y as nat, z as nat),
                        cell == cell_triangles(g, w, h, x as nat, y as nat, z as nat),
                        cell.len() == count,
                        2 * x + 2 <= usize::MAX,
                        2 * y + 2 <= usize::MAX,
                        2 * z + 2 <= usize::MAX,
                        tris@ == before + cell.take(t as int),
                    decreases count - t,
                {
                    let tri = Triangle {
                        a: edge_vertex(x, y, z, row[3 * t]),
                        b: edge_vertex(x, y, z, row[3 * t + 1]),
                        c: edge_vertex(x, y, z, row[3 * t + 2]),
                    };
                    assert(tri == cell[t as int]);
                    tris.push(tri);
                    proof {
                        assert(cell.take(t + 1) == cell.take(t as int).push(cell[t as int]));
                    }
                    t = t + 1;
                }
                proof {
                    assert(cell.take(t as int) == cell);
                }
                x = x + 1;
            }
            y = y + 1;
        }
        z = z + 1;
    }
    Ok(tris)
}

proof fn lemma_single_cell(g: Seq<bool>)
    requires
        g.len() == 8,
    ensures
        isosurface(g, 2, 2, 2) == cell_triangles(g, 2, 2, 0, 0, 0),
{
    assert(line_triangles(g, 2, 2, 0, 0, 0) =~= seq![]);
    assert(slab_triangles(g, 2, 2, 0, 0) =~= seq![]);
    assert(volume_triangles(g, 2, 2, 0) =~= seq![]);
    assert(line_triangles(g, 2, 2, 0, 0, 1) =~= cell_triangles(g, 2, 2, 0, 0, 0));
    assert(slab_triangles(g, 2, 2, 0, 1) =~= line_triangles(g, 2, 2, 0, 0, 1));
    assert(volume_triangles(g, 2, 2, 1) =~= slab_triangles(g, 2, 2, 0, 1));
}

/// A single cube whose eight corners share one sign gives no triangle; one
/// whose only inside corner is `v` gives exactly one triangle, the table's
/// entry for that cell.
pub proof fn lemma_single_cube(g: Seq<bool>, v: int)
    requires
        g.len() == 8,
    ensures
        (forall|i: int| 0 <= i < 8 ==> #[trigger] g[i] == g[0]) ==> isosurface(g, 2, 2, 2).len() == 0,
        0 <= v < 8 && g[v] && (forall|i: int| 0 <= i < 8 && i != v ==> !#[trigger] g[i]) ==> isosurface(
            g,
            2,
            2,
            2,
        ).len() == 1 && isosurface(g, 2, 2, 2) == cell_triangles(g, 2, 2, 0, 0, 0),
{
    lemma_single_cell(g);
    if forall|i: int| 0 <= i < 8 ==> #[trigger] g[i] == g[0] {
        assert(g[1] == g[0] && g[2] == g[0] && g[3] == g[0] && g[4] == g[0] && g[5] == g[0]
            && g[6] == g[0] && g[7] == g[0]);
    }
    if 0 <= v < 8 && g[v] && (forall|i: int| 0 <= i < 8 && i != v ==> !#[trigger] g[i]) {
        assert(v == 0 || !g[0]);
        assert(v == 1 || !g[1]);
        assert(v == 2 || !g[2]);
        assert(v == 3 || !g[3]);
        assert(v == 4 || !g[4]);
        assert(v == 5 || !g[5]);
        assert(v == 6 || !g[6]);
        assert(v == 7 || !g[7]);
    }
}

/// Every flag of the grid equals the first.
pub open spec fn uniform(g: Seq<bool>) -> bool {
    forall|i: int| 0 <= i < g.len() ==> #[trigger] g[i] == g[0]
}

proof fn lemma_index_bound(a: nat, b: nat, c: nat, w: nat, h: nat, d: nat)
    requires
        a < w,
        b < h,
        c < d,
    ensures
        a + b * w + c * w * h < w * h * d,
{
    assert(a + b * w < w * h) by (nonlinear_arith)
        requires
            a < w,
            b < h,
    ;
    assert(c * w * h + w * h <= w * h * d) by (nonlinear_arith)
        requires
            c < d,
    ;
}

proof fn lemma_uniform_cell(g: Seq<bool>, w: nat, h: nat, d: nat, x: nat, y: nat, z: nat)
    requires
        g.len() == w * h * d,
        uniform(g),
        x + 1 < w,
        y + 1 < h,
        z + 1 < d,
    ensures
        cell_triangles(g, w, h, x, y, z).len() == 0,
{
    assert forall|v: int| 0 <= v < 8 implies cell_corner(g, w, h, x, y, z, v) == g[0] by {
        let o = corner_offset(v);
        lemma_index_bound(x + o.0, y + o.1, z + o.2, w, h, d);
    }
    assert(cell_corner(g, w, h, x, y, z, 0) == g[0]);
    assert(cell_corner(g, w, h, x, y, z, 1) == g[0]);
    assert(cell_corner(g, w, h, x, y, z, 2) == g[0]);
    assert(cell_corner(g, w, h, x, y, z, 3) == g[0]);
    assert(cell_corner(g, w, h, x, y, z, 4) == g[0]);
    assert(cell_corner(g, w, h, x, y, z, 5) == g[0]);
    assert(cell_corner(g, w, h, x, y, z, 6) == g[0]);
    assert(cell_corner(g, w, h, x, y, z, 7) == g[0]);
    let c = cube_configuration(g, w, h, x, y, z);
    assert(c == 0 || c == 255);
    assert(triangle_row(c).len() == 0);
}

proof fn lemma_uniform_line(g: Seq<bool>, w: nat, h: nat, d: nat, y: nat, z: nat, n: nat)
    requires
        g.len() == w * h * d,
        uniform(g),
        n + 1 <= w,
        y + 1 < h,
        z + 1 < d,
    ensures
        line_triangles(g, w, h, y, z, n).len() == 0,
    decreases n,
{
    if n > 0 {
        lemma_uniform_line(g, w, h, d, y, z, (n - 1) as nat);
        lemma_uniform_cell(g, w, h, d, (n - 1) as nat, y, z);
    }
}

proof fn lemma_uniform_slab(g: Seq<bool>, w: nat, h: nat, d: nat, z: nat, m: nat)
    requires
        g.len() == w * h * d,
        uniform(g),
        w >= 2,
        m + 1 <= h,
        z + 1 < d,
    ensures
        slab_triangles(g, w, h, z, m).len() == 0,
    decreases m,
{
    if m > 0 {
        lemma_uniform_slab(g, w, h, d, z, (m - 1) as nat);
        lemma_uniform_line(g, w, h, d, (m - 1) as nat, z, (w - 1) as nat);
    }
}

proof fn lemma_uniform_volume(g: Seq<bool>, w: nat, h: nat, d: nat, k: nat)
    requires
        g.len() == w * h * d,
        uniform(g),
        w >= 2,
        h >= 2,
        k + 1 <= d,
    ensures
        volume_triangles(g, w, h, k).len() == 0,
    decreases k,
{
    if k > 0 {
        lemma_uniform_volume(g, w, h, d, (k - 1) as nat);
        lemma_uniform_slab(g, w, h, d, (k - 1) as nat, (h - 1) as nat);
    }
}

/// A grid whose flags are all equal, of any size, gives no triangle.
pub proof fn lemma_uniform_surface(g: Seq<bool>, w: nat, h: nat, d: nat)
    requires
        w >= 2,
        h >= 2,
        d >= 2,
        g.len() == w * h * d,
        uniform(g),
    ensures
        isosurface(g, w, h, d).len() == 0,
{
    lemma_uniform_volume(g, w, h, d, (d - 1) as nat);
}

} // verus!
