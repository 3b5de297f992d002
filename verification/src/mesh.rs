//! Sphere tessellation: the vertex grid and the triangle index list.
//!
//! The sphere is sampled on a grid of `stacks + 1` rows by `sectors + 1`
//! columns. Both loops are inclusive on purpose: the sector loop closes past
//! 360 degrees so that the seam vertex is duplicated, keeping the grid ready
//! for texture-coordinate continuity. Each vertex's position on the sphere
//! is a trigonometric function of its (stack, sector) pair and the radius;
//! that floating-point evaluation happens outside the library, from the grid
//! this module generates.
//!
//! Between two neighbouring rows, every sector cell spans a quad, split into
//! two counter-clockwise triangles. The triangle that would collapse at the
//! north pole (row 0) and the one that would collapse at the south pole
//! (last row) are skipped.

use vstd::prelude::*;

verus! {

/// Number of vertices the tessellation produces: one per grid point,
/// both loops inclusive.
pub open spec fn vertex_count(stacks: int, sectors: int) -> int {
    (stacks + 1) * (sectors + 1)
}

/// The triangles emitted for grid cell `(i, j)`, `0 <= i < stacks`,
/// `0 <= j < sectors`. `k1` is the cell's top-left vertex, `k2` the vertex
/// right below it on the next row. The upper triangle `(k1, k2, k1 + 1)`
/// degenerates at the north pole and is skipped for `i == 0`; the lower
/// triangle `(k1 + 1, k2, k2 + 1)` degenerates at the south pole and is
/// skipped for `i == stacks - 1`. Both run counter-clockwise seen from
/// outside the sphere.
pub open spec fn cell_triangles(stacks: int, sectors: int, i: int, j: int) -> Seq<(u32, u32, u32)> {
    let k1: int = i * (sectors + 1) + j;
    let k2: int = k1 + sectors + 1;
    let upper: Seq<(u32, u32, u32)> = if i != 0 {
        seq![(k1 as u32, k2 as u32, (k1 + 1) as u32)]
    } else {
        Seq::<(u32, u32, u32)>::empty()
    };
    let lower: Seq<(u32, u32, u32)> = if i != stacks - 1 {
        seq![((k1 + 1) as u32, k2 as u32, (k2 + 1) as u32)]
    } else {
        Seq::<(u32, u32, u32)>::empty()
    };
    upper + lower
}

/// The triangles of row `i`, for the first `j` sector cells, in emission
/// order.
pub open spec fn row_triangles(stacks: int, sectors: int, i: int, j: int) -> Seq<(u32, u32, u32)>
    decreases j,
{
    if j <= 0 {
        Seq::<(u32, u32, u32)>::empty()
    } else {
        row_triangles(stacks, sectors, i, j - 1) + cell_triangles(stacks, sectors, i, j - 1)
    }
}

/// The triangles of the first `i` rows, each row complete, in emission
/// order.
pub open spec fn rows_triangles(stacks: int, sectors: int, i: int) -> Seq<(u32, u32, u32)>
    decreases i,
{
    if i <= 0 {
        Seq::<(u32, u32, u32)>::empty()
    } else {
        rows_triangles(stacks, sectors, i - 1) + row_triangles(stacks, sectors, i - 1, sectors)
    }
}

/// All triangles of the tessellation, in emission order.
pub open spec fn sphere_triangles(stacks: int, sectors: int) -> Seq<(u32, u32, u32)> {
    rows_triangles(stacks, sectors, stacks)
}

/// A triangle list flattened into a plain index list, three indices per
/// triangle, in order.
pub open spec fn flatten_triangles(ts: Seq<(u32, u32, u32)>) -> Seq<u32>
    decreases ts.len(),
{
    if ts.len() == 0 {
        Seq::<u32>::empty()
    } else {
        flatten_triangles(ts.drop_last()) + seq![ts.last().0, ts.last().1, ts.last().2]
    }
}

/// The full index list of the tessellation: what the index buffer holds.
pub open spec fn sphere_index_list(stacks: int, sectors: int) -> Seq<u32> {
    flatten_triangles(sphere_triangles(stacks, sectors))
}

/// Flattening distributes over concatenation of triangle lists.
proof fn lemma_flatten_append(a: Seq<(u32, u32, u32)>, b: Seq<(u32, u32, u32)>)
    ensures
        flatten_triangles(a + b) == flatten_triangles(a) + flatten_triangles(b),
    decreases b.len(),
{
    if b.len() == 0 {
        assert(a + b =~= a);
        assert(flatten_triangles(a) + flatten_triangles(b) =~= flatten_triangles(a));
    } else {
        lemma_flatten_append(a, b.drop_last());
        assert((a + b).drop_last() =~= a + b.drop_last());
        assert((a + b).last() == b.last());
        assert(flatten_triangles(a + b) =~= flatten_triangles(a) + flatten_triangles(b));
    }
}

/// The flattened index contribution of cell `(i, j)`, written out plainly:
/// up to six indices, upper triangle first.
pub open spec fn cell_flat(stacks: int, sectors: int, i: int, j: int) -> Seq<u32> {
    let k1: int = i * (sectors + 1) + j;
    let k2: int = k1 + sectors + 1;
    if i != 0 && i != stacks - 1 {
        seq![
            k1 as u32, k2 as u32, (k1 + 1) as u32,
            (k1 + 1) as u32, k2 as u32, (k2 + 1) as u32,
        ]
    } else if i != 0 {
        seq![k1 as u32, k2 as u32, (k1 + 1) as u32]
    } else if i != stacks - 1 {
        seq![(k1 + 1) as u32, k2 as u32, (k2 + 1) as u32]
    } else {
        Seq::<u32>::empty()
    }
}

/// Flattening a cell's triangles yields exactly its plain index
/// contribution.
proof fn lemma_flatten_cell(stacks: int, sectors: int, i: int, j: int)
    ensures
        flatten_triangles(cell_triangles(stacks, sectors, i, j))
            == cell_flat(stacks, sectors, i, j),
{
    let k1: int = i * (sectors + 1) + j;
    let k2: int = k1 + sectors + 1;
    let cell = cell_triangles(stacks, sectors, i, j);
    let t1 = (k1 as u32, k2 as u32, (k1 + 1) as u32);
    let t2 = ((k1 + 1) as u32, k2 as u32, (k2 + 1) as u32);
    let empty = Seq::<(u32, u32, u32)>::empty();
    assert(flatten_triangles(empty) == Seq::<u32>::empty());
    if i != 0 && i != stacks - 1 {
        assert(cell =~= seq![t1, t2]);
        assert(cell.drop_last() =~= seq![t1]);
        assert(cell.last() == t2);
        assert(seq![t1].drop_last() =~= empty);
        assert(seq![t1].last() == t1);
        assert(flatten_triangles(seq![t1])
            == flatten_triangles(empty) + seq![t1.0, t1.1, t1.2]);
        assert(flatten_triangles(cell)
            == flatten_triangles(seq![t1]) + seq![t2.0, t2.1, t2.2]);
        assert(flatten_triangles(cell) =~= cell_flat(stacks, sectors, i, j));
    } else if i != 0 {
        assert(cell =~= seq![t1]);
        assert(cell.drop_last() =~= empty);
        assert(cell.last() == t1);
        assert(flatten_triangles(cell)
            == flatten_triangles(empty) + seq![t1.0, t1.1, t1.2]);
        assert(flatten_triangles(cell) =~= cell_flat(stacks, sectors, i, j));
    } else if i != stacks - 1 {
        assert(cell =~= seq![t2]);
        assert(cell.drop_last() =~= empty);
        assert(cell.last() == t2);
        assert(flatten_triangles(cell)
            == flatten_triangles(empty) + seq![t2.0, t2.1, t2.2]);
        assert(flatten_triangles(cell) =~= cell_flat(stacks, sectors, i, j));
    } else {
        assert(cell =~= empty);
        assert(flatten_triangles(cell) =~= cell_flat(stacks, sectors, i, j));
    }
}

/// Every index named by cell `(i, j)` lies strictly inside the vertex list;
/// the largest one the cell can name, `k2 + 1`, is already below
/// `vertex_count`.
proof fn lemma_cell_bounds(stacks: int, sectors: int, i: int, j: int)
    requires
        0 <= i < stacks,
        0 <= j < sectors,
    ensures
        0 <= i * (sectors + 1) + j,
        i * (sectors + 1) + j + (sectors + 1) + 1 < vertex_count(stacks, sectors),
{
    assert(0 <= i * (sectors + 1) + j) by (nonlinear_arith)
        requires 0 <= i && 0 <= j && 0 <= sectors;
    assert(i * (sectors + 1) + j + (sectors + 1) + 1 < (stacks + 1) * (sectors + 1))
        by (nonlinear_arith)
        requires 0 <= i && i < stacks && 0 <= j && j < sectors;
}

/// A flattened triangle list holds three entries per triangle.
proof fn lemma_flatten_len(ts: Seq<(u32, u32, u32)>)
    ensures
        flatten_triangles(ts).len() == 3 * ts.len(),
    decreases ts.len(),
{
    if ts.len() > 0 {
        lemma_flatten_len(ts.drop_last());
    }
}

/// The triangle component a flat position holds: position `k` reads
/// component `k % 3` of triangle `k / 3`.
pub open spec fn flat_component(ts: Seq<(u32, u32, u32)>, k: int) -> u32 {
    if k % 3 == 0 {
        ts[k / 3].0
    } else if k % 3 == 1 {
        ts[k / 3].1
    } else {
        ts[k / 3].2
    }
}

/// Every flat position reads the matching component of its triangle.
proof fn lemma_flatten_index(ts: Seq<(u32, u32, u32)>)
    ensures
        flatten_triangles(ts).len() == 3 * ts.len(),
        forall|k: int| 0 <= k < 3 * ts.len()
            ==> #[trigger] flatten_triangles(ts)[k] == flat_component(ts, k),
    decreases ts.len(),
{
    lemma_flatten_len(ts);
    if ts.len() > 0 {
        lemma_flatten_index(ts.drop_last());
        let pre = ts.drop_last();
        let flat = flatten_triangles(ts);
        let n: int = ts.len() - 1;
        assert forall|k: int| 0 <= k < 3 * ts.len()
            implies flat[k] == flat_component(ts, k) by {
            if k < 3 * n {
                assert(flat[k] == flatten_triangles(pre)[k]);
                assert(0 <= k / 3 < n);
                assert(pre[k / 3] == ts[k / 3]);
            } else {
                assert(k / 3 == n && (k == 3 * n || k == 3 * n + 1 || k == 3 * n + 2));
                assert(ts.last() == ts[n]);
            }
        }
    }
}

/// A triangle fits a tessellation when each index names a generated vertex
/// and the three are pairwise distinct.
pub open spec fn triangle_ok(stacks: int, sectors: int, t: (u32, u32, u32)) -> bool {
    &&& (t.0 as int) < vertex_count(stacks, sectors)
    &&& (t.1 as int) < vertex_count(stacks, sectors)
    &&& (t.2 as int) < vertex_count(stacks, sectors)
    &&& t.0 != t.1
    &&& t.0 != t.2
    &&& t.1 != t.2
}

/// Both triangles a cell can emit fit the tessellation, as long as the
/// vertex indices fit in 32 bits.
proof fn lemma_cell_triangles_ok(stacks: int, sectors: int, i: int, j: int)
    requires
        0 <= i < stacks,
        0 <= j < sectors,
        vertex_count(stacks, sectors) <= u32::MAX as int + 1,
    ensures
        forall|n: int| 0 <= n < cell_triangles(stacks, sectors, i, j).len()
            ==> triangle_ok(stacks, sectors, #[trigger] cell_triangles(stacks, sectors, i, j)[n]),
{
    lemma_cell_bounds(stacks, sectors, i, j);
    let k1: int = i * (sectors + 1) + j;
    let k2: int = k1 + sectors + 1;
    assert(k1 as u32 as int == k1);
    assert((k1 + 1) as u32 as int == k1 + 1);
    assert(k2 as u32 as int == k2);
    assert((k2 + 1) as u32 as int == k2 + 1);
}

/// All triangles of a row prefix fit the tessellation.
proof fn lemma_row_triangles_ok(stacks: int, sectors: int, i: int, j: int)
    requires
        0 <= i < stacks,
        0 <= j <= sectors,
        vertex_count(stacks, sectors) <= u32::MAX as int + 1,
    ensures
        forall|n: int| 0 <= n < row_triangles(stacks, sectors, i, j).len()
            ==> triangle_ok(stacks, sectors, #[trigger] row_triangles(stacks, sectors, i, j)[n]),
    decreases j,
{
    if j > 0 {
        lemma_row_triangles_ok(stacks, sectors, i, j - 1);
        lemma_cell_triangles_ok(stacks, sectors, i, j - 1);
        let prev = row_triangles(stacks, sectors, i, j - 1);
        let cell = cell_triangles(stacks, sectors, i, j - 1);
        assert forall|n: int| 0 <= n < row_triangles(stacks, sectors, i, j).len()
            implies triangle_ok(stacks, sectors, row_triangles(stacks, sectors, i, j)[n]) by {
            if n < prev.len() {
                assert(row_triangles(stacks, sectors, i, j)[n] == prev[n]);
            } else {
                assert(row_triangles(stacks, sectors, i, j)[n] == cell[n - prev.len()]);
            }
        }
    }
}

/// All triangles of the first `i` complete rows fit the tessellation.
proof fn lemma_rows_triangles_ok(stacks: int, sectors: int, i: int)
    requires
        0 <= i <= stacks,
        vertex_count(stacks, sectors) <= u32::MAX as int + 1,
    ensures
        forall|n: int| 0 <= n < rows_triangles(stacks, sectors, i).len()
            ==> triangle_ok(stacks, sectors, #[trigger] rows_triangles(stacks, sectors, i)[n]),
    decreases i,
{
    if i > 0 {
        lemma_rows_triangles_ok(stacks, sectors, i - 1);
        if sectors > 0 {
            lemma_row_triangles_ok(stacks, sectors, i - 1, sectors);
        }
        let prev = rows_triangles(stacks, sectors, i - 1);
        let row = row_triangles(stacks, sectors, i - 1, sectors);
        assert forall|n: int| 0 <= n < rows_triangles(stacks, sectors, i).len()
            implies triangle_ok(stacks, sectors, rows_triangles(stacks, sectors, i)[n]) by {
            if n < prev.len() {
                assert(rows_triangles(stacks, sectors, i)[n] == prev[n]);
            } else {
                assert(rows_triangles(stacks, sectors, i)[n] == row[n - prev.len()]);
            }
        }
    }
}

/// Law: the emitted index list is a whole number of triangles; every index
/// names a generated vertex; and the three indices of every triangle are
/// pairwise distinct.
pub proof fn lemma_sphere_indices_valid(stacks: int, sectors: int)
    requires
        0 <= stacks,
        0 <= sectors,
        vertex_count(stacks, sectors) <= u32::MAX as int + 1,
    ensures
        sphere_index_list(stacks, sectors).len()
            == 3 * sphere_triangles(stacks, sectors).len(),
        forall|k: int| 0 <= k < sphere_index_list(stacks, sectors).len()
            ==> (#[trigger] sphere_index_list(stacks, sectors)[k] as int)
                < vertex_count(stacks, sectors),
        forall|k: int| 0 <= k && k % 3 == 0 && k + 2 < sphere_index_list(stacks, sectors).len()
            ==> #[trigger] sphere_index_list(stacks, sectors)[k]
                    != sphere_index_list(stacks, sectors)[k + 1]
                && sphere_index_list(stacks, sectors)[k]
                    != sphere_index_list(stacks, sectors)[k + 2]
                && sphere_index_list(stacks, sectors)[k + 1]
                    != sphere_index_list(stacks, sectors)[k + 2],
{
    let ts = sphere_triangles(stacks, sectors);
    let flat = sphere_index_list(stacks, sectors);
    lemma_rows_triangles_ok(stacks, sectors, stacks);
    lemma_flatten_index(ts);
    assert forall|k: int| 0 <= k && k % 3 == 0 && k + 2 < flat.len()
        implies #[trigger] flat[k] != flat[k + 1] && flat[k] != flat[k + 2]
            && flat[k + 1] != flat[k + 2] by {
        assert(k / 3 == (k + 1) / 3 && k / 3 == (k + 2) / 3);
        assert((k + 1) % 3 == 1 && (k + 2) % 3 == 2);
        assert(triangle_ok(stacks, sectors, ts[k / 3]));
    }
}

/// Number of triangles one cell of row `i` emits: two in the middle, one on
/// a pole row, none when the single row touches both poles.
pub open spec fn cell_triangle_count(stacks: int, i: int) -> int {
    (if i != 0 { 1int } else { 0int }) + (if i != stacks - 1 { 1int } else { 0int })
}

/// Running total of triangles over the first `i` complete rows, per sector
/// cell.
pub open spec fn triangle_count_rows(stacks: int, i: int) -> int
    decreases i,
{
    if i <= 0 {
        0
    } else {
        triangle_count_rows(stacks, i - 1) + cell_triangle_count(stacks, i - 1)
    }
}

/// A row prefix holds one cell's worth of triangles per cell.
proof fn lemma_row_triangles_len(stacks: int, sectors: int, i: int, j: int)
    requires
        0 <= j,
    ensures
        row_triangles(stacks, sectors, i, j).len() == j * cell_triangle_count(stacks, i),
    decreases j,
{
    let c = cell_triangle_count(stacks, i);
    if j > 0 {
        lemma_row_triangles_len(stacks, sectors, i, j - 1);
        assert(cell_triangles(stacks, sectors, i, j - 1).len() == c);
        assert(row_triangles(stacks, sectors, i, j).len() == (j - 1) * c + c);
        assert((j - 1) * c + c == j * c) by (nonlinear_arith);
    } else {
        assert(row_triangles(stacks, sectors, i, j).len() == 0);
        assert(0 * c == 0) by (nonlinear_arith);
    }
}

/// The first `i` complete rows hold `sectors` cells' worth of triangles per
/// row.
proof fn lemma_rows_triangles_len(stacks: int, sectors: int, i: int)
    requires
        0 <= i,
        0 <= sectors,
    ensures
        rows_triangles(stacks, sectors, i).len() == sectors * triangle_count_rows(stacks, i),
    decreases i,
{
    if i > 0 {
        lemma_rows_triangles_len(stacks, sectors, i - 1);
        lemma_row_triangles_len(stacks, sectors, i - 1, sectors);
        let a = triangle_count_rows(stacks, i - 1);
        let c = cell_triangle_count(stacks, i - 1);
        assert(sectors * a + sectors * c == sectors * (a + c)) by (nonlinear_arith);
    }
}

/// Closed form of the per-cell triangle total: the first row emits nothing
/// yet, middle prefixes lag one cell behind two per row, and the full
/// tessellation drops one more for the south pole.
proof fn lemma_triangle_count_closed(stacks: int, i: int)
    requires
        1 <= stacks,
        0 <= i <= stacks,
    ensures
        triangle_count_rows(stacks, i) == if i == 0 {
            0int
        } else if i < stacks {
            2 * i - 1
        } else {
            2 * i - 2
        },
    decreases i,
{
    if i > 0 {
        lemma_triangle_count_closed(stacks, i - 1);
    }
}

/// Law: for `stacks >= 1`, the tessellation emits `6 * sectors * (stacks - 1)`
/// indices: the two pole rows contribute one triangle per cell, every middle
/// row two.
pub proof fn lemma_sphere_index_count(stacks: int, sectors: int)
    requires
        1 <= stacks,
        0 <= sectors,
    ensures
        sphere_index_list(stacks, sectors).len() == 6 * sectors * (stacks - 1),
{
    lemma_rows_triangles_len(stacks, sectors, stacks);
    lemma_triangle_count_closed(stacks, stacks);
    lemma_flatten_len(sphere_triangles(stacks, sectors));
    assert(3 * (sectors * (2 * stacks - 2)) == 6 * sectors * (stacks - 1))
        by (nonlinear_arith);
}

/// Generate the triangle index list for a sphere of `stacks` rows and
/// `sectors` columns, in emission order: rows from the north pole down,
/// cells west to east, the upper triangle of a cell before its lower one.
pub fn sphere_indices(stacks: u32, sectors: u32) -> (r: Vec<u32>)
    requires
        vertex_count(stacks as int, sectors as int) <= u32::MAX as int + 1,
    ensures
        r@ == sphere_index_list(stacks as int, sectors as int),
{
    let mut indices: Vec<u32> = Vec::new();
    let sec1: u64 = sectors as u64 + 1;
    let mut i: u32 = 0;
    while i < stacks
        invariant
            i <= stacks,
            sec1 == sectors as int + 1,
            vertex_count(stacks as int, sectors as int) <= u32::MAX as int + 1,
            indices@ == flatten_triangles(rows_triangles(stacks as int, sectors as int, i as int)),
        decreases stacks - i,
    {
        let mut j: u32 = 0;
        while j < sectors
            invariant
                i < stacks,
                j <= sectors,
                sec1 == sectors as int + 1,
                vertex_count(stacks as int, sectors as int) <= u32::MAX as int + 1,
                indices@ == flatten_triangles(
                    rows_triangles(stacks as int, sectors as int, i as int)
                        + row_triangles(stacks as int, sectors as int, i as int, j as int),
                ),
            decreases sectors - j,
        {
            proof {
                lemma_cell_bounds(stacks as int, sectors as int, i as int, j as int);
            }
            let k1: u64 = i as u64 * sec1 + j as u64;
            let k2: u64 = k1 + sec1;
            let ghost rows: Seq<(u32, u32, u32)> =
                rows_triangles(stacks as int, sectors as int, i as int);
            let ghost row: Seq<(u32, u32, u32)> =
                row_triangles(stacks as int, sectors as int, i as int, j as int);
            let ghost cell: Seq<(u32, u32, u32)> =
                cell_triangles(stacks as int, sectors as int, i as int, j as int);
            if i != 0 {
                indices.push(k1 as u32);
                indices.push(k2 as u32);
                indices.push((k1 + 1) as u32);
            }
            if i != stacks - 1 {
                indices.push((k1 + 1) as u32);
                indices.push(k2 as u32);
                indices.push((k2 + 1) as u32);
            }
            proof {
                lemma_flatten_append(rows + row, cell);
                lemma_flatten_cell(stacks as int, sectors as int, i as int, j as int);
                assert((rows + row) + cell =~= rows + (row + cell));
                assert(row + cell == row_triangles(
                    stacks as int, sectors as int, i as int, j as int + 1));
                assert(indices@ =~= flatten_triangles(rows + row) + flatten_triangles(cell));
            }
            j = j + 1;
        }
        proof {
            assert(rows_triangles(stacks as int, sectors as int, i as int + 1)
                == rows_triangles(stacks as int, sectors as int, i as int)
                    + row_triangles(stacks as int, sectors as int, i as int, sectors as int));
            lemma_flatten_append(
                rows_triangles(stacks as int, sectors as int, i as int),
                row_triangles(stacks as int, sectors as int, i as int, sectors as int),
            );
        }
        i = i + 1;
    }
    indices
}

/// One vertex's grid parameters: its stack row and sector column. The
/// vertex's position on the sphere is a trigonometric function of these and
/// the radius, evaluated outside the library; its color starts at black and
/// is rewritten from the current audio frame every tick.
#[derive(Clone, Copy, PartialEq, Eq, Structural, Debug)]
pub struct GridPoint {
    /// Row of the vertex, from the north pole (row 0) down to `stacks`.
    pub stack: u32,
    /// Column of the vertex, from 0 up to and including `sectors`: the last
    /// column closes past 360 degrees and duplicates the seam.
    pub sector: u32,
}

/// Generate the vertex grid in generation order: row by row from the north
/// pole down, each row west to east, seam duplicate included. The order is
/// significant: the triangle index list refers to it. Vertex `k` sits on
/// row `k / (sectors + 1)`, column `k % (sectors + 1)`.
pub fn sphere_grid(stacks: u32, sectors: u32) -> (r: Vec<GridPoint>)
    requires
        vertex_count(stacks as int, sectors as int) <= u32::MAX as int + 1,
    ensures
        r@.len() == vertex_count(stacks as int, sectors as int),
        forall|k: int| 0 <= k < r@.len() ==> #[trigger] r@[k] == (GridPoint {
            stack: (k / (sectors as int + 1)) as u32,
            sector: (k % (sectors as int + 1)) as u32,
        }),
{
    let mut pts: Vec<GridPoint> = Vec::new();
    let st: u64 = stacks as u64;
    let se1: u64 = sectors as u64 + 1;
    let mut i: u64 = 0;
    while i <= st
        invariant
            st == stacks as int,
            se1 == sectors as int + 1,
            i <= st + 1,
            pts@.len() == i * se1,
            forall|k: int| 0 <= k < pts@.len() ==> #[trigger] pts@[k] == (GridPoint {
                stack: (k / (sectors as int + 1)) as u32,
                sector: (k % (sectors as int + 1)) as u32,
            }),
        decreases st + 1 - i,
    {
        let mut j: u64 = 0;
        while j < se1
            invariant
                st == stacks as int,
                se1 == sectors as int + 1,
                i <= st,
                j <= se1,
                pts@.len() == i * se1 + j,
                forall|k: int| 0 <= k < pts@.len() ==> #[trigger] pts@[k] == (GridPoint {
                    stack: (k / (sectors as int + 1)) as u32,
                    sector: (k % (sectors as int + 1)) as u32,
                }),
            decreases se1 - j,
        {
            pts.push(GridPoint { stack: i as u32, sector: j as u32 });
            proof {
                let k: int = i as int * se1 as int + j as int;
                vstd::arithmetic::div_mod::lemma_fundamental_div_mod_converse(
                    k, se1 as int, i as int, j as int);
                assert(k / (sectors as int + 1) == i as int);
                assert(k % (sectors as int + 1) == j as int);
            }
            j = j + 1;
        }
        proof {
            assert(i * se1 + se1 == (i + 1) * se1) by (nonlinear_arith);
        }
        i = i + 1;
    }
    proof {
        assert((st as int + 1) * (se1 as int)
            == vertex_count(stacks as int, sectors as int));
    }
    pts
}

/// Generate the whole tessellation: the vertex grid and the triangle index
/// list together. Every index refers to a generated vertex — the index
/// buffer can never read past the vertex buffer.
pub fn generate(stacks: u32, sectors: u32) -> (r: (Vec<GridPoint>, Vec<u32>))
    requires
        vertex_count(stacks as int, sectors as int) <= u32::MAX as int + 1,
    ensures
        r.0@.len() == vertex_count(stacks as int, sectors as int),
        forall|k: int| 0 <= k < r.0@.len() ==> #[trigger] r.0@[k] == (GridPoint {
            stack: (k / (sectors as int + 1)) as u32,
            sector: (k % (sectors as int + 1)) as u32,
        }),
        r.1@ == sphere_index_list(stacks as int, sectors as int),
        forall|k: int| 0 <= k < r.1@.len() ==> (#[trigger] r.1@[k] as int) < r.0@.len(),
{
    let grid = sphere_grid(stacks, sectors);
    let indices = sphere_indices(stacks, sectors);
    proof {
        lemma_sphere_indices_valid(stacks as int, sectors as int);
    }
    (grid, indices)
}

} // verus!
