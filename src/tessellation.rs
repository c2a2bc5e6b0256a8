//! Index generation for two procedural meshes: a square grid of triangles,
//! and a sphere drawn as one triangle strip.
use vstd::prelude::*;

verus! {

/// Every value of `s` is below `bound`.
pub open spec fn all_below(s: Seq<u32>, bound: int) -> bool {
    forall|i: int| 0 <= i < s.len() ==> (#[trigger] s[i]) < bound
}

proof fn lemma_all_below_concat(a: Seq<u32>, b: Seq<u32>, bound: int)
    requires
        all_below(a, bound),
        all_below(b, bound),
    ensures
        all_below(a + b, bound),
{
    assert forall|i: int| 0 <= i < (a + b).len() implies #[trigger] (a + b)[i] < bound by {
        if i >= a.len() {
            assert((a + b)[i] == b[i - a.len()]);
        }
    }
}

/// The two triangles of the grid quad whose top-left vertex is at `row`,
/// `col`; vertex `(r, c)` of a `size` x `size` grid has number `c + r * size`.
pub open spec fn grid_quad(size: int, row: int, col: int) -> Seq<u32> {
    let top = col + row * size;
    let bottom = col + (row + 1) * size;
    seq![top as u32, (top + 1) as u32, (bottom + 1) as u32, top as u32, (bottom + 1) as u32, bottom as u32]
}

/// The quads of row `row`, the first `n` columns.
pub open spec fn grid_row(size: int, row: int, n: int) -> Seq<u32>
    decreases n,
{
    if n <= 0 {
        Seq::empty()
    } else {
        grid_row(size, row, n - 1) + grid_quad(size, row, n - 1)
    }
}

/// The quads of the first `n` rows.
pub open spec fn grid_rows(size: int, n: int) -> Seq<u32>
    decreases n,
{
    if n <= 0 {
        Seq::empty()
    } else {
        grid_rows(size, n - 1) + grid_row(size, n - 1, size - 1)
    }
}

/// The triangle indices of a `size` x `size` grid of vertices, numbered row
/// by row: two triangles for each of the `(size - 1)^2` quads.
pub fn grid_indices(size: u32) -> (r: Vec<u32>)
    requires
        1 <= size,
        size * size <= 0x1_0000_0000,
    ensures
        r@ == grid_rows(size as int, size - 1),
{
    let mut r: Vec<u32> = Vec::new();
    let mut row: u32 = 0;
    while row < size - 1
        invariant
            1 <= size,
            size * size <= 0x1_0000_0000,
            row <= size - 1,
            r@ == grid_rows(size as int, row as int),
        decreases size - 1 - row,
    {
        let mut col: u32 = 0;
        while col < size - 1
            invariant
                1 <= size,
                size * size <= 0x1_0000_0000,
                row < size - 1,
                col <= size - 1,
                r@ == grid_rows(size as int, row as int) + grid_row(size as int, row as int, col as int),
            decreases size - 1 - col,
        {
            assert((row + 1) * size <= (size - 1) * size) by (nonlinear_arith)
                requires
                    row + 1 <= size - 1,
            ;
            assert(col + (row + 1) * size + 1 <= size * size - 1) by (nonlinear_arith)
                requires
                    row + 1 <= size - 1,
                    col + 1 <= size - 1,
            ;
            assert(row * size <= (row + 1) * size) by (nonlinear_arith)
                requires
                    size >= 1,
            ;
            assert(0 <= row * size) by (nonlinear_arith)
                requires
                    size >= 1,
            ;
            let top = col + row * size;
            let bottom = col + (row + 1) * size;
            let ghost prev = r@;
            r.push(top);
            r.push(top + 1);
            r.push(bottom + 1);
            r.push(top);
            r.push(bottom + 1);
            r.push(bottom);
            assert(r@ =~= prev + grid_quad(size as int, row as int, col as int));
            assert(grid_rows(size as int, row as int) + grid_row(size as int, row as int, col + 1) =~= prev
                + grid_quad(size as int, row as int, col as int));
            col = col + 1;
        }
        row = row + 1;
    }
    r
}

proof fn lemma_grid_row_below(size: int, row: int, n: int)
    requires
        0 <= row < size - 1,
        n <= size - 1,
    ensures
        all_below(grid_row(size, row, n), size * size),
    decreases n,
{
    if n > 0 {
        lemma_grid_row_below(size, row, n - 1);
        let col = n - 1;
        assert(col + (row + 1) * size + 1 <= size * size - 1) by (nonlinear_arith)
            requires
                row + 1 <= size - 1,
                col + 1 <= size - 1,
                0 <= col,
        ;
        assert(0 <= col + row * size) by (nonlinear_arith)
            requires
                0 <= row,
                0 <= col,
                size >= 1,
        ;
        assert(col + row * size <= col + (row + 1) * size) by (nonlinear_arith)
            requires
                size >= 1,
        ;
        lemma_all_below_concat(grid_row(size, row, n - 1), grid_quad(size, row, col), size * size);
    }
}

proof fn lemma_grid_rows_below(size: int, n: int)
    requires
        n <= size - 1,
    ensures
        all_below(grid_rows(size, n), size * size),
    decreases n,
{
    if n > 0 {
        lemma_grid_rows_below(size, n - 1);
        lemma_grid_row_below(size, n - 1, size - 1);
        lemma_all_below_concat(grid_rows(size, n - 1), grid_row(size, n - 1, size - 1), size * size);
    }
}

/// Every index of a grid names one of its `size * size` vertices, so the
/// grid is a valid mesh.
pub proof fn lemma_grid_indices_in_range(size: int)
    requires
        1 <= size,
    ensures
        all_below(grid_rows(size, size - 1), size * size),
{
    lemma_grid_rows_below(size, size - 1);
}

/// Step `j` of strip row `y` of a sphere with `xs + 1` vertices per ring:
/// vertex `x` of ring `y` has number `y * (xs + 1) + x`. Rows alternate in
/// direction: row 0 runs from `x = xs` down to 0, putting the lower ring
/// first; row 1 runs up from 0, upper ring first; and so on.
pub open spec fn sphere_step(xs: int, y: int, j: int) -> Seq<u32> {
    let w = xs + 1;
    if y % 2 == 1 {
        seq![(y * w + j) as u32, ((y + 1) * w + j) as u32]
    } else {
        seq![((y + 1) * w + (xs - j)) as u32, (y * w + (xs - j)) as u32]
    }
}

/// The first `n` steps of strip row `y`.
pub open spec fn sphere_row(xs: int, y: int, n: int) -> Seq<u32>
    decreases n,
{
    if n <= 0 {
        Seq::empty()
    } else {
        sphere_row(xs, y, n - 1) + sphere_step(xs, y, n - 1)
    }
}

/// The first `n` strip rows.
pub open spec fn sphere_rows(xs: int, n: int) -> Seq<u32>
    decreases n,
{
    if n <= 0 {
        Seq::empty()
    } else {
        sphere_rows(xs, n - 1) + sphere_row(xs, n - 1, xs + 1)
    }
}

/// The triangle-strip indices of a UV sphere with `x_segments` segments
/// around and `y_segments` from pole to pole, whose
/// `(x_segments + 1) * (y_segments + 1)` vertices are numbered ring by ring.
pub fn sphere_indices(x_segments: u32, y_segments: u32) -> (r: Vec<u32>)
    requires
        x_segments < u32::MAX,
        (x_segments + 1) * (y_segments + 1) <= 0x1_0000_0000,
    ensures
        r@ == sphere_rows(x_segments as int, y_segments as int),
{
    assert(x_segments + 1 <= (x_segments + 1) * (y_segments + 1)) by (nonlinear_arith);
    let w: u32 = x_segments + 1;
    let mut r: Vec<u32> = Vec::new();
    let mut odd_row = false;
    let mut y: u32 = 0;
    while y < y_segments
        invariant
            w == x_segments + 1,
            (x_segments + 1) * (y_segments + 1) <= 0x1_0000_0000,
            y <= y_segments,
            odd_row == (y % 2 == 1),
            r@ == sphere_rows(x_segments as int, y as int),
        decreases y_segments - y,
    {
        assert((y + 1) * w + x_segments <= (x_segments + 1) * (y_segments + 1) - 1) by (nonlinear_arith)
            requires
                y + 1 <= y_segments,
                w == x_segments + 1,
        ;
        assert(y * w <= (y + 1) * w) by (nonlinear_arith)
            requires
                w >= 1,
        ;
        assert(0 <= y * w) by (nonlinear_arith)
            requires
                w >= 1,
        ;
        let mut j: u32 = 0;
        while j <= x_segments
            invariant
                w == x_segments + 1,
                (y + 1) * w + x_segments <= 0x1_0000_0000 - 1,
                0 <= y * w <= (y + 1) * w,
                y < y_segments,
                j <= x_segments + 1,
                odd_row == (y % 2 == 1),
                r@ == sphere_rows(x_segments as int, y as int) + sphere_row(x_segments as int, y as int, j as int),
            decreases x_segments + 1 - j,
        {
            let ghost prev = r@;
            if odd_row {
                r.push(y * w + j);
                r.push((y + 1) * w + j);
            } else {
                let x = x_segments - j;
                r.push((y + 1) * w + x);
                r.push(y * w + x);
            }
            assert(r@ =~= prev + sphere_step(x_segments as int, y as int, j as int));
            assert(sphere_rows(x_segments as int, y as int) + sphere_row(x_segments as int, y as int, j + 1) =~= prev
                + sphere_step(x_segments as int, y as int, j as int));
            j = j + 1;
        }
        odd_row = !odd_row;
        y = y + 1;
    }
    r
}

proof fn lemma_sphere_row_below(xs: int, y: int, n: int, ys: int)
    requires
        0 <= xs,
        0 <= y < ys,
        n <= xs + 1,
    ensures
        all_below(sphere_row(xs, y, n), (xs + 1) * (ys + 1)),
    decreases n,
{
    if n > 0 {
        lemma_sphere_row_below(xs, y, n - 1, ys);
        let j = n - 1;
        let w = xs + 1;
        assert((y + 1) * w <= ys * w) by (nonlinear_arith)
            requires
                y + 1 <= ys,
                w >= 1,
        ;
        assert(w * (ys + 1) == ys * w + w) by (nonlinear_arith);
        assert(0 <= y * w <= (y + 1) * w) by (nonlinear_arith)
            requires
                w >= 1,
                y >= 0,
        ;
        lemma_all_below_concat(sphere_row(xs, y, n - 1), sphere_step(xs, y, j), (xs + 1) * (ys + 1));
    }
}

proof fn lemma_sphere_rows_below(xs: int, n: int, ys: int)
    requires
        0 <= xs,
        n <= ys,
    ensures
        all_below(sphere_rows(xs, n), (xs + 1) * (ys + 1)),
    decreases n,
{
    if n > 0 {
        lemma_sphere_rows_below(xs, n - 1, ys);
        lemma_sphere_row_below(xs, n - 1, xs + 1, ys);
        lemma_all_below_concat(sphere_rows(xs, n - 1), sphere_row(xs, n - 1, xs + 1), (xs + 1) * (ys + 1));
    }
}

/// Every index of a sphere strip names one of its
/// `(x_segments + 1) * (y_segments + 1)` vertices.
pub proof fn lemma_sphere_indices_in_range(x_segments: int, y_segments: int)
    requires
        0 <= x_segments,
        0 <= y_segments,
    ensures
        all_below(sphere_rows(x_segments, y_segments), (x_segments + 1) * (y_segments + 1)),
{
    lemma_sphere_rows_below(x_segments, y_segments, y_segments);
}

} // verus!
