use vstd::prelude::*;

use crate::filter::lemma_cell_index;

verus! {

/// The largest magnitude a mesh coordinate may have, so that the cross
/// products of edge vectors between vertices fit in `i128`.
pub const COORD_LIMIT: i64 = 0x2000_0000_0000_0000;

/// A vertex position in integer units.
#[derive(Debug, Clone, Copy, PartialEq, Eq, Structural)]
pub struct Point3 {
    pub x: i64,
    pub y: i64,
    pub z: i64,
}

/// A texture coordinate: each component is 0 or 1.
#[derive(Debug, Clone, Copy, PartialEq, Eq, Structural)]
pub struct TexCoord {
    pub u: u8,
    pub v: u8,
}

/// Every coordinate of `p` is within `COORD_LIMIT`.
pub open spec fn within_limit(p: Point3) -> bool {
    &&& -COORD_LIMIT <= p.x <= COORD_LIMIT
    &&& -COORD_LIMIT <= p.y <= COORD_LIMIT
    &&& -COORD_LIMIT <= p.z <= COORD_LIMIT
}

/// The vertices of a row-major grid of `heights`, `width` per row: the vertex
/// at row `r`, column `c` sits at `(r * step, c * step, height * lift)`.
pub open spec fn grid_vertices(heights: Seq<u32>, width: int, step: int, lift: int) -> Seq<Point3> {
    Seq::new(
        heights.len(),
        |i: int|
            Point3 {
                x: ((i / width) * step) as i64,
                y: ((i % width) * step) as i64,
                z: (heights[i] * lift) as i64,
            },
    )
}

/// The checkerboard texture coordinates of a `width * height` grid: `u` is
/// the parity of the row, `v` the parity of the column.
pub open spec fn grid_texcoords(width: int, height: int) -> Seq<TexCoord> {
    Seq::new(
        (width * height) as nat,
        |i: int| TexCoord { u: ((i / width) % 2) as u8, v: ((i % width) % 2) as u8 },
    )
}

/// The number of quads between the grid points: `(width - 1) * (height - 1)`.
pub open spec fn cell_count(width: int, height: int) -> int {
    if width >= 1 && height >= 1 {
        (width - 1) * (height - 1)
    } else {
        0
    }
}

/// The flat index of the top-left corner of the `k`-th quad (quads come row by row).
pub open spec fn cell_start(width: int, k: int) -> int {
    (k / (width - 1)) * width + k % (width - 1)
}

/// The `t`-th index of the two triangles of the `k`-th quad, with
/// `s = cell_start(width, k)`: `{s, s + 1, s + width}`, then
/// `{s + 1, s + 1 + width, s + width}`.
pub open spec fn quad_corner(width: int, k: int, t: int) -> int {
    let s = cell_start(width, k);
    if t == 0 {
        s
    } else if t == 1 || t == 3 {
        s + 1
    } else if t == 4 {
        s + 1 + width
    } else {
        s + width
    }
}

/// The triangle indices of a `width * height` grid: six per quad.
pub open spec fn grid_indices(width: int, height: int) -> Seq<int> {
    Seq::new((6 * cell_count(width, height)) as nat, |j: int| quad_corner(width, j / 6, j % 6))
}

/// The vertex at `(row, col)` of a grid of `width` columns, as the builder places it.
fn grid_point(row: usize, col: usize, h: u32, step: u32, lift: u16) -> (p: Point3)
    requires
        row * step <= COORD_LIMIT,
        col * step <= COORD_LIMIT,
    ensures
        p == (Point3 { x: (row * step) as i64, y: (col * step) as i64, z: (h * lift) as i64 }),
        within_limit(p),
{
    assert(h * lift <= 0xffff_ffff * 0xffff) by (nonlinear_arith)
        requires
            h <= 0xffff_ffff,
            lift <= 0xffff,
    ;
    let x: i64 = (row as u64 * step as u64) as i64;
    let y: i64 = (col as u64 * step as u64) as i64;
    let z: i64 = h as i64 * lift as i64;
    Point3 { x, y, z }
}

/// The vertex positions of a row-major grid of `heights` with `width` values
/// per row and `height` rows; see `grid_vertices`.
pub fn initialize_vertices(heights: &Vec<u32>, width: usize, height: usize, step: u32, lift: u16) -> (r: Vec<Point3>)
    requires
        heights@.len() == width * height,
        height * step <= COORD_LIMIT,
        width * step <= COORD_LIMIT,
    ensures
        r@ == grid_vertices(heights@, width as int, step as int, lift as int),
        forall|i: int| 0 <= i < r@.len() ==> within_limit(#[trigger] r@[i]),
{
    // The buffer length fits in usize, and so does every flat index below it.
    let n: usize = heights.len();
    let mut r: Vec<Point3> = Vec::new();
    let ghost model = grid_vertices(heights@, width as int, step as int, lift as int);
    let mut row: usize = 0;
    while row < height
        invariant
            heights@.len() == width * height,
            n == heights@.len(),
            height * step <= COORD_LIMIT,
            width * step <= COORD_LIMIT,
            model == grid_vertices(heights@, width as int, step as int, lift as int),
            row <= height,
            r@.len() == row * width,
            forall|i: int| 0 <= i < r@.len() ==> #[trigger] r@[i] == model[i] && within_limit(r@[i]),
        decreases height - row,
    {
        let mut col: usize = 0;
        while col < width
            invariant
                heights@.len() == width * height,
                n == heights@.len(),
                height * step <= COORD_LIMIT,
                width * step <= COORD_LIMIT,
                model == grid_vertices(heights@, width as int, step as int, lift as int),
                row < height,
                col <= width,
                r@.len() == row * width + col,
                forall|i: int|
                    0 <= i < r@.len() ==> #[trigger] r@[i] == model[i] && within_limit(r@[i]),
            decreases width - col,
        {
            let ghost k = r@.len() as int;
            proof {
                lemma_cell_index(width as int, height as int, row as int, col as int);
                vstd::arithmetic::div_mod::lemma_fundamental_div_mod_converse(
                    k,
                    width as int,
                    row as int,
                    col as int,
                );
                assert(row * step <= height * step && col * step <= width * step) by (nonlinear_arith)
                    requires
                        row < height,
                        col < width,
                ;
            }
            let idx: usize = row * width + col;
            let p = grid_point(row, col, heights[idx], step, lift);
            r.push(p);
            col = col + 1;
        }
        assert(row * width + width == (row + 1) * width) by (nonlinear_arith);
        row = row + 1;
    }
    assert(height * width == width * height) by (nonlinear_arith);
    assert(r@ =~= model);
    r
}

/// The checkerboard texture coordinates of a `width * height` grid; see
/// `grid_texcoords`.
pub fn initialize_texcoords(width: usize, height: usize) -> (r: Vec<TexCoord>)
    requires
        width * height <= usize::MAX,
    ensures
        r@ == grid_texcoords(width as int, height as int),
{
    let mut r: Vec<TexCoord> = Vec::new();
    let ghost model = grid_texcoords(width as int, height as int);
    assert(width * height >= 0) by (nonlinear_arith);
    let mut row: usize = 0;
    while row < height
        invariant
            model == grid_texcoords(width as int, height as int),
            model.len() == width * height,
            row <= height,
            r@.len() == row * width,
            r@.len() <= model.len(),
            forall|i: int| 0 <= i < r@.len() ==> #[trigger] r@[i] == model[i],
        decreases height - row,
    {
        let mut col: usize = 0;
        while col < width
            invariant
                model == grid_texcoords(width as int, height as int),
                model.len() == width * height,
                row < height,
                col <= width,
                r@.len() == row * width + col,
                r@.len() <= model.len(),
                forall|i: int| 0 <= i < r@.len() ==> #[trigger] r@[i] == model[i],
            decreases width - col,
        {
            let ghost k = r@.len() as int;
            proof {
                lemma_cell_index(width as int, height as int, row as int, col as int);
                vstd::arithmetic::div_mod::lemma_fundamental_div_mod_converse(
                    k,
                    width as int,
                    row as int,
                    col as int,
                );
            }
            assert(row * width + col + 1 <= model.len());
            let u: u8 = (row % 2) as u8;
            let v: u8 = (col % 2) as u8;
            r.push(TexCoord { u, v });
            col = col + 1;
        }
        assert(row * width + width == (row + 1) * width) by (nonlinear_arith);
        row = row + 1;
    }
    assert(height * width == width * height) by (nonlinear_arith);
    assert(r@ =~= model);
    r
}

/// The six indices of the `k`-th quad sit at `6 * k` through `6 * k + 5`.
proof fn lemma_index_slot(width: int, k: int, row: int, col: int, t: int)
    requires
        width >= 2,
        0 <= col < width - 1,
        0 <= row,
        k == row * (width - 1) + col,
        0 <= t < 6,
    ensures
        (6 * k + t) / 6 == k,
        (6 * k + t) % 6 == t,
        cell_start(width, k) == row * width + col,
{
    vstd::arithmetic::div_mod::lemma_fundamental_div_mod_converse(6 * k + t, 6, k, t);
    vstd::arithmetic::div_mod::lemma_fundamental_div_mod_converse(k, width - 1, row, col);
}

/// Every corner of a quad of a `width * height` grid lies on the grid.
proof fn lemma_quad_in_grid(width: int, height: int, row: int, col: int)
    requires
        0 <= row < height - 1,
        0 <= col < width - 1,
    ensures
        0 <= row * width + col,
        row * width + col + 1 + width < width * height,
{
    assert(0 <= row * width + col && row * width + col + 1 + width < width * height)
        by (nonlinear_arith)
        requires
            0 <= row < height - 1,
            0 <= col < width - 1,
    ;
}

/// The triangle indices of a `width * height` grid: for each quad, row by
/// row, the triangles `{s, s + 1, s + width}` and `{s + 1, s + 1 + width,
/// s + width}`, where `s` is the quad's top-left corner; see `grid_indices`.
pub fn initialize_indices(width: usize, height: usize) -> (r: Vec<u32>)
    requires
        width * height <= u32::MAX + 1,
    ensures
        r@.len() == grid_indices(width as int, height as int).len(),
        forall|j: int|
            0 <= j < r@.len() ==> #[trigger] r@[j] as int == grid_indices(
                width as int,
                height as int,
            )[j],
        forall|j: int| 0 <= j < r@.len() ==> #[trigger] r@[j] < width * height,
{
    let mut r: Vec<u32> = Vec::new();
    let ghost model = grid_indices(width as int, height as int);
    if width < 2 || height < 2 {
        assert(cell_count(width as int, height as int) == 0) by (nonlinear_arith)
            requires
                width < 2 || height < 2,
        ;
        return r;
    }
    let cols: usize = width - 1;
    assert(0 * cols == 0);
    let mut row: usize = 0;
    while row + 1 < height
        invariant
            width >= 2,
            height >= 2,
            cols == width - 1,
            width * height <= u32::MAX + 1,
            model == grid_indices(width as int, height as int),
            row <= height - 1,
            r@.len() == 6 * (row * cols),
            r@.len() <= model.len(),
            model.len() == 6 * (cols * (height - 1)),
            forall|j: int|
                0 <= j < r@.len() ==> #[trigger] r@[j] as int == model[j] && r@[j] < width * height,
        decreases height - row,
    {
        let mut col: usize = 0;
        while col < cols
            invariant
                width >= 2,
                height >= 2,
                cols == width - 1,
                width * height <= u32::MAX + 1,
                model == grid_indices(width as int, height as int),
                row < height - 1,
                col <= cols,
                r@.len() == 6 * (row * cols + col),
                r@.len() <= model.len(),
                model.len() == 6 * (cols * (height - 1)),
                forall|j: int|
                    0 <= j < r@.len() ==> #[trigger] r@[j] as int == model[j] && r@[j] < width
                        * height,
            decreases cols - col,
        {
            let ghost k = row * cols + col;
            proof {
                lemma_quad_in_grid(width as int, height as int, row as int, col as int);
                assert(row * cols + col < cell_count(width as int, height as int)) by (nonlinear_arith)
                    requires
                        row < height - 1,
                        col < cols,
                        cols == width - 1,
                        cell_count(width as int, height as int) == (width - 1) * (height - 1),
                ;
                assert(row * cols + col < cols * (height - 1)) by (nonlinear_arith)
                    requires
                        row < height - 1,
                        col < cols,
                ;
            }
            let start: u32 = (row * width + col) as u32;
            let w: u32 = width as u32;
            let ghost before = r@;
            r.push(start);
            r.push(start + 1);
            r.push(start + w);
            r.push(start + 1);
            r.push(start + 1 + w);
            r.push(start + w);
            proof {
                assert forall|j: int| 0 <= j < r@.len() implies #[trigger] r@[j] as int == model[j]
                    && r@[j] < width * height by {
                    if j >= before.len() {
                        let t = j - 6 * k;
                        assert(0 <= t < 6);
                        lemma_index_slot(width as int, k, row as int, col as int, t);
                    } else {
                        assert(r@[j] == before[j]);
                    }
                }
            }
            col = col + 1;
        }
        assert(6 * (row * cols + cols) == 6 * ((row + 1) * cols)) by (nonlinear_arith);
        row = row + 1;
    }
    assert((height - 1) * cols == cols * (height - 1)) by (nonlinear_arith);
    r
}

} // verus!
