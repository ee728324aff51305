use vstd::prelude::*;

use crate::filter::{
    box_filter_heightmap, fixed_heights, is_filtered_value, lemma_window_bounds, window_count,
    window_sum, FIXED_ONE,
};
use crate::grid::HeightGrid;
use crate::mesh::{
    cell_count, grid_indices, grid_texcoords, grid_vertices, initialize_indices,
    initialize_texcoords, initialize_vertices, within_limit, Point3, TexCoord, COORD_LIMIT,
};
use crate::normals::{grid_normal_terms, initialize_normals, normal_terms_at, Vector3};

verus! {

/// The mesh data of a terrain, index-aligned per vertex, with the triangle
/// indices into the vertex array.
#[derive(Debug)]
pub struct TerrainMesh {
    pub vertices: Vec<Point3>,
    pub normal_terms: Vec<Vec<Vector3>>,
    pub texcoords: Vec<TexCoord>,
    pub indices: Vec<u32>,
}

/// The vertex of row `r`, column `c` of a grid built by `grid_vertices`
/// sits at `(r * step, c * step)`.
proof fn lemma_vertex_plane(
    heights: Seq<u32>,
    width: int,
    height: int,
    step: int,
    lift: int,
    j: int,
    r: int,
    c: int,
)
    requires
        heights.len() == width * height,
        0 <= r < height,
        0 <= c < width,
        j == r * width + c,
        step >= 0,
        height * step <= COORD_LIMIT,
        width * step <= COORD_LIMIT,
    ensures
        0 <= j < heights.len(),
        grid_vertices(heights, width, step, lift)[j].x == r * step,
        grid_vertices(heights, width, step, lift)[j].y == c * step,
{
    crate::filter::lemma_cell_index(width, height, r, c);
    vstd::arithmetic::div_mod::lemma_fundamental_div_mod_converse(j, width, r, c);
    assert(0 <= r * step <= height * step && 0 <= c * step <= width * step) by (nonlinear_arith)
        requires
            0 <= r < height,
            0 <= c < width,
            step >= 0,
    ;
}

/// A grid of at least 2x2 vertices yields `width * height` vertices, normal
/// term lists and texture coordinates, index-aligned, and
/// `6 * (width - 1) * (height - 1)` triangle indices.
pub proof fn lemma_mesh_shape(heights: Seq<u32>, width: int, height: int, step: int, lift: int)
    requires
        width >= 2,
        height >= 2,
        heights.len() == width * height,
    ensures
        grid_vertices(heights, width, step, lift).len() == width * height,
        grid_normal_terms(grid_vertices(heights, width, step, lift), width, height).len() == width
            * height,
        grid_texcoords(width, height).len() == width * height,
        grid_indices(width, height).len() == 6 * (width - 1) * (height - 1),
{
    assert(width * height >= 0) by (nonlinear_arith)
        requires
            width >= 2,
            height >= 2,
    ;
    assert(6 * cell_count(width, height) == 6 * (width - 1) * (height - 1)) by (nonlinear_arith)
        requires
            cell_count(width, height) == (width - 1) * (height - 1),
    ;
}

/// On a grid of at least 2x2 vertices spaced `step >= 1` apart, every vertex
/// has at least one normal term, and every term has z component
/// `-(step * step)`. The terms of a vertex thus never cancel out, so its
/// normalised normal is always defined and faces the same side of the grid.
pub proof fn lemma_normal_terms_nondegenerate(
    heights: Seq<u32>,
    width: int,
    height: int,
    step: int,
    lift: int,
    i: int,
)
    requires
        width >= 2,
        height >= 2,
        heights.len() == width * height,
        step >= 1,
        height * step <= COORD_LIMIT,
        width * step <= COORD_LIMIT,
        0 <= i < width * height,
    ensures
        normal_terms_at(grid_vertices(heights, width, step, lift), width, height, i).len() >= 1,
        forall|k: int|
            0 <= k < normal_terms_at(grid_vertices(heights, width, step, lift), width, height, i).len()
                ==> (#[trigger] normal_terms_at(
                grid_vertices(heights, width, step, lift),
                width,
                height,
                i,
            )[k]).z == -(step * step),
{
    let v = grid_vertices(heights, width, step, lift);
    let row = i / width;
    let col = i % width;
    vstd::arithmetic::div_mod::lemma_fundamental_div_mod(i, width);
    vstd::arithmetic::div_mod::lemma_mod_pos_bound(i, width);
    assert(0 <= row < height) by (nonlinear_arith)
        requires
            i == width * row + col,
            0 <= i < width * height,
            0 <= col < width,
    ;
    assert(row * width == width * row) by (nonlinear_arith);
    lemma_vertex_plane(heights, width, height, step, lift, i, row, col);
    assert(0 < step * step) by (nonlinear_arith)
        requires
            step >= 1,
    ;
    assert(step * step <= COORD_LIMIT * COORD_LIMIT) by (nonlinear_arith)
        requires
            1 <= step,
            width >= 2,
            width * step <= COORD_LIMIT,
    ;
    if col + 1 < width {
        lemma_vertex_plane(heights, width, height, step, lift, i + 1, row, col + 1);
        assert((col + 1) * step == col * step + step) by (nonlinear_arith);
    }
    if col >= 1 {
        lemma_vertex_plane(heights, width, height, step, lift, i - 1, row, col - 1);
        assert((col - 1) * step == col * step - step) by (nonlinear_arith);
    }
    if row + 1 < height {
        assert((row + 1) * width + col == i + width) by (nonlinear_arith)
            requires
                row * width == width * row,
                i == width * row + col,
        ;
        lemma_vertex_plane(heights, width, height, step, lift, i + width, row + 1, col);
        assert((row + 1) * step == row * step + step) by (nonlinear_arith);
    }
    if row >= 1 {
        assert((row - 1) * width + col == i - width) by (nonlinear_arith)
            requires
                row * width == width * row,
                i == width * row + col,
        ;
        lemma_vertex_plane(heights, width, height, step, lift, i - width, row - 1, col);
        assert((row - 1) * step == row * step - step) by (nonlinear_arith);
    }
    assert((-step) * (-step) == step * step) by (nonlinear_arith);
    assert(step * (-step) == -(step * step)) by (nonlinear_arith);
    assert((-step) * step == -(step * step)) by (nonlinear_arith);
}

/// Builds the terrain mesh of a height grid: the grid is box-filtered with
/// edge smoothing, each vertex sits at its grid point with the filtered mean
/// as its height, and positions are in units of `1 / FIXED_ONE` of a grid
/// step, which keeps every mean exact.
pub fn build_terrain(grid: &HeightGrid) -> (m: TerrainMesh)
    requires
        grid.wf(),
        grid.width * FIXED_ONE <= COORD_LIMIT,
        grid.height * FIXED_ONE <= COORD_LIMIT,
        grid.width * grid.height <= u32::MAX + 1,
    ensures
        m.vertices@.len() == grid.width * grid.height,
        forall|i: int|
            0 <= i < m.vertices@.len() ==> {
                &&& (#[trigger] m.vertices@[i]).x == (i / grid.width as int) * FIXED_ONE
                &&& m.vertices@[i].y == (i % grid.width as int) * FIXED_ONE
                &&& m.vertices@[i].z * window_count(grid, i / grid.width as int, i % grid.width as int)
                    == window_sum(grid, i / grid.width as int, i % grid.width as int) * FIXED_ONE
            },
        m.normal_terms@.len() == m.vertices@.len(),
        forall|i: int|
            0 <= i < m.normal_terms@.len() ==> (#[trigger] m.normal_terms@[i])@ == grid_normal_terms(
                m.vertices@,
                grid.width as int,
                grid.height as int,
            )[i],
        m.texcoords@ == grid_texcoords(grid.width as int, grid.height as int),
        m.indices@.len() == grid_indices(grid.width as int, grid.height as int).len(),
        forall|j: int|
            0 <= j < m.indices@.len() ==> #[trigger] m.indices@[j] as int == grid_indices(
                grid.width as int,
                grid.height as int,
            )[j],
{
    // The buffer length fits in usize, and so does every flat index below it.
    let cells: usize = grid.samples.len();
    assert(cells == grid.width * grid.height);
    let filtered = box_filter_heightmap(grid, true);
    assert(grid.height * grid.width == grid.width * grid.height) by (nonlinear_arith);
    assert forall|i: int| 0 <= i < filtered@.len() implies 1 <= (#[trigger] filtered@[i]).count <= 9
        && filtered@[i].sum <= 255 * filtered@[i].count by {
        assert(is_filtered_value(grid, true, i, filtered@[i]));
        lemma_window_bounds(grid, i / grid.width as int, i % grid.width as int);
    }
    let heights = fixed_heights(&filtered);
    let vertices = initialize_vertices(&heights, grid.width, grid.height, FIXED_ONE, 1);
    assert forall|i: int| 0 <= i < vertices@.len() implies {
        &&& (#[trigger] vertices@[i]).x == (i / grid.width as int) * FIXED_ONE
        &&& vertices@[i].y == (i % grid.width as int) * FIXED_ONE
        &&& vertices@[i].z * window_count(grid, i / grid.width as int, i % grid.width as int)
            == window_sum(grid, i / grid.width as int, i % grid.width as int) * FIXED_ONE
    } by {
        assert(is_filtered_value(grid, true, i, filtered@[i]));
        assert(heights@[i] * filtered@[i].count == filtered@[i].sum * FIXED_ONE);
        assert(within_limit(vertices@[i]));
    }
    let normal_terms = initialize_normals(&vertices, grid.width, grid.height);
    let texcoords = initialize_texcoords(grid.width, grid.height);
    let indices = initialize_indices(grid.width, grid.height);
    TerrainMesh { vertices, normal_terms, texcoords, indices }
}

} // verus!
