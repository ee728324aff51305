use vstd::prelude::*;

use crate::grid::HeightGrid;

verus! {

/// The common denominator of every window mean: a multiple of each possible
/// window size, 1 through 9, so that a mean is a whole number of these units.
pub const FIXED_ONE: u32 = 2520;

/// The mean of one filter window, kept exact as `sum / count`.
#[derive(Debug, Clone, Copy, PartialEq, Eq, Structural)]
pub struct Smoothed {
    pub sum: u32,
    pub count: u32,
}

/// The sample at `(row, col)` if it lies on the grid, else 0.
pub open spec fn term(g: &HeightGrid, row: int, col: int) -> int {
    if g.on_grid(row, col) {
        g.sample(row, col)
    } else {
        0
    }
}

/// 1 if `(row, col)` lies on the grid, else 0.
pub open spec fn presence(g: &HeightGrid, row: int, col: int) -> int {
    if g.on_grid(row, col) {
        1
    } else {
        0
    }
}

/// The on-grid samples among `(row, col - 1)`, `(row, col)`, `(row, col + 1)`, summed.
pub open spec fn row_sum(g: &HeightGrid, row: int, col: int) -> int {
    term(g, row, col - 1) + term(g, row, col) + term(g, row, col + 1)
}

/// How many of `(row, col - 1)`, `(row, col)`, `(row, col + 1)` lie on the grid.
pub open spec fn row_count(g: &HeightGrid, row: int, col: int) -> int {
    presence(g, row, col - 1) + presence(g, row, col) + presence(g, row, col + 1)
}

/// The sum of the on-grid samples of the 3x3 window centred at `(row, col)`;
/// off-grid neighbours are skipped, never clamped or wrapped.
pub open spec fn window_sum(g: &HeightGrid, row: int, col: int) -> int {
    row_sum(g, row - 1, col) + row_sum(g, row, col) + row_sum(g, row + 1, col)
}

/// The number of on-grid cells of the 3x3 window centred at `(row, col)`.
pub open spec fn window_count(g: &HeightGrid, row: int, col: int) -> int {
    row_count(g, row - 1, col) + row_count(g, row, col) + row_count(g, row + 1, col)
}

/// The first row and column that the filter visits.
pub open spec fn margin(smoothen_edges: bool) -> int {
    if smoothen_edges {
        0
    } else {
        1
    }
}

/// How many columns the filter visits: all of them, or all but the first and last.
pub open spec fn filtered_cols(g: &HeightGrid, smoothen_edges: bool) -> int {
    if smoothen_edges {
        g.width as int
    } else if g.width >= 2 {
        g.width - 2
    } else {
        0
    }
}

/// How many rows the filter visits: all of them, or all but the first and last.
pub open spec fn filtered_rows(g: &HeightGrid, smoothen_edges: bool) -> int {
    if smoothen_edges {
        g.height as int
    } else if g.height >= 2 {
        g.height - 2
    } else {
        0
    }
}

/// The number of values the filter produces.
pub open spec fn filtered_len(g: &HeightGrid, smoothen_edges: bool) -> int {
    filtered_rows(g, smoothen_edges) * filtered_cols(g, smoothen_edges)
}

/// The grid row of the `i`-th filtered value (values come row by row).
pub open spec fn source_row(g: &HeightGrid, smoothen_edges: bool, i: int) -> int {
    i / filtered_cols(g, smoothen_edges) + margin(smoothen_edges)
}

/// The grid column of the `i`-th filtered value.
pub open spec fn source_col(g: &HeightGrid, smoothen_edges: bool, i: int) -> int {
    i % filtered_cols(g, smoothen_edges) + margin(smoothen_edges)
}

/// `s` is the `i`-th value of the filter: the window mean at the cell it was taken from.
pub open spec fn is_filtered_value(g: &HeightGrid, smoothen_edges: bool, i: int, s: Smoothed) -> bool {
    let row = source_row(g, smoothen_edges, i);
    let col = source_col(g, smoothen_edges, i);
    &&& g.on_grid(row, col)
    &&& s.sum == window_sum(g, row, col)
    &&& s.count == window_count(g, row, col)
}

/// A cell's flat index lies inside a `width * height` buffer.
pub proof fn lemma_cell_index(width: int, height: int, row: int, col: int)
    requires
        0 <= row < height,
        0 <= col < width,
    ensures
        0 <= row * width + col < width * height,
        0 <= row * width,
{
    assert(0 <= row * width + col < width * height) by (nonlinear_arith)
        requires
            0 <= row < height,
            0 <= col < width,
    ;
}

/// A window holds its centre and at most nine cells, each sample at most 255.
pub proof fn lemma_window_bounds(g: &HeightGrid, row: int, col: int)
    requires
        g.wf(),
        g.on_grid(row, col),
    ensures
        1 <= window_count(g, row, col) <= 9,
        0 <= window_sum(g, row, col) <= 255 * window_count(g, row, col),
{
}

/// Every filtered value is taken from a cell on the grid.
pub proof fn lemma_source_on_grid(g: &HeightGrid, smoothen_edges: bool, i: int)
    requires
        g.wf(),
        0 <= i < filtered_len(g, smoothen_edges),
    ensures
        g.on_grid(source_row(g, smoothen_edges, i), source_col(g, smoothen_edges, i)),
{
    let rows = filtered_rows(g, smoothen_edges);
    let cols = filtered_cols(g, smoothen_edges);
    assert(cols > 0) by (nonlinear_arith)
        requires
            0 <= i < rows * cols,
            rows >= 0,
            cols >= 0,
    ;
    vstd::arithmetic::div_mod::lemma_multiply_divide_lt(i, cols, rows);
    vstd::arithmetic::div_mod::lemma_div_pos_is_pos(i, cols);
    vstd::arithmetic::div_mod::lemma_mod_pos_bound(i, cols);
}

/// On a grid whose samples all equal `c`, an on-grid sample is `c` and an
/// off-grid one counts as nothing.
proof fn lemma_constant_term(g: &HeightGrid, c: u8, row: int, col: int)
    requires
        g.wf(),
        forall|i: int| 0 <= i < g.samples@.len() ==> g.samples@[i] == c,
    ensures
        term(g, row, col) == c * presence(g, row, col),
{
    if g.on_grid(row, col) {
        lemma_cell_index(g.width as int, g.height as int, row, col);
    }
}

/// Box-filtering a constant field leaves it unchanged: on a grid whose
/// samples all equal `c`, every filtered value is a mean of `c`, whichever
/// edge policy is used.
pub proof fn lemma_constant_field_unchanged(g: &HeightGrid, smoothen_edges: bool, c: u8)
    requires
        g.wf(),
        forall|i: int| 0 <= i < g.samples@.len() ==> g.samples@[i] == c,
    ensures
        forall|i: int|
            #![trigger source_row(g, smoothen_edges, i)]
            0 <= i < filtered_len(g, smoothen_edges) ==> window_count(
                g,
                source_row(g, smoothen_edges, i),
                source_col(g, smoothen_edges, i),
            ) >= 1 && window_sum(g, source_row(g, smoothen_edges, i), source_col(g, smoothen_edges, i))
                == c * window_count(
                g,
                source_row(g, smoothen_edges, i),
                source_col(g, smoothen_edges, i),
            ),
{
    assert forall|i: int| 0 <= i < filtered_len(g, smoothen_edges) implies #[trigger] window_count(
        g,
        source_row(g, smoothen_edges, i),
        source_col(g, smoothen_edges, i),
    ) >= 1 && window_sum(g, source_row(g, smoothen_edges, i), source_col(g, smoothen_edges, i))
        == c * window_count(
        g,
        source_row(g, smoothen_edges, i),
        source_col(g, smoothen_edges, i),
    ) by {
        let row = source_row(g, smoothen_edges, i);
        let col = source_col(g, smoothen_edges, i);
        lemma_source_on_grid(g, smoothen_edges, i);
        lemma_window_bounds(g, row, col);
        lemma_window_of_constant(g, c, row, col);
    }
}

/// The window sum of a constant field is the constant times the window size.
proof fn lemma_window_of_constant(g: &HeightGrid, c: u8, row: int, col: int)
    requires
        g.wf(),
        forall|i: int| 0 <= i < g.samples@.len() ==> g.samples@[i] == c,
    ensures
        window_sum(g, row, col) == c * window_count(g, row, col),
{
    lemma_constant_term(g, c, row - 1, col - 1);
    lemma_constant_term(g, c, row - 1, col);
    lemma_constant_term(g, c, row - 1, col + 1);
    lemma_constant_term(g, c, row, col - 1);
    lemma_constant_term(g, c, row, col);
    lemma_constant_term(g, c, row, col + 1);
    lemma_constant_term(g, c, row + 1, col - 1);
    lemma_constant_term(g, c, row + 1, col);
    lemma_constant_term(g, c, row + 1, col + 1);
    let q1 = presence(g, row - 1, col - 1);
    let q2 = presence(g, row - 1, col);
    let q3 = presence(g, row - 1, col + 1);
    let q4 = presence(g, row, col - 1);
    let q5 = presence(g, row, col);
    let q6 = presence(g, row, col + 1);
    let q7 = presence(g, row + 1, col - 1);
    let q8 = presence(g, row + 1, col);
    let q9 = presence(g, row + 1, col + 1);
    let k = c as int;
    assert(k * q1 + k * q2 + k * q3 + k * q4 + k * q5 + k * q6 + k * q7 + k * q8 + k * q9 == k * (
    q1 + q2 + q3 + q4 + q5 + q6 + q7 + q8 + q9)) by (nonlinear_arith);
}

/// Without edge smoothing a 3x3 grid yields exactly one value, taken at its
/// centre `(1, 1)` over the whole unmodified 3x3 neighbourhood.
pub proof fn lemma_three_by_three_interior(g: &HeightGrid)
    requires
        g.wf(),
        g.width == 3,
        g.height == 3,
    ensures
        filtered_len(g, false) == 1,
        source_row(g, false, 0) == 1,
        source_col(g, false, 0) == 1,
        window_count(g, 1, 1) == 9,
        window_sum(g, 1, 1) == g.samples@[0] + g.samples@[1] + g.samples@[2] + g.samples@[3]
            + g.samples@[4] + g.samples@[5] + g.samples@[6] + g.samples@[7] + g.samples@[8],
{
}

/// The on-grid samples of `(row, col - 1)`, `(row, col)`, `(row, col + 1)`:
/// their sum and their number.
fn row_span(grid: &HeightGrid, row: usize, col: usize) -> (s: (u32, u32))
    requires
        grid.wf(),
        row < grid.height,
        col < grid.width,
    ensures
        s.0 == row_sum(grid, row as int, col as int),
        s.1 == row_count(grid, row as int, col as int),
{
    proof {
        lemma_cell_index(grid.width as int, grid.height as int, row as int, col as int);
    }
    // The buffer length fits in usize, and so does every flat index below it.
    let len = grid.samples.len();
    let base: usize = row * grid.width;
    let mut sum: u32 = grid.samples[base + col] as u32;
    let mut count: u32 = 1;
    if col > 0 {
        sum = sum + grid.samples[base + col - 1] as u32;
        count = count + 1;
    }
    if col + 1 < grid.width {
        proof {
            lemma_cell_index(grid.width as int, grid.height as int, row as int, col + 1);
        }
        sum = sum + grid.samples[base + col + 1] as u32;
        count = count + 1;
    }
    (sum, count)
}

/// The mean of the 3x3 window centred at `(row, col)`, over its on-grid cells.
fn window_at(grid: &HeightGrid, row: usize, col: usize) -> (s: Smoothed)
    requires
        grid.wf(),
        row < grid.height,
        col < grid.width,
    ensures
        s.sum == window_sum(grid, row as int, col as int),
        s.count == window_count(grid, row as int, col as int),
{
    let (mut sum, mut count) = row_span(grid, row, col);
    if row > 0 {
        let (s, c) = row_span(grid, row - 1, col);
        sum = sum + s;
        count = count + c;
    }
    if row + 1 < grid.height {
        let (s, c) = row_span(grid, row + 1, col);
        sum = sum + s;
        count = count + c;
    }
    Smoothed { sum, count }
}

/// Box-filters the grid: each visited cell becomes the mean of the on-grid
/// cells of the 3x3 window centred on it. With `smoothen_edges` every cell is
/// visited; without it the first and last row and column are left out. Values
/// come row by row.
pub fn box_filter_heightmap(grid: &HeightGrid, smoothen_edges: bool) -> (r: Vec<Smoothed>)
    requires
        grid.wf(),
    ensures
        r@.len() == filtered_len(grid, smoothen_edges),
        forall|i: int|
            0 <= i < r@.len() ==> is_filtered_value(grid, smoothen_edges, i, #[trigger] r@[i]),
{
    let start: usize = if smoothen_edges { 0 } else { 1 };
    let row_stop: usize = if smoothen_edges {
        grid.height
    } else if grid.height >= 2 {
        grid.height - 1
    } else {
        1
    };
    let col_stop: usize = if smoothen_edges {
        grid.width
    } else if grid.width >= 2 {
        grid.width - 1
    } else {
        1
    };
    let ghost cols: int = filtered_cols(grid, smoothen_edges);
    assert(cols == col_stop - start);
    let mut filtered: Vec<Smoothed> = Vec::new();
    let mut row: usize = start;
    while row < row_stop
        invariant
            grid.wf(),
            start == margin(smoothen_edges),
            row_stop == start || row_stop <= grid.height,
            col_stop == start || col_stop <= grid.width,
            start <= row <= row_stop,
            cols == filtered_cols(grid, smoothen_edges),
            filtered_rows(grid, smoothen_edges) == row_stop - start,
            cols == col_stop - start,
            filtered@.len() == (row - start) * cols,
            forall|i: int|
                0 <= i < filtered@.len() ==> is_filtered_value(grid, smoothen_edges, i, #[trigger] filtered@[i]),
        decreases row_stop - row,
    {
        let mut col: usize = start;
        while col < col_stop
            invariant
                grid.wf(),
                start == margin(smoothen_edges),
                row < row_stop,
                row_stop <= grid.height,
                col_stop == start || col_stop <= grid.width,
                start <= row,
                start <= col <= col_stop,
                cols == filtered_cols(grid, smoothen_edges),
                cols == col_stop - start,
                filtered@.len() == (row - start) * cols + (col - start),
                forall|i: int|
                    0 <= i < filtered@.len() ==> is_filtered_value(grid, smoothen_edges, i, #[trigger] filtered@[i]),
            decreases col_stop - col,
        {
            let s = window_at(grid, row, col);
            proof {
                let k = filtered@.len() as int;
                vstd::arithmetic::div_mod::lemma_fundamental_div_mod_converse(
                    k,
                    cols,
                    row - start,
                    col - start,
                );
            }
            filtered.push(s);
            col = col + 1;
        }
        assert((row - start) * cols + cols == (row + 1 - start) * cols) by (nonlinear_arith);
        row = row + 1;
    }
    filtered
}

/// Every window size divides `FIXED_ONE`.
proof fn lemma_fixed_one_divisible(c: int)
    requires
        1 <= c <= 9,
    ensures
        (FIXED_ONE as int / c) * c == FIXED_ONE,
{
    assert((2520int / c) * c == 2520) by (nonlinear_arith)
        requires
            1 <= c <= 9,
    ;
}

impl Smoothed {
    /// The mean in units of `1 / FIXED_ONE`, exactly: `r / FIXED_ONE == sum / count`.
    pub fn to_fixed(&self) -> (r: u32)
        requires
            1 <= self.count <= 9,
            self.sum <= 255 * self.count,
        ensures
            r * self.count == self.sum * FIXED_ONE,
            r <= 255 * FIXED_ONE,
    {
        let q: u32 = FIXED_ONE / self.count;
        proof {
            lemma_fixed_one_divisible(self.count as int);
        }
        assert(self.sum * q <= 255 * FIXED_ONE && (self.sum * q) * self.count == self.sum
            * FIXED_ONE) by (nonlinear_arith)
            requires
                q * self.count == FIXED_ONE,
                self.sum <= 255 * self.count,
                self.count >= 1,
        ;
        self.sum * q
    }
}

/// The filtered means as heights in units of `1 / FIXED_ONE`, in order.
pub fn fixed_heights(filtered: &Vec<Smoothed>) -> (r: Vec<u32>)
    requires
        forall|i: int|
            0 <= i < filtered@.len() ==> 1 <= (#[trigger] filtered@[i]).count <= 9
                && filtered@[i].sum <= 255 * filtered@[i].count,
    ensures
        r@.len() == filtered@.len(),
        forall|i: int|
            0 <= i < r@.len() ==> #[trigger] r@[i] * filtered@[i].count == filtered@[i].sum
                * FIXED_ONE,
{
    let mut r: Vec<u32> = Vec::new();
    let mut i: usize = 0;
    while i < filtered.len()
        invariant
            i <= filtered@.len(),
            r@.len() == i,
            forall|j: int|
                0 <= j < filtered@.len() ==> 1 <= (#[trigger] filtered@[j]).count <= 9
                    && filtered@[j].sum <= 255 * filtered@[j].count,
            forall|j: int|
                0 <= j < i ==> #[trigger] r@[j] * filtered@[j].count == filtered@[j].sum
                    * FIXED_ONE,
        decreases filtered@.len() - i,
    {
        r.push(filtered[i].to_fixed());
        i = i + 1;
    }
    r
}

} // verus!
