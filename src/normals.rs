use vstd::prelude::*;

use crate::mesh::{within_limit, Point3, COORD_LIMIT};

verus! {

/// An integer direction: the cross product of two edge vectors.
#[derive(Debug, Clone, Copy, PartialEq, Eq, Structural)]
pub struct Vector3 {
    pub x: i128,
    pub y: i128,
    pub z: i128,
}

/// `(a - o) x (b - o)`: the cross product of the edges from `o` to `a` and to `b`.
pub open spec fn edge_cross(o: Point3, a: Point3, b: Point3) -> Vector3 {
    let ax = a.x - o.x;
    let ay = a.y - o.y;
    let az = a.z - o.z;
    let bx = b.x - o.x;
    let by = b.y - o.y;
    let bz = b.z - o.z;
    Vector3 {
        x: (ay * bz - az * by) as i128,
        y: (az * bx - ax * bz) as i128,
        z: (ax * by - ay * bx) as i128,
    }
}

/// The `k`-th neighbour pair of vertex `i` of a grid with `width` columns and
/// `height` rows, as the cross product of its two edges, when both neighbours
/// lie on the grid. The pairs, in order: (next column, next row), (next row,
/// previous column), (previous column, previous row), (previous row, next column).
pub open spec fn neighbour_pair(v: Seq<Point3>, width: int, height: int, i: int, k: int) -> Option<
    Vector3,
> {
    let row = i / width;
    let col = i % width;
    if k == 0 {
        if col + 1 < width && row + 1 < height {
            Some(edge_cross(v[i], v[i + 1], v[i + width]))
        } else {
            None
        }
    } else if k == 1 {
        if row + 1 < height && col >= 1 {
            Some(edge_cross(v[i], v[i + width], v[i - 1]))
        } else {
            None
        }
    } else if k == 2 {
        if col >= 1 && row >= 1 {
            Some(edge_cross(v[i], v[i - 1], v[i - width]))
        } else {
            None
        }
    } else {
        if row >= 1 && col + 1 < width {
            Some(edge_cross(v[i], v[i - width], v[i + 1]))
        } else {
            None
        }
    }
}

/// The zero vector.
pub open spec fn is_zero(t: Vector3) -> bool {
    t.x == 0 && t.y == 0 && t.z == 0
}

/// A candidate term, kept when present and not degenerate.
pub open spec fn kept(c: Option<Vector3>) -> Seq<Vector3> {
    match c {
        Some(t) => if is_zero(t) {
            Seq::empty()
        } else {
            seq![t]
        },
        None => Seq::empty(),
    }
}

/// The terms whose normalised sum gives the normal at vertex `i`: the
/// non-zero cross products of its on-grid neighbour pairs, in pair order.
pub open spec fn normal_terms_at(v: Seq<Point3>, width: int, height: int, i: int) -> Seq<Vector3> {
    kept(neighbour_pair(v, width, height, i, 0)) + kept(neighbour_pair(v, width, height, i, 1))
        + kept(neighbour_pair(v, width, height, i, 2)) + kept(neighbour_pair(v, width, height, i, 3))
}

/// The normal terms of every vertex, index-aligned with the vertices.
pub open spec fn grid_normal_terms(v: Seq<Point3>, width: int, height: int) -> Seq<Seq<Vector3>> {
    Seq::new(v.len(), |i: int| normal_terms_at(v, width, height, i))
}

/// `(a - o) x (b - o)`, exactly.
fn cross(o: Point3, a: Point3, b: Point3) -> (r: Vector3)
    requires
        within_limit(o),
        within_limit(a),
        within_limit(b),
    ensures
        r == edge_cross(o, a, b),
{
    let ax: i128 = a.x as i128 - o.x as i128;
    let ay: i128 = a.y as i128 - o.y as i128;
    let az: i128 = a.z as i128 - o.z as i128;
    let bx: i128 = b.x as i128 - o.x as i128;
    let by: i128 = b.y as i128 - o.y as i128;
    let bz: i128 = b.z as i128 - o.z as i128;
    proof {
        let m: int = 2 * COORD_LIMIT as int;
        assert(m * m == 0x1000_0000_0000_0000_0000_0000_0000_0000) by (nonlinear_arith)
            requires
                m == 0x4000_0000_0000_0000,
        ;
        lemma_product_bound(ay as int, bz as int, m);
        lemma_product_bound(az as int, by as int, m);
        lemma_product_bound(az as int, bx as int, m);
        lemma_product_bound(ax as int, bz as int, m);
        lemma_product_bound(ax as int, by as int, m);
        lemma_product_bound(ay as int, bx as int, m);
    }
    Vector3 { x: ay * bz - az * by, y: az * bx - ax * bz, z: ax * by - ay * bx }
}

/// `|p * q| <= m * m` when `|p|, |q| <= m`.
proof fn lemma_product_bound(p: int, q: int, m: int)
    requires
        -m <= p <= m,
        -m <= q <= m,
    ensures
        -(m * m) <= p * q <= m * m,
{
    assert(-(m * m) <= p * q <= m * m) by (nonlinear_arith)
        requires
            -m <= p <= m,
            -m <= q <= m,
    ;
}

/// Appends the candidate to `terms` when it is present and not degenerate.
fn keep(terms: &mut Vec<Vector3>, c: Option<Vector3>)
    ensures
        final(terms)@ == old(terms)@ + kept(c),
{
    match c {
        Some(t) => {
            if t.x != 0 || t.y != 0 || t.z != 0 {
                terms.push(t);
                assert(final(terms)@ =~= old(terms)@ + kept(c));
            } else {
                assert(old(terms)@ =~= old(terms)@ + kept(c));
            }
        },
        None => {
            assert(old(terms)@ =~= old(terms)@ + kept(c));
        },
    }
}

/// The normal terms of vertex `i`; see `normal_terms_at`.
fn terms_at(v: &Vec<Point3>, width: usize, height: usize, i: usize) -> (r: Vec<Vector3>)
    requires
        v@.len() == width * height,
        i < v@.len(),
        forall|j: int| 0 <= j < v@.len() ==> within_limit(#[trigger] v@[j]),
    ensures
        r@ == normal_terms_at(v@, width as int, height as int, i as int),
{
    assert(width > 0) by (nonlinear_arith)
        requires
            i < width * height,
    ;
    // The buffer length fits in usize, and so does every flat index below it.
    let len: usize = v.len();
    let row: usize = i / width;
    let col: usize = i % width;
    proof {
        vstd::arithmetic::div_mod::lemma_fundamental_div_mod(i as int, width as int);
        vstd::arithmetic::div_mod::lemma_mod_pos_bound(i as int, width as int);
        assert(row <= i && row < height) by (nonlinear_arith)
            requires
                i == width * row + col,
                i < width * height,
                col >= 0,
                width > 0,
        ;
        if col + 1 < width {
            assert(i + 1 < width * height) by (nonlinear_arith)
                requires
                    i == width * row + col,
                    col + 1 < width,
                    row < height,
            ;
        }
        if row + 1 < height {
            assert(i + width < width * height) by (nonlinear_arith)
                requires
                    i == width * row + col,
                    col < width,
                    row + 1 < height,
            ;
        }
        if row >= 1 {
            assert(i >= width) by (nonlinear_arith)
                requires
                    i == width * row + col,
                    col >= 0,
                    row >= 1,
                    width > 0,
            ;
        }
    }
    let ghost s = v@;
    let ghost (w, h, n) = (width as int, height as int, i as int);
    let o = v[i];
    let mut r: Vec<Vector3> = Vec::new();
    let c0 = if col + 1 < width && row + 1 < height {
        Some(cross(o, v[i + 1], v[i + width]))
    } else {
        None
    };
    assert(c0 == neighbour_pair(s, w, h, n, 0));
    keep(&mut r, c0);
    let c1 = if row + 1 < height && col >= 1 {
        Some(cross(o, v[i + width], v[i - 1]))
    } else {
        None
    };
    assert(c1 == neighbour_pair(s, w, h, n, 1));
    keep(&mut r, c1);
    let c2 = if col >= 1 && row >= 1 {
        Some(cross(o, v[i - 1], v[i - width]))
    } else {
        None
    };
    assert(c2 == neighbour_pair(s, w, h, n, 2));
    keep(&mut r, c2);
    let c3 = if row >= 1 && col + 1 < width {
        Some(cross(o, v[i - width], v[i + 1]))
    } else {
        None
    };
    assert(c3 == neighbour_pair(s, w, h, n, 3));
    keep(&mut r, c3);
    assert(r@ =~= normal_terms_at(s, w, h, n));
    r
}

/// The normal terms of every vertex of a grid with `width` columns and
/// `height` rows, index-aligned with the vertices. Each vertex's normal is
/// the normalised sum of its terms, each normalised first.
pub fn initialize_normals(v: &Vec<Point3>, width: usize, height: usize) -> (r: Vec<Vec<Vector3>>)
    requires
        v@.len() == width * height,
        forall|j: int| 0 <= j < v@.len() ==> within_limit(#[trigger] v@[j]),
    ensures
        r@.len() == v@.len(),
        forall|i: int|
            0 <= i < r@.len() ==> (#[trigger] r@[i])@ == grid_normal_terms(
                v@,
                width as int,
                height as int,
            )[i],
{
    let mut r: Vec<Vec<Vector3>> = Vec::new();
    let mut i: usize = 0;
    while i < v.len()
        invariant
            v@.len() == width * height,
            forall|j: int| 0 <= j < v@.len() ==> within_limit(#[trigger] v@[j]),
            i <= v@.len(),
            r@.len() == i,
            forall|j: int|
                0 <= j < i ==> (#[trigger] r@[j])@ == normal_terms_at(
                    v@,
                    width as int,
                    height as int,
                    j,
                ),
        decreases v@.len() - i,
    {
        let t = terms_at(v, width, height, i);
        r.push(t);
        i = i + 1;
    }
    r
}

} // verus!
