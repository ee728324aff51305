use terrain_mesh::{
    box_filter_heightmap, build_terrain, fixed_heights, initialize_indices, initialize_normals,
    initialize_texcoords, initialize_vertices, initialize_vnts, GridError, HeightGrid, Point3,
    ShapeError, Smoothed, TexCoord, Vector3, Vertex, FIXED_ONE,
};

fn p(x: i64, y: i64, z: i64) -> Point3 {
    Point3 { x, y, z }
}

fn tc(u: u8, v: u8) -> TexCoord {
    TexCoord { u, v }
}

fn checker_grid() -> HeightGrid {
    HeightGrid::new(2, 2, vec![0, 255, 255, 0]).unwrap()
}

#[test]
fn two_by_two_scenario() {
    let grid = checker_grid();
    let heights = grid.heights();
    assert_eq!(heights, vec![0, 255, 255, 0]);
    let vertices = initialize_vertices(&heights, 2, 2, 1, 1);
    assert_eq!(
        vertices,
        vec![p(0, 0, 0), p(0, 1, 255), p(1, 0, 255), p(1, 1, 0)]
    );
    assert_eq!(initialize_indices(2, 2), vec![0, 1, 2, 1, 3, 2]);
    assert_eq!(
        initialize_texcoords(2, 2),
        vec![tc(0, 0), tc(0, 1), tc(1, 0), tc(1, 1)]
    );
}

#[test]
fn interleave_rejects_mismatched_lengths() {
    let vs = vec![p(0, 0, 0); 4];
    let ns = vec![[0.0f32, 0.0, 1.0]; 4];
    let ts = vec![tc(0, 0); 3];
    let r = initialize_vnts(&vs, &ns, &ts);
    assert!(matches!(r, Err(ShapeError::LengthMismatch)));
    let ns_short = vec![[0.0f32, 0.0, 1.0]; 3];
    let ts_full = vec![tc(0, 0); 4];
    assert!(initialize_vnts(&vs, &ns_short, &ts_full).is_err());
}

#[test]
fn interleave_keeps_order_and_fields() {
    let vs = vec![p(0, 0, 0), p(0, 1, 2)];
    let ns = vec![7u8, 9u8];
    let ts = vec![tc(0, 0), tc(0, 1)];
    let r: Vec<Vertex<u8>> = initialize_vnts(&vs, &ns, &ts).unwrap();
    assert_eq!(r.len(), 2);
    assert_eq!(r[1].position, p(0, 1, 2));
    assert_eq!(r[1].normal, 9);
    assert_eq!(r[1].texture, tc(0, 1));
    assert_eq!(r[0].normal, 7);
}

#[test]
fn mesh_shape_on_rectangular_grid() {
    let (w, h) = (4usize, 3usize);
    let heights: Vec<u32> = (0..(w * h) as u32).collect();
    let vertices = initialize_vertices(&heights, w, h, 1, 1);
    let normals = initialize_normals(&vertices, w, h);
    let texcoords = initialize_texcoords(w, h);
    let indices = initialize_indices(w, h);
    assert_eq!(vertices.len(), 12);
    assert_eq!(normals.len(), 12);
    assert_eq!(texcoords.len(), 12);
    assert_eq!(indices.len(), 6 * 3 * 2);
}

#[test]
fn indices_stay_in_range_on_wide_and_tall_grids() {
    for &(w, h) in &[(5usize, 2usize), (2, 5), (3, 7), (7, 3)] {
        let indices = initialize_indices(w, h);
        assert_eq!(indices.len(), 6 * (w - 1) * (h - 1));
        assert!(indices.iter().all(|&i| (i as usize) < w * h));
    }
}

#[test]
fn indices_of_second_row_quad() {
    let indices = initialize_indices(3, 3);
    // The quad at row 1, column 0 starts at vertex 3.
    assert_eq!(&indices[12..18], &[3, 4, 6, 4, 7, 6]);
}

#[test]
fn degenerate_grids_have_no_triangles() {
    assert!(initialize_indices(1, 5).is_empty());
    assert!(initialize_indices(0, 0).is_empty());
}

#[test]
fn vertices_are_scaled() {
    let vertices = initialize_vertices(&vec![1, 2, 3, 4], 2, 2, 10, 3);
    assert_eq!(
        vertices,
        vec![p(0, 0, 3), p(0, 10, 6), p(10, 0, 9), p(10, 10, 12)]
    );
}

#[test]
fn texcoords_alternate_by_parity() {
    let t = initialize_texcoords(3, 2);
    assert_eq!(
        t,
        vec![tc(0, 0), tc(0, 1), tc(0, 0), tc(1, 0), tc(1, 1), tc(1, 0)]
    );
}

#[test]
fn normal_terms_of_checker_grid() {
    let vertices = initialize_vertices(&checker_grid().heights(), 2, 2, 1, 1);
    let normals = initialize_normals(&vertices, 2, 2);
    assert_eq!(normals[0], vec![Vector3 { x: 255, y: 255, z: -1 }]);
    for terms in &normals {
        assert_eq!(terms.len(), 1);
        assert_eq!(terms[0].z, -1);
    }
}

#[test]
fn interior_vertex_has_four_terms() {
    let vertices = initialize_vertices(&vec![0; 9], 3, 3, 2, 1);
    let normals = initialize_normals(&vertices, 3, 3);
    assert_eq!(normals[4].len(), 4);
    assert!(normals[4].iter().all(|t| *t == Vector3 { x: 0, y: 0, z: -4 }));
    assert_eq!(normals[0].len(), 1);
    assert_eq!(normals[1].len(), 2);
}

#[test]
fn zero_spacing_drops_degenerate_terms() {
    let vertices = initialize_vertices(&vec![5; 4], 2, 2, 0, 1);
    let normals = initialize_normals(&vertices, 2, 2);
    assert!(normals.iter().all(|t| t.is_empty()));
}

fn unit_normal(terms: &[Vector3]) -> [f32; 3] {
    let mut sum = [0.0f32; 3];
    for t in terms {
        let v = [t.x as f32, t.y as f32, t.z as f32];
        let len = (v[0] * v[0] + v[1] * v[1] + v[2] * v[2]).sqrt();
        for k in 0..3 {
            sum[k] += v[k] / len;
        }
    }
    let len = (sum[0] * sum[0] + sum[1] * sum[1] + sum[2] * sum[2]).sqrt();
    [sum[0] / len, sum[1] / len, sum[2] / len]
}

#[test]
fn normalised_normals_have_unit_length() {
    let heights: Vec<u32> = vec![0, 40, 90, 10, 200, 30, 255, 5, 60, 120, 80, 0];
    let vertices = initialize_vertices(&heights, 4, 3, 1, 1);
    for terms in initialize_normals(&vertices, 4, 3) {
        let n = unit_normal(&terms);
        let len = (n[0] * n[0] + n[1] * n[1] + n[2] * n[2]).sqrt();
        assert!((len - 1.0).abs() < 1e-4);
    }
}

#[test]
fn constant_field_is_unchanged_by_filter() {
    let grid = HeightGrid::load_flat_map(5, 4, 77);
    for &edges in &[true, false] {
        let out = box_filter_heightmap(&grid, edges);
        assert!(!out.is_empty());
        for s in &out {
            assert_eq!(s.sum, 77 * s.count);
        }
    }
}

#[test]
fn three_by_three_without_edges_filters_only_centre() {
    let grid = HeightGrid::new(3, 3, vec![1, 2, 3, 4, 5, 6, 7, 8, 9]).unwrap();
    let out = box_filter_heightmap(&grid, false);
    assert_eq!(out, vec![Smoothed { sum: 45, count: 9 }]);
}

#[test]
fn filter_with_edges_truncates_windows() {
    let grid = HeightGrid::new(3, 3, vec![1, 2, 3, 4, 5, 6, 7, 8, 9]).unwrap();
    let out = box_filter_heightmap(&grid, true);
    assert_eq!(out.len(), 9);
    assert_eq!(out[0], Smoothed { sum: 1 + 2 + 4 + 5, count: 4 });
    assert_eq!(out[1], Smoothed { sum: 1 + 2 + 3 + 4 + 5 + 6, count: 6 });
    assert_eq!(out[4], Smoothed { sum: 45, count: 9 });
    assert_eq!(out[8], Smoothed { sum: 5 + 6 + 8 + 9, count: 4 });
}

#[test]
fn filter_does_not_wrap_rows() {
    // Column 0 of row 1 must not see column 2 of row 0.
    let grid = HeightGrid::new(3, 2, vec![0, 0, 90, 0, 0, 0]).unwrap();
    let out = box_filter_heightmap(&grid, true);
    assert_eq!(out[3], Smoothed { sum: 0, count: 4 });
    assert_eq!(out[4], Smoothed { sum: 90, count: 6 });
}

#[test]
fn filter_without_edges_on_thin_grids_is_empty() {
    let grid = HeightGrid::load_flat_map(2, 6, 1);
    assert!(box_filter_heightmap(&grid, false).is_empty());
}

#[test]
fn fixed_point_means_are_exact() {
    assert_eq!(FIXED_ONE, 2520);
    assert_eq!(Smoothed { sum: 510, count: 4 }.to_fixed(), 321300);
    assert_eq!(Smoothed { sum: 10, count: 7 }.to_fixed(), 3600);
    let h = fixed_heights(&vec![Smoothed { sum: 9, count: 9 }, Smoothed { sum: 255, count: 1 }]);
    assert_eq!(h, vec![2520, 255 * 2520]);
}

#[test]
fn grid_rejects_wrong_sample_count() {
    assert_eq!(
        HeightGrid::new(2, 3, vec![0; 5]).unwrap_err(),
        GridError::SampleCountMismatch
    );
}

#[test]
fn grid_from_image_takes_leading_bytes() {
    let g = HeightGrid::from_image(2, 2, &vec![1, 2, 3, 4, 5, 6]).unwrap();
    assert_eq!(g.samples, vec![1, 2, 3, 4]);
    assert_eq!((g.width, g.height), (2, 2));
    assert_eq!(
        HeightGrid::from_image(3, 2, &vec![0; 5]).unwrap_err(),
        GridError::ShortPixelBuffer
    );
}

#[test]
fn flat_map_is_uniform() {
    let g = HeightGrid::load_flat_map(3, 2, 9);
    assert_eq!(g.samples, vec![9; 6]);
}

#[test]
fn terrain_of_checker_grid() {
    let m = build_terrain(&checker_grid());
    // Every window of a 2x2 grid covers the whole grid: mean 510 / 4.
    let z = 510 * 2520 / 4;
    assert_eq!(
        m.vertices,
        vec![p(0, 0, z), p(0, 2520, z), p(2520, 0, z), p(2520, 2520, z)]
    );
    assert_eq!(m.indices, vec![0, 1, 2, 1, 3, 2]);
    assert_eq!(m.texcoords.len(), 4);
    assert_eq!(m.normal_terms.len(), 4);
    assert_eq!(m.normal_terms[3], vec![Vector3 { x: 0, y: 0, z: -2520 * 2520 }]);
}
