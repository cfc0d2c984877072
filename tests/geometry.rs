use webgl_sketches::geometry::{Cube, SphereGrid};
use webgl_sketches::webgl::cube_indices;

#[test]
fn cube_has_24_corners_and_36_indices() {
    let cube = Cube::new(1, 1, 1);
    assert_eq!(cube.vertices.len(), 24 * 3);
    assert_eq!(cube.normals.len(), 24 * 3);
    assert_eq!(cube.indices.len(), 36);
    assert!(cube.indices.iter().all(|&i| i < 24));
}

#[test]
fn cube_counts_hold_for_other_sizes() {
    for (w, h, d) in [(2, 3, 4), (0, 0, 0), (-5, 7, 1), (i32::MAX, i32::MAX, i32::MAX)] {
        let cube = Cube::new(w, h, d);
        assert_eq!(cube.vertices.len(), 72);
        assert_eq!(cube.normals.len(), 72);
        assert_eq!(cube.indices.len(), 36);
        assert!(cube.indices.iter().all(|&i| i < 24));
    }
}

#[test]
fn cube_first_face_faces_plus_x() {
    // Half units: a 2 x 4 x 6 box has its +x face at x = 1, i.e. 2 half units.
    let cube = Cube::new(2, 4, 6);
    let first_corner = &cube.vertices[0..3];
    assert_eq!(first_corner, &[2, 4, 6]);
    let second_corner = &cube.vertices[3..6];
    assert_eq!(second_corner, &[2, 4, -6]);
    assert_eq!(&cube.normals[0..3], &[1, 0, 0]);
}

#[test]
fn cube_normals_point_outward_on_each_face() {
    let cube = Cube::new(1, 1, 1);
    let expected: [[i8; 3]; 6] = [[1, 0, 0], [-1, 0, 0], [0, 1, 0], [0, -1, 0], [0, 0, 1], [0, 0, -1]];
    for (face, normal) in expected.iter().enumerate() {
        for corner in 0..4 {
            let at = (face * 4 + corner) * 3;
            assert_eq!(&cube.normals[at..at + 3], normal);
            // Each corner lies on its face's plane, half a unit out.
            for axis in 0..3 {
                if normal[axis] != 0 {
                    assert_eq!(cube.vertices[at + axis], normal[axis] as i64);
                }
            }
        }
    }
}

#[test]
fn cube_indices_continue_across_faces() {
    let cube = Cube::new(1, 1, 1);
    assert_eq!(&cube.indices[0..6], &[0, 2, 1, 2, 3, 1]);
    assert_eq!(&cube.indices[6..12], &[4, 6, 5, 6, 7, 5]);
    assert_eq!(&cube.indices[30..36], &[20, 22, 21, 22, 23, 21]);
}

#[test]
fn cube_index_table_lists_two_triangles_per_face() {
    let table = cube_indices();
    assert_eq!(table.len(), 36);
    assert_eq!(&table[0..6], &[0, 1, 2, 0, 2, 3]);
    assert_eq!(&table[30..36], &[20, 21, 22, 20, 22, 23]);
}

#[test]
fn sphere_grid_clamps_segments() {
    let grid = SphereGrid::new(1, 0);
    assert_eq!(grid.width_segments, 3);
    assert_eq!(grid.height_segments, 2);
    let grid = SphereGrid::new(-4, -9);
    assert_eq!((grid.width_segments, grid.height_segments), (3, 2));
    let grid = SphereGrid::new(8, 6);
    assert_eq!((grid.width_segments, grid.height_segments), (8, 6));
}

#[test]
fn sphere_vertex_count_is_grid_size() {
    assert_eq!(SphereGrid::new(3, 2).vertex_count(), 12);
    assert_eq!(SphereGrid::new(128, 128).vertex_count(), 129 * 129);
}

#[test]
fn sphere_full_range_drops_pole_triangles() {
    let grid = SphereGrid::new(8, 6);
    let indices = grid.indices(false, false);
    assert_eq!(indices.len(), 6 * 8 * 6 - 2 * 3 * 8);
    assert!(indices.iter().all(|&i| (i as usize) < grid.vertex_count()));
}

#[test]
fn sphere_open_range_keeps_all_triangles() {
    let grid = SphereGrid::new(8, 6);
    assert_eq!(grid.indices(true, true).len(), 6 * 8 * 6);
    assert_eq!(grid.indices(true, false).len(), 6 * 8 * 6 - 3 * 8);
    assert_eq!(grid.indices(false, true).len(), 6 * 8 * 6 - 3 * 8);
}

#[test]
fn sphere_first_quads_follow_winding() {
    let grid = SphereGrid::new(3, 2);
    let indices = grid.indices(true, true);
    // Row 0, column 0: a = 1, b = 0, c = 4, d = 5.
    assert_eq!(&indices[0..6], &[1, 0, 5, 0, 4, 5]);
    let closed = grid.indices(false, false);
    // At the first pole only the lower triangle of the quad remains.
    assert_eq!(&closed[0..3], &[0, 4, 5]);
    assert_eq!(closed.len(), 18);
}

#[test]
fn sphere_largest_grid_indices_fit() {
    let grid = SphereGrid::new(255, 255);
    assert_eq!(grid.vertex_count(), 65536);
    let indices = grid.indices(false, false);
    assert_eq!(indices.iter().copied().max(), Some(65535));
    assert_eq!(grid.vertex_index(255, 255), 65535);
}
