use gles_kit::tessellation::{grid_indices, sphere_indices};

#[test]
fn grid_of_two_by_two() {
    assert_eq!(grid_indices(2), vec![0, 1, 3, 0, 3, 2]);
}

#[test]
fn grid_of_one_vertex_has_no_triangles() {
    assert_eq!(grid_indices(1), Vec::<u32>::new());
}

#[test]
fn grid_of_three_by_three() {
    let idx = grid_indices(3);
    assert_eq!(idx.len(), 4 * 6);
    assert!(idx.iter().all(|&i| i < 9));
    assert_eq!(&idx[18..24], &[4, 5, 8, 4, 8, 7]);
}

#[test]
fn sphere_strip_alternates_direction() {
    assert_eq!(sphere_indices(1, 1), vec![3, 1, 2, 0]);
    let idx = sphere_indices(2, 2);
    assert_eq!(idx, vec![5, 2, 4, 1, 3, 0, 3, 6, 4, 7, 5, 8]);
}

#[test]
fn sphere_of_sixty_four_segments() {
    let idx = sphere_indices(64, 64);
    assert_eq!(idx.len(), 64 * 65 * 2);
    assert!(idx.iter().all(|&i| i < 65 * 65));
    assert_eq!(sphere_indices(3, 0), Vec::<u32>::new());
}
