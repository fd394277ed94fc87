use rustopia::light::fan_indices;

#[test]
fn single_triangle() {
    assert_eq!(fan_indices(3), vec![0, 1, 2]);
}

#[test]
fn degenerate_fans_are_empty() {
    assert!(fan_indices(1).is_empty());
    assert!(fan_indices(2).is_empty());
}

#[test]
fn fan_of_five_vertices() {
    assert_eq!(fan_indices(5), vec![0, 1, 2, 0, 2, 3, 0, 3, 4]);
}

#[test]
fn sixty_five_rays_give_sixty_four_triangles() {
    let indices = fan_indices(66);
    assert_eq!(indices.len(), 3 * 64);
    assert!(indices.iter().all(|&k| k < 66));
    assert!(indices.chunks(3).all(|t| t[0] == 0 && t[2] == t[1] + 1));
}
