use render_loop::geometry::{fan_indices, instance_grid, InstanceRotation, TILT_DEGREES};

#[test]
fn fan_of_triangle_is_one_triangle() {
    assert_eq!(fan_indices(3), vec![0, 2, 1]);
}

#[test]
fn fan_of_pentagon() {
    assert_eq!(fan_indices(5), vec![0, 2, 1, 0, 3, 2, 0, 4, 3]);
}

#[test]
fn fan_of_sixteen_gon_has_fourteen_valid_triangles() {
    let idx = fan_indices(16);
    assert_eq!(idx.len(), 3 * 14);
    assert!(idx.iter().all(|&i| i < 16));
    for t in 0..14u16 {
        let k = 3 * t as usize;
        assert_eq!(&idx[k..k + 3], &[0, t + 2, t + 1]);
    }
}

#[test]
fn grid_of_hundred_has_one_unrotated_centre() {
    let g = instance_grid(100);
    assert_eq!(g.len(), 10_000);
    let centre = &g[50 * 100 + 50];
    assert_eq!((centre.x2, centre.z2), (0, 0));
    assert_eq!(centre.rotation, InstanceRotation::Identity);
    let unrotated = g.iter().filter(|c| c.rotation == InstanceRotation::Identity).count();
    assert_eq!(unrotated, 1);
    assert_eq!(TILT_DEGREES, 45);
}

#[test]
fn grid_positions_are_centred() {
    let g = instance_grid(100);
    assert_eq!((g[0].x2, g[0].z2), (-100, -100));
    assert_eq!((g[99].x2, g[99].z2), (98, -100));
    assert_eq!((g[100].x2, g[100].z2), (-100, -98));
    assert_eq!(g[0].rotation, InstanceRotation::Tilted);
}

#[test]
fn odd_grid_has_no_unrotated_instance() {
    let g = instance_grid(3);
    assert_eq!(g.len(), 9);
    assert!(g.iter().all(|c| c.rotation == InstanceRotation::Tilted));
    assert_eq!((g[4].x2, g[4].z2), (-1, -1));
}

#[test]
fn empty_grid() {
    assert!(instance_grid(0).is_empty());
}
