use postfx::compute::valid_surface_dims;
use postfx::grid::dispatch_group_count;
use postfx::grid::WORKGROUP_SIZE;

#[test]
fn full_hd_grid() {
    assert_eq!(dispatch_group_count(1920), 120);
    assert_eq!(dispatch_group_count(1080), 68);
}

#[test]
fn grid_rounds_up() {
    assert_eq!(dispatch_group_count(1), 1);
    assert_eq!(dispatch_group_count(15), 1);
    assert_eq!(dispatch_group_count(16), 1);
    assert_eq!(dispatch_group_count(17), 2);
    assert_eq!(dispatch_group_count(100), 7);
    assert_eq!(dispatch_group_count(50), 4);
}

#[test]
fn grid_at_largest_size() {
    assert_eq!(dispatch_group_count(u32::MAX), 268435456);
}

#[test]
fn grid_covers_without_undershooting() {
    for len in [1u32, 2, 15, 16, 17, 31, 100, 1000, 1920, 1080, 4095, u32::MAX] {
        let groups = dispatch_group_count(len) as u64;
        let tile = WORKGROUP_SIZE as u64;
        assert!(groups * tile >= len as u64);
        assert!((groups - 1) * tile < len as u64);
    }
}

#[test]
fn zero_dimensions_are_rejected() {
    assert!(!valid_surface_dims(0, 1080));
    assert!(!valid_surface_dims(1920, 0));
    assert!(!valid_surface_dims(0, 0));
    assert!(valid_surface_dims(1, 1));
    assert!(valid_surface_dims(1920, 1080));
}

#[test]
fn end_to_end_grid_scenario() {
    assert!(valid_surface_dims(1920, 1080));
    assert_eq!(dispatch_group_count(1920), 120);
    assert_eq!(dispatch_group_count(1080), 68);

    assert!(valid_surface_dims(100, 50));
    assert_eq!(dispatch_group_count(100), 7);
    assert_eq!(dispatch_group_count(50), 4);
}
