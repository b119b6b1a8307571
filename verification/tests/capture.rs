use mio_compositor::capture::{capture_allowed, capture_read_region, shm_copy_layout, CopyLayout};

#[test]
fn captures_are_refused_while_locked() {
    assert!(capture_allowed(false));
    assert!(!capture_allowed(true));
}

#[test]
fn read_regions_count_rows_from_the_bottom() {
    assert_eq!(capture_read_region(10, 20, 100, 50, 1080), Some((10, 1010, 100, 50)));
    assert_eq!(capture_read_region(0, 0, 1920, 1080, 1080), Some((0, 0, 1920, 1080)));
    assert_eq!(capture_read_region(0, i32::MIN, 0, 0, i32::MAX), None);
}

#[test]
fn shared_memory_layouts_must_hold_every_row() {
    assert_eq!(
        shm_copy_layout(100, 50, 400, 0, 20_000, 20_000),
        Some(CopyLayout { row_bytes: 400, stride: 400, offset: 0, rows: 50 })
    );
    assert_eq!(
        shm_copy_layout(100, 50, 512, 64, 64 + 512 * 50, 20_000),
        Some(CopyLayout { row_bytes: 400, stride: 512, offset: 64, rows: 50 })
    );
    assert_eq!(shm_copy_layout(100, 50, 399, 0, 100_000, 20_000), None);
    assert_eq!(shm_copy_layout(100, 50, 400, 1, 20_000, 20_000), None);
    assert_eq!(shm_copy_layout(100, 50, 400, 0, 20_000, 19_999), None);
    assert_eq!(shm_copy_layout(-1, 50, 400, 0, 20_000, 20_000), None);
    assert_eq!(shm_copy_layout(100, 50, 400, -4, 20_000, 20_000), None);
}
