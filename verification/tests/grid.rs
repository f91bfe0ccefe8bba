use black_hole::grid::{grid_lod, grid_needs_rebuild, grid_segments, vertex_count, vertex_offsets};

#[test]
fn lod_table() {
    assert_eq!(grid_lod(10_000_000_000), (25, 1));
    assert_eq!(grid_lod(149_999_999_999), (25, 1));
    assert_eq!(grid_lod(150_000_000_000), (13, 2));
    assert_eq!(grid_lod(300_000_000_000), (13, 2));
    assert_eq!(grid_lod(500_000_000_000), (9, 4));
    assert_eq!(grid_lod(1_000_000_000_000), (9, 4));
}

#[test]
fn vertex_and_segment_counts_per_level() {
    assert_eq!(vertex_count(25), 676);
    assert_eq!(vertex_count(13), 196);
    assert_eq!(vertex_count(9), 100);
    assert_eq!(grid_segments(25).len(), 1300);
    assert_eq!(grid_segments(13).len(), 364);
    assert_eq!(grid_segments(9).len(), 180);
    assert_eq!(vertex_offsets(25).len(), 676);
}

#[test]
fn offsets_of_a_small_grid() {
    assert_eq!(
        vertex_offsets(2),
        vec![(-1, -1), (0, -1), (1, -1), (-1, 0), (0, 0), (1, 0), (-1, 1), (0, 1), (1, 1)]
    );
    let odd = vertex_offsets(25);
    assert_eq!(odd[0], (-12, -12));
    assert_eq!(odd[675], (13, 13));
}

#[test]
fn segments_of_a_small_grid() {
    assert_eq!(
        grid_segments(2),
        vec![
            (0, 1), (1, 2), (3, 4), (4, 5), (6, 7), (7, 8),
            (0, 3), (1, 4), (2, 5), (3, 6), (4, 7), (5, 8),
        ]
    );
    assert!(grid_segments(0).is_empty());
}

#[test]
fn segments_stay_inside_the_vertex_list() {
    for g in [9u32, 13, 25] {
        let n = vertex_count(g);
        for (a, b) in grid_segments(g) {
            assert!(a < n && b < n && a < b);
        }
    }
}

#[test]
fn cache_rebuilds_only_on_change() {
    assert!(grid_needs_rebuild(false, 0, 0, 13));
    assert!(!grid_needs_rebuild(false, 196, 13, 13));
    assert!(grid_needs_rebuild(true, 196, 13, 13));
    assert!(grid_needs_rebuild(false, 196, 13, 25));
}
