use black_hole::presets::{
    cycle_max_iter, cycle_render_scale, iter_idx, scale_idx, Step, DEFAULT_MAX_ITER,
    DEFAULT_RENDER_SCALE, ITER_PRESETS, SCALE_PRESETS,
};

#[test]
fn iter_idx_finds_each_preset() {
    for (k, &p) in ITER_PRESETS.iter().enumerate() {
        assert_eq!(iter_idx(p), k);
    }
}

#[test]
fn iter_idx_falls_back_to_last_slot() {
    assert_eq!(iter_idx(9_999), 5);
    assert_eq!(iter_idx(0), 5);
}

#[test]
fn scale_idx_finds_presets_and_falls_back_to_second_slot() {
    assert_eq!(scale_idx(25), 0);
    assert_eq!(scale_idx(75), 2);
    assert_eq!(scale_idx(100), 3);
    assert_eq!(scale_idx(33), 1);
}

#[test]
fn max_iter_steps_up_and_down() {
    assert_eq!(cycle_max_iter(10_000, Step::Up), Some(12_000));
    assert_eq!(cycle_max_iter(12_000, Step::Down), Some(10_000));
    assert_eq!(cycle_max_iter(DEFAULT_MAX_ITER, Step::Down), Some(8_000));
}

#[test]
fn max_iter_is_held_at_both_ends() {
    assert_eq!(cycle_max_iter(8_000, Step::Down), None);
    assert_eq!(cycle_max_iter(18_000, Step::Up), None);
}

#[test]
fn unknown_max_iter_counts_as_the_top_preset() {
    assert_eq!(cycle_max_iter(12_345, Step::Up), None);
    assert_eq!(cycle_max_iter(12_345, Step::Down), Some(16_000));
}

#[test]
fn render_scale_walks_through_all_presets() {
    let mut scale = SCALE_PRESETS[0];
    let mut seen = vec![scale];
    while let Some(next) = cycle_render_scale(scale, Step::Up) {
        scale = next;
        seen.push(scale);
    }
    assert_eq!(seen, vec![25, 50, 75, 100]);
    assert_eq!(cycle_render_scale(25, Step::Down), None);
}

#[test]
fn render_scale_default_and_unknown_value() {
    assert_eq!(DEFAULT_RENDER_SCALE, 50);
    assert_eq!(cycle_render_scale(DEFAULT_RENDER_SCALE, Step::Down), Some(25));
    assert_eq!(cycle_render_scale(33, Step::Up), Some(75));
    assert_eq!(cycle_render_scale(33, Step::Down), Some(25));
}
