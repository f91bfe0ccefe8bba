use black_hole::textures::{
    dispatch_size, initial_texture_plan, resize_texture_plan, scaled_extent, window_or_default,
    workgroup_count, TexPlan, TexState,
};

#[test]
fn missing_window_counts_as_800_by_600() {
    assert_eq!(window_or_default(None), (800, 600));
    assert_eq!(window_or_default(Some((1920, 1080))), (1920, 1080));
}

#[test]
fn scaled_extent_rounds_down_and_never_reaches_zero() {
    assert_eq!(scaled_extent(800, 50), 400);
    assert_eq!(scaled_extent(601, 75), 450);
    assert_eq!(scaled_extent(3, 25), 1);
    assert_eq!(scaled_extent(0, 100), 1);
    assert_eq!(scaled_extent(u32::MAX, 1_000), u32::MAX);
}

#[test]
fn startup_textures_use_default_window_at_half_scale() {
    let plan = initial_texture_plan(None, 50);
    assert_eq!(
        plan,
        TexPlan { state: TexState { win_w: 800, win_h: 600, scale_percent: 50 }, width: 400, height: 300 }
    );
}

#[test]
fn textures_are_not_remade_for_an_unchanged_window() {
    let plan = initial_texture_plan(Some((1280, 720)), 50);
    assert_eq!(resize_texture_plan(plan.state, Some((1280, 720)), 50), None);
}

#[test]
fn resize_and_rescale_remake_textures_once() {
    let state = TexState { win_w: 800, win_h: 600, scale_percent: 50 };
    let p = resize_texture_plan(state, Some((1024, 768)), 50).unwrap();
    assert_eq!((p.width, p.height), (512, 384));
    assert_eq!(resize_texture_plan(p.state, Some((1024, 768)), 50), None);
    let q = resize_texture_plan(p.state, Some((1024, 768)), 100).unwrap();
    assert_eq!((q.width, q.height), (1024, 768));
}

#[test]
fn minimized_window_keeps_textures() {
    let state = TexState { win_w: 800, win_h: 600, scale_percent: 50 };
    assert_eq!(resize_texture_plan(state, Some((0, 600)), 25), None);
    assert_eq!(resize_texture_plan(state, Some((800, 0)), 25), None);
}

#[test]
fn workgroups_cover_the_image() {
    assert_eq!(workgroup_count(0), 0);
    assert_eq!(workgroup_count(1), 1);
    assert_eq!(workgroup_count(16), 1);
    assert_eq!(workgroup_count(17), 2);
    assert_eq!(workgroup_count(u32::MAX), 268_435_456);
}

#[test]
fn dispatch_defaults_to_one_workgroup() {
    assert_eq!(dispatch_size(None), (1, 1));
    assert_eq!(dispatch_size(Some((400, 300))), (25, 19));
}
