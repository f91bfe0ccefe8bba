use vstd::prelude::*;

verus! {

/// Window width assumed when no primary window is found.
pub const DEFAULT_WINDOW_WIDTH: u32 = 800;

/// Window height assumed when no primary window is found.
pub const DEFAULT_WINDOW_HEIGHT: u32 = 600;

/// Edge length, in pixels, of the square compute workgroup.
pub const WORKGROUP_EDGE: u32 = 16;

/// The physical window size, or 800 x 600 when there is no window.
pub open spec fn window_or_default_spec(window: Option<(u32, u32)>) -> (u32, u32) {
    match window {
        Some(size) => size,
        None => (DEFAULT_WINDOW_WIDTH, DEFAULT_WINDOW_HEIGHT),
    }
}

/// `percent` % of `extent`, rounded down, saturated at `u32::MAX`, and at least 1.
pub open spec fn scaled_extent_spec(extent: u32, percent: u32) -> u32 {
    let scaled: int = (extent as int) * (percent as int) / 100;
    if scaled < 1 {
        1
    } else if scaled > u32::MAX {
        u32::MAX
    } else {
        scaled as u32
    }
}

/// The window size the current compute textures were made for.
#[derive(Clone, Copy, Debug, PartialEq, Eq)]
pub struct TexState {
    pub win_w: u32,
    pub win_h: u32,
    pub scale_percent: u32,
}

/// Compute textures to create: their size and the state they stand for.
#[derive(Clone, Copy, Debug, PartialEq, Eq)]
pub struct TexPlan {
    pub state: TexState,
    pub width: u32,
    pub height: u32,
}

/// The textures for a window of `win_w` x `win_h` at `scale_percent`.
pub open spec fn plan_spec(win_w: u32, win_h: u32, scale_percent: u32) -> TexPlan {
    TexPlan {
        state: TexState { win_w, win_h, scale_percent },
        width: scaled_extent_spec(win_w, scale_percent),
        height: scaled_extent_spec(win_h, scale_percent),
    }
}

/// What `resize_texture_plan` decides.
pub open spec fn resize_spec(state: TexState, window: Option<(u32, u32)>, scale_percent: u32) -> Option<TexPlan> {
    let (w, h) = window_or_default_spec(window);
    if w == 0 || h == 0 {
        None
    } else if w == state.win_w && h == state.win_h && scale_percent == state.scale_percent {
        None
    } else {
        Some(plan_spec(w, h, scale_percent))
    }
}

/// Number of workgroups along an edge of `extent` pixels.
pub open spec fn workgroups_spec(extent: u32) -> u32 {
    ((extent as int + 15) / 16) as u32
}

/// The physical window size, or 800 x 600 when there is no window.
pub fn window_or_default(window: Option<(u32, u32)>) -> (r: (u32, u32))
    ensures
        r == window_or_default_spec(window),
        window matches Some(size) ==> r == size,
        window is None ==> r == (800u32, 600u32),
{
    match window {
        Some(size) => size,
        None => (DEFAULT_WINDOW_WIDTH, DEFAULT_WINDOW_HEIGHT),
    }
}

/// One edge of a compute texture: `percent` % of the window edge, rounded
/// down, never below one pixel.
pub fn scaled_extent(extent: u32, percent: u32) -> (r: u32)
    ensures
        r == scaled_extent_spec(extent, percent),
        r >= 1,
        (extent as int) * (percent as int) < 100 ==> r == 1,
        100 <= (extent as int) * (percent as int) < 100 * (u32::MAX as int + 1) ==> (r as int) * 100 <= (extent as int)
            * (percent as int) < (r as int) * 100 + 100,
        (extent as int) * (percent as int) >= 100 * (u32::MAX as int + 1) ==> r == u32::MAX,
{
    proof {
        lemma_scaled_extent_is_percentage(extent, percent);
    }
    assert((extent as int) * (percent as int) <= 0xffff_ffff * 0xffff_ffff) by (nonlinear_arith)
        requires extent <= 0xffff_ffff, percent <= 0xffff_ffff, extent >= 0, percent >= 0;
    let scaled: u64 = (extent as u64) * (percent as u64) / 100;
    if scaled < 1 {
        1
    } else if scaled > u32::MAX as u64 {
        u32::MAX
    } else {
        scaled as u32
    }
}

/// The compute textures made at startup, for the primary window (or
/// 800 x 600 without one) at `scale_percent`.
pub fn initial_texture_plan(window: Option<(u32, u32)>, scale_percent: u32) -> (r: TexPlan)
    ensures
        r == ({
            let (w, h) = window_or_default_spec(window);
            plan_spec(w, h, scale_percent)
        }),
        r.width >= 1,
        r.height >= 1,
        ({
            let (w, h) = match window {
                Some(size) => size,
                None => (800u32, 600u32),
            };
            &&& r.state == TexState { win_w: w, win_h: h, scale_percent }
            &&& r.width == scaled_extent_spec(w, scale_percent)
            &&& r.height == scaled_extent_spec(h, scale_percent)
        }),
{
    let (w, h) = window_or_default(window);
    TexPlan {
        state: TexState { win_w: w, win_h: h, scale_percent },
        width: scaled_extent(w, scale_percent),
        height: scaled_extent(h, scale_percent),
    }
}

/// Whether the compute textures must be made anew, and at what size: only
/// when the window has a non-zero size that differs from `state`, or the
/// render scale changed.
pub fn resize_texture_plan(state: TexState, window: Option<(u32, u32)>, scale_percent: u32) -> (r: Option<TexPlan>)
    ensures
        r == resize_spec(state, window, scale_percent),
        r matches Some(p) ==> p.width >= 1 && p.height >= 1,
        ({
            let (w, h) = match window {
                Some(size) => size,
                None => (800u32, 600u32),
            };
            &&& r is None <==> (w == 0 || h == 0 || (w == state.win_w && h == state.win_h && scale_percent
                == state.scale_percent))
            &&& r matches Some(p) ==> {
                &&& p.state == TexState { win_w: w, win_h: h, scale_percent }
                &&& p.width == scaled_extent_spec(w, scale_percent)
                &&& p.height == scaled_extent_spec(h, scale_percent)
            }
        }),
{
    let (w, h) = window_or_default(window);
    if w == 0 || h == 0 {
        return None;
    }
    if w == state.win_w && h == state.win_h && scale_percent == state.scale_percent {
        return None;
    }
    Some(TexPlan {
        state: TexState { win_w: w, win_h: h, scale_percent },
        width: scaled_extent(w, scale_percent),
        height: scaled_extent(h, scale_percent),
    })
}

/// Number of 16-pixel workgroups needed to cover `extent` pixels.
pub fn workgroup_count(extent: u32) -> (r: u32)
    ensures
        r == workgroups_spec(extent),
        (r as int) * 16 >= extent,
        extent > 0 ==> (r as int - 1) * 16 < extent,
        extent == 0 ==> r == 0,
{
    proof {
        lemma_workgroups_cover(extent);
    }
    extent / WORKGROUP_EDGE + if extent % WORKGROUP_EDGE != 0 { 1 } else { 0 }
}

/// Workgroups to dispatch over an image of the given size, or a single one
/// when the image is not available yet.
pub fn dispatch_size(image: Option<(u32, u32)>) -> (r: (u32, u32))
    ensures
        r == (match image {
            Some((w, h)) => (workgroups_spec(w), workgroups_spec(h)),
            None => (1u32, 1u32),
        }),
        image is None ==> r == (1u32, 1u32),
        image matches Some((w, h)) ==> (r.0 as int) * 16 >= w && (w > 0 ==> (r.0 as int - 1) * 16 < w) && (
        r.1 as int) * 16 >= h && (h > 0 ==> (r.1 as int - 1) * 16 < h),
{
    match image {
        Some((w, h)) => (workgroup_count(w), workgroup_count(h)),
        None => (1, 1),
    }
}

/// The workgroups cover the image and no whole workgroup falls outside it.
pub proof fn lemma_workgroups_cover(extent: u32)
    ensures
        workgroups_spec(extent) * 16 >= extent,
        extent > 0 ==> (workgroups_spec(extent) - 1) * 16 < extent,
        extent == 0 ==> workgroups_spec(extent) == 0,
{
}

/// A texture edge is `percent` % of the window edge rounded down: the largest
/// size whose hundredfold does not exceed `extent * percent`, raised to one
/// pixel and capped at `u32::MAX`.
pub proof fn lemma_scaled_extent_is_percentage(extent: u32, percent: u32)
    ensures
        scaled_extent_spec(extent, percent) >= 1,
        (extent as int) * (percent as int) < 100 ==> scaled_extent_spec(extent, percent) == 1,
        100 <= (extent as int) * (percent as int) < 100 * (u32::MAX as int + 1) ==> (scaled_extent_spec(
            extent,
            percent,
        ) as int) * 100 <= (extent as int) * (percent as int) < (scaled_extent_spec(extent, percent) as int) * 100
            + 100,
        (extent as int) * (percent as int) >= 100 * (u32::MAX as int + 1) ==> scaled_extent_spec(extent, percent)
            == u32::MAX,
{
    let ep: int = (extent as int) * (percent as int);
    assert(ep >= 0) by (nonlinear_arith)
        requires ep == (extent as int) * (percent as int), extent >= 0, percent >= 0;
    let q: int = ep / 100;
    assert(q * 100 <= ep < q * 100 + 100);
    if ep >= 100 * (u32::MAX as int + 1) {
        assert(q > u32::MAX);
    }
    if ep < 100 {
        assert(q < 1);
    }
}

/// The textures are remade whenever the window (of non-zero size) differs
/// from the recorded one in width or height, or the scale changed; the new
/// textures are the scaled window.
pub proof fn lemma_resize_remakes_on_any_change(state: TexState, w: u32, h: u32, scale_percent: u32)
    requires
        w > 0,
        h > 0,
        w != state.win_w || h != state.win_h || scale_percent != state.scale_percent,
    ensures
        resize_spec(state, Some((w, h)), scale_percent) == Some(
            TexPlan {
                state: TexState { win_w: w, win_h: h, scale_percent },
                width: scaled_extent_spec(w, scale_percent),
                height: scaled_extent_spec(h, scale_percent),
            },
        ),
{
}

/// The textures are kept exactly when nothing changed (or the window has no area).
pub proof fn lemma_resize_keeps_only_when_unchanged(state: TexState, w: u32, h: u32, scale_percent: u32)
    ensures
        resize_spec(state, Some((w, h)), scale_percent) is None <==> (w == 0 || h == 0 || (w == state.win_w && h
            == state.win_h && scale_percent == state.scale_percent)),
{
}

/// Once the textures are remade for a window and scale, the same window and
/// scale do not remake them again; nor does the size made at startup.
pub proof fn lemma_resize_settles(state: TexState, window: Option<(u32, u32)>, scale_percent: u32)
    ensures
        resize_spec(state, window, scale_percent) matches Some(p) ==> resize_spec(p.state, window, scale_percent) is None,
        ({
            let (w, h) = window_or_default_spec(window);
            resize_spec(plan_spec(w, h, scale_percent).state, window, scale_percent) is None
        }),
{
}

/// A window of zero width or height never remakes the textures.
pub proof fn lemma_minimized_window_keeps_textures(state: TexState, w: u32, h: u32, scale_percent: u32)
    requires
        w == 0 || h == 0,
    ensures
        resize_spec(state, Some((w, h)), scale_percent) is None,
{
}

} // verus!
