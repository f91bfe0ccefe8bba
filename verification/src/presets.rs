use vstd::prelude::*;

verus! {

/// Geodesic iteration caps offered by the `,` / `.` keys, ascending.
pub const ITER_PRESETS: [u32; 6] = [8_000, 10_000, 12_000, 14_000, 16_000, 18_000];

/// Render scales offered by the `-` / `=` keys, in percent of the window, ascending.
pub const SCALE_PRESETS: [u32; 4] = [25, 50, 75, 100];

/// Iteration cap the camera starts with.
pub const DEFAULT_MAX_ITER: u32 = 10_000;

/// Render scale, in percent, the compute textures start with.
pub const DEFAULT_RENDER_SCALE: u32 = 50;

/// Direction of a preset step.
#[derive(Clone, Copy, Debug, PartialEq, Eq)]
pub enum Step {
    Down,
    Up,
}

/// Slot `k` holds `value` and no earlier slot does.
pub open spec fn is_first_position(presets: Seq<u32>, value: u32, k: int) -> bool {
    0 <= k < presets.len() && presets[k] == value && (forall|j: int| 0 <= j < k ==> presets[j] != value)
}

/// The first position of `value` in `presets`, if it occurs there.
pub open spec fn first_position(presets: Seq<u32>, value: u32) -> Option<int> {
    if exists|k: int| is_first_position(presets, value, k) {
        Some(choose|k: int| is_first_position(presets, value, k))
    } else {
        None
    }
}

/// The slot `value` occupies in `presets`, or `fallback` when it is not a preset.
pub open spec fn preset_slot(presets: Seq<u32>, value: u32, fallback: int) -> int {
    match first_position(presets, value) {
        Some(k) => k,
        None => fallback,
    }
}

/// The slot reached from `idx` by one step among `len` slots, held at both ends.
pub open spec fn stepped_slot(idx: int, len: int, step: Step) -> int {
    match step {
        Step::Down => if idx > 0 { idx - 1 } else { 0 },
        Step::Up => if idx + 1 < len - 1 { idx + 1 } else { len - 1 },
    }
}

/// The preset one step from `current`, or `None` when the step leaves the slot unchanged.
pub open spec fn cycle_spec(presets: Seq<u32>, fallback: int, current: u32, step: Step) -> Option<u32> {
    let idx = preset_slot(presets, current, fallback);
    let next = stepped_slot(idx, presets.len() as int, step);
    if next != idx {
        Some(presets[next])
    } else {
        None
    }
}

/// The presets strictly increase from slot to slot.
pub open spec fn ascending(presets: Seq<u32>) -> bool {
    forall|i: int, j: int| 0 <= i < j < presets.len() ==> presets[i] < presets[j]
}

proof fn lemma_first_position_of_found(presets: Seq<u32>, value: u32, k: int)
    requires
        0 <= k < presets.len(),
        presets[k] == value,
        forall|j: int| 0 <= j < k ==> presets[j] != value,
    ensures
        first_position(presets, value) == Some(k),
{
    assert(is_first_position(presets, value, k));
    let c = choose|c: int| is_first_position(presets, value, c);
    assert(is_first_position(presets, value, c));
    if c < k {
        assert(presets[c] != value);
    }
    if k < c {
        assert(presets[k] != value);
    }
}

/// Slot of `value` among `presets`, or `fallback` when `value` is none of them.
pub fn find_preset_slot(presets: &[u32], value: u32, fallback: usize) -> (r: usize)
    ensures
        r as int == preset_slot(presets@, value, fallback as int),
        (r < presets@.len() && presets@[r as int] == value && forall|j: int| 0 <= j < r ==> presets@[j] != value)
            || (r == fallback && forall|j: int| 0 <= j < presets@.len() ==> presets@[j] != value),
{
    let mut k: usize = 0;
    while k < presets.len()
        invariant
            k <= presets@.len(),
            forall|j: int| 0 <= j < k ==> presets@[j] != value,
        decreases presets@.len() - k,
    {
        if presets[k] == value {
            proof {
                lemma_first_position_of_found(presets@, value, k as int);
            }
            return k;
        }
        k = k + 1;
    }
    fallback
}

/// Slot one step from `idx` among `len` slots, held at both ends.
pub fn step_slot(idx: usize, len: usize, step: Step) -> (r: usize)
    requires
        0 < len,
        idx < len,
    ensures
        r as int == stepped_slot(idx as int, len as int, step),
        r < len,
        step == Step::Down && idx > 0 ==> r == idx - 1,
        step == Step::Down && idx == 0 ==> r == 0,
        step == Step::Up && idx + 1 < len ==> r == idx + 1,
        step == Step::Up && idx + 1 == len ==> r == idx,
{
    match step {
        Step::Down => if idx > 0 { idx - 1 } else { 0 },
        Step::Up => if idx + 1 < len - 1 { idx + 1 } else { len - 1 },
    }
}

/// Preset one step from `current`, or `None` when there is nothing to change.
/// A value that is no preset counts as standing in slot `fallback`.
pub fn cycle_preset(presets: &[u32], fallback: usize, current: u32, step: Step) -> (r: Option<u32>)
    requires
        fallback < presets@.len(),
    ensures
        r == cycle_spec(presets@, fallback as int, current, step),
        r matches Some(v) ==> presets@.contains(v),
{
    let idx: usize = find_preset_slot(presets, current, fallback);
    proof {
        if first_position(presets@, current) is Some {
            let k = choose|k: int| is_first_position(presets@, current, k);
            assert(is_first_position(presets@, current, k));
        }
    }
    let next: usize = step_slot(idx, presets.len(), step);
    if next != idx {
        Some(presets[next])
    } else {
        None
    }
}

/// The iteration-cap presets as a sequence.
pub open spec fn iter_presets() -> Seq<u32> {
    seq![8_000u32, 10_000, 12_000, 14_000, 16_000, 18_000]
}

/// The render-scale presets, in percent, as a sequence.
pub open spec fn scale_presets() -> Seq<u32> {
    seq![25u32, 50, 75, 100]
}

/// Slot of the iteration cap `max_iter` among the presets; a cap that is no
/// preset counts as the last slot.
pub fn iter_idx(max_iter: u32) -> (r: usize)
    ensures
        r as int == preset_slot(iter_presets(), max_iter, 5),
        r < 6,
        iter_presets().contains(max_iter) ==> iter_presets()[r as int] == max_iter,
        !iter_presets().contains(max_iter) ==> r == 5,
{
    assert(ITER_PRESETS@ =~= iter_presets());
    let r: usize = find_preset_slot(&ITER_PRESETS, max_iter, 5);
    proof {
        if !iter_presets().contains(max_iter) && r != 5 {
            assert(iter_presets()[r as int] == max_iter);
        }
    }
    r
}

/// Slot of the render scale `percent` among the presets; a scale that is no
/// preset counts as the second slot.
pub fn scale_idx(percent: u32) -> (r: usize)
    ensures
        r as int == preset_slot(scale_presets(), percent, 1),
        r < 4,
        scale_presets().contains(percent) ==> scale_presets()[r as int] == percent,
        !scale_presets().contains(percent) ==> r == 1,
{
    assert(SCALE_PRESETS@ =~= scale_presets());
    let r: usize = find_preset_slot(&SCALE_PRESETS, percent, 1);
    proof {
        if !scale_presets().contains(percent) && r != 1 {
            assert(scale_presets()[r as int] == percent);
        }
    }
    r
}

/// The iteration cap after a `,` (`Step::Down`) or `.` (`Step::Up`) key
/// press, or `None` when the cap stays as it is.
pub fn cycle_max_iter(current: u32, step: Step) -> (r: Option<u32>)
    ensures
        r == cycle_spec(iter_presets(), 5, current, step),
        r matches Some(v) ==> iter_presets().contains(v),
        forall|k: int|
            0 <= k < 6 && current == #[trigger] iter_presets()[k] ==> r == neighbour_preset(iter_presets(), k, step),
        !iter_presets().contains(current) ==> r == neighbour_preset(iter_presets(), 5, step),
{
    proof {
        lemma_presets_ascending();
        lemma_cycle_from_value(iter_presets(), 5, current, step);
    }
    assert(ITER_PRESETS@ =~= iter_presets());
    cycle_preset(&ITER_PRESETS, 5, current, step)
}

/// The render scale, in percent, after a `-` (`Step::Down`) or `=`
/// (`Step::Up`) key press, or `None` when the scale stays as it is.
pub fn cycle_render_scale(percent: u32, step: Step) -> (r: Option<u32>)
    ensures
        r == cycle_spec(scale_presets(), 1, percent, step),
        r matches Some(v) ==> scale_presets().contains(v),
        forall|k: int|
            0 <= k < 4 && percent == #[trigger] scale_presets()[k] ==> r == neighbour_preset(scale_presets(), k, step),
        !scale_presets().contains(percent) ==> r == neighbour_preset(scale_presets(), 1, step),
{
    proof {
        lemma_presets_ascending();
        lemma_cycle_from_value(scale_presets(), 1, percent, step);
    }
    assert(SCALE_PRESETS@ =~= scale_presets());
    cycle_preset(&SCALE_PRESETS, 1, percent, step)
}

proof fn lemma_slot_of_ascending(presets: Seq<u32>, fallback: int, k: int)
    requires
        ascending(presets),
        0 <= k < presets.len(),
    ensures
        preset_slot(presets, presets[k], fallback) == k,
{
    lemma_first_position_of_found(presets, presets[k], k);
}

/// Among ascending presets, stepping up from a preset below the top moves to
/// the next larger preset, and stepping down from there comes back.
pub proof fn lemma_cycle_up_then_down(presets: Seq<u32>, fallback: int, k: int)
    requires
        ascending(presets),
        0 <= k < presets.len() - 1,
    ensures
        cycle_spec(presets, fallback, presets[k], Step::Up) == Some(presets[k + 1]),
        cycle_spec(presets, fallback, presets[k + 1], Step::Down) == Some(presets[k]),
{
    lemma_slot_of_ascending(presets, fallback, k);
    lemma_slot_of_ascending(presets, fallback, k + 1);
}

/// Among ascending presets, stepping down from the smallest preset and
/// stepping up from the largest change nothing.
pub proof fn lemma_cycle_held_at_ends(presets: Seq<u32>, fallback: int)
    requires
        ascending(presets),
        presets.len() > 0,
    ensures
        cycle_spec(presets, fallback, presets[0], Step::Down) is None,
        cycle_spec(presets, fallback, presets[presets.len() - 1], Step::Up) is None,
{
    lemma_slot_of_ascending(presets, fallback, 0);
    lemma_slot_of_ascending(presets, fallback, presets.len() - 1);
}

/// Among ascending presets, a step up from a preset yields a larger one and a
/// step down a smaller one.
pub proof fn lemma_cycle_moves_in_step_direction(presets: Seq<u32>, fallback: int, k: int, step: Step)
    requires
        ascending(presets),
        0 <= k < presets.len(),
    ensures
        cycle_spec(presets, fallback, presets[k], step) matches Some(v) ==> match step {
            Step::Up => v > presets[k],
            Step::Down => v < presets[k],
        },
{
    lemma_slot_of_ascending(presets, fallback, k);
}

/// The preset next to slot `k` in the direction of `step`, or `None` at that end.
pub open spec fn neighbour_preset(presets: Seq<u32>, k: int, step: Step) -> Option<u32> {
    match step {
        Step::Up => if k + 1 < presets.len() { Some(presets[k + 1]) } else { None },
        Step::Down => if k > 0 { Some(presets[k - 1]) } else { None },
    }
}

/// Among ascending presets, one step from a preset gives its neighbour in
/// that direction (nothing at the ends), and one step from a value that is no
/// preset acts as a step from the fallback slot.
pub proof fn lemma_cycle_from_value(presets: Seq<u32>, fallback: int, value: u32, step: Step)
    requires
        ascending(presets),
        0 <= fallback < presets.len(),
    ensures
        forall|k: int|
            0 <= k < presets.len() && value == #[trigger] presets[k] ==> cycle_spec(presets, fallback, value, step)
                == neighbour_preset(presets, k, step),
        !presets.contains(value) ==> cycle_spec(presets, fallback, value, step) == neighbour_preset(
            presets,
            fallback,
            step,
        ),
{
    assert forall|k: int|
        0 <= k < presets.len() && value == #[trigger] presets[k] implies cycle_spec(presets, fallback, value, step)
            == neighbour_preset(presets, k, step) by {
        lemma_slot_of_ascending(presets, fallback, k);
    }
    if !presets.contains(value) {
        assert(!exists|k: int| is_first_position(presets, value, k)) by {
            assert forall|k: int| !is_first_position(presets, value, k) by {
                if 0 <= k < presets.len() && presets[k] == value {
                    assert(presets.contains(value));
                }
            }
        }
    }
}

/// Both preset lists are ascending, and the defaults are presets.
pub proof fn lemma_presets_ascending()
    ensures
        ascending(iter_presets()),
        ascending(scale_presets()),
        iter_presets()[1] == DEFAULT_MAX_ITER,
        scale_presets()[1] == DEFAULT_RENDER_SCALE,
{
}

} // verus!
