use vstd::prelude::*;
use vstd::arithmetic::div_mod::{lemma_small_mod, lemma_mod_add_multiples_vanish};

verus! {

/// The position after `current` in a ring of `count` skyboxes.
pub open spec fn ring_next(current: int, count: int) -> int {
    (current + 1) % count
}

/// The position before `current` in a ring of `count` skyboxes.
pub open spec fn ring_prev(current: int, count: int) -> int {
    (current + count - 1) % count
}

/// Index of the skybox that follows `current` in a ring of `count` skyboxes.
pub fn next_skybox(current: usize, count: usize) -> (r: usize)
    requires
        count > 0,
        current < usize::MAX,
    ensures
        r == ring_next(current as int, count as int),
        r < count,
        current + 1 < count ==> r == current + 1,
        current + 1 == count ==> r == 0,
{
    proof {
        lemma_ring_neighbours(current as int, count as int);
    }
    (current + 1) % count
}

/// Index of the skybox that precedes `current` in a ring of `count` skyboxes.
pub fn prev_skybox(current: usize, count: usize) -> (r: usize)
    requires
        count > 0,
        current + count <= usize::MAX,
    ensures
        r == ring_prev(current as int, count as int),
        r < count,
        0 < current <= count ==> r == current - 1,
        current == 0 ==> r == count - 1,
{
    proof {
        lemma_ring_neighbours(current as int, count as int);
    }
    (current + count - 1) % count
}

/// The next skybox is the following index, wrapping from the last to the
/// first; the previous one is the preceding index, wrapping from the first to
/// the last.
pub proof fn lemma_ring_neighbours(current: int, count: int)
    requires
        count > 0,
        current >= 0,
    ensures
        current + 1 < count ==> ring_next(current, count) == current + 1,
        current + 1 == count ==> ring_next(current, count) == 0,
        0 < current <= count ==> ring_prev(current, count) == current - 1,
        current == 0 ==> ring_prev(current, count) == count - 1,
{
    if current + 1 < count {
        lemma_small_mod((current + 1) as nat, count as nat);
    }
    if current + 1 == count {
        lemma_mod_add_multiples_vanish(0, count);
    }
    if 0 < current < count + 1 {
        if current < count {
            lemma_mod_add_multiples_vanish(current - 1, count);
            lemma_small_mod((current - 1) as nat, count as nat);
        } else {
            lemma_mod_add_multiples_vanish(count - 1, count);
            lemma_small_mod((count - 1) as nat, count as nat);
        }
    }
    if current == 0 {
        lemma_small_mod((count - 1) as nat, count as nat);
    }
}

/// Stepping back after stepping forward returns to the skybox one started
/// from, and so does stepping forward after stepping back.
pub proof fn lemma_skybox_steps_undo(current: int, count: int)
    requires
        0 <= current < count,
    ensures
        ring_prev(ring_next(current, count), count) == current,
        ring_next(ring_prev(current, count), count) == current,
{
    if current + 1 < count {
        lemma_small_mod((current + 1) as nat, count as nat);
        lemma_mod_add_multiples_vanish(current, count);
    } else {
        lemma_mod_add_multiples_vanish(0, count);
        lemma_small_mod((count - 1) as nat, count as nat);
    }
    if current == 0 {
        lemma_small_mod((count - 1) as nat, count as nat);
        lemma_mod_add_multiples_vanish(0, count);
    } else {
        lemma_mod_add_multiples_vanish(current - 1, count);
        lemma_small_mod((current - 1) as nat, count as nat);
        lemma_small_mod(current as nat, count as nat);
    }
}

} // verus!
