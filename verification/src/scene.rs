use vstd::prelude::*;

verus! {

/// The scene's objects: the debug bodies when they are enabled, then the
/// black hole, which is always last so that its radius can be updated in place.
pub fn assemble_scene<T>(debug_bodies: Vec<T>, black_hole: T, include_debug_bodies: bool) -> (r: Vec<T>)
    ensures
        r@ == (if include_debug_bodies { debug_bodies@ } else { Seq::<T>::empty() }).push(black_hole),
        r@.len() >= 1,
        r@.last() == black_hole,
{
    let mut objects: Vec<T> = if include_debug_bodies { debug_bodies } else { Vec::new() };
    objects.push(black_hole);
    objects
}

} // verus!
