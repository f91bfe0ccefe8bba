use vstd::prelude::*;
use crate::halton::{halton, halton_spec, Fraction};

verus! {

/// What one rendered frame sends to the GPU, and the still-frame counter
/// left for the next frame.
#[derive(Clone, Copy, Debug, PartialEq, Eq)]
pub struct FrameStep {
    /// Frame count handed to the accumulation shader: 0 restarts the history.
    pub frame_count: u32,
    /// True on an even frame count.
    pub parity: bool,
    /// Halton index of this frame's sub-pixel jitter, or `None` for no jitter.
    pub jitter_index: Option<u32>,
    /// Still-frame counter for the next frame.
    pub next_counter: u32,
}

/// The frame bookkeeping for a camera that is (or is not) moving, with the
/// heatmap view on or off, given the current still-frame counter.
pub open spec fn frame_step_spec(is_moving: bool, debug_heatmap: bool, counter: u32) -> FrameStep {
    let fc: u32 = if is_moving { 0 } else { counter };
    FrameStep {
        frame_count: fc,
        parity: fc % 2 == 0,
        jitter_index: if is_moving || debug_heatmap { None } else { Some((fc + 1) as u32) },
        next_counter: if is_moving {
            0
        } else if counter < u32::MAX {
            (counter + 1) as u32
        } else {
            u32::MAX
        },
    }
}

/// Bookkeeping of one frame of temporal accumulation.
///
/// A moving camera restarts the history (frame count 0) and the counter; a
/// still camera sends its counter as the frame count and advances it,
/// saturating at `u32::MAX`. Jitter is off while moving or in heatmap mode.
pub fn frame_step(is_moving: bool, debug_heatmap: bool, counter: u32) -> (r: FrameStep)
    requires
        is_moving || debug_heatmap || counter < u32::MAX,
    ensures
        r == frame_step_spec(is_moving, debug_heatmap, counter),
        r.parity == (r.frame_count % 2 == 0),
        is_moving ==> r.frame_count == 0 && r.parity && r.next_counter == 0 && r.jitter_index is None,
        !is_moving ==> r.frame_count == counter,
        !is_moving && !debug_heatmap ==> r.jitter_index == Some((r.frame_count + 1) as u32),
        debug_heatmap ==> r.jitter_index is None,
        !is_moving && counter < u32::MAX ==> r.next_counter == counter + 1,
        !is_moving && counter == u32::MAX ==> r.next_counter == u32::MAX,
{
    proof {
        lemma_frame_step_laws(is_moving, debug_heatmap, counter);
    }
    let fc: u32 = if is_moving { 0 } else { counter };
    let jitter_index: Option<u32> = if is_moving || debug_heatmap { None } else { Some(fc + 1) };
    let next_counter: u32 = if is_moving {
        0
    } else if counter < u32::MAX {
        counter + 1
    } else {
        u32::MAX
    };
    FrameStep { frame_count: fc, parity: fc % 2 == 0, jitter_index, next_counter }
}

/// The sub-pixel jitter of Halton index `index`: the Halton values in bases
/// 2 and 3, each in `[0, 1)`; the shader offset is each value minus one half.
pub fn jitter_fractions(index: u32) -> (r: (Fraction, Fraction))
    ensures
        (r.0.num as nat, r.0.den as nat) == halton_spec(index as nat, 2),
        (r.1.num as nat, r.1.den as nat) == halton_spec(index as nat, 3),
        r.0.num < r.0.den,
        r.1.num < r.1.den,
{
    (halton(index, 2), halton(index, 3))
}

/// One of the two ping-pong accumulation textures.
#[derive(Clone, Copy, Debug, PartialEq, Eq)]
pub enum AccumBuffer {
    A,
    B,
}

/// Which accumulation texture a frame reads its history from, and which it writes.
#[derive(Clone, Copy, Debug, PartialEq, Eq)]
pub struct PingPong {
    pub history: AccumBuffer,
    pub target: AccumBuffer,
}

/// An even frame reads B and writes A; an odd frame reads A and writes B.
pub open spec fn ping_pong_spec(parity: bool) -> PingPong {
    if parity {
        PingPong { history: AccumBuffer::B, target: AccumBuffer::A }
    } else {
        PingPong { history: AccumBuffer::A, target: AccumBuffer::B }
    }
}

/// The accumulation textures used by a frame of the given parity.
pub fn ping_pong(parity: bool) -> (r: PingPong)
    ensures
        r == ping_pong_spec(parity),
        r.history != r.target,
        parity ==> r.history == AccumBuffer::B && r.target == AccumBuffer::A,
        !parity ==> r.history == AccumBuffer::A && r.target == AccumBuffer::B,
{
    if parity {
        PingPong { history: AccumBuffer::B, target: AccumBuffer::A }
    } else {
        PingPong { history: AccumBuffer::A, target: AccumBuffer::B }
    }
}

/// What one frame's bookkeeping is, in terms of its inputs: parity follows the
/// frame count sent; a moving camera sends frame count 0 and clears the
/// counter; a still camera sends its counter and advances it (saturating);
/// jitter, unless moving or in heatmap mode, uses Halton index frame count + 1.
pub proof fn lemma_frame_step_laws(is_moving: bool, debug_heatmap: bool, counter: u32)
    ensures
        ({
            let r = frame_step_spec(is_moving, debug_heatmap, counter);
            &&& r.parity == (r.frame_count % 2 == 0)
            &&& is_moving ==> r.frame_count == 0 && r.parity && r.next_counter == 0 && r.jitter_index is None
            &&& !is_moving ==> r.frame_count == counter
            &&& !is_moving && !debug_heatmap && counter < u32::MAX ==> r.jitter_index == Some(
                (r.frame_count + 1) as u32,
            )
            &&& debug_heatmap ==> r.jitter_index is None
            &&& !is_moving && counter < u32::MAX ==> r.next_counter == counter + 1
            &&& !is_moving && counter == u32::MAX ==> r.next_counter == u32::MAX
        }),
{
}

/// Successive still frames use distinct, increasing Halton jitter indices.
pub proof fn lemma_still_jitter_advances(counter: u32)
    requires
        counter + 1 < u32::MAX,
    ensures
        ({
            let first = frame_step_spec(false, false, counter);
            let second = frame_step_spec(false, false, first.next_counter);
            &&& first.jitter_index == Some((counter + 1) as u32)
            &&& second.jitter_index == Some((counter + 2) as u32)
        }),
{
}

/// Even frames read history from B and write A; odd frames the reverse.
pub proof fn lemma_ping_pong_sides(parity: bool)
    ensures
        ping_pong_spec(parity).history != ping_pong_spec(parity).target,
        ping_pong_spec(parity).target == (if parity { AccumBuffer::A } else { AccumBuffer::B }),
{
}

/// While the camera stays still (and the counter is below saturation), the
/// next frame counts one higher and reads as history exactly the texture this
/// frame wrote.
pub proof fn lemma_still_frames_chain(debug_heatmap: bool, counter: u32)
    requires
        counter < u32::MAX,
    ensures
        ({
            let first = frame_step_spec(false, debug_heatmap, counter);
            let second = frame_step_spec(false, debug_heatmap, first.next_counter);
            &&& second.frame_count == first.frame_count + 1
            &&& ping_pong_spec(second.parity).history == ping_pong_spec(first.parity).target
        }),
{
}

/// A moving camera restarts accumulation: frame count 0, counter 0, no jitter;
/// and the first still frame after it restarts it once more.
pub proof fn lemma_motion_resets_history(debug_heatmap: bool, counter: u32)
    ensures
        ({
            let moving = frame_step_spec(true, debug_heatmap, counter);
            let after = frame_step_spec(false, debug_heatmap, moving.next_counter);
            &&& moving.frame_count == 0
            &&& moving.next_counter == 0
            &&& moving.jitter_index is None
            &&& after.frame_count == 0
            &&& after.next_counter == 1
        }),
{
}

/// The frame count sent to the GPU is 0, restarting the history, exactly when
/// the camera moves or the still-frame counter is 0.
pub proof fn lemma_reset_exactly_when(is_moving: bool, debug_heatmap: bool, counter: u32)
    ensures
        (frame_step_spec(is_moving, debug_heatmap, counter).frame_count == 0) <==> (is_moving || counter == 0),
{
}

} // verus!
