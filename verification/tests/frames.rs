use black_hole::frames::{frame_step, jitter_fractions, ping_pong, AccumBuffer, FrameStep, PingPong};
use black_hole::halton::{halton, Fraction};

#[test]
fn moving_camera_resets_accumulation() {
    let s = frame_step(true, false, 42);
    assert_eq!(
        s,
        FrameStep { frame_count: 0, parity: true, jitter_index: None, next_counter: 0 }
    );
}

#[test]
fn first_still_frame_restarts_then_counts() {
    let s = frame_step(false, false, 0);
    assert_eq!(s.frame_count, 0);
    assert_eq!(s.jitter_index, Some(1));
    assert_eq!(s.next_counter, 1);
    let t = frame_step(false, false, s.next_counter);
    assert_eq!(t.frame_count, 1);
    assert!(!t.parity);
    assert_eq!(t.jitter_index, Some(2));
    assert_eq!(t.next_counter, 2);
}

#[test]
fn heatmap_turns_jitter_off() {
    let s = frame_step(false, true, 3);
    assert_eq!(s.frame_count, 3);
    assert_eq!(s.jitter_index, None);
    assert_eq!(s.next_counter, 4);
}

#[test]
fn still_counter_saturates() {
    let s = frame_step(false, true, u32::MAX);
    assert_eq!(s.frame_count, u32::MAX);
    assert_eq!(s.next_counter, u32::MAX);
}

#[test]
fn even_frames_read_b_and_write_a() {
    assert_eq!(ping_pong(true), PingPong { history: AccumBuffer::B, target: AccumBuffer::A });
    assert_eq!(ping_pong(false), PingPong { history: AccumBuffer::A, target: AccumBuffer::B });
}

#[test]
fn consecutive_still_frames_hand_over_history() {
    let mut counter = 5;
    for _ in 0..10 {
        let first = frame_step(false, false, counter);
        let second = frame_step(false, false, first.next_counter);
        assert_eq!(ping_pong(second.parity).history, ping_pong(first.parity).target);
        assert_eq!(second.frame_count, first.frame_count + 1);
        counter = first.next_counter;
    }
}

#[test]
fn first_still_jitter_is_centred_in_x() {
    let (x, y) = jitter_fractions(1);
    assert_eq!(x, Fraction { num: 1, den: 2 });
    assert_eq!(y, Fraction { num: 1, den: 3 });
    let jx = x.num as f64 / x.den as f64 - 0.5;
    assert_eq!(jx, 0.0);
}

#[test]
fn halton_base_two_values() {
    assert_eq!(halton(1, 2), Fraction { num: 1, den: 2 });
    assert_eq!(halton(2, 2), Fraction { num: 1, den: 4 });
    assert_eq!(halton(3, 2), Fraction { num: 3, den: 4 });
    assert_eq!(halton(4, 2), Fraction { num: 1, den: 8 });
    assert_eq!(halton(6, 2), Fraction { num: 3, den: 8 });
}

#[test]
fn halton_base_three_values() {
    assert_eq!(halton(1, 3), Fraction { num: 1, den: 3 });
    assert_eq!(halton(2, 3), Fraction { num: 2, den: 3 });
    assert_eq!(halton(3, 3), Fraction { num: 1, den: 9 });
    assert_eq!(halton(5, 3), Fraction { num: 7, den: 9 });
}

#[test]
fn halton_of_zero_is_zero_in_any_base() {
    assert_eq!(halton(0, 0), Fraction { num: 0, den: 1 });
    assert_eq!(halton(0, 7), Fraction { num: 0, den: 1 });
}

#[test]
fn halton_stays_in_unit_interval_for_large_indices() {
    let h = halton(u32::MAX, 2);
    assert_eq!(h.den, 1u64 << 32);
    assert_eq!(h.num, (1u64 << 32) - 1);
    for i in [7u32, 100, 65_535, 1_000_000, u32::MAX] {
        for base in [2u32, 3, 10, 1_000] {
            let h = halton(i, base);
            assert!(h.num < h.den);
            assert!((i as u64) < h.den);
        }
    }
}
