use black_hole::render::{
    encode_blend_params, node_runs, node_update, pack_object_slots, NodeState, PipelineStatus,
    MAX_OBJECTS,
};
use black_hole::scene::assemble_scene;
use black_hole::skybox::{next_skybox, prev_skybox};

#[test]
fn skyboxes_cycle_both_ways() {
    assert_eq!(next_skybox(0, 3), 1);
    assert_eq!(next_skybox(2, 3), 0);
    assert_eq!(prev_skybox(0, 3), 2);
    assert_eq!(prev_skybox(2, 3), 1);
    for c in 0..3 {
        assert_eq!(prev_skybox(next_skybox(c, 3), 3), c);
    }
}

#[test]
fn node_becomes_ready_once_compiled() {
    assert_eq!(node_update(NodeState::Loading, PipelineStatus::Pending), NodeState::Loading);
    assert_eq!(node_update(NodeState::Loading, PipelineStatus::ShaderNotLoaded), NodeState::Loading);
    assert_eq!(node_update(NodeState::Loading, PipelineStatus::Compiled), NodeState::Ready);
    assert_eq!(node_update(NodeState::Ready, PipelineStatus::Failed), NodeState::Ready);
    assert!(!node_runs(NodeState::Loading));
    assert!(node_runs(NodeState::Ready));
}

#[test]
fn blend_params_hold_frame_count_and_zero_padding() {
    let bytes = encode_blend_params(0x0102_0304);
    let le = [4u8, 3, 2, 1];
    let be = [1u8, 2, 3, 4];
    assert!(bytes[0..4] == le || bytes[0..4] == be);
    assert!(bytes[4..].iter().all(|&b| b == 0));
    assert_eq!(&bytes[0..4], &0x0102_0304u32.to_ne_bytes());
    assert_eq!(encode_blend_params(0), [0u8; 16]);
}

#[test]
fn object_slots_take_at_most_sixteen() {
    let mut slots = [0u32; 16];
    let items: Vec<u32> = (1..=20).collect();
    assert_eq!(pack_object_slots(&mut slots, &items), MAX_OBJECTS as i32);
    assert_eq!(slots.to_vec(), (1..=16).collect::<Vec<u32>>());
}

#[test]
fn object_slots_past_the_count_keep_old_values() {
    let mut slots = [7u32; 16];
    assert_eq!(pack_object_slots(&mut slots, &[1, 2, 3]), 3);
    assert_eq!(&slots[..4], &[1, 2, 3, 7]);
    assert!(slots[3..].iter().all(|&v| v == 7));
}

#[test]
fn black_hole_is_last_in_the_scene() {
    assert_eq!(assemble_scene(vec!["sun", "red"], "bh", true), vec!["sun", "red", "bh"]);
    assert_eq!(assemble_scene(vec!["sun", "red"], "bh", false), vec!["bh"]);
}
