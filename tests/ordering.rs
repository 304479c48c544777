use bevy_voxel_plot::buffers::{prepare_instance_buffer, InstanceBuffer};
use bevy_voxel_plot::draw::{plan_instanced_draw, DrawCall, DrawOutcome, MeshBufferInfo, SliceRange};
use bevy_voxel_plot::order::{back_to_front_order, sort_back_to_front};

#[derive(Clone, Copy, Debug, PartialEq)]
struct Instance {
    pos_scale: [f32; 4],
    color: [f32; 4],
}

fn instance(x: f32, y: f32, z: f32, color: [f32; 4]) -> Instance {
    Instance { pos_scale: [x, y, z, 1.0], color }
}

fn distance_key(camera: [f32; 3], inst: &Instance) -> u32 {
    let dx = camera[0] - inst.pos_scale[0];
    let dy = camera[1] - inst.pos_scale[1];
    let dz = camera[2] - inst.pos_scale[2];
    (dx * dx + dy * dy + dz * dz).to_bits()
}

fn keys_for(camera: [f32; 3], instances: &[Instance]) -> Vec<u32> {
    instances.iter().map(|i| distance_key(camera, i)).collect()
}

#[test]
fn three_instances_farthest_first_one_draw() {
    let red = [1.0, 0.0, 0.0, 0.5];
    let green = [0.0, 1.0, 0.0, 0.5];
    let blue = [0.0, 0.0, 1.0, 0.5];
    let instances = vec![
        instance(0.0, 0.0, 0.0, red),
        instance(1.0, 0.0, 0.0, green),
        instance(2.0, 0.0, 0.0, blue),
    ];
    let keys = keys_for([10.0, 0.0, 0.0], &instances);
    let sorted = sort_back_to_front(&instances, &keys);
    assert_eq!(sorted, instances);

    let mut slot: Option<InstanceBuffer<Vec<Instance>>> = None;
    prepare_instance_buffer(&mut slot, &instances, &Some(keys), |v: Vec<Instance>| v);
    let prepared = slot.expect("a buffer for a non-empty collection");
    assert_eq!(prepared.length, 3);
    assert_eq!(prepared.buffer, instances);

    let outcome = plan_instanced_draw(
        Some(MeshBufferInfo::NonIndexed),
        Some(prepared.length),
        Some(SliceRange { start: 0, end: 36 }),
        None,
    );
    assert_eq!(
        outcome,
        DrawOutcome::Draw(DrawCall::NonIndexed {
            vertices: SliceRange { start: 0, end: 36 },
            instances: SliceRange { start: 0, end: 3 },
        })
    );
}

#[test]
fn camera_on_other_side_reverses_order() {
    let instances = vec![
        instance(0.0, 0.0, 0.0, [1.0; 4]),
        instance(1.0, 0.0, 0.0, [0.5; 4]),
        instance(2.0, 0.0, 0.0, [0.25; 4]),
    ];
    let keys = keys_for([-10.0, 0.0, 0.0], &instances);
    assert_eq!(back_to_front_order(&keys), vec![2, 1, 0]);
    let sorted = sort_back_to_front(&instances, &keys);
    assert_eq!(sorted, vec![instances[2], instances[1], instances[0]]);
}

#[test]
fn order_is_non_increasing_in_distance() {
    let keys: Vec<u32> = vec![5, 9, 1, 9, 7, 0, 5];
    let order = back_to_front_order(&keys);
    assert_eq!(order, vec![1, 3, 4, 0, 6, 2, 5]);
    for w in order.windows(2) {
        assert!(keys[w[0]] >= keys[w[1]]);
    }
}

#[test]
fn equal_distances_keep_input_order() {
    let keys: Vec<u32> = vec![4, 4, 4, 4];
    assert_eq!(back_to_front_order(&keys), vec![0, 1, 2, 3]);
    let instances = vec![
        instance(1.0, 0.0, 0.0, [0.1; 4]),
        instance(0.0, 1.0, 0.0, [0.2; 4]),
        instance(0.0, 0.0, 1.0, [0.3; 4]),
    ];
    let keys = keys_for([0.0, 0.0, 0.0], &instances);
    assert_eq!(sort_back_to_front(&instances, &keys), instances);
}

#[test]
fn empty_keys_give_empty_order() {
    let keys: Vec<u32> = Vec::new();
    assert!(back_to_front_order(&keys).is_empty());
}

#[test]
fn single_instance_order() {
    assert_eq!(back_to_front_order(&vec![u32::MAX]), vec![0]);
}

#[test]
fn largest_keys_come_first() {
    let keys: Vec<u32> = vec![0, u32::MAX, 1, u32::MAX - 1];
    assert_eq!(back_to_front_order(&keys), vec![1, 3, 2, 0]);
}
