use std::cell::Cell;

use bevy_voxel_plot::buffers::{prepare_instance_buffer, InstanceBuffer};
use bevy_voxel_plot::draw::{plan_instanced_draw, DrawOutcome, MeshBufferInfo, SliceRange};

fn old_buffer() -> Option<InstanceBuffer<Vec<u8>>> {
    Some(InstanceBuffer { buffer: vec![7, 7, 7], length: 3 })
}

#[test]
fn empty_collection_removes_previous_buffer() {
    let mut slot = old_buffer();
    let uploads = Cell::new(0);
    let instances: Vec<u8> = Vec::new();
    prepare_instance_buffer(&mut slot, &instances, &Some(Vec::new()), |v: Vec<u8>| {
        uploads.set(uploads.get() + 1);
        v
    });
    assert!(slot.is_none());
    assert_eq!(uploads.get(), 0);
}

#[test]
fn empty_collection_without_buffer_stays_empty() {
    let mut slot: Option<InstanceBuffer<Vec<u8>>> = None;
    let instances: Vec<u8> = Vec::new();
    prepare_instance_buffer(&mut slot, &instances, &Some(Vec::new()), |v: Vec<u8>| v);
    assert!(slot.is_none());
}

#[test]
fn emptied_entity_is_skipped_at_draw() {
    let mut slot = old_buffer();
    let instances: Vec<u8> = Vec::new();
    prepare_instance_buffer(&mut slot, &instances, &Some(Vec::new()), |v: Vec<u8>| v);
    assert!(slot.is_none());
    let outcome = plan_instanced_draw(
        Some(MeshBufferInfo::NonIndexed),
        slot.as_ref().map(|b| b.length),
        Some(SliceRange { start: 0, end: 36 }),
        None,
    );
    assert_eq!(outcome, DrawOutcome::Skip);
}

#[test]
fn no_camera_keeps_buffer_untouched() {
    let mut slot = old_buffer();
    let uploads = Cell::new(0);
    let instances: Vec<u8> = vec![1, 2];
    prepare_instance_buffer(&mut slot, &instances, &None, |v: Vec<u8>| {
        uploads.set(uploads.get() + 1);
        v
    });
    assert_eq!(slot, old_buffer());
    assert_eq!(uploads.get(), 0);

    let mut empty_slot: Option<InstanceBuffer<Vec<u8>>> = None;
    prepare_instance_buffer(&mut empty_slot, &instances, &None, |v: Vec<u8>| v);
    assert!(empty_slot.is_none());
}

#[test]
fn fresh_buffer_replaces_old_and_counts_instances() {
    let mut slot = old_buffer();
    let uploads = Cell::new(0);
    let instances: Vec<u8> = vec![10, 20, 30, 40, 50];
    let keys: Vec<u32> = vec![1, 5, 3, 5, 0];
    prepare_instance_buffer(&mut slot, &instances, &Some(keys), |v: Vec<u8>| {
        uploads.set(uploads.get() + 1);
        v
    });
    assert_eq!(uploads.get(), 1);
    let prepared = slot.expect("buffer");
    assert_eq!(prepared.length, 5);
    assert_eq!(prepared.buffer, vec![20, 40, 30, 10, 50]);
}
