use bevy_voxel_plot::draw::{
    plan_instanced_draw, DrawCall, DrawOutcome, IndexFormat, MeshBufferInfo, SliceRange,
};

fn indexed(count: u32) -> Option<MeshBufferInfo> {
    Some(MeshBufferInfo::Indexed { index_format: IndexFormat::Uint32, count })
}

#[test]
fn indexed_mesh_draws_index_range_per_instance() {
    let outcome = plan_instanced_draw(
        indexed(36),
        Some(1000),
        Some(SliceRange { start: 24, end: 48 }),
        Some(SliceRange { start: 72, end: 108 }),
    );
    assert_eq!(
        outcome,
        DrawOutcome::Draw(DrawCall::Indexed {
            index_format: IndexFormat::Uint32,
            indices: SliceRange { start: 72, end: 108 },
            base_vertex: 24,
            instances: SliceRange { start: 0, end: 1000 },
        })
    );
}

#[test]
fn missing_pieces_skip_the_draw() {
    let v = Some(SliceRange { start: 0, end: 24 });
    let ix = Some(SliceRange { start: 0, end: 36 });
    assert_eq!(plan_instanced_draw(None, Some(3), v, ix), DrawOutcome::Skip);
    assert_eq!(plan_instanced_draw(indexed(36), None, v, ix), DrawOutcome::Skip);
    assert_eq!(plan_instanced_draw(indexed(36), Some(3), None, ix), DrawOutcome::Skip);
    assert_eq!(plan_instanced_draw(indexed(36), Some(3), v, None), DrawOutcome::Skip);
}

#[test]
fn non_indexed_mesh_ignores_index_slice() {
    let outcome = plan_instanced_draw(
        Some(MeshBufferInfo::NonIndexed),
        Some(2),
        Some(SliceRange { start: 5, end: 41 }),
        None,
    );
    assert_eq!(
        outcome,
        DrawOutcome::Draw(DrawCall::NonIndexed {
            vertices: SliceRange { start: 5, end: 41 },
            instances: SliceRange { start: 0, end: 2 },
        })
    );
}

#[test]
fn ranges_that_do_not_fit_fail() {
    let v = Some(SliceRange { start: 0, end: 24 });
    assert_eq!(
        plan_instanced_draw(
            indexed(36),
            Some(3),
            v,
            Some(SliceRange { start: u32::MAX - 10, end: u32::MAX })
        ),
        DrawOutcome::Failure
    );
    assert_eq!(
        plan_instanced_draw(
            indexed(36),
            Some(3),
            Some(SliceRange { start: 1u32 << 31, end: (1u32 << 31) + 24 }),
            Some(SliceRange { start: 0, end: 36 })
        ),
        DrawOutcome::Failure
    );
    if usize::BITS > 32 {
        let too_many = (u32::MAX as usize) + 1;
        assert_eq!(
            plan_instanced_draw(Some(MeshBufferInfo::NonIndexed), Some(too_many), v, None),
            DrawOutcome::Failure
        );
    }
}
