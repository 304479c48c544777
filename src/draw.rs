//! The instanced draw call of one draw item: bind the mesh's vertices at the
//! first slot and the instance buffer at the second, then draw the whole mesh
//! once per instance.
use vstd::prelude::*;

verus! {

/// Vertex buffer slot of the mesh's own vertices.
pub const MESH_VERTEX_SLOT: u32 = 0;

/// Vertex buffer slot of the instance buffer.
pub const INSTANCE_SLOT: u32 = 1;

/// A half-open range `start..end` of vertices, indices or instances.
#[derive(Clone, Copy, Debug, PartialEq, Eq, Structural, Hash)]
pub struct SliceRange {
    pub start: u32,
    pub end: u32,
}

#[derive(Clone, Copy, Debug, PartialEq, Eq, Structural, Hash)]
pub enum IndexFormat {
    Uint16,
    Uint32,
}

/// How the mesh's geometry is laid out on the GPU.
#[derive(Clone, Copy, Debug, PartialEq, Eq, Structural, Hash)]
pub enum MeshBufferInfo {
    Indexed { index_format: IndexFormat, count: u32 },
    NonIndexed,
}

#[derive(Clone, Copy, Debug, PartialEq, Eq, Structural, Hash)]
pub enum DrawCall {
    /// Bind the index buffer in `index_format`, then draw `indices` with
    /// `base_vertex` added to each index.
    Indexed { index_format: IndexFormat, indices: SliceRange, base_vertex: i32, instances: SliceRange },
    NonIndexed { vertices: SliceRange, instances: SliceRange },
}

/// What the draw command does for one item.
#[derive(Clone, Copy, Debug, PartialEq, Eq, Structural, Hash)]
pub enum DrawOutcome {
    /// Bind both vertex buffers and issue this call.
    Draw(DrawCall),
    /// Something the item needs is not there yet this frame: draw nothing.
    Skip,
    /// The ranges do not fit the GPU's integer types.
    Failure,
}

/// The item cannot be drawn this frame: its mesh, instance buffer or vertex
/// slice is missing, or an indexed mesh has no index slice.
pub open spec fn misses_input(
    mesh: Option<MeshBufferInfo>,
    instance_count: Option<usize>,
    vertex_slice: Option<SliceRange>,
    index_slice: Option<SliceRange>,
) -> bool {
    ||| mesh is None
    ||| instance_count is None
    ||| vertex_slice is None
    ||| (mesh matches Some(MeshBufferInfo::Indexed { .. }) && index_slice is None)
}

/// The instance count does not fit in `u32`, or, for an indexed mesh, the end
/// of the index range does not fit in `u32` or the first vertex in `i32`.
pub open spec fn overflows(
    mesh: MeshBufferInfo,
    instance_count: usize,
    vertex_slice: SliceRange,
    index_slice: Option<SliceRange>,
) -> bool {
    ||| instance_count > u32::MAX
    ||| match (mesh, index_slice) {
        (MeshBufferInfo::Indexed { count, .. }, Some(ix)) => ix.start + count > u32::MAX
            || vertex_slice.start > i32::MAX,
        _ => false,
    }
}

/// Plans the draw of one item from what the frame has for it: the mesh's
/// layout, the length of its instance buffer, and the slices that the mesh's
/// vertices and indices occupy.
pub fn plan_instanced_draw(
    mesh: Option<MeshBufferInfo>,
    instance_count: Option<usize>,
    vertex_slice: Option<SliceRange>,
    index_slice: Option<SliceRange>,
) -> (r: DrawOutcome)
    ensures
        misses_input(mesh, instance_count, vertex_slice, index_slice) <==> r == DrawOutcome::Skip,
        r == DrawOutcome::Failure <==> !misses_input(mesh, instance_count, vertex_slice, index_slice)
            && overflows(mesh->0, instance_count->0, vertex_slice->0, index_slice),
        r matches DrawOutcome::Draw(call) ==> match call {
            DrawCall::Indexed { index_format, indices, base_vertex, instances } => {
                &&& mesh == Some(MeshBufferInfo::Indexed { index_format, count: (indices.end - indices.start) as u32 })
                &&& indices.start == index_slice->0.start
                &&& indices.start <= indices.end
                &&& base_vertex == vertex_slice->0.start
                &&& instances == SliceRange { start: 0, end: instance_count->0 as u32 }
                &&& instances.end == instance_count->0
            },
            DrawCall::NonIndexed { vertices, instances } => {
                &&& mesh == Some(MeshBufferInfo::NonIndexed)
                &&& vertices == vertex_slice->0
                &&& instances == SliceRange { start: 0, end: instance_count->0 as u32 }
                &&& instances.end == instance_count->0
            },
        },
{
    let (info, count, vertices) = match (mesh, instance_count, vertex_slice) {
        (Some(info), Some(count), Some(vertices)) => (info, count, vertices),
        _ => {
            return DrawOutcome::Skip;
        },
    };
    match info {
        MeshBufferInfo::Indexed { index_format, count: index_count } => {
            let indices = match index_slice {
                Some(ix) => ix,
                None => {
                    return DrawOutcome::Skip;
                },
            };
            if count > u32::MAX as usize || indices.start > u32::MAX - index_count
                || vertices.start > i32::MAX as u32 {
                return DrawOutcome::Failure;
            }
            DrawOutcome::Draw(
                DrawCall::Indexed {
                    index_format,
                    indices: SliceRange { start: indices.start, end: indices.start + index_count },
                    base_vertex: vertices.start as i32,
                    instances: SliceRange { start: 0, end: count as u32 },
                },
            )
        },
        MeshBufferInfo::NonIndexed => {
            if count > u32::MAX as usize {
                return DrawOutcome::Failure;
            }
            DrawOutcome::Draw(
                DrawCall::NonIndexed { vertices, instances: SliceRange { start: 0, end: count as u32 } },
            )
        },
    }
}

} // verus!
