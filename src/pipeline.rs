//! Pipeline variants: a cache that builds one pipeline per distinct
//! specialization key, and the fixed overrides that turn the host's mesh
//! pipeline into the instanced, alpha-blended one.
use vstd::prelude::*;

verus! {

/// How the mesh's vertices form primitives.
#[derive(Clone, Copy, Debug, PartialEq, Eq, Structural, Hash)]
pub enum PrimitiveTopology {
    PointList,
    LineList,
    LineStrip,
    TriangleList,
    TriangleStrip,
}

/// What selects a pipeline variant: the view's sample count and HDR flag,
/// the mesh's topology, and an identifier of the mesh's vertex layout.
#[derive(Clone, Copy, Debug, PartialEq, Eq, Structural, Hash)]
pub struct SpecializationKey {
    pub msaa_samples: u32,
    pub hdr: bool,
    pub topology: PrimitiveTopology,
    pub layout: u64,
}

/// A cache of built pipelines, one per distinct key, never rebuilt.
pub struct PipelineCache<P> {
    entries: Vec<(SpecializationKey, P)>,
    contents: Ghost<Map<SpecializationKey, P>>,
}

/// The outcome of one specialization request: a cached key gives back its
/// pipeline and leaves the cache alone; a new key is built, and cached only
/// when the build succeeds.
pub open spec fn specialized<P, E>(
    before: Map<SpecializationKey, P>,
    key: SpecializationKey,
    r: Result<P, E>,
    after: Map<SpecializationKey, P>,
) -> bool {
    if before.contains_key(key) {
        r == Ok::<P, E>(before[key]) && after == before
    } else {
        match r {
            Ok(p) => after == before.insert(key, p),
            Err(_) => after == before,
        }
    }
}

impl<P: Copy> PipelineCache<P> {
    /// The pipeline cached under each key.
    pub closed spec fn view(&self) -> Map<SpecializationKey, P> {
        self.contents@
    }

    pub closed spec fn wf(&self) -> bool {
        &&& forall|i: int|
            0 <= i < self.entries@.len() ==> self.contents@.contains_key(
                (#[trigger] self.entries@[i]).0,
            ) && self.contents@[self.entries@[i].0] == self.entries@[i].1
        &&& forall|k: SpecializationKey| #[trigger]
            self.contents@.contains_key(k) ==> exists|i: int|
                0 <= i < self.entries@.len() && (#[trigger] self.entries@[i]).0 == k
    }

    /// An empty cache.
    pub fn new() -> (cache: Self)
        ensures
            cache.wf(),
            cache.view() == Map::<SpecializationKey, P>::empty(),
    {
        PipelineCache { entries: Vec::new(), contents: Ghost(Map::empty()) }
    }

    /// The pipeline cached under `key`, if any.
    pub fn get(&self, key: SpecializationKey) -> (r: Option<P>)
        requires
            self.wf(),
        ensures
            r == (if self.view().contains_key(key) {
                Some(self.view()[key])
            } else {
                None::<P>
            }),
    {
        let mut i: usize = 0;
        while i < self.entries.len()
            invariant
                self.wf(),
                i <= self.entries@.len(),
                forall|j: int| 0 <= j < i ==> (#[trigger] self.entries@[j]).0 != key,
            decreases self.entries@.len() - i,
        {
            if self.entries[i].0 == key {
                return Some(self.entries[i].1);
            }
            i = i + 1;
        }
        None
    }

    /// The pipeline for `key`: the cached one, or else the one `build` makes,
    /// which is then cached.
    pub fn specialize<E, F: FnOnce(SpecializationKey) -> Result<P, E>>(
        &mut self,
        key: SpecializationKey,
        build: F,
    ) -> (r: Result<P, E>)
        requires
            old(self).wf(),
            build.requires((key,)),
        ensures
            final(self).wf(),
            specialized(old(self).view(), key, r, final(self).view()),
            !old(self).view().contains_key(key) ==> build.ensures((key,), r),
    {
        match self.get(key) {
            Some(p) => Ok(p),
            None => {
                let built = build(key);
                match built {
                    Ok(p) => {
                        let ghost before = self.entries@;
                        self.entries.push((key, p));
                        self.contents = Ghost(self.contents@.insert(key, p));
                        proof {
                            assert(self.entries@[before.len() as int].0 == key);
                            assert forall|k: SpecializationKey| #[trigger]
                                self.contents@.contains_key(k) implies exists|i: int|
                                0 <= i < self.entries@.len() && (#[trigger] self.entries@[i]).0
                                    == k by {
                                if k != key {
                                    let i = choose|i: int|
                                        0 <= i < before.len() && (#[trigger] before[i]).0 == k;
                                    assert(self.entries@[i] == before[i]);
                                }
                            }
                        }
                        Ok(p)
                    },
                    Err(e) => Err(e),
                }
            },
        }
    }
}

/// Texture formats that the overrides name.
#[derive(Clone, Copy, Debug, PartialEq, Eq, Structural, Hash)]
pub enum TextureFormat {
    Rgba8UnormSrgb,
    Bgra8UnormSrgb,
    Rgba16Float,
    Depth32Float,
}

#[derive(Clone, Copy, Debug, PartialEq, Eq, Structural, Hash)]
pub enum CompareFunction {
    Never,
    Less,
    Equal,
    LessEqual,
    Greater,
    NotEqual,
    GreaterEqual,
    Always,
}

/// Depth state; stencil and depth bias stay at their defaults.
#[derive(Clone, Copy, Debug, PartialEq, Eq, Structural, Hash)]
pub struct DepthStencilState {
    pub format: TextureFormat,
    pub depth_compare: CompareFunction,
    pub depth_write_enabled: bool,
}

#[derive(Clone, Copy, Debug, PartialEq, Eq, Structural, Hash)]
pub enum BlendState {
    Replace,
    AlphaBlending,
    PremultipliedAlphaBlending,
}

/// Write mask with the red, green, blue and alpha channels all set.
pub const COLOR_WRITES_ALL: u32 = 15;

#[derive(Clone, Copy, Debug, PartialEq, Eq, Structural, Hash)]
pub struct ColorTargetState {
    pub format: TextureFormat,
    pub blend: Option<BlendState>,
    pub write_mask: u32,
}

#[derive(Clone, Copy, Debug, PartialEq, Eq, Structural, Hash)]
pub enum VertexFormat {
    Float32,
    Float32x2,
    Float32x3,
    Float32x4,
}

/// Size in bytes of one attribute of the format.
pub open spec fn format_size(format: VertexFormat) -> u64 {
    match format {
        VertexFormat::Float32 => 4,
        VertexFormat::Float32x2 => 8,
        VertexFormat::Float32x3 => 12,
        VertexFormat::Float32x4 => 16,
    }
}

impl VertexFormat {
    /// Size in bytes of one attribute of this format.
    pub fn size(&self) -> (r: u64)
        ensures
            r == format_size(*self),
    {
        match self {
            VertexFormat::Float32 => 4,
            VertexFormat::Float32x2 => 8,
            VertexFormat::Float32x3 => 12,
            VertexFormat::Float32x4 => 16,
        }
    }
}

#[derive(Clone, Copy, Debug, PartialEq, Eq, Structural, Hash)]
pub enum VertexStepMode {
    Vertex,
    Instance,
}

#[derive(Clone, Copy, Debug, PartialEq, Eq, Structural, Hash)]
pub struct VertexAttribute {
    pub format: VertexFormat,
    pub offset: u64,
    pub shader_location: u32,
}

pub struct VertexBufferLayout {
    pub array_stride: u64,
    pub step_mode: VertexStepMode,
    pub attributes: Vec<VertexAttribute>,
}

/// Shader location of the per-instance position and scale; the mesh's own
/// vertex attributes use the locations below it.
pub const POSITION_SCALE_LOCATION: u32 = 3;

/// Shader location of the per-instance color.
pub const COLOR_LOCATION: u32 = 4;

/// Bytes per instance record: a position and scale, then a color, each four
/// 32-bit floats.
pub const INSTANCE_STRIDE: u64 = 32;

/// The extra vertex buffer that feeds one instance record per instance.
pub fn instance_buffer_layout() -> (layout: VertexBufferLayout)
    ensures
        layout.array_stride == INSTANCE_STRIDE,
        layout.array_stride == 2 * format_size(VertexFormat::Float32x4),
        layout.step_mode == VertexStepMode::Instance,
        layout.attributes@ == seq![
            VertexAttribute {
                format: VertexFormat::Float32x4,
                offset: 0,
                shader_location: POSITION_SCALE_LOCATION,
            },
            VertexAttribute {
                format: VertexFormat::Float32x4,
                offset: format_size(VertexFormat::Float32x4),
                shader_location: COLOR_LOCATION,
            },
        ],
{
    let position_scale = VertexAttribute {
        format: VertexFormat::Float32x4,
        offset: 0,
        shader_location: POSITION_SCALE_LOCATION,
    };
    let color = VertexAttribute {
        format: VertexFormat::Float32x4,
        offset: VertexFormat::Float32x4.size(),
        shader_location: COLOR_LOCATION,
    };
    let attributes = vec![position_scale, color];
    assert(attributes@ =~= seq![position_scale, color]);
    VertexBufferLayout { array_stride: INSTANCE_STRIDE, step_mode: VertexStepMode::Instance, attributes }
}

/// Depth test that always passes and never writes, at 32-bit float precision:
/// the back-to-front order alone decides what covers what.
pub open spec fn instanced_depth_stencil() -> DepthStencilState {
    DepthStencilState {
        format: TextureFormat::Depth32Float,
        depth_compare: CompareFunction::Always,
        depth_write_enabled: false,
    }
}

/// An 8-bit sRGB target with "over" alpha blending on all channels.
pub open spec fn instanced_color_target() -> ColorTargetState {
    ColorTargetState {
        format: TextureFormat::Rgba8UnormSrgb,
        blend: Some(BlendState::AlphaBlending),
        write_mask: COLOR_WRITES_ALL,
    }
}

/// Why the host's mesh pipeline could not take the overrides.
#[derive(Clone, Copy, Debug, PartialEq, Eq, Structural, Hash)]
pub enum SpecializeError {
    /// The base pipeline has no fragment stage.
    MissingFragmentStage,
    /// The base pipeline's fragment stage has no color target.
    MissingColorTarget,
}

/// What replaces the base pipeline's state: the depth state, the first color
/// target, and a vertex buffer appended after the mesh's own buffers. Both
/// shader stages also switch to the instancing shader.
pub struct PipelineOverrides {
    pub depth_stencil: DepthStencilState,
    pub color_target_index: usize,
    pub color_target: ColorTargetState,
    pub instance_buffer_slot: usize,
    pub instance_layout: VertexBufferLayout,
}

/// The overrides for a base pipeline with `mesh_buffer_count` vertex buffers
/// and, when it has a fragment stage, `fragment_targets` color targets.
pub fn specialize_overrides(mesh_buffer_count: usize, fragment_targets: Option<usize>) -> (r: Result<
    PipelineOverrides,
    SpecializeError,
>)
    ensures
        fragment_targets is None <==> r == Err::<PipelineOverrides, SpecializeError>(
            SpecializeError::MissingFragmentStage,
        ),
        fragment_targets == Some(0usize) <==> r == Err::<PipelineOverrides, SpecializeError>(
            SpecializeError::MissingColorTarget,
        ),
        r matches Ok(o) ==> {
            &&& o.depth_stencil == instanced_depth_stencil()
            &&& o.color_target_index == 0
            &&& o.color_target == instanced_color_target()
            &&& o.instance_buffer_slot == mesh_buffer_count
            &&& o.instance_layout.array_stride == INSTANCE_STRIDE
            &&& o.instance_layout.step_mode == VertexStepMode::Instance
            &&& o.instance_layout.attributes@ == seq![
                VertexAttribute {
                    format: VertexFormat::Float32x4,
                    offset: 0,
                    shader_location: POSITION_SCALE_LOCATION,
                },
                VertexAttribute {
                    format: VertexFormat::Float32x4,
                    offset: format_size(VertexFormat::Float32x4),
                    shader_location: COLOR_LOCATION,
                },
            ]
        },
{
    match fragment_targets {
        None => Err(SpecializeError::MissingFragmentStage),
        Some(count) => {
            if count == 0 {
                Err(SpecializeError::MissingColorTarget)
            } else {
                Ok(
                    PipelineOverrides {
                        depth_stencil: DepthStencilState {
                            format: TextureFormat::Depth32Float,
                            depth_compare: CompareFunction::Always,
                            depth_write_enabled: false,
                        },
                        color_target_index: 0,
                        color_target: ColorTargetState {
                            format: TextureFormat::Rgba8UnormSrgb,
                            blend: Some(BlendState::AlphaBlending),
                            write_mask: COLOR_WRITES_ALL,
                        },
                        instance_buffer_slot: mesh_buffer_count,
                        instance_layout: instance_buffer_layout(),
                    },
                )
            }
        },
    }
}

/// Asking twice for the same key yields the pipeline of the first request,
/// and the second request changes nothing.
pub proof fn lemma_second_request_is_cached<P, E>(
    before: Map<SpecializationKey, P>,
    key: SpecializationKey,
    first: Result<P, E>,
    between: Map<SpecializationKey, P>,
    second: Result<P, E>,
    after: Map<SpecializationKey, P>,
)
    requires
        specialized(before, key, first, between),
        first is Ok,
        specialized(between, key, second, after),
    ensures
        second == first,
        after == between,
{
}

} // verus!
