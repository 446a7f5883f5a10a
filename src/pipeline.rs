//! What a render pipeline is built from: primitive state, vertex streams and
//! bind-group layouts, in the order the shader expects them.

use vstd::prelude::*;
use crate::frame::{BindGroupKind, CAMERA_GROUP, TEXTURE_GROUP};
use crate::layout::{instance_layout, layout_of, layout_view, AttributeFormat, BufferLayout, StepMode, INSTANCE_FIRST_LOCATION};
use crate::selection::Topology;

verus! {

/// Which winding order counts as the front of a triangle.
#[derive(PartialEq, Eq, Structural, Clone, Copy, Debug)]
pub enum FrontFace {
    Ccw,
    Cw,
}

/// How primitives are assembled, culled and filled.
#[derive(PartialEq, Eq, Structural, Clone, Copy, Debug)]
pub struct PrimitiveDesc {
    pub topology: Topology,
    pub front_face: FrontFace,
    /// Back faces are culled.
    pub cull_back: bool,
    /// Polygons are filled (not drawn as lines or points).
    pub fill: bool,
}

/// Primitive state for a topology: counter-clockwise front faces, back faces
/// culled, polygons filled.
pub fn primitive_desc(topology: Topology) -> (r: PrimitiveDesc)
    ensures
        r == (PrimitiveDesc { topology, front_face: FrontFace::Ccw, cull_back: true, fill: true }),
{
    PrimitiveDesc { topology, front_face: FrontFace::Ccw, cull_back: true, fill: true }
}

/// Shader stage that reads a binding.
#[derive(PartialEq, Eq, Structural, Clone, Copy, Debug)]
pub enum Stage {
    Vertex,
    Fragment,
}

/// Kind of resource behind a binding.
#[derive(PartialEq, Eq, Structural, Clone, Copy, Debug)]
pub enum BindingType {
    /// A filterable 2D float texture, not multisampled.
    Texture2d,
    /// A filtering sampler.
    Sampler,
    /// A uniform buffer without dynamic offset.
    Uniform,
}

/// One entry of a bind-group layout.
#[derive(PartialEq, Eq, Structural, Clone, Copy, Debug)]
pub struct BindingEntry {
    pub binding: u32,
    pub visibility: Stage,
    pub ty: BindingType,
}

/// The entries of each bind-group layout.
pub open spec fn entries_of(kind: BindGroupKind) -> Seq<BindingEntry> {
    match kind {
        BindGroupKind::TextureSampler => seq![
            BindingEntry { binding: 0, visibility: Stage::Fragment, ty: BindingType::Texture2d },
            BindingEntry { binding: 1, visibility: Stage::Fragment, ty: BindingType::Sampler },
        ],
        BindGroupKind::CameraUniform => seq![
            BindingEntry { binding: 0, visibility: Stage::Vertex, ty: BindingType::Uniform },
        ],
    }
}

/// Layout entries of a bind group: texture at binding 0 and sampler at
/// binding 1 for the fragment stage, or the camera uniform at binding 0 for
/// the vertex stage.
pub fn layout_entries(kind: BindGroupKind) -> (r: Vec<BindingEntry>)
    ensures
        r@ == entries_of(kind),
{
    match kind {
        BindGroupKind::TextureSampler => vec![
            BindingEntry { binding: 0, visibility: Stage::Fragment, ty: BindingType::Texture2d },
            BindingEntry { binding: 1, visibility: Stage::Fragment, ty: BindingType::Sampler },
        ],
        BindGroupKind::CameraUniform => vec![
            BindingEntry { binding: 0, visibility: Stage::Vertex, ty: BindingType::Uniform },
        ],
    }
}

/// Everything a render pipeline is built from, besides the shader and the
/// surface format.
pub struct PipelineDesc {
    pub primitive: PrimitiveDesc,
    /// Vertex streams by slot: the mesh first, then per-instance data if any.
    pub vertex_buffers: Vec<BufferLayout>,
    /// Bind-group layouts by group index.
    pub bind_groups: Vec<BindGroupKind>,
}

/// Bind groups of a pipeline, by group index: the texture group, then the
/// camera group, each only when used.
pub open spec fn groups_of(textured: bool, with_camera: bool) -> Seq<BindGroupKind> {
    (if textured { seq![BindGroupKind::TextureSampler] } else { Seq::empty() })
        + (if with_camera { seq![BindGroupKind::CameraUniform] } else { Seq::empty() })
}

/// Assembles a pipeline description from the topology, the mesh layout and
/// the resources used. The camera group sits at index 1, so a pipeline with a
/// camera also has the texture group at index 0.
pub fn pipeline_desc(topology: Topology, mesh: BufferLayout, instanced: bool, textured: bool, with_camera: bool) -> (r: PipelineDesc)
    requires
        with_camera ==> textured,
    ensures
        r.primitive == (PrimitiveDesc { topology, front_face: FrontFace::Ccw, cull_back: true, fill: true }),
        r.vertex_buffers@.len() == if instanced { 2int } else { 1int },
        layout_view(&r.vertex_buffers@[0]) == layout_view(&mesh),
        instanced ==> layout_view(&r.vertex_buffers@[1]) == layout_of(
            seq![AttributeFormat::Float32x4, AttributeFormat::Float32x4, AttributeFormat::Float32x4, AttributeFormat::Float32x4],
            INSTANCE_FIRST_LOCATION,
            StepMode::Instance,
        ),
        r.bind_groups@ == groups_of(textured, with_camera),
        textured ==> r.bind_groups@[TEXTURE_GROUP as int] == BindGroupKind::TextureSampler,
        with_camera ==> r.bind_groups@[CAMERA_GROUP as int] == BindGroupKind::CameraUniform,
{
    let ghost m = layout_view(&mesh);
    let mut vertex_buffers: Vec<BufferLayout> = Vec::new();
    vertex_buffers.push(mesh);
    if instanced {
        vertex_buffers.push(instance_layout());
    }
    let mut bind_groups: Vec<BindGroupKind> = Vec::new();
    if textured {
        bind_groups.push(BindGroupKind::TextureSampler);
    }
    if with_camera {
        bind_groups.push(BindGroupKind::CameraUniform);
    }
    proof {
        assert(bind_groups@ =~= groups_of(textured, with_camera));
    }
    PipelineDesc { primitive: primitive_desc(topology), vertex_buffers, bind_groups }
}

} // verus!
