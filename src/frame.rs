//! The commands recorded into the single render pass of a frame.

use vstd::prelude::*;
use crate::surface::{FrameStart, SurfaceManager};

verus! {

/// Which resource set a bind group holds.
#[derive(PartialEq, Eq, Structural, Clone, Copy, Debug)]
pub enum BindGroupKind {
    /// Texture view (binding 0) and sampler (binding 1), read by the fragment stage.
    TextureSampler,
    /// Camera uniform buffer (binding 0), read by the vertex stage.
    CameraUniform,
}

/// Which buffer feeds a vertex-buffer slot.
#[derive(PartialEq, Eq, Structural, Clone, Copy, Debug)]
pub enum VertexStream {
    /// Per-vertex geometry.
    Mesh,
    /// Per-instance model matrices.
    Instances,
}

/// Bind-group index of the texture and sampler.
pub const TEXTURE_GROUP: u32 = 0;
/// Bind-group index of the camera uniform.
pub const CAMERA_GROUP: u32 = 1;

/// One command recorded into a render pass.
#[derive(PartialEq, Eq, Structural, Clone, Copy, Debug)]
pub enum PassCommand {
    SetPipeline,
    SetBindGroup { group: u32, kind: BindGroupKind },
    SetVertexBuffer { slot: u32, stream: VertexStream },
    /// Binds the index buffer, 16-bit indices.
    SetIndexBuffer,
    DrawIndexed { index_count: u32, instance_count: u32 },
    Draw { vertex_count: u32, instance_count: u32 },
}

/// What is bound when a frame is drawn.
#[derive(PartialEq, Eq, Structural, Clone, Copy, Debug)]
pub struct Scene {
    /// A texture-and-sampler bind group exists.
    pub has_texture: bool,
    /// A camera-uniform bind group exists.
    pub has_camera: bool,
    /// Number of instances when an instance buffer is bound.
    pub instance_count: Option<u32>,
    /// Number of indices when an index buffer is bound.
    pub index_count: Option<u32>,
    /// Number of vertices in the mesh buffer.
    pub vertex_count: u32,
}

/// Instances drawn: the instance-set size, or one without an instance buffer.
pub open spec fn instances_drawn(s: Scene) -> u32 {
    match s.instance_count {
        Some(n) => n,
        None => 1,
    }
}

/// The one draw of a frame: indexed over all indices when an index buffer is
/// bound, otherwise over the raw vertices.
pub open spec fn draw_of(s: Scene) -> PassCommand {
    match s.index_count {
        Some(n) => PassCommand::DrawIndexed { index_count: n, instance_count: instances_drawn(s) },
        None => PassCommand::Draw { vertex_count: s.vertex_count, instance_count: instances_drawn(s) },
    }
}

/// Whether a command is a draw.
pub open spec fn is_draw(c: PassCommand) -> bool {
    c is DrawIndexed || c is Draw
}

/// The pass of a frame: pipeline, bind groups in group order, vertex buffers
/// in slot order, the index buffer, then exactly one draw.
pub open spec fn pass_commands(s: Scene) -> Seq<PassCommand> {
    seq![PassCommand::SetPipeline]
        + (if s.has_texture {
            seq![PassCommand::SetBindGroup { group: TEXTURE_GROUP, kind: BindGroupKind::TextureSampler }]
        } else {
            Seq::empty()
        })
        + (if s.has_camera {
            seq![PassCommand::SetBindGroup { group: CAMERA_GROUP, kind: BindGroupKind::CameraUniform }]
        } else {
            Seq::empty()
        })
        + seq![PassCommand::SetVertexBuffer { slot: 0, stream: VertexStream::Mesh }]
        + (if s.instance_count is Some {
            seq![PassCommand::SetVertexBuffer { slot: 1, stream: VertexStream::Instances }]
        } else {
            Seq::empty()
        })
        + (if s.index_count is Some {
            seq![PassCommand::SetIndexBuffer]
        } else {
            Seq::empty()
        })
        + seq![draw_of(s)]
}

/// Lists the commands to record into the frame's render pass.
pub fn record_pass(s: &Scene) -> (r: Vec<PassCommand>)
    ensures
        r@ == pass_commands(*s),
        r@.len() >= 2,
        r@.last() == draw_of(*s),
        forall|i: int| 0 <= i < r@.len() - 1 ==> !is_draw(#[trigger] r@[i]),
{
    let mut r: Vec<PassCommand> = Vec::new();
    r.push(PassCommand::SetPipeline);
    let ghost a = r@;
    if s.has_texture {
        r.push(PassCommand::SetBindGroup { group: TEXTURE_GROUP, kind: BindGroupKind::TextureSampler });
    }
    let ghost b = r@;
    if s.has_camera {
        r.push(PassCommand::SetBindGroup { group: CAMERA_GROUP, kind: BindGroupKind::CameraUniform });
    }
    let ghost c = r@;
    r.push(PassCommand::SetVertexBuffer { slot: 0, stream: VertexStream::Mesh });
    let ghost d = r@;
    if s.instance_count.is_some() {
        r.push(PassCommand::SetVertexBuffer { slot: 1, stream: VertexStream::Instances });
    }
    let ghost e = r@;
    if s.index_count.is_some() {
        r.push(PassCommand::SetIndexBuffer);
    }
    let ghost f = r@;
    let instance_count: u32 = match s.instance_count {
        Some(n) => n,
        None => 1,
    };
    let draw = match s.index_count {
        Some(n) => PassCommand::DrawIndexed { index_count: n, instance_count },
        None => PassCommand::Draw { vertex_count: s.vertex_count, instance_count },
    };
    r.push(draw);
    proof {
        assert(r@ =~= pass_commands(*s));
        assert forall|i: int| 0 <= i < r@.len() - 1 implies !is_draw(#[trigger] r@[i]) by {
            assert(r@[i] == f[i]);
        }
    }
    r
}

/// What the render pass does with the target's previous contents.
#[derive(PartialEq, Eq, Structural, Clone, Copy, Debug)]
pub enum LoadOp {
    /// Fill the target with the clear colour first.
    Clear,
    /// Keep what is there.
    Load,
}

/// What the render pass does with its results.
#[derive(PartialEq, Eq, Structural, Clone, Copy, Debug)]
pub enum StoreOp {
    /// Keep the results in the target.
    Store,
    /// Throw them away.
    Discard,
}

/// What a redraw does.
pub enum FramePlan {
    /// The surface is not configured: draw nothing and report success.
    Skip,
    /// Acquire a texture, record these commands into one pass with the given
    /// load and store operations, submit, then present.
    Render { load: LoadOp, store: StoreOp, commands: Vec<PassCommand> },
}

/// Plans one redraw of the scene on the given surface.
pub fn plan_frame(surface: &SurfaceManager, scene: &Scene) -> (r: FramePlan)
    ensures
        !surface.configured <==> r is Skip,
        match r {
            FramePlan::Render { load, store, commands } => {
                &&& load == LoadOp::Clear
                &&& store == StoreOp::Store
                &&& commands@ == pass_commands(*scene)
            },
            FramePlan::Skip => true,
        },
{
    match surface.begin_frame() {
        FrameStart::Skip => FramePlan::Skip,
        FrameStart::Acquire => FramePlan::Render {
            load: LoadOp::Clear,
            store: StoreOp::Store,
            commands: record_pass(scene),
        },
    }
}

} // verus!
