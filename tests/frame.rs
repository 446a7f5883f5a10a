use render_loop::frame::{
    plan_frame, record_pass, BindGroupKind, FramePlan, LoadOp, PassCommand, Scene, StoreOp, VertexStream,
};
use render_loop::surface::SurfaceManager;

fn instanced_scene() -> Scene {
    Scene {
        has_texture: true,
        has_camera: true,
        instance_count: Some(10_000),
        index_count: Some(9),
        vertex_count: 5,
    }
}

#[test]
fn full_scene_records_everything_then_one_indexed_draw() {
    let cmds = record_pass(&instanced_scene());
    assert_eq!(
        cmds,
        vec![
            PassCommand::SetPipeline,
            PassCommand::SetBindGroup { group: 0, kind: BindGroupKind::TextureSampler },
            PassCommand::SetBindGroup { group: 1, kind: BindGroupKind::CameraUniform },
            PassCommand::SetVertexBuffer { slot: 0, stream: VertexStream::Mesh },
            PassCommand::SetVertexBuffer { slot: 1, stream: VertexStream::Instances },
            PassCommand::SetIndexBuffer,
            PassCommand::DrawIndexed { index_count: 9, instance_count: 10_000 },
        ]
    );
}

#[test]
fn plain_scene_draws_raw_vertices_once() {
    let s = Scene { has_texture: false, has_camera: false, instance_count: None, index_count: None, vertex_count: 6 };
    assert_eq!(
        record_pass(&s),
        vec![
            PassCommand::SetPipeline,
            PassCommand::SetVertexBuffer { slot: 0, stream: VertexStream::Mesh },
            PassCommand::Draw { vertex_count: 6, instance_count: 1 },
        ]
    );
}

#[test]
fn indexed_scene_without_instances_draws_one_instance() {
    let s = Scene { has_texture: true, has_camera: false, instance_count: None, index_count: Some(42), vertex_count: 16 };
    let cmds = record_pass(&s);
    assert_eq!(cmds.last(), Some(&PassCommand::DrawIndexed { index_count: 42, instance_count: 1 }));
    let draws = cmds
        .iter()
        .filter(|c| matches!(c, PassCommand::Draw { .. } | PassCommand::DrawIndexed { .. }))
        .count();
    assert_eq!(draws, 1);
}

#[test]
fn unconfigured_surface_skips_the_frame() {
    let s = SurfaceManager::new(800, 600);
    assert!(matches!(plan_frame(&s, &instanced_scene()), FramePlan::Skip));
}

#[test]
fn configured_surface_renders_the_pass() {
    let mut s = SurfaceManager::new(800, 600);
    s.configure(800, 600);
    match plan_frame(&s, &instanced_scene()) {
        FramePlan::Render { load, store, commands } => {
            assert_eq!(load, LoadOp::Clear);
            assert_eq!(store, StoreOp::Store);
            assert_eq!(commands, record_pass(&instanced_scene()));
        }
        FramePlan::Skip => panic!("configured surface must render"),
    }
}
