use game_engine::pass::{
    draw_meshes, instance_range, InstanceSource, InstancedModel, MeshCommand, MeshDraw, PassCommand,
    PipelineChoice, RenderCtx, INSTANCE_SLOT, VERTEX_SLOT,
};

type Cmd = PassCommand<u8>;

#[test]
fn frame_begins_cleared_with_default_pipeline_and_camera() {
    let (_ctx, cmds) = RenderCtx::begin(7u8);
    assert_eq!(
        cmds,
        vec![
            Cmd::BeginPass { clear: 7 },
            Cmd::SetPipeline(PipelineChoice::Default),
            Cmd::SetCameraBindGroup { index: 1 }
        ]
    );
}

#[test]
fn clear_restarts_pass_with_chosen_colour_and_same_pipeline() {
    let (mut ctx, _) = RenderCtx::begin(0u8);
    ctx.set_pipeline();
    assert_eq!(
        ctx.clear(9),
        vec![
            Cmd::BeginPass { clear: 9 },
            Cmd::SetPipeline(PipelineChoice::Custom),
            Cmd::SetCameraBindGroup { index: 1 }
        ]
    );
    assert_eq!(ctx.draw_model().len(), 2);
}

#[test]
fn draw_model_binds_placeholder_instances() {
    let (mut ctx, _) = RenderCtx::begin(0u8);
    assert_eq!(
        ctx.draw_model(),
        vec![
            Cmd::SetInstanceBuffer { slot: 1, source: InstanceSource::Placeholder },
            Cmd::DrawModel
        ]
    );
    assert_eq!(INSTANCE_SLOT, 1);
}

#[test]
fn draw_instanced_uses_instance_count() {
    let (mut ctx, _) = RenderCtx::begin(0u8);
    let m = InstancedModel::new("model", "buffer", 12);
    assert_eq!(m.instance_num, 12);
    assert_eq!(m.model, "model");
    assert_eq!(m.instance_buffer, "buffer");
    assert_eq!(
        ctx.draw_model_instanced(&m),
        vec![
            Cmd::SetInstanceBuffer { slot: 1, source: InstanceSource::Uploaded },
            Cmd::DrawModelInstanced { first: 0, end: 12 }
        ]
    );
}

#[test]
fn instance_count_wraps_at_u32() {
    let m = InstancedModel::new((), (), (u32::MAX as usize) + 3);
    assert_eq!(m.instance_num, 2);
}

#[test]
fn switching_pipelines_rebinds_camera() {
    let (mut ctx, _) = RenderCtx::begin(0u8);
    assert_eq!(
        ctx.set_pipeline(),
        vec![Cmd::SetPipeline(PipelineChoice::Custom), Cmd::SetCameraBindGroup { index: 1 }]
    );
    assert_eq!(
        ctx.use_default_pipeline(),
        vec![Cmd::SetPipeline(PipelineChoice::Default), Cmd::SetCameraBindGroup { index: 1 }]
    );
    assert_eq!(ctx.draw_model().len(), 2);
}

#[test]
fn set_camera_rebinds_camera_group() {
    let (mut ctx, _) = RenderCtx::begin(0u8);
    assert_eq!(ctx.set_camera(), vec![Cmd::SetCameraBindGroup { index: 1 }]);
}

#[test]
fn plain_draw_is_instances_zero_to_one() {
    assert_eq!(instance_range(&Cmd::DrawModel), Some((0, 1)));
    assert_eq!(instance_range(&Cmd::DrawModelInstanced { first: 2, end: 5 }), Some((2, 5)));
    assert_eq!(instance_range(&Cmd::SetCameraBindGroup { index: 1 }), None);
}

#[test]
fn meshes_drawn_in_order_with_their_materials() {
    let meshes = vec![MeshDraw { num_elements: 6, material: 1 }, MeshDraw { num_elements: 3, material: 0 }];
    assert_eq!(VERTEX_SLOT, 0);
    assert_eq!(
        draw_meshes(&meshes, 2, 0, 4),
        vec![
            MeshCommand::SetVertexBuffer { slot: 0, mesh: 0 },
            MeshCommand::SetIndexBuffer { mesh: 0 },
            MeshCommand::SetMaterialGroup { index: 0, material: 1 },
            MeshCommand::DrawIndexed { index_end: 6, first: 0, end: 4 },
            MeshCommand::SetVertexBuffer { slot: 0, mesh: 1 },
            MeshCommand::SetIndexBuffer { mesh: 1 },
            MeshCommand::SetMaterialGroup { index: 0, material: 0 },
            MeshCommand::DrawIndexed { index_end: 3, first: 0, end: 4 },
        ]
    );
    assert!(draw_meshes(&vec![], 0, 0, 1).is_empty());
}
