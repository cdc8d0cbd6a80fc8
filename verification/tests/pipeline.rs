use game_engine::pipeline::{
    buffer_usage, color_target, default_pipeline_desc, default_pipeline_for_format, group_entries, layout_entries, BindGroupLayout,
    BindingKind, BindingResource, BlendComponent, BlendFactor, BlendOperation, BlendState,
    BufferRole, BufferUsage, CompareFunction, DepthDesc, Face, FrontFace, GroupEntry, LayoutEntry,
    PipelineBuilder, PipelineDesc, PolygonMode, PrimitiveTopology, ShaderStage,
    VertexBufferLayout, CAMERA_GROUP, TEXTURE_GROUP,
};
use game_engine::surface::{surface_config, Renderer};
use wgpu::{CompositeAlphaMode, PresentMode, TextureFormat};

fn surface() -> Renderer {
    Renderer::new(surface_config(
        800,
        600,
        &vec![TextureFormat::Bgra8Unorm],
        &vec![PresentMode::Fifo],
        &vec![CompositeAlphaMode::Opaque],
    ))
}

type Stage = (u8, &'static str);

fn check_same(a: &PipelineDesc<Stage>, b: &PipelineDesc<Stage>) {
    assert_eq!(a.bind_group_layouts, b.bind_group_layouts);
    assert_eq!(a.vertex, b.vertex);
    assert_eq!(a.vertex_buffers, b.vertex_buffers);
    assert_eq!(a.fragment.as_ref().map(|f| (f.stage, f.target)), b.fragment.as_ref().map(|f| (f.stage, f.target)));
    assert_eq!(a.primitive, b.primitive);
    assert_eq!(a.depth, b.depth);
    assert_eq!(a.multisample, b.multisample);
}

#[test]
fn replace_blend_keeps_source() {
    let r = BlendState::replace();
    let c = BlendComponent { src_factor: BlendFactor::One, dst_factor: BlendFactor::Zero, operation: BlendOperation::Add };
    assert_eq!(r, BlendState { color: c, alpha: c });
}

#[test]
fn default_pipeline_description() {
    let d = default_pipeline_desc(1u8, 2u8, &surface());
    assert_eq!(d.bind_group_layouts, (BindGroupLayout::Texture, BindGroupLayout::Camera));
    assert_eq!(d.vertex_buffers, (VertexBufferLayout::ModelVertex, VertexBufferLayout::Instance));
    assert_eq!(d.vertex, (1u8, "vs_main"));
    let f = d.fragment.as_ref().unwrap();
    assert_eq!(f.stage, (2u8, "fs_main"));
    assert_eq!(f.target.format, TextureFormat::Bgra8UnormSrgb);
    assert_eq!(f.target.blend, Some(BlendState::replace()));
    assert!(f.target.write_all);
    assert_eq!(d.primitive.topology, PrimitiveTopology::TriangleList);
    assert_eq!(d.primitive.front_face, FrontFace::Ccw);
    assert_eq!(d.primitive.cull_mode, Some(Face::Back));
    assert_eq!(d.primitive.polygon_mode, PolygonMode::Fill);
    assert_eq!(d.primitive.strip_index_format, None);
    assert!(!d.primitive.unclipped_depth);
    assert!(!d.primitive.conservative);
    assert_eq!(d.depth, Some(DepthDesc { depth_write_enabled: true, depth_compare: CompareFunction::Less }));
    assert_eq!(d.multisample.count, 1);
    assert_eq!(d.multisample.mask, u64::MAX);
    assert!(!d.multisample.alpha_to_coverage_enabled);
    assert_eq!(TEXTURE_GROUP, 0);
    assert_eq!(CAMERA_GROUP, 1);
}

#[test]
fn fresh_builder_builds_default_pipeline() {
    let s = surface();
    let b = PipelineBuilder::new().vertex_shader((1u8, "vs_main")).fragment_shader((2u8, "fs_main"));
    check_same(&b.build(&s), &default_pipeline_desc(1u8, 2u8, &s));
}

#[test]
fn builder_settings_reach_description() {
    let blend = BlendState {
        color: BlendComponent { src_factor: BlendFactor::SrcAlpha, dst_factor: BlendFactor::OneMinusSrcAlpha, operation: BlendOperation::Add },
        alpha: BlendComponent { src_factor: BlendFactor::One, dst_factor: BlendFactor::OneMinusSrcAlpha, operation: BlendOperation::Add },
    };
    let d = PipelineBuilder::new()
        .vertex_shader((1u8, "v"))
        .fragment_shader((2u8, "f"))
        .topology(PrimitiveTopology::LineList)
        .cull_mode(None)
        .depth_test(false)
        .blend(Some(blend))
        .build(&surface());
    assert_eq!(d.primitive.topology, PrimitiveTopology::LineList);
    assert_eq!(d.primitive.cull_mode, None);
    assert_eq!(d.depth, None);
    let f = d.fragment.as_ref().unwrap();
    assert_eq!(f.target.blend, Some(blend));
    assert_eq!(f.target.format, TextureFormat::Bgra8UnormSrgb);
    assert_eq!(f.stage, (2u8, "f"));
    assert_eq!(d.bind_group_layouts, (BindGroupLayout::Texture, BindGroupLayout::Camera));
}

#[test]
fn builder_without_fragment_shader_has_no_fragment_stage() {
    let b = PipelineBuilder::new().vertex_shader((1u8, "v"));
    assert!(b.has_vertex_shader());
    let d = b.build(&surface());
    assert!(d.fragment.is_none());
    assert_eq!(d.depth, Some(DepthDesc { depth_write_enabled: true, depth_compare: CompareFunction::Less }));
}

#[test]
fn later_setting_wins() {
    let d = PipelineBuilder::new()
        .vertex_shader((1u8, "a"))
        .vertex_shader((2u8, "b"))
        .topology(PrimitiveTopology::PointList)
        .topology(PrimitiveTopology::TriangleStrip)
        .build(&surface());
    assert_eq!(d.vertex, (2u8, "b"));
    assert_eq!(d.primitive.topology, PrimitiveTopology::TriangleStrip);
}

#[test]
fn setters_commute() {
    let a = PipelineBuilder::new().vertex_shader((1u8, "v")).cull_mode(None).topology(PrimitiveTopology::LineStrip).build(&surface());
    let b = PipelineBuilder::new().vertex_shader((1u8, "v")).topology(PrimitiveTopology::LineStrip).cull_mode(None).build(&surface());
    assert_eq!(a.primitive, b.primitive);
}

#[test]
fn fresh_builder_has_no_vertex_shader() {
    let b: PipelineBuilder<Stage> = PipelineBuilder::new();
    assert!(!b.has_vertex_shader());
}

#[test]
fn texture_layout_has_texture_then_sampler() {
    assert_eq!(
        layout_entries(BindGroupLayout::Texture),
        vec![
            LayoutEntry { binding: 0, visibility: ShaderStage::Fragment, kind: BindingKind::FilterableTexture2d },
            LayoutEntry { binding: 1, visibility: ShaderStage::Fragment, kind: BindingKind::FilteringSampler },
        ]
    );
}

#[test]
fn camera_layout_is_one_vertex_uniform() {
    assert_eq!(
        layout_entries(BindGroupLayout::Camera),
        vec![LayoutEntry { binding: 0, visibility: ShaderStage::Vertex, kind: BindingKind::UniformBuffer }]
    );
}

#[test]
fn bind_groups_fill_their_layouts() {
    assert_eq!(
        group_entries(BindGroupLayout::Texture),
        vec![
            GroupEntry { binding: 0, resource: BindingResource::DiffuseTextureView },
            GroupEntry { binding: 1, resource: BindingResource::DiffuseSampler },
        ]
    );
    assert_eq!(
        group_entries(BindGroupLayout::Camera),
        vec![GroupEntry { binding: 0, resource: BindingResource::CameraBuffer }]
    );
}

#[test]
fn buffer_usages() {
    assert_eq!(buffer_usage(BufferRole::Camera), BufferUsage { uniform: true, copy_dst: true, vertex: false, index: false });
    assert_eq!(buffer_usage(BufferRole::Vertices), BufferUsage { uniform: false, copy_dst: false, vertex: true, index: false });
    assert_eq!(buffer_usage(BufferRole::Indices), BufferUsage { uniform: false, copy_dst: false, vertex: false, index: true });
    assert_eq!(buffer_usage(BufferRole::Instances), BufferUsage { uniform: false, copy_dst: false, vertex: true, index: false });
}

#[test]
fn default_pipeline_for_given_format() {
    let d = default_pipeline_for_format(1u8, 2u8, TextureFormat::Rgba16Float);
    assert_eq!(d.fragment.as_ref().unwrap().target.format, TextureFormat::Rgba16Float);
    assert_eq!(d.vertex, (1u8, "vs_main"));
}

#[test]
fn builder_for_given_format() {
    let d = PipelineBuilder::new().vertex_shader((1u8, "v")).fragment_shader((2u8, "f")).build_for_format(TextureFormat::Rgba8UnormSrgb);
    assert_eq!(d.fragment.as_ref().unwrap().target, color_target(TextureFormat::Rgba8UnormSrgb, Some(BlendState::replace())));
}

#[test]
fn color_target_writes_all_channels() {
    let t = color_target(TextureFormat::Bgra8UnormSrgb, None);
    assert_eq!(t.format, TextureFormat::Bgra8UnormSrgb);
    assert_eq!(t.blend, None);
    assert!(t.write_all);
}
