use vstd::prelude::*;
use crate::surface::{srgb_format, Renderer};

verus! {

/// How vertices are assembled into primitives.
#[derive(PartialEq, Eq, Structural, Clone, Copy, Debug)]
pub enum PrimitiveTopology {
    PointList,
    LineList,
    LineStrip,
    TriangleList,
    TriangleStrip,
}

/// Which winding order makes a triangle front-facing.
#[derive(PartialEq, Eq, Structural, Clone, Copy, Debug)]
pub enum FrontFace {
    Ccw,
    Cw,
}

/// A side of a triangle, for culling.
#[derive(PartialEq, Eq, Structural, Clone, Copy, Debug)]
pub enum Face {
    Front,
    Back,
}

/// How polygons are rasterised.
#[derive(PartialEq, Eq, Structural, Clone, Copy, Debug)]
pub enum PolygonMode {
    Fill,
    Line,
    Point,
}

/// The type of the indices of a strip primitive.
#[derive(PartialEq, Eq, Structural, Clone, Copy, Debug)]
pub enum IndexFormat {
    Uint16,
    Uint32,
}

/// A depth or stencil comparison.
#[derive(PartialEq, Eq, Structural, Clone, Copy, Debug)]
pub enum CompareFunction {
    Never,
    Less,
    Equal,
    LessEqual,
    Greater,
    NotEqual,
    GreaterEqual,
    Always,
}

/// A factor of the blend equation.
#[derive(PartialEq, Eq, Structural, Clone, Copy, Debug)]
pub enum BlendFactor {
    Zero,
    One,
    Src,
    OneMinusSrc,
    SrcAlpha,
    OneMinusSrcAlpha,
    Dst,
    OneMinusDst,
    DstAlpha,
    OneMinusDstAlpha,
    SrcAlphaSaturated,
    Constant,
    OneMinusConstant,
    Src1,
    OneMinusSrc1,
    Src1Alpha,
    OneMinusSrc1Alpha,
}

/// The operation that combines the blend equation's two terms.
#[derive(PartialEq, Eq, Structural, Clone, Copy, Debug)]
pub enum BlendOperation {
    Add,
    Subtract,
    ReverseSubtract,
    Min,
    Max,
}

/// The blend equation of one channel group.
#[derive(PartialEq, Eq, Structural, Clone, Copy, Debug)]
pub struct BlendComponent {
    pub src_factor: BlendFactor,
    pub dst_factor: BlendFactor,
    pub operation: BlendOperation,
}

/// How a fragment's colour is combined with the colour already in the target.
#[derive(PartialEq, Eq, Structural, Clone, Copy, Debug)]
pub struct BlendState {
    pub color: BlendComponent,
    pub alpha: BlendComponent,
}

/// The blend component that keeps the source and drops the destination.
pub open spec fn replace_component() -> BlendComponent {
    BlendComponent {
        src_factor: BlendFactor::One,
        dst_factor: BlendFactor::Zero,
        operation: BlendOperation::Add,
    }
}

/// The blend state that overwrites the target with the fragment's colour.
pub open spec fn replace_blend() -> BlendState {
    BlendState { color: replace_component(), alpha: replace_component() }
}

impl BlendState {
    /// The blend state that overwrites the target with the fragment's colour.
    pub fn replace() -> (r: BlendState)
        ensures
            r == replace_blend(),
    {
        let c = BlendComponent {
            src_factor: BlendFactor::One,
            dst_factor: BlendFactor::Zero,
            operation: BlendOperation::Add,
        };
        BlendState { color: c, alpha: c }
    }
}

/// A bind group layout of the engine.
#[derive(PartialEq, Eq, Structural, Clone, Copy, Debug)]
pub enum BindGroupLayout {
    /// A material's diffuse texture (binding 0) and its sampler (binding 1),
    /// both seen by the fragment stage.
    Texture,
    /// The camera's uniform buffer (binding 0), seen by the vertex stage.
    Camera,
}

/// A shader stage that sees a binding.
#[derive(PartialEq, Eq, Structural, Clone, Copy, Debug)]
pub enum ShaderStage {
    Vertex,
    Fragment,
}

/// What a binding of a bind group holds.
#[derive(PartialEq, Eq, Structural, Clone, Copy, Debug)]
pub enum BindingKind {
    /// A single-sampled two-dimensional texture of filterable floats.
    FilterableTexture2d,
    /// A filtering sampler.
    FilteringSampler,
    /// A uniform buffer without dynamic offset or minimum size.
    UniformBuffer,
}

/// One binding of a bind group layout.
#[derive(PartialEq, Eq, Structural, Clone, Copy, Debug)]
pub struct LayoutEntry {
    pub binding: u32,
    pub visibility: ShaderStage,
    pub kind: BindingKind,
}

/// The bindings of each of the engine's bind group layouts.
pub open spec fn layout_entries_spec(layout: BindGroupLayout) -> Seq<LayoutEntry> {
    match layout {
        BindGroupLayout::Texture => seq![
            LayoutEntry { binding: 0, visibility: ShaderStage::Fragment, kind: BindingKind::FilterableTexture2d },
            LayoutEntry { binding: 1, visibility: ShaderStage::Fragment, kind: BindingKind::FilteringSampler },
        ],
        BindGroupLayout::Camera => seq![
            LayoutEntry { binding: 0, visibility: ShaderStage::Vertex, kind: BindingKind::UniformBuffer },
        ],
    }
}

/// The bindings of one of the engine's bind group layouts.
pub fn layout_entries(layout: BindGroupLayout) -> (r: Vec<LayoutEntry>)
    ensures
        r@ == layout_entries_spec(layout),
{
    match layout {
        BindGroupLayout::Texture => vec![
            LayoutEntry { binding: 0, visibility: ShaderStage::Fragment, kind: BindingKind::FilterableTexture2d },
            LayoutEntry { binding: 1, visibility: ShaderStage::Fragment, kind: BindingKind::FilteringSampler },
        ],
        BindGroupLayout::Camera => vec![
            LayoutEntry { binding: 0, visibility: ShaderStage::Vertex, kind: BindingKind::UniformBuffer },
        ],
    }
}

/// What a binding of a bind group is bound to.
#[derive(PartialEq, Eq, Structural, Clone, Copy, Debug)]
pub enum BindingResource {
    /// The whole of the camera's uniform buffer.
    CameraBuffer,
    /// The view of a material's diffuse texture.
    DiffuseTextureView,
    /// The sampler of a material's diffuse texture.
    DiffuseSampler,
}

/// One binding of a bind group.
#[derive(PartialEq, Eq, Structural, Clone, Copy, Debug)]
pub struct GroupEntry {
    pub binding: u32,
    pub resource: BindingResource,
}

/// The bindings of each of the engine's bind groups: a material's group
/// binds its diffuse texture's view and sampler, the camera's group binds the
/// whole camera buffer.
pub open spec fn group_entries_spec(layout: BindGroupLayout) -> Seq<GroupEntry> {
    match layout {
        BindGroupLayout::Texture => seq![
            GroupEntry { binding: 0, resource: BindingResource::DiffuseTextureView },
            GroupEntry { binding: 1, resource: BindingResource::DiffuseSampler },
        ],
        BindGroupLayout::Camera => seq![GroupEntry { binding: 0, resource: BindingResource::CameraBuffer }],
    }
}

/// The bindings of a bind group made with one of the engine's layouts.
pub fn group_entries(layout: BindGroupLayout) -> (r: Vec<GroupEntry>)
    ensures
        r@ == group_entries_spec(layout),
{
    match layout {
        BindGroupLayout::Texture => vec![
            GroupEntry { binding: 0, resource: BindingResource::DiffuseTextureView },
            GroupEntry { binding: 1, resource: BindingResource::DiffuseSampler },
        ],
        BindGroupLayout::Camera => vec![GroupEntry { binding: 0, resource: BindingResource::CameraBuffer }],
    }
}

/// Whether a resource is what a binding of this kind takes.
pub open spec fn fits(resource: BindingResource, kind: BindingKind) -> bool {
    match resource {
        BindingResource::CameraBuffer => kind == BindingKind::UniformBuffer,
        BindingResource::DiffuseTextureView => kind == BindingKind::FilterableTexture2d,
        BindingResource::DiffuseSampler => kind == BindingKind::FilteringSampler,
    }
}

/// Each bind group fills its layout: the same bindings, in the same order,
/// each with a resource of the kind the layout declares.
pub proof fn lemma_groups_fill_layouts(layout: BindGroupLayout)
    ensures
        group_entries_spec(layout).len() == layout_entries_spec(layout).len(),
        forall|i: int|
            0 <= i < group_entries_spec(layout).len() ==> {
                &&& (#[trigger] group_entries_spec(layout)[i]).binding == layout_entries_spec(layout)[i].binding
                &&& fits(group_entries_spec(layout)[i].resource, layout_entries_spec(layout)[i].kind)
            },
{
}

/// What a buffer of the engine holds.
#[derive(PartialEq, Eq, Structural, Clone, Copy, Debug)]
pub enum BufferRole {
    /// The camera's uniforms, rewritten each time the camera is set.
    Camera,
    /// A mesh's vertices.
    Vertices,
    /// A mesh's indices.
    Indices,
    /// Per-instance transforms (and the one-instance placeholder).
    Instances,
}

/// The ways a buffer may be used.
#[derive(PartialEq, Eq, Structural, Clone, Copy, Debug)]
pub struct BufferUsage {
    pub uniform: bool,
    pub copy_dst: bool,
    pub vertex: bool,
    pub index: bool,
}

/// The usage of each of the engine's buffers: the camera buffer is a uniform
/// buffer that can be written to; vertex and instance buffers feed vertices;
/// index buffers feed indices.
pub open spec fn buffer_usage_spec(role: BufferRole) -> BufferUsage {
    match role {
        BufferRole::Camera => BufferUsage { uniform: true, copy_dst: true, vertex: false, index: false },
        BufferRole::Vertices => BufferUsage { uniform: false, copy_dst: false, vertex: true, index: false },
        BufferRole::Indices => BufferUsage { uniform: false, copy_dst: false, vertex: false, index: true },
        BufferRole::Instances => BufferUsage { uniform: false, copy_dst: false, vertex: true, index: false },
    }
}

/// The usage a buffer of the engine is created with.
pub fn buffer_usage(role: BufferRole) -> (r: BufferUsage)
    ensures
        r == buffer_usage_spec(role),
{
    match role {
        BufferRole::Camera => BufferUsage { uniform: true, copy_dst: true, vertex: false, index: false },
        BufferRole::Vertices => BufferUsage { uniform: false, copy_dst: false, vertex: true, index: false },
        BufferRole::Indices => BufferUsage { uniform: false, copy_dst: false, vertex: false, index: true },
        BufferRole::Instances => BufferUsage { uniform: false, copy_dst: false, vertex: true, index: false },
    }
}

/// A vertex buffer layout of the engine.
#[derive(PartialEq, Eq, Structural, Clone, Copy, Debug)]
pub enum VertexBufferLayout {
    /// Per-vertex data of a model: position, texture coordinates, normal.
    ModelVertex,
    /// Per-instance data: the instance's model matrix.
    Instance,
}

/// The bind group index at which a material's texture is bound.
pub const TEXTURE_GROUP: u32 = 0;

/// The bind group index at which the camera is bound.
pub const CAMERA_GROUP: u32 = 1;

/// The primitive state of a pipeline.
#[derive(PartialEq, Eq, Structural, Clone, Copy, Debug)]
pub struct PrimitiveDesc {
    pub topology: PrimitiveTopology,
    pub strip_index_format: Option<IndexFormat>,
    pub front_face: FrontFace,
    pub cull_mode: Option<Face>,
    pub polygon_mode: PolygonMode,
    pub unclipped_depth: bool,
    pub conservative: bool,
}

/// The depth test of a pipeline, against the renderer's depth texture (its
/// format, and default stencil and bias state).
#[derive(PartialEq, Eq, Structural, Clone, Copy, Debug)]
pub struct DepthDesc {
    pub depth_write_enabled: bool,
    pub depth_compare: CompareFunction,
}

/// The colour target of a pipeline.
#[derive(PartialEq, Eq, Clone, Copy, Debug)]
pub struct ColorTargetDesc {
    pub format: wgpu::TextureFormat,
    pub blend: Option<BlendState>,
    /// Whether all four channels are written.
    pub write_all: bool,
}

/// The fragment stage of a pipeline: a shader entry point and one colour
/// target.
pub struct FragmentDesc<S> {
    pub stage: S,
    pub target: ColorTargetDesc,
}

/// Multisampling of a pipeline.
#[derive(PartialEq, Eq, Structural, Clone, Copy, Debug)]
pub struct MultisampleDesc {
    pub count: u32,
    pub mask: u64,
    pub alpha_to_coverage_enabled: bool,
}

/// Everything a render pipeline is created from. `S` stands for a shader
/// stage: a compiled shader module and the name of its entry point.
pub struct PipelineDesc<S> {
    /// The bind group layouts, at group 0 and group 1.
    pub bind_group_layouts: (BindGroupLayout, BindGroupLayout),
    pub vertex: S,
    /// The vertex buffer layouts, at slot 0 and slot 1.
    pub vertex_buffers: (VertexBufferLayout, VertexBufferLayout),
    pub fragment: Option<FragmentDesc<S>>,
    pub primitive: PrimitiveDesc,
    pub depth: Option<DepthDesc>,
    pub multisample: MultisampleDesc,
}

/// The engine's layouts: texture at group 0, camera at group 1.
pub open spec fn engine_bind_group_layouts() -> (BindGroupLayout, BindGroupLayout) {
    (BindGroupLayout::Texture, BindGroupLayout::Camera)
}

/// The engine's vertex buffers: model vertices at slot 0, instances at slot 1.
pub open spec fn engine_vertex_buffers() -> (VertexBufferLayout, VertexBufferLayout) {
    (VertexBufferLayout::ModelVertex, VertexBufferLayout::Instance)
}

/// The depth test every depth-tested pipeline uses: nearer fragments win and
/// are written.
pub open spec fn engine_depth() -> DepthDesc {
    DepthDesc { depth_write_enabled: true, depth_compare: CompareFunction::Less }
}

/// No multisampling: one sample, all bits of the mask set.
pub open spec fn single_sample() -> MultisampleDesc {
    MultisampleDesc { count: 1, mask: u64::MAX, alpha_to_coverage_enabled: false }
}

/// The primitive state for the given topology and culling; everything else
/// is the default (no strip index format, counter-clockwise front faces,
/// filled polygons, clipped depth, no conservative rasterisation).
pub open spec fn primitive_desc(topology: PrimitiveTopology, cull_mode: Option<Face>) -> PrimitiveDesc {
    PrimitiveDesc {
        topology,
        strip_index_format: None,
        front_face: FrontFace::Ccw,
        cull_mode,
        polygon_mode: PolygonMode::Fill,
        unclipped_depth: false,
        conservative: false,
    }
}

/// The name of the built-in shader's vertex entry point.
pub open spec fn vertex_entry() -> &'static str {
    "vs_main"
}

/// The name of the built-in shader's fragment entry point.
pub open spec fn fragment_entry() -> &'static str {
    "fs_main"
}

/// The engine's built-in 3-D pipeline for a colour target of the given
/// format: the shader's `vs_main` and `fs_main` entry points, triangle lists,
/// back faces culled, depth tested, colour replaced.
pub open spec fn default_pipeline_spec<M>(
    vertex_module: M,
    fragment_module: M,
    color_format: wgpu::TextureFormat,
) -> PipelineDesc<(M, &'static str)> {
    PipelineDesc {
        bind_group_layouts: engine_bind_group_layouts(),
        vertex: (vertex_module, vertex_entry()),
        vertex_buffers: engine_vertex_buffers(),
        fragment: Some(
            FragmentDesc {
                stage: (fragment_module, fragment_entry()),
                target: ColorTargetDesc { format: color_format, blend: Some(replace_blend()), write_all: true },
            },
        ),
        primitive: primitive_desc(PrimitiveTopology::TriangleList, Some(Face::Back)),
        depth: Some(engine_depth()),
        multisample: single_sample(),
    }
}

fn single_sample_exec() -> (r: MultisampleDesc)
    ensures
        r == single_sample(),
{
    MultisampleDesc { count: 1, mask: u64::MAX, alpha_to_coverage_enabled: false }
}

fn primitive_desc_exec(topology: PrimitiveTopology, cull_mode: Option<Face>) -> (r: PrimitiveDesc)
    ensures
        r == primitive_desc(topology, cull_mode),
{
    PrimitiveDesc {
        topology,
        strip_index_format: None,
        front_face: FrontFace::Ccw,
        cull_mode,
        polygon_mode: PolygonMode::Fill,
        unclipped_depth: false,
        conservative: false,
    }
}

/// The colour target of a pipeline drawing into `format` with `blend`: all
/// four channels are written.
pub fn color_target(format: wgpu::TextureFormat, blend: Option<BlendState>) -> (r: ColorTargetDesc)
    ensures
        r == (ColorTargetDesc { format, blend, write_all: true }),
{
    ColorTargetDesc { format, blend, write_all: true }
}

/// The description of the engine's built-in 3-D pipeline, drawn with the
/// built-in shader (compiled once per stage) into a colour target of the
/// given format.
pub fn default_pipeline_for_format<M>(
    vertex_module: M,
    fragment_module: M,
    color_format: wgpu::TextureFormat,
) -> (r: PipelineDesc<(M, &'static str)>)
    ensures
        r == default_pipeline_spec(vertex_module, fragment_module, color_format),
        r.vertex.1 == "vs_main",
        r.fragment is Some && r.fragment->0.stage.1 == "fs_main",
{
    PipelineDesc {
        bind_group_layouts: (BindGroupLayout::Texture, BindGroupLayout::Camera),
        vertex: (vertex_module, "vs_main"),
        vertex_buffers: (VertexBufferLayout::ModelVertex, VertexBufferLayout::Instance),
        fragment: Some(
            FragmentDesc {
                stage: (fragment_module, "fs_main"),
                target: color_target(color_format, Some(BlendState::replace())),
            },
        ),
        primitive: primitive_desc_exec(PrimitiveTopology::TriangleList, Some(Face::Back)),
        depth: Some(DepthDesc { depth_write_enabled: true, depth_compare: CompareFunction::Less }),
        multisample: single_sample_exec(),
    }
}

/// The description of the engine's built-in 3-D pipeline, drawn with the
/// built-in shader (compiled once per stage) into the surface's colour format.
pub fn default_pipeline_desc<M>(vertex_module: M, fragment_module: M, surface: &Renderer) -> (r: PipelineDesc<(M, &'static str)>)
    ensures
        r == default_pipeline_spec(vertex_module, fragment_module, srgb_format(surface.spec_config().format)),
        r.vertex.1 == "vs_main",
        r.fragment is Some && r.fragment->0.stage.1 == "fs_main",
{
    default_pipeline_for_format(vertex_module, fragment_module, surface.color_format())
}

/// The settings a pipeline builder has collected.
pub struct PipelineSettings<S> {
    pub vertex: Option<S>,
    pub fragment: Option<S>,
    pub topology: PrimitiveTopology,
    pub cull_mode: Option<Face>,
    pub depth_test: bool,
    pub blend: Option<BlendState>,
}

impl<S> PipelineSettings<S> {
    /// A fresh builder's settings: the built-in pipeline's triangle lists,
    /// back-face culling, depth test and replacing blend, and no shaders.
    pub open spec fn defaults() -> Self {
        PipelineSettings {
            vertex: None,
            fragment: None,
            topology: PrimitiveTopology::TriangleList,
            cull_mode: Some(Face::Back),
            depth_test: true,
            blend: Some(replace_blend()),
        }
    }

    /// The pipeline these settings build for a colour target of the given
    /// format. The fragment stage, when there is one, writes all channels of
    /// the colour target with the chosen blend; the depth test is the
    /// engine's when enabled and absent otherwise.
    pub open spec fn desc(self, color_format: wgpu::TextureFormat) -> PipelineDesc<S>
        recommends
            self.vertex is Some,
    {
        PipelineDesc {
            bind_group_layouts: engine_bind_group_layouts(),
            vertex: self.vertex->0,
            vertex_buffers: engine_vertex_buffers(),
            fragment: match self.fragment {
                Some(f) => Some(
                    FragmentDesc {
                        stage: f,
                        target: ColorTargetDesc { format: color_format, blend: self.blend, write_all: true },
                    },
                ),
                None => None,
            },
            primitive: primitive_desc(self.topology, self.cull_mode),
            depth: if self.depth_test {
                Some(engine_depth())
            } else {
                None
            },
            multisample: single_sample(),
        }
    }
}

/// Collects the settings of a custom render pipeline that stays compatible
/// with the engine's bind group layouts (texture at group 0, camera at
/// group 1) and vertex buffers, so that the engine's model drawing keeps
/// working with it.
pub struct PipelineBuilder<S> {
    vertex: Option<S>,
    fragment: Option<S>,
    topology: PrimitiveTopology,
    cull_mode: Option<Face>,
    depth_test: bool,
    blend: Option<BlendState>,
}

impl<S> View for PipelineBuilder<S> {
    type V = PipelineSettings<S>;

    closed spec fn view(&self) -> PipelineSettings<S> {
        PipelineSettings {
            vertex: self.vertex,
            fragment: self.fragment,
            topology: self.topology,
            cull_mode: self.cull_mode,
            depth_test: self.depth_test,
            blend: self.blend,
        }
    }
}

impl<S> PipelineBuilder<S> {
    /// A builder with the built-in pipeline's settings and no shaders.
    pub fn new() -> (r: Self)
        ensures
            r@ == PipelineSettings::<S>::defaults(),
    {
        PipelineBuilder {
            vertex: None,
            fragment: None,
            topology: PrimitiveTopology::TriangleList,
            cull_mode: Some(Face::Back),
            depth_test: true,
            blend: Some(BlendState::replace()),
        }
    }

    /// Sets the vertex shader stage.
    pub fn vertex_shader(self, stage: S) -> (r: Self)
        ensures
            r@ == (PipelineSettings { vertex: Some(stage), ..self@ }),
    {
        PipelineBuilder { vertex: Some(stage), ..self }
    }

    /// Sets the fragment shader stage.
    pub fn fragment_shader(self, stage: S) -> (r: Self)
        ensures
            r@ == (PipelineSettings { fragment: Some(stage), ..self@ }),
    {
        PipelineBuilder { fragment: Some(stage), ..self }
    }

    /// Sets the primitive topology.
    pub fn topology(self, topology: PrimitiveTopology) -> (r: Self)
        ensures
            r@ == (PipelineSettings { topology, ..self@ }),
    {
        PipelineBuilder { topology, ..self }
    }

    /// Sets which faces are culled, if any.
    pub fn cull_mode(self, face: Option<Face>) -> (r: Self)
        ensures
            r@ == (PipelineSettings { cull_mode: face, ..self@ }),
    {
        PipelineBuilder { cull_mode: face, ..self }
    }

    /// Enables or disables the depth test.
    pub fn depth_test(self, enabled: bool) -> (r: Self)
        ensures
            r@ == (PipelineSettings { depth_test: enabled, ..self@ }),
    {
        PipelineBuilder { depth_test: enabled, ..self }
    }

    /// Sets the blend state of the colour target, if any.
    pub fn blend(self, blend: Option<BlendState>) -> (r: Self)
        ensures
            r@ == (PipelineSettings { blend, ..self@ }),
    {
        PipelineBuilder { blend, ..self }
    }

    /// Whether a vertex shader has been set, which `build` needs.
    pub fn has_vertex_shader(&self) -> (r: bool)
        ensures
            r == (self@.vertex is Some),
    {
        self.vertex.is_some()
    }

    /// The description of the pipeline to create, drawing into the
    /// surface's colour format. A vertex shader is required.
    pub fn build(self, surface: &Renderer) -> (r: PipelineDesc<S>)
        requires
            self@.vertex is Some,
        ensures
            r == self@.desc(srgb_format(surface.spec_config().format)),
    {
        self.build_for_format(surface.color_format())
    }

    /// The description of the pipeline to create, drawing into a colour
    /// target of the given format. A vertex shader is required.
    pub fn build_for_format(self, color_format: wgpu::TextureFormat) -> (r: PipelineDesc<S>)
        requires
            self@.vertex is Some,
        ensures
            r == self@.desc(color_format),
            r.vertex == self@.vertex->0,
            r.primitive.topology == self@.topology,
            r.primitive.cull_mode == self@.cull_mode,
            (r.depth is Some) == self@.depth_test,
            (r.fragment is Some) == (self@.fragment is Some),
            r.fragment matches Some(f) ==> f.stage == self@.fragment->0 && f.target.blend == self@.blend
                && f.target.format == color_format,
    {
        let PipelineBuilder { vertex, fragment, topology, cull_mode, depth_test, blend } = self;
        let vertex = vertex.unwrap();
        let fragment = match fragment {
            Some(f) => Some(FragmentDesc { stage: f, target: color_target(color_format, blend) }),
            None => None,
        };
        let depth = if depth_test {
            Some(DepthDesc { depth_write_enabled: true, depth_compare: CompareFunction::Less })
        } else {
            None
        };
        PipelineDesc {
            bind_group_layouts: (BindGroupLayout::Texture, BindGroupLayout::Camera),
            vertex,
            vertex_buffers: (VertexBufferLayout::ModelVertex, VertexBufferLayout::Instance),
            fragment,
            primitive: primitive_desc_exec(topology, cull_mode),
            depth,
            multisample: single_sample_exec(),
        }
    }
}

/// A fresh builder given the built-in shader's entry points builds the
/// built-in pipeline itself, for any colour format.
pub proof fn lemma_fresh_builder_is_default_pipeline<M>(
    vertex_module: M,
    fragment_module: M,
    color_format: wgpu::TextureFormat,
)
    ensures
        (PipelineSettings {
            vertex: Some((vertex_module, vertex_entry())),
            fragment: Some((fragment_module, fragment_entry())),
            ..PipelineSettings::<(M, &'static str)>::defaults()
        }).desc(color_format) == default_pipeline_spec(vertex_module, fragment_module, color_format),
{
}

/// Every pipeline a builder makes keeps the engine's bind group layouts
/// (texture at group 0, camera at group 1) and vertex buffers, the same as
/// the built-in pipeline's, and draws into the same colour format, whatever
/// the other settings.
pub proof fn lemma_built_pipelines_are_compatible<M>(
    settings: PipelineSettings<(M, &'static str)>,
    vertex_module: M,
    fragment_module: M,
    color_format: wgpu::TextureFormat,
)
    requires
        settings.vertex is Some,
    ensures
        ({
            let built = settings.desc(color_format);
            let default = default_pipeline_spec(vertex_module, fragment_module, color_format);
            &&& built.bind_group_layouts == default.bind_group_layouts
            &&& built.vertex_buffers == default.vertex_buffers
            &&& built.bind_group_layouts == (BindGroupLayout::Texture, BindGroupLayout::Camera)
            &&& built.fragment matches Some(f) ==> f.target.format == color_format
        }),
{
}

/// A built pipeline carries each of the builder's settings unchanged: its
/// vertex stage, its topology and culling, its fragment stage (when set) with
/// the chosen blend into the given format, and a depth test exactly when the
/// depth test is on; the rest is fixed (counter-clockwise front faces, filled
/// polygons, one sample).
pub proof fn lemma_build_keeps_settings<S>(s: PipelineSettings<S>, format: wgpu::TextureFormat)
    requires
        s.vertex is Some,
    ensures
        Some(s.desc(format).vertex) == s.vertex,
        s.desc(format).primitive.topology == s.topology,
        s.desc(format).primitive.cull_mode == s.cull_mode,
        s.desc(format).primitive.front_face == FrontFace::Ccw,
        s.desc(format).primitive.polygon_mode == PolygonMode::Fill,
        (s.desc(format).depth is Some) == s.depth_test,
        s.desc(format).depth matches Some(d) ==> d.depth_write_enabled && d.depth_compare == CompareFunction::Less,
        (s.desc(format).fragment is Some) == (s.fragment is Some),
        s.desc(format).fragment matches Some(f) ==> Some(f.stage) == s.fragment && f.target.blend == s.blend
            && f.target.format == format && f.target.write_all,
        s.desc(format).multisample.count == 1,
{
}

/// Setting a setting twice keeps the later value.
pub proof fn lemma_last_setting_wins<S>(
    s: PipelineSettings<S>,
    t1: PrimitiveTopology,
    t2: PrimitiveTopology,
    c1: Option<Face>,
    c2: Option<Face>,
    d1: bool,
    d2: bool,
    b1: Option<BlendState>,
    b2: Option<BlendState>,
)
    ensures
        (PipelineSettings { topology: t2, ..PipelineSettings { topology: t1, ..s } }) == (PipelineSettings {
            topology: t2,
            ..s
        }),
        (PipelineSettings { cull_mode: c2, ..PipelineSettings { cull_mode: c1, ..s } }) == (PipelineSettings {
            cull_mode: c2,
            ..s
        }),
        (PipelineSettings { depth_test: d2, ..PipelineSettings { depth_test: d1, ..s } }) == (PipelineSettings {
            depth_test: d2,
            ..s
        }),
        (PipelineSettings { blend: b2, ..PipelineSettings { blend: b1, ..s } }) == (PipelineSettings {
            blend: b2,
            ..s
        }),
{
}

/// The builder's setters touch one setting each, so any two setters of
/// different settings can be called in either order (and so, one swap at a
/// time, the four setters in any order).
pub proof fn lemma_setters_commute<S>(
    s: PipelineSettings<S>,
    topology: PrimitiveTopology,
    cull_mode: Option<Face>,
    depth_test: bool,
    blend: Option<BlendState>,
)
    ensures
        (PipelineSettings { cull_mode, ..PipelineSettings { topology, ..s } }) == (PipelineSettings {
            topology,
            ..PipelineSettings { cull_mode, ..s }
        }),
        (PipelineSettings { depth_test, ..PipelineSettings { blend, ..s } }) == (PipelineSettings {
            blend,
            ..PipelineSettings { depth_test, ..s }
        }),
        (PipelineSettings { topology, ..PipelineSettings { blend, ..s } }) == (PipelineSettings {
            blend,
            ..PipelineSettings { topology, ..s }
        }),
        (PipelineSettings { cull_mode, ..PipelineSettings { depth_test, ..s } }) == (PipelineSettings {
            depth_test,
            ..PipelineSettings { cull_mode, ..s }
        }),
        (PipelineSettings { topology, ..PipelineSettings { depth_test, ..s } }) == (PipelineSettings {
            depth_test,
            ..PipelineSettings { topology, ..s }
        }),
        (PipelineSettings { cull_mode, ..PipelineSettings { blend, ..s } }) == (PipelineSettings {
            blend,
            ..PipelineSettings { cull_mode, ..s }
        }),
{
}

} // verus!
