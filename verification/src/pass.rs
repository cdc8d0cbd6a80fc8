use vstd::prelude::*;
use crate::pipeline::CAMERA_GROUP;

verus! {

/// Which pipeline a render pass draws with.
#[derive(PartialEq, Eq, Structural, Clone, Copy, Debug)]
pub enum PipelineChoice {
    /// The engine's built-in 3-D pipeline.
    Default,
    /// The custom pipeline handed to [`RenderCtx::set_pipeline`].
    Custom,
}

/// Which buffer feeds per-instance data to the pass.
#[derive(PartialEq, Eq, Structural, Clone, Copy, Debug)]
pub enum InstanceSource {
    /// The renderer's one-instance placeholder buffer, for models drawn once.
    Placeholder,
    /// The instance buffer of the instanced model being drawn.
    Uploaded,
}

/// The vertex buffer slot that per-instance data is bound to.
pub const INSTANCE_SLOT: u32 = 1;

/// One call on the GPU render pass. `C` is the type of a clear colour.
#[derive(PartialEq, Eq, Clone, Copy, Debug)]
pub enum PassCommand<C> {
    /// Begin the frame's render pass (ending the one before, if any): the
    /// colour target is cleared to `clear`, the depth target to the far
    /// plane, and nothing is bound.
    BeginPass { clear: C },
    /// Switch to a pipeline.
    SetPipeline(PipelineChoice),
    /// Bind the camera's bind group at the given group index.
    SetCameraBindGroup { index: u32 },
    /// Bind an instance buffer (all of it) at the given vertex buffer slot.
    SetInstanceBuffer { slot: u32, source: InstanceSource },
    /// Draw every mesh of a model once.
    DrawModel,
    /// Draw every mesh of a model for the instances `first..end`.
    DrawModelInstanced { first: u32, end: u32 },
}

/// What a render pass has bound, as far as drawing is concerned.
pub struct PassState {
    pub pipeline: Option<PipelineChoice>,
    /// The group index the camera is bound at, since the last pipeline switch.
    pub camera_group: Option<u32>,
    /// What is bound at the instance slot.
    pub instances: Option<InstanceSource>,
}

impl PassState {
    /// A pass that has just begun: nothing is bound.
    pub open spec fn fresh() -> PassState {
        PassState { pipeline: None, camera_group: None, instances: None }
    }

    /// Whether a model can be drawn: a pipeline is set, the camera is bound
    /// where the engine's shaders read it, and per-instance data is bound.
    pub open spec fn ready(self) -> bool {
        &&& self.pipeline is Some
        &&& self.camera_group == Some(CAMERA_GROUP)
        &&& self.instances is Some
    }

    /// The effect of one command, or `None` for a draw the pass is not ready
    /// for. A pipeline switch is taken to drop the bind groups (the pass
    /// keeps them only for pipelines of the same layout, which this state
    /// does not track).
    pub open spec fn apply<C>(self, c: PassCommand<C>) -> Option<PassState> {
        match c {
            PassCommand::BeginPass { .. } => Some(PassState::fresh()),
            PassCommand::SetPipeline(p) => Some(PassState { pipeline: Some(p), camera_group: None, ..self }),
            PassCommand::SetCameraBindGroup { index } => Some(PassState { camera_group: Some(index), ..self }),
            PassCommand::SetInstanceBuffer { slot, source } => Some(
                PassState {
                    instances: if slot == INSTANCE_SLOT {
                        Some(source)
                    } else {
                        self.instances
                    },
                    ..self
                },
            ),
            PassCommand::DrawModel => if self.ready() {
                Some(self)
            } else {
                None
            },
            PassCommand::DrawModelInstanced { .. } => if self.ready() {
                Some(self)
            } else {
                None
            },
        }
    }

    /// The effect of a sequence of commands, or `None` when one of them is a
    /// draw the pass is not ready for.
    pub open spec fn run<C>(self, cmds: Seq<PassCommand<C>>) -> Option<PassState>
        decreases cmds.len(),
    {
        if cmds.len() == 0 {
            Some(self)
        } else {
            match self.apply(cmds[0]) {
                Some(t) => t.run(cmds.drop_first()),
                None => None,
            }
        }
    }
}

/// The colour the frame's target was last cleared to by the commands, if
/// they begin a pass at all.
pub open spec fn last_clear<C>(cmds: Seq<PassCommand<C>>) -> Option<C>
    decreases cmds.len(),
{
    if cmds.len() == 0 {
        None
    } else {
        match cmds.last() {
            PassCommand::BeginPass { clear } => Some(clear),
            _ => last_clear(cmds.drop_last()),
        }
    }
}

/// A model uploaded together with a list of per-instance transforms.
pub struct InstancedModel<M, B> {
    pub model: M,
    /// The buffer of per-instance data.
    pub instance_buffer: B,
    /// The number of instances drawn.
    pub instance_num: u32,
}

impl<M, B> InstancedModel<M, B> {
    /// Pairs a model with the buffer its `instance_count` instances were
    /// uploaded to. The count is kept as a 32-bit number, as the GPU's draw
    /// call takes it, so a count past `u32::MAX` wraps.
    pub fn new(model: M, instance_buffer: B, instance_count: usize) -> (r: Self)
        ensures
            r.model == model,
            r.instance_buffer == instance_buffer,
            r.instance_num == instance_count as u32,
    {
        InstancedModel { model, instance_buffer, instance_num: #[verifier::truncate] (instance_count as u32) }
    }
}

/// A drawing request a frame's render callback can make.
pub enum Request<C> {
    Clear { color: C },
    SetCamera,
    DrawModel,
    DrawModelInstanced { instance_num: u32 },
    SetPipeline,
    UseDefaultPipeline,
}

/// The calls that begin a frame's pass, cleared to `clear`, drawing with
/// `pipeline` and the camera bound.
pub open spec fn begin_commands<C>(clear: C, pipeline: PipelineChoice) -> Seq<PassCommand<C>> {
    seq![
        PassCommand::BeginPass { clear },
        PassCommand::SetPipeline(pipeline),
        PassCommand::SetCameraBindGroup { index: CAMERA_GROUP },
    ]
}

/// The calls [`RenderCtx`] makes for a request while drawing with
/// `pipeline`.
pub open spec fn request_commands<C>(r: Request<C>, pipeline: PipelineChoice) -> Seq<PassCommand<C>> {
    match r {
        Request::Clear { color } => begin_commands(color, pipeline),
        Request::SetCamera => seq![PassCommand::SetCameraBindGroup { index: CAMERA_GROUP }],
        Request::DrawModel => seq![
            PassCommand::SetInstanceBuffer { slot: INSTANCE_SLOT, source: InstanceSource::Placeholder },
            PassCommand::DrawModel,
        ],
        Request::DrawModelInstanced { instance_num } => seq![
            PassCommand::SetInstanceBuffer { slot: INSTANCE_SLOT, source: InstanceSource::Uploaded },
            PassCommand::DrawModelInstanced { first: 0, end: instance_num },
        ],
        Request::SetPipeline => seq![
            PassCommand::SetPipeline(PipelineChoice::Custom),
            PassCommand::SetCameraBindGroup { index: CAMERA_GROUP },
        ],
        Request::UseDefaultPipeline => seq![
            PassCommand::SetPipeline(PipelineChoice::Default),
            PassCommand::SetCameraBindGroup { index: CAMERA_GROUP },
        ],
    }
}

/// The pipeline drawn with after the requests.
pub open spec fn pipeline_after<C>(requests: Seq<Request<C>>) -> PipelineChoice
    decreases requests.len(),
{
    if requests.len() == 0 {
        PipelineChoice::Default
    } else {
        match requests.last() {
            Request::SetPipeline => PipelineChoice::Custom,
            Request::UseDefaultPipeline => PipelineChoice::Default,
            _ => pipeline_after(requests.drop_last()),
        }
    }
}

/// The calls a whole frame makes: the start of the pass, cleared to
/// `default_clear`, then each request's.
pub open spec fn frame_commands<C>(default_clear: C, requests: Seq<Request<C>>) -> Seq<PassCommand<C>>
    decreases requests.len(),
{
    if requests.len() == 0 {
        begin_commands(default_clear, PipelineChoice::Default)
    } else {
        frame_commands(default_clear, requests.drop_last()) + request_commands(
            requests.last(),
            pipeline_after(requests.drop_last()),
        )
    }
}

/// The colour the frame is cleared to after the requests: the last one a
/// `Clear` request chose, or the default when none did.
pub open spec fn clear_after<C>(default_clear: C, requests: Seq<Request<C>>) -> C
    decreases requests.len(),
{
    if requests.len() == 0 {
        default_clear
    } else {
        match requests.last() {
            Request::Clear { color } => color,
            _ => clear_after(default_clear, requests.drop_last()),
        }
    }
}

/// The per-frame render interface: it decides which calls reach the GPU
/// render pass for each high-level request. `C` is the type of a clear
/// colour.
pub struct RenderCtx<C> {
    pipeline: PipelineChoice,
    camera_group: Option<u32>,
    instances: Option<InstanceSource>,
    clear: C,
}

/// What a render context has done to its pass, and the colour the frame was
/// last cleared to.
pub struct CtxState<C> {
    pub pass: PassState,
    pub clear: C,
}

impl<C> View for RenderCtx<C> {
    type V = CtxState<C>;

    closed spec fn view(&self) -> CtxState<C> {
        CtxState {
            pass: PassState { pipeline: Some(self.pipeline), camera_group: self.camera_group, instances: self.instances },
            clear: self.clear,
        }
    }
}

impl<C> RenderCtx<C> {
    /// Between any two requests the camera is bound where the engine's
    /// shaders read it.
    #[verifier::type_invariant]
    spec fn camera_bound(self) -> bool {
        self.camera_group == Some(CAMERA_GROUP)
    }
}

impl<C: Copy> RenderCtx<C> {
    /// The pass has a pipeline and the camera bound.
    pub open spec fn wf(&self) -> bool {
        &&& self@.pass.pipeline is Some
        &&& self@.pass.camera_group == Some(CAMERA_GROUP)
    }

    /// Starts a frame's pass: cleared to `default_clear`, the built-in
    /// pipeline, the camera bound.
    pub fn begin(default_clear: C) -> (r: (RenderCtx<C>, Vec<PassCommand<C>>))
        ensures
            r.1@ == frame_commands(default_clear, Seq::<Request<C>>::empty()),
            r.1@ == begin_commands(default_clear, PipelineChoice::Default),
            r.0.wf(),
            r.0@.pass.pipeline == Some(PipelineChoice::Default),
            r.0@.clear == default_clear,
            PassState::fresh().run(r.1@) == Some(r.0@.pass),
            last_clear(r.1@) == Some(default_clear),
    {
        let cmds = vec![
            PassCommand::BeginPass { clear: default_clear },
            PassCommand::SetPipeline(PipelineChoice::Default),
            PassCommand::SetCameraBindGroup { index: CAMERA_GROUP },
        ];
        let ctx = RenderCtx {
            pipeline: PipelineChoice::Default,
            camera_group: Some(CAMERA_GROUP),
            instances: None,
            clear: default_clear,
        };
        proof {
            reveal_with_fuel(PassState::run, 4);
            reveal_with_fuel(last_clear, 4);
            assert(cmds@.drop_first().drop_first().drop_first() =~= Seq::<PassCommand<C>>::empty());
            assert(cmds@.drop_last().drop_last() =~= seq![cmds@[0]]);
            assert(cmds@.drop_last().drop_last().drop_last() =~= Seq::<PassCommand<C>>::empty());
            assert(cmds@ =~= begin_commands(default_clear, PipelineChoice::Default));
        }
        (ctx, cmds)
    }

    /// Clears the frame's colour target to `color` (and its depth target):
    /// what was drawn so far is discarded, and drawing goes on with the same
    /// pipeline and the camera bound.
    pub fn clear(&mut self, color: C) -> (cmds: Vec<PassCommand<C>>)
        ensures
            cmds@ == request_commands(Request::Clear { color }, old(self)@.pass.pipeline->0),
            final(self).wf(),
            final(self)@.clear == color,
            final(self)@.pass.pipeline == old(self)@.pass.pipeline,
            old(self)@.pass.run(cmds@) == Some(final(self)@.pass),
            last_clear(cmds@) == Some(color),
    {
        proof {
            use_type_invariant(&*self);
        }
        let cmds = vec![
            PassCommand::BeginPass { clear: color },
            PassCommand::SetPipeline(self.pipeline),
            PassCommand::SetCameraBindGroup { index: CAMERA_GROUP },
        ];
        self.instances = None;
        self.clear = color;
        proof {
            reveal_with_fuel(PassState::run, 4);
            reveal_with_fuel(last_clear, 4);
            assert(cmds@.drop_first().drop_first().drop_first() =~= Seq::<PassCommand<C>>::empty());
            assert(cmds@.drop_last().drop_last() =~= seq![cmds@[0]]);
            assert(cmds@ =~= begin_commands(color, self.pipeline));
        }
        cmds
    }

    /// Binds the camera just uploaded, so that the draws after it see it.
    pub fn set_camera(&mut self) -> (cmds: Vec<PassCommand<C>>)
        ensures
            cmds@ == request_commands(Request::<C>::SetCamera, old(self)@.pass.pipeline->0),
            final(self).wf(),
            old(self)@.pass.run(cmds@) == Some(final(self)@.pass),
            final(self)@ == old(self)@,
            last_clear(cmds@) is None,
    {
        proof {
            use_type_invariant(&*self);
        }
        let cmds = vec![PassCommand::SetCameraBindGroup { index: CAMERA_GROUP }];
        proof {
            reveal_with_fuel(PassState::run, 2);
            reveal_with_fuel(last_clear, 2);
            assert(cmds@.drop_first() =~= Seq::<PassCommand<C>>::empty());
            assert(cmds@.drop_last() =~= Seq::<PassCommand<C>>::empty());
        }
        cmds
    }

    /// Draws all meshes of a model once, with the current pipeline.
    pub fn draw_model(&mut self) -> (cmds: Vec<PassCommand<C>>)
        ensures
            cmds@ == request_commands(Request::<C>::DrawModel, old(self)@.pass.pipeline->0),
            final(self).wf(),
            cmds@ == seq![
                PassCommand::SetInstanceBuffer { slot: INSTANCE_SLOT, source: InstanceSource::Placeholder },
                PassCommand::<C>::DrawModel,
            ],
            old(self)@.pass.run(cmds@) == Some(final(self)@.pass),
            final(self)@.pass.pipeline == old(self)@.pass.pipeline,
            final(self)@.clear == old(self)@.clear,
            last_clear(cmds@) is None,
    {
        proof {
            use_type_invariant(&*self);
        }
        let cmds = vec![
            PassCommand::SetInstanceBuffer { slot: INSTANCE_SLOT, source: InstanceSource::Placeholder },
            PassCommand::DrawModel,
        ];
        self.instances = Some(InstanceSource::Placeholder);
        proof {
            reveal_with_fuel(PassState::run, 3);
            reveal_with_fuel(last_clear, 3);
            assert(cmds@.drop_first().drop_first() =~= Seq::<PassCommand<C>>::empty());
            assert(cmds@.drop_last().drop_last() =~= Seq::<PassCommand<C>>::empty());
        }
        cmds
    }

    /// Draws all meshes of an instanced model, once per instance.
    pub fn draw_model_instanced<M, B>(&mut self, instanced: &InstancedModel<M, B>) -> (cmds: Vec<PassCommand<C>>)
        ensures
            cmds@ == request_commands(
                Request::<C>::DrawModelInstanced { instance_num: instanced.instance_num },
                old(self)@.pass.pipeline->0,
            ),
            final(self).wf(),
            cmds@ == seq![
                PassCommand::SetInstanceBuffer { slot: INSTANCE_SLOT, source: InstanceSource::Uploaded },
                PassCommand::<C>::DrawModelInstanced { first: 0, end: instanced.instance_num },
            ],
            old(self)@.pass.run(cmds@) == Some(final(self)@.pass),
            final(self)@.pass.pipeline == old(self)@.pass.pipeline,
            final(self)@.clear == old(self)@.clear,
            last_clear(cmds@) is None,
    {
        proof {
            use_type_invariant(&*self);
        }
        let cmds = vec![
            PassCommand::SetInstanceBuffer { slot: INSTANCE_SLOT, source: InstanceSource::Uploaded },
            PassCommand::DrawModelInstanced { first: 0, end: instanced.instance_num },
        ];
        self.instances = Some(InstanceSource::Uploaded);
        proof {
            reveal_with_fuel(PassState::run, 3);
            reveal_with_fuel(last_clear, 3);
            assert(cmds@.drop_first().drop_first() =~= Seq::<PassCommand<C>>::empty());
            assert(cmds@.drop_last().drop_last() =~= Seq::<PassCommand<C>>::empty());
        }
        cmds
    }

    fn switch_to(&mut self, choice: PipelineChoice) -> (cmds: Vec<PassCommand<C>>)
        ensures
            final(self).wf(),
            cmds@ == seq![
                PassCommand::<C>::SetPipeline(choice),
                PassCommand::SetCameraBindGroup { index: CAMERA_GROUP },
            ],
            old(self)@.pass.run(cmds@) == Some(final(self)@.pass),
            final(self)@.pass.pipeline == Some(choice),
            final(self)@.pass.instances == old(self)@.pass.instances,
            final(self)@.clear == old(self)@.clear,
            last_clear(cmds@) is None,
    {
        proof {
            use_type_invariant(&*self);
        }
        let cmds = vec![
            PassCommand::SetPipeline(choice),
            PassCommand::SetCameraBindGroup { index: CAMERA_GROUP },
        ];
        self.pipeline = choice;
        proof {
            reveal_with_fuel(PassState::run, 3);
            reveal_with_fuel(last_clear, 3);
            assert(cmds@.drop_first().drop_first() =~= Seq::<PassCommand<C>>::empty());
            assert(cmds@.drop_last().drop_last() =~= Seq::<PassCommand<C>>::empty());
        }
        cmds
    }

    /// Switches to a custom pipeline and binds the camera again, so that
    /// drawing models keeps working.
    pub fn set_pipeline(&mut self) -> (cmds: Vec<PassCommand<C>>)
        ensures
            cmds@ == request_commands(Request::<C>::SetPipeline, old(self)@.pass.pipeline->0),
            final(self).wf(),
            old(self)@.pass.run(cmds@) == Some(final(self)@.pass),
            final(self)@.pass.pipeline == Some(PipelineChoice::Custom),
            final(self)@.pass.instances == old(self)@.pass.instances,
            final(self)@.clear == old(self)@.clear,
            last_clear(cmds@) is None,
    {
        proof {
            use_type_invariant(&*self);
        }
        self.switch_to(PipelineChoice::Custom)
    }

    /// Goes back to the built-in pipeline and binds the camera again.
    pub fn use_default_pipeline(&mut self) -> (cmds: Vec<PassCommand<C>>)
        ensures
            cmds@ == request_commands(Request::<C>::UseDefaultPipeline, old(self)@.pass.pipeline->0),
            final(self).wf(),
            old(self)@.pass.run(cmds@) == Some(final(self)@.pass),
            final(self)@.pass.pipeline == Some(PipelineChoice::Default),
            final(self)@.pass.instances == old(self)@.pass.instances,
            final(self)@.clear == old(self)@.clear,
            last_clear(cmds@) is None,
    {
        proof {
            use_type_invariant(&*self);
        }
        self.switch_to(PipelineChoice::Default)
    }
}

/// Running two command lists one after the other is running their
/// concatenation.
pub proof fn lemma_run_concat<C>(s: PassState, a: Seq<PassCommand<C>>, b: Seq<PassCommand<C>>)
    ensures
        s.run(a + b) == (match s.run(a) {
            Some(t) => t.run(b),
            None => None,
        }),
    decreases a.len(),
{
    if a.len() == 0 {
        assert(a + b =~= b);
    } else {
        assert((a + b).drop_first() =~= a.drop_first() + b);
        match s.apply(a[0]) {
            Some(t) => lemma_run_concat(t, a.drop_first(), b),
            None => {},
        }
    }
}

/// The last clear of two command lists one after the other is the second
/// list's, or the first's when the second clears nothing.
pub proof fn lemma_last_clear_concat<C>(a: Seq<PassCommand<C>>, b: Seq<PassCommand<C>>)
    ensures
        last_clear(a + b) == (match last_clear(b) {
            Some(c) => Some(c),
            None => last_clear(a),
        }),
    decreases b.len(),
{
    if b.len() == 0 {
        assert(a + b =~= a);
    } else {
        assert((a + b).drop_last() =~= a + b.drop_last());
        assert((a + b).last() == b.last());
        lemma_last_clear_concat(a, b.drop_last());
    }
}

/// After a switch to a custom pipeline, drawing a model still works: the
/// camera is bound again, whatever was bound before.
pub proof fn lemma_draw_after_pipeline_switch<C>(s: PassState)
    ensures
        s.run(
            seq![
                PassCommand::<C>::SetPipeline(PipelineChoice::Custom),
                PassCommand::SetCameraBindGroup { index: CAMERA_GROUP },
                PassCommand::SetInstanceBuffer { slot: INSTANCE_SLOT, source: InstanceSource::Placeholder },
                PassCommand::DrawModel,
            ],
        ) is Some,
{
    reveal_with_fuel(PassState::run, 5);
    let c = seq![
        PassCommand::<C>::SetPipeline(PipelineChoice::Custom),
        PassCommand::SetCameraBindGroup { index: CAMERA_GROUP },
        PassCommand::SetInstanceBuffer { slot: INSTANCE_SLOT, source: InstanceSource::Placeholder },
        PassCommand::DrawModel,
    ];
    assert(c.drop_first() =~= seq![c[1], c[2], c[3]]);
    assert(c.drop_first().drop_first() =~= seq![c[2], c[3]]);
    assert(c.drop_first().drop_first().drop_first() =~= seq![c[3]]);
    assert(c.drop_first().drop_first().drop_first().drop_first() =~= Seq::<PassCommand<C>>::empty());
}

/// A pass is never told to draw before a pipeline is set: a draw as the
/// first call of a fresh pass is refused.
pub proof fn lemma_fresh_pass_cannot_draw<C>()
    ensures
        PassState::fresh().run(seq![PassCommand::<C>::DrawModel]) is None,
{
    reveal_with_fuel(PassState::run, 2);
}

proof fn lemma_request_keeps_bound<C>(s: PassState, r: Request<C>, pipeline: PipelineChoice)
    requires
        s.pipeline == Some(pipeline),
        s.camera_group == Some(CAMERA_GROUP),
    ensures
        s.run(request_commands(r, pipeline)) matches Some(t) && t.camera_group == Some(CAMERA_GROUP)
            && t.pipeline == Some(
            match r {
                Request::SetPipeline => PipelineChoice::Custom,
                Request::UseDefaultPipeline => PipelineChoice::Default,
                _ => pipeline,
            },
        ),
{
    reveal_with_fuel(PassState::run, 4);
    let c = request_commands(r, pipeline);
    if c.len() == 3 {
        assert(c.drop_first().drop_first().drop_first() =~= Seq::<PassCommand<C>>::empty());
    } else if c.len() == 2 {
        assert(c.drop_first().drop_first() =~= Seq::<PassCommand<C>>::empty());
    } else {
        assert(c.drop_first() =~= Seq::<PassCommand<C>>::empty());
    }
}

proof fn lemma_request_clear<C>(r: Request<C>, pipeline: PipelineChoice)
    ensures
        last_clear(request_commands(r, pipeline)) == (match r {
            Request::Clear { color } => Some(color),
            _ => None,
        }),
{
    reveal_with_fuel(last_clear, 4);
    let c = request_commands(r, pipeline);
    if c.len() == 3 {
        assert(c.drop_last().drop_last() =~= seq![c[0]]);
    } else if c.len() == 2 {
        assert(c.drop_last().drop_last() =~= Seq::<PassCommand<C>>::empty());
    } else {
        assert(c.drop_last() =~= Seq::<PassCommand<C>>::empty());
    }
}

/// Whatever a frame's render callback requests, in whatever order: no draw
/// reaches the pass before a pipeline, the camera (at group 1) and an
/// instance buffer are bound; the camera stays bound between requests; and
/// the frame ends cleared to the colour of its last `Clear` request, or to the
/// default colour when it makes none.
pub proof fn lemma_every_frame_is_valid<C>(default_clear: C, requests: Seq<Request<C>>)
    ensures
        PassState::fresh().run(frame_commands(default_clear, requests)) matches Some(t) && t.pipeline == Some(
            pipeline_after(requests),
        ) && t.camera_group == Some(CAMERA_GROUP),
        last_clear(frame_commands(default_clear, requests)) == Some(clear_after(default_clear, requests)),
    decreases requests.len(),
{
    if requests.len() == 0 {
        reveal_with_fuel(PassState::run, 4);
        reveal_with_fuel(last_clear, 4);
        let c = frame_commands(default_clear, requests);
        assert(c.drop_first().drop_first().drop_first() =~= Seq::<PassCommand<C>>::empty());
        assert(c.drop_last().drop_last() =~= seq![c[0]]);
    } else {
        let prefix = requests.drop_last();
        let r = requests.last();
        let p = pipeline_after(prefix);
        lemma_every_frame_is_valid(default_clear, prefix);
        let t = PassState::fresh().run(frame_commands(default_clear, prefix))->0;
        lemma_request_keeps_bound(t, r, p);
        lemma_run_concat(PassState::fresh(), frame_commands(default_clear, prefix), request_commands(r, p));
        lemma_request_clear(r, p);
        lemma_last_clear_concat(frame_commands(default_clear, prefix), request_commands(r, p));
    }
}

/// The instances a draw command draws, as `(first, end)`; `None` for a
/// command that draws nothing.
pub open spec fn instance_range_spec<C>(c: PassCommand<C>) -> Option<(u32, u32)> {
    match c {
        PassCommand::DrawModel => Some((0, 1)),
        PassCommand::DrawModelInstanced { first, end } => Some((first, end)),
        _ => None,
    }
}

/// The instances a draw command draws, as `(first, end)`.
pub fn instance_range<C>(c: &PassCommand<C>) -> (r: Option<(u32, u32)>)
    ensures
        r == instance_range_spec(*c),
        *c matches PassCommand::DrawModelInstanced { first, end } ==> r == Some((first, end)),
        *c is DrawModel ==> r == Some((0u32, 1u32)),
        !(*c is DrawModel || *c is DrawModelInstanced) ==> r is None,
{
    match c {
        PassCommand::DrawModel => Some((0, 1)),
        PassCommand::DrawModelInstanced { first, end } => Some((*first, *end)),
        _ => None,
    }
}

/// A draw covers exactly the instances it names: an instanced draw of
/// `first..end` draws `first..end`, a plain draw draws instance 0 alone, and
/// no other call draws. So the draw that [`RenderCtx::draw_model_instanced`]
/// emits for a model of `n` instances covers instances `0..n`.
pub proof fn lemma_instance_range_exact<C>(c: PassCommand<C>, first: u32, end: u32, n: u32)
    ensures
        instance_range_spec(PassCommand::<C>::DrawModelInstanced { first, end }) == Some((first, end)),
        instance_range_spec(PassCommand::<C>::DrawModel) == Some((0u32, 1u32)),
        !(c is DrawModel || c is DrawModelInstanced) ==> instance_range_spec(c) is None,
        instance_range_spec(
            request_commands(Request::<C>::DrawModelInstanced { instance_num: n }, PipelineChoice::Default)[1],
        ) == Some((0u32, n)),
{
}

/// A model's mesh, as drawing needs it: how many indices it draws and which
/// of the model's materials it uses.
#[derive(PartialEq, Eq, Structural, Clone, Copy, Debug)]
pub struct MeshDraw {
    pub num_elements: u32,
    pub material: usize,
}

/// The vertex buffer slot of a mesh's vertices.
pub const VERTEX_SLOT: u32 = 0;

/// One call on the render pass for drawing a model's meshes.
#[derive(PartialEq, Eq, Structural, Clone, Copy, Debug)]
pub enum MeshCommand {
    /// Bind mesh `mesh`'s vertex buffer (all of it) at the slot.
    SetVertexBuffer { slot: u32, mesh: usize },
    /// Bind mesh `mesh`'s index buffer (all of it), of 32-bit indices.
    SetIndexBuffer { mesh: usize },
    /// Bind material `material`'s bind group at the group index.
    SetMaterialGroup { index: u32, material: usize },
    /// Draw indices `0..index_end`, with no vertex offset, for the instances
    /// `first..end`.
    DrawIndexed { index_end: u32, first: u32, end: u32 },
}

/// Call `j` (`0 <= j < 4`) of drawing mesh `i`: its vertices, its indices,
/// its material at group 0, then the indexed draw.
pub open spec fn mesh_command(m: MeshDraw, i: int, j: int, first: u32, end: u32) -> MeshCommand {
    if j == 0 {
        MeshCommand::SetVertexBuffer { slot: VERTEX_SLOT, mesh: i as usize }
    } else if j == 1 {
        MeshCommand::SetIndexBuffer { mesh: i as usize }
    } else if j == 2 {
        MeshCommand::SetMaterialGroup { index: crate::pipeline::TEXTURE_GROUP, material: m.material }
    } else {
        MeshCommand::DrawIndexed { index_end: m.num_elements, first, end }
    }
}

/// Mesh `i` is drawn from its own buffers: its vertex buffer at the vertex
/// slot, its own index buffer, its own material at the texture group, then
/// all its indices for the given instances.
pub proof fn lemma_mesh_commands(m: MeshDraw, i: int, first: u32, end: u32)
    requires
        0 <= i <= usize::MAX,
    ensures
        mesh_command(m, i, 0, first, end) == (MeshCommand::SetVertexBuffer { slot: VERTEX_SLOT, mesh: i as usize }),
        mesh_command(m, i, 1, first, end) == (MeshCommand::SetIndexBuffer { mesh: i as usize }),
        mesh_command(m, i, 2, first, end) == (MeshCommand::SetMaterialGroup {
            index: crate::pipeline::TEXTURE_GROUP,
            material: m.material,
        }),
        mesh_command(m, i, 3, first, end) == (MeshCommand::DrawIndexed { index_end: m.num_elements, first, end }),
{
}

/// The calls that draw every mesh of a model, in order, for the instances
/// `first..end`: four per mesh. Every mesh's material must be one of the
/// model's `material_count` materials.
pub fn draw_meshes(meshes: &Vec<MeshDraw>, material_count: usize, first: u32, end: u32) -> (r: Vec<MeshCommand>)
    requires
        forall|i: int| 0 <= i < meshes@.len() ==> (#[trigger] meshes@[i]).material < material_count,
        meshes@.len() * 4 <= usize::MAX,
    ensures
        r@.len() == meshes@.len() * 4,
        forall|i: int, j: int|
            0 <= i < meshes@.len() && 0 <= j < 4 ==> r@[i * 4 + j] == #[trigger] mesh_command(meshes@[i], i, j, first, end),
        forall|i: int|
            0 <= i < meshes@.len() ==> (#[trigger] r@[i * 4]) == (MeshCommand::SetVertexBuffer {
                slot: VERTEX_SLOT,
                mesh: i as usize,
            }),
        forall|i: int|
            0 <= i < meshes@.len() ==> (#[trigger] r@[i * 4 + 1]) == (MeshCommand::SetIndexBuffer { mesh: i as usize }),
        forall|i: int|
            0 <= i < meshes@.len() ==> r@[i * 4 + 2] == (MeshCommand::SetMaterialGroup {
                index: crate::pipeline::TEXTURE_GROUP,
                material: (#[trigger] meshes@[i]).material,
            }),
        forall|i: int|
            0 <= i < meshes@.len() ==> r@[i * 4 + 3] == (MeshCommand::DrawIndexed {
                index_end: (#[trigger] meshes@[i]).num_elements,
                first,
                end,
            }),
        forall|k: int| 0 <= k < r@.len() ==> (#[trigger] r@[k] matches MeshCommand::SetMaterialGroup { material, .. }
            ==> material < material_count),
{
    let mut cmds: Vec<MeshCommand> = Vec::new();
    let mut i: usize = 0;
    while i < meshes.len()
        invariant
            i <= meshes@.len(),
            meshes@.len() * 4 <= usize::MAX,
            forall|a: int| 0 <= a < meshes@.len() ==> (#[trigger] meshes@[a]).material < material_count,
            cmds@.len() == i * 4,
            forall|a: int, j: int|
                0 <= a < i && 0 <= j < 4 ==> cmds@[a * 4 + j] == #[trigger] mesh_command(meshes@[a], a, j, first, end),
        decreases meshes@.len() - i,
    {
        let m = meshes[i];
        let ghost before = cmds@;
        proof {
            lemma_mesh_commands(m, i as int, first, end);
        }
        cmds.push(MeshCommand::SetVertexBuffer { slot: VERTEX_SLOT, mesh: i });
        cmds.push(MeshCommand::SetIndexBuffer { mesh: i });
        cmds.push(MeshCommand::SetMaterialGroup { index: crate::pipeline::TEXTURE_GROUP, material: m.material });
        cmds.push(MeshCommand::DrawIndexed { index_end: m.num_elements, first, end });
        proof {
            assert forall|a: int, j: int| 0 <= a < i + 1 && 0 <= j < 4 implies cmds@[a * 4 + j]
                == #[trigger] mesh_command(meshes@[a], a, j, first, end) by {
                if a < i {
                    assert(a * 4 + j < i * 4) by (nonlinear_arith)
                        requires
                            a < i,
                            j < 4,
                    ;
                    assert(cmds@[a * 4 + j] == before[a * 4 + j]);
                } else {
                    assert(a * 4 + j == i * 4 + j);
                }
            }
        }
        i = i + 1;
    }
    proof {
        assert forall|i: int| 0 <= i < meshes@.len() implies (#[trigger] cmds@[i * 4]) == (MeshCommand::SetVertexBuffer {
            slot: VERTEX_SLOT,
            mesh: i as usize,
        }) by {
            lemma_mesh_commands(meshes@[i], i, first, end);
            assert(cmds@[i * 4 + 0] == mesh_command(meshes@[i], i, 0, first, end));
        }
        assert forall|i: int| 0 <= i < meshes@.len() implies (#[trigger] cmds@[i * 4 + 1]) == (MeshCommand::SetIndexBuffer {
            mesh: i as usize,
        }) by {
            lemma_mesh_commands(meshes@[i], i, first, end);
            assert(cmds@[i * 4 + 1] == mesh_command(meshes@[i], i, 1, first, end));
        }
        assert forall|i: int| 0 <= i < meshes@.len() implies cmds@[i * 4 + 2] == (MeshCommand::SetMaterialGroup {
            index: crate::pipeline::TEXTURE_GROUP,
            material: (#[trigger] meshes@[i]).material,
        }) by {
            lemma_mesh_commands(meshes@[i], i, first, end);
            assert(cmds@[i * 4 + 2] == mesh_command(meshes@[i], i, 2, first, end));
        }
        assert forall|i: int| 0 <= i < meshes@.len() implies cmds@[i * 4 + 3] == (MeshCommand::DrawIndexed {
            index_end: (#[trigger] meshes@[i]).num_elements,
            first,
            end,
        }) by {
            lemma_mesh_commands(meshes@[i], i, first, end);
            assert(cmds@[i * 4 + 3] == mesh_command(meshes@[i], i, 3, first, end));
        }
        assert forall|k: int| 0 <= k < cmds@.len() implies (#[trigger] cmds@[k] matches MeshCommand::SetMaterialGroup {
            material,
            ..
        } ==> material < material_count) by {
            let a = k / 4;
            let j = k % 4;
            assert(k == a * 4 + j && 0 <= a < meshes@.len() && 0 <= j < 4) by (nonlinear_arith)
                requires
                    0 <= k < meshes@.len() * 4,
                    a == k / 4,
                    j == k % 4,
            ;
            assert(cmds@[a * 4 + j] == mesh_command(meshes@[a], a, j, first, end));
        }
    }
    cmds
}

/// Drawing a model plainly and drawing it as instances `0..1` give the same
/// instance range, so the same mesh calls ([`draw_meshes`] with `0..1`): the
/// two differ only in which buffer is bound at the instance slot before the
/// draw (the placeholder, or the uploaded instances).
pub proof fn lemma_plain_draw_is_one_instance<C>()
    ensures
        instance_range_spec(PassCommand::<C>::DrawModel) == instance_range_spec(
            PassCommand::<C>::DrawModelInstanced { first: 0, end: 1 },
        ),
        request_commands(Request::<C>::DrawModel, PipelineChoice::Default).drop_last()
            == seq![PassCommand::<C>::SetInstanceBuffer { slot: INSTANCE_SLOT, source: InstanceSource::Placeholder }],
        request_commands(Request::<C>::DrawModelInstanced { instance_num: 1 }, PipelineChoice::Default).drop_last()
            == seq![PassCommand::<C>::SetInstanceBuffer { slot: INSTANCE_SLOT, source: InstanceSource::Uploaded }],
{
    assert(request_commands(Request::<C>::DrawModel, PipelineChoice::Default).drop_last() =~= seq![
        PassCommand::<C>::SetInstanceBuffer { slot: INSTANCE_SLOT, source: InstanceSource::Placeholder },
    ]);
    assert(request_commands(Request::<C>::DrawModelInstanced { instance_num: 1 }, PipelineChoice::Default).drop_last()
        =~= seq![PassCommand::<C>::SetInstanceBuffer { slot: INSTANCE_SLOT, source: InstanceSource::Uploaded }]);
}

} // verus!
