//! The render backend: the owner of the pipeline pool, and the decisions
//! that turn a shader's source into a pipeline.
//!
//! The backend performs no input or output. Reading and writing files,
//! running the source compiler and talking to the device are left to the
//! caller: the backend says which of these to do next (an [`Action`]) and is
//! told what came of it (an [`Event`]).

use vstd::prelude::*;
use crate::bytecode_cache::{
    bytecode_path,
    cache_path,
    cached_words,
    compile_outcome,
    compile_request,
    compile_request_for,
    compiled_view,
    file_view,
    lookup,
    take_compiled,
    CompileRequest,
    CompileRequestView,
};
use crate::error::{BackendError, BackendErrorView, DeviceFailure};
use crate::pipeline::{pipeline_request, request_for, PipelineRequest, PipelineRequestView};
use crate::pipeline_cache::{
    flush_plan,
    flush_write,
    initial_blob,
    load_blob,
    read_back_view,
    FileWrite,
    FileWriteView,
};
use crate::setup::{can_set_up, is_plan_for, plan_setup, AdapterReport, SetupPlan};
use crate::pool::{create_result, pool_after, PipelinePool};

verus! {

/// Where the backend is in its life.
#[derive(Clone, Copy, Debug, PartialEq, Eq, Structural)]
pub enum BackendState {
    /// The setup has not completed. This is the time before
    /// [`GfxBackend::new`] returns: no backend is handed out in this state.
    Uninitialized,
    /// Shaders can be compiled and frames rendered.
    Ready,
}

/// How far the compilation of one shader has come.
#[derive(Debug, PartialEq, Eq)]
pub enum CompileState {
    /// Waiting for the contents of the shader's bytecode file.
    Probing { key: String, source: String },
    /// Waiting for the source compiler.
    Compiling { key: String },
    /// Waiting for the bytecode file to be written.
    Storing { words: Vec<u32> },
    /// Waiting for the device to build the pipeline.
    Building,
    /// Over: the result has been handed out.
    Finished,
}

/// A [`CompileState`] as a mathematical value.
pub enum CompileStateView {
    Probing { key: Seq<char>, source: Seq<char> },
    Compiling { key: Seq<char> },
    Storing { words: Seq<u32> },
    Building,
    Finished,
}

impl View for CompileState {
    type V = CompileStateView;

    open spec fn view(&self) -> CompileStateView {
        match self {
            CompileState::Probing { key, source } => CompileStateView::Probing {
                key: key@,
                source: source@,
            },
            CompileState::Compiling { key } => CompileStateView::Compiling { key: key@ },
            CompileState::Storing { words } => CompileStateView::Storing { words: words@ },
            CompileState::Building => CompileStateView::Building,
            CompileState::Finished => CompileStateView::Finished,
        }
    }
}

/// What the caller is to do next for a shader that is being compiled.
#[derive(Debug, PartialEq, Eq)]
pub enum Action {
    /// Read the file at `path`, and report its contents, or that it is
    /// absent or unreadable.
    ReadBytecode { path: String },
    /// Run the source compiler, and report its bytecode or its diagnostic.
    Compile(CompileRequest),
    /// Write the file, and report whether that went through.
    WriteBytecode(FileWrite),
    /// Have the device build the shader module and the pipeline against the
    /// live pipeline cache, and report the pipeline or the rejection.
    BuildPipeline(PipelineRequest),
    /// Nothing more: this is the result of the compilation.
    Finish(Result<usize, BackendError>),
}

/// An [`Action`] as a mathematical value.
pub enum ActionView {
    ReadBytecode { path: Seq<char> },
    Compile(CompileRequestView),
    WriteBytecode(FileWriteView),
    BuildPipeline(PipelineRequestView),
    Finish(Result<usize, BackendErrorView>),
}

impl View for Action {
    type V = ActionView;

    open spec fn view(&self) -> ActionView {
        match self {
            Action::ReadBytecode { path } => ActionView::ReadBytecode { path: path@ },
            Action::Compile(request) => ActionView::Compile(request@),
            Action::WriteBytecode(write) => ActionView::WriteBytecode(write@),
            Action::BuildPipeline(request) => ActionView::BuildPipeline(request@),
            Action::Finish(Ok(handle)) => ActionView::Finish(Ok(*handle)),
            Action::Finish(Err(e)) => ActionView::Finish(Err(e@)),
        }
    }
}

/// What came of the action that the backend last asked for. `P` is the
/// device's type of pipeline objects.
pub enum Event<P> {
    /// The contents of the bytecode file; `None` if it is absent or
    /// unreadable.
    BytecodeRead(Option<Vec<u8>>),
    /// The compiler's bytecode, or its diagnostic.
    Compiled(Result<Vec<u32>, String>),
    /// Whether the bytecode file was written.
    BytecodeWritten(bool),
    /// The pipeline that the device built, or its rejection.
    PipelineBuilt(Result<P, DeviceFailure>),
}

/// An [`Event`] as a mathematical value.
pub enum EventView<P> {
    BytecodeRead(Option<Seq<u8>>),
    Compiled(Result<Seq<u32>, Seq<char>>),
    BytecodeWritten(bool),
    PipelineBuilt(Result<P, DeviceFailure>),
}

impl<P> View for Event<P> {
    type V = EventView<P>;

    open spec fn view(&self) -> EventView<P> {
        match self {
            Event::BytecodeRead(file) => EventView::BytecodeRead(file_view(*file)),
            Event::Compiled(compiled) => EventView::Compiled(compiled_view(*compiled)),
            Event::BytecodeWritten(written) => EventView::BytecodeWritten(*written),
            Event::PipelineBuilt(built) => EventView::PipelineBuilt(*built),
        }
    }
}

/// Whether `event` answers the action that led to `state`.
pub open spec fn expects<P>(state: CompileStateView, event: EventView<P>) -> bool {
    match state {
        CompileStateView::Probing { .. } => event is BytecodeRead,
        CompileStateView::Compiling { .. } => event is Compiled,
        CompileStateView::Storing { .. } => event is BytecodeWritten,
        CompileStateView::Building => event is PipelineBuilt,
        CompileStateView::Finished => false,
    }
}

/// One step of a compilation: the state to go on from, the action to take,
/// and the pool as the step leaves it.
pub struct Transition<P> {
    pub state: CompileStateView,
    pub action: ActionView,
    pub pool: Seq<P>,
}

/// The first step of compiling the shader with the given key and source:
/// look for its bytecode file.
pub open spec fn begin<P>(pool: Seq<P>, key: Seq<char>, source: Seq<char>) -> Transition<P> {
    Transition {
        state: CompileStateView::Probing { key, source },
        action: ActionView::ReadBytecode { path: cache_path(key) },
        pool,
    }
}

/// The step that follows `event` in `state`, for an event that the state
/// expects.
///
/// - A bytecode file that holds a module goes straight to the device; the
///   compiler is not run. Without one, the source is compiled.
/// - Compiled bytecode is stored in the bytecode file; a compiler failure
///   ends the compilation with `CompileError`.
/// - Whether or not the file could be written, the bytecode goes to the
///   device.
/// - A built pipeline is appended to the pool and its handle returned; a
///   rejection ends the compilation with `DeviceCreationError` and leaves
///   the pool as it was.
pub open spec fn next<P>(pool: Seq<P>, state: CompileStateView, event: EventView<P>) -> Transition<
    P,
> {
    match (state, event) {
        (CompileStateView::Probing { key, source }, EventView::BytecodeRead(file)) => {
            match cached_words(file) {
                Some(words) => Transition {
                    state: CompileStateView::Building,
                    action: ActionView::BuildPipeline(request_for(words)),
                    pool,
                },
                None => Transition {
                    state: CompileStateView::Compiling { key },
                    action: ActionView::Compile(compile_request_for(key, source)),
                    pool,
                },
            }
        },
        (CompileStateView::Compiling { key }, EventView::Compiled(compiled)) => {
            match compile_outcome(compiled) {
                Ok((words, bytes)) => Transition {
                    state: CompileStateView::Storing { words },
                    action: ActionView::WriteBytecode(
                        FileWriteView { path: cache_path(key), bytes },
                    ),
                    pool,
                },
                Err(e) => Transition {
                    state: CompileStateView::Finished,
                    action: ActionView::Finish(Err(e)),
                    pool,
                },
            }
        },
        (CompileStateView::Storing { words }, EventView::BytecodeWritten(_)) => Transition {
            state: CompileStateView::Building,
            action: ActionView::BuildPipeline(request_for(words)),
            pool,
        },
        (CompileStateView::Building, EventView::PipelineBuilt(built)) => Transition {
            state: CompileStateView::Finished,
            action: ActionView::Finish(create_result(pool, built)),
            pool: pool_after(pool, built),
        },
        _ => Transition { state, action: arbitrary(), pool },
    }
}

impl CompileState {
    /// Whether `event` answers the action that led to this state.
    pub fn accepts<P>(&self, event: &Event<P>) -> (b: bool)
        ensures
            b == expects(self@, event@),
    {
        match self {
            CompileState::Probing { .. } => match event {
                Event::BytecodeRead(_) => true,
                _ => false,
            },
            CompileState::Compiling { .. } => match event {
                Event::Compiled(_) => true,
                _ => false,
            },
            CompileState::Storing { .. } => match event {
                Event::BytecodeWritten(_) => true,
                _ => false,
            },
            CompileState::Building => match event {
                Event::PipelineBuilt(_) => true,
                _ => false,
            },
            CompileState::Finished => false,
        }
    }
}

/// The arguments of one frame: the pipeline to draw with, and the data that
/// is passed through to the draw untouched.
pub struct RenderParams<U> {
    pub pipeline: usize,
    pub uniforms: U,
}

/// One step of drawing a frame on the device.
#[derive(Clone, Copy, Debug, PartialEq, Eq, Structural)]
pub enum FrameStep {
    /// Acquire the image to draw to.
    AcquireImage,
    /// Begin the render pass on that image.
    BeginRenderPass,
    /// Bind the frame's pipeline.
    BindPipeline,
    /// Draw this many vertices, this many times.
    Draw { vertices: u32, instances: u32 },
    /// End the render pass.
    EndRenderPass,
    /// Submit the recorded commands to the queue.
    Submit,
    /// Present the image.
    Present,
}

/// The steps of every frame, in the order that the device asks for: one
/// render pass around one draw of a single triangle, which the vertex stage
/// stretches over the screen.
pub open spec fn frame_sequence() -> Seq<FrameStep> {
    seq![
        FrameStep::AcquireImage,
        FrameStep::BeginRenderPass,
        FrameStep::BindPipeline,
        FrameStep::Draw { vertices: 3, instances: 1 },
        FrameStep::EndRenderPass,
        FrameStep::Submit,
        FrameStep::Present,
    ]
}

/// The steps of every frame, in order.
pub fn frame_steps() -> (steps: Vec<FrameStep>)
    ensures
        steps@ == frame_sequence(),
{
    let mut steps: Vec<FrameStep> = Vec::new();
    steps.push(FrameStep::AcquireImage);
    steps.push(FrameStep::BeginRenderPass);
    steps.push(FrameStep::BindPipeline);
    steps.push(FrameStep::Draw { vertices: 3, instances: 1 });
    steps.push(FrameStep::EndRenderPass);
    steps.push(FrameStep::Submit);
    steps.push(FrameStep::Present);
    assert(steps@ =~= frame_sequence());
    steps
}

/// A frame that is ready to be drawn: the pipeline to bind, the data of the
/// frame, and the steps to take, each once and in this order.
pub struct DrawCall<'a, P, U> {
    pub pipeline: &'a P,
    pub uniforms: U,
    pub steps: Vec<FrameStep>,
}

/// The render backend. `P` is the device's type of pipeline objects.
///
/// The backend is the one owner of the pipeline pool. Callers hold handles,
/// never pipelines, and every change to the pool goes through `&mut self`.
pub struct GfxBackend<P> {
    state: BackendState,
    pipelines: PipelinePool<P>,
    initial_cache: Vec<u8>,
}

impl<P> GfxBackend<P> {
    /// Where the backend is in its life.
    pub closed spec fn state(&self) -> BackendState {
        self.state
    }

    /// The pipelines of the pool, by handle.
    pub closed spec fn pipelines(&self) -> Seq<P> {
        self.pipelines@
    }

    /// The blob that the device's pipeline cache is created from.
    pub closed spec fn initial_cache(&self) -> Seq<u8> {
        self.initial_cache@
    }

    /// Sets the backend up, given what the instance reports of its adapters
    /// and the contents of the pipeline cache file, or `None` if the file is
    /// absent or unreadable. Returns the backend, ready for use, together
    /// with the choices to build the device on.
    ///
    /// The pool is empty. A missing cache file is no error: the pipeline
    /// cache then starts from the empty blob.
    pub fn new(adapters: &Vec<AdapterReport>, cache_file: Option<Vec<u8>>) -> (res: (
        Self,
        SetupPlan,
    ))
        requires
            can_set_up(adapters@),
        ensures
            res.0.state() == BackendState::Ready,
            res.0.pipelines() == Seq::<P>::empty(),
            res.0.initial_cache() == initial_blob(file_view(cache_file)),
            is_plan_for(adapters@, res.1),
    {
        let plan = plan_setup(adapters);
        let backend = GfxBackend {
            state: BackendState::Ready,
            pipelines: PipelinePool::new(),
            initial_cache: load_blob(cache_file),
        };
        (backend, plan)
    }

    /// Whether the backend is set up.
    pub fn is_ready(&self) -> (b: bool)
        ensures
            b == (self.state() == BackendState::Ready),
    {
        match self.state {
            BackendState::Ready => true,
            BackendState::Uninitialized => false,
        }
    }

    /// The blob to create the device's pipeline cache from. It is handed to
    /// the device as it is, also where it is empty.
    pub fn initial_pipeline_cache(&self) -> (blob: &Vec<u8>)
        ensures
            blob@ == self.initial_cache(),
    {
        &self.initial_cache
    }

    /// The number of pipelines in the pool.
    pub fn pipeline_count(&self) -> (n: usize)
        ensures
            n == self.pipelines().len(),
    {
        self.pipelines.len()
    }

    /// Starts compiling the shader at `path` with the text `source`. The
    /// first thing to do is to look for the shader's bytecode file.
    pub fn compile_shader(&self, path: &str, source: &str) -> (step: (CompileState, Action))
        requires
            self.state() == BackendState::Ready,
        ensures
            step.0@ == begin(self.pipelines(), path@, source@).state,
            step.1@ == begin(self.pipelines(), path@, source@).action,
    {
        let key = String::from_str(path);
        let action = Action::ReadBytecode { path: bytecode_path(path) };
        (CompileState::Probing { key, source: String::from_str(source) }, action)
    }

    /// Takes what came of the last action, and returns the state to go on
    /// from and the next action. Only the last step of a compilation that
    /// succeeds changes the pool.
    pub fn advance(&mut self, state: CompileState, event: Event<P>) -> (step: (
        CompileState,
        Action,
    ))
        requires
            old(self).state() == BackendState::Ready,
            expects(state@, event@),
        ensures
            step.0@ == next(old(self).pipelines(), state@, event@).state,
            step.1@ == next(old(self).pipelines(), state@, event@).action,
            final(self).pipelines() == next(old(self).pipelines(), state@, event@).pool,
            final(self).state() == BackendState::Ready,
            final(self).initial_cache() == old(self).initial_cache(),
    {
        match state {
            CompileState::Probing { key, source } => match event {
                Event::BytecodeRead(file) => match lookup(file) {
                    Some(words) => (
                        CompileState::Building,
                        Action::BuildPipeline(pipeline_request(words)),
                    ),
                    None => {
                        let request = compile_request(key.clone(), source);
                        (CompileState::Compiling { key }, Action::Compile(request))
                    },
                },
                _ => vstd::pervasive::unreached(),
            },
            CompileState::Compiling { key } => match event {
                Event::Compiled(compiled) => match take_compiled(compiled) {
                    Ok((words, bytes)) => {
                        let write = FileWrite { path: bytecode_path(key.as_str()), bytes };
                        (CompileState::Storing { words }, Action::WriteBytecode(write))
                    },
                    Err(e) => (CompileState::Finished, Action::Finish(Err(e))),
                },
                _ => vstd::pervasive::unreached(),
            },
            CompileState::Storing { words } => match event {
                Event::BytecodeWritten(_) => (
                    CompileState::Building,
                    Action::BuildPipeline(pipeline_request(words)),
                ),
                _ => vstd::pervasive::unreached(),
            },
            CompileState::Building => match event {
                Event::PipelineBuilt(built) => {
                    let result = self.pipelines.create(built);
                    (CompileState::Finished, Action::Finish(result))
                },
                _ => vstd::pervasive::unreached(),
            },
            CompileState::Finished => vstd::pervasive::unreached(),
        }
    }

    /// Resolves the pipeline of a frame, and returns it with the steps that
    /// draw and present the frame. The handle is one that the pool issued:
    /// any other is a bug in the caller and fatal, and nothing is to be drawn
    /// in its place. The pool is not touched.
    pub fn render_frame<U>(&self, params: RenderParams<U>) -> (call: DrawCall<'_, P, U>)
        requires
            self.state() == BackendState::Ready,
            params.pipeline < self.pipelines().len(),
        ensures
            *call.pipeline == self.pipelines()[params.pipeline as int],
            call.uniforms == params.uniforms,
            call.steps@ == frame_sequence(),
    {
        DrawCall {
            pipeline: self.pipelines.get(params.pipeline),
            uniforms: params.uniforms,
            steps: frame_steps(),
        }
    }

    /// Whether the pool issued `handle`, that is, whether a frame can be
    /// rendered with it.
    pub fn has_pipeline(&self, handle: usize) -> (b: bool)
        ensures
            b == (handle < self.pipelines().len()),
    {
        self.pipelines.contains(handle)
    }

    /// The first half of a flush: takes the blob that was read back from
    /// the device's pipeline cache, or the device's diagnostic if it could
    /// not hand the blob back, and returns the write that persists it: the
    /// whole blob, to the cache file, replacing what the file held. A
    /// failed read-back gives `CacheIoError` and leaves the file alone.
    /// Neither outcome touches the pool. Nothing flushes the cache but a
    /// call of this function.
    pub fn flush_pipeline_cache(&self, read_back: Result<Vec<u8>, String>) -> (res: Result<
        FileWrite,
        BackendError,
    >)
        requires
            self.state() == BackendState::Ready,
        ensures
            match res {
                Ok(write) => flush_write(read_back_view(read_back)) == Ok::<
                    FileWriteView,
                    BackendErrorView,
                >(write@),
                Err(e) => flush_write(read_back_view(read_back)) == Err::<
                    FileWriteView,
                    BackendErrorView,
                >(e@),
            },
    {
        flush_plan(read_back)
    }
}

} // verus!
