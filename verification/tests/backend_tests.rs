use shader_backend::backend::{
    frame_steps, Action, BackendState, CompileState, DrawCall, Event, FrameStep, GfxBackend,
    RenderParams,
};
use shader_backend::bytecode_cache::{CompileRequest, ShaderKind};
use shader_backend::error::{BackendError, DeviceFailure, DeviceStage};
use shader_backend::pipeline::{FixedState, PipelineRequest, Topology};
use shader_backend::pipeline_cache::FileWrite;
use shader_backend::setup::{AdapterReport, FormatChoice, QueueFamilyInfo, QueueKind, SetupPlan};
use shader_backend::spirv::{encode_words, SPIRV_MAGIC};
use std::collections::HashMap;

/// A stand-in for the file system, the compiler and the device. A pipeline
/// is the bytecode it was built from.
struct World {
    files: HashMap<String, Vec<u8>>,
    disk_full: bool,
    compiler_runs: usize,
    writes: usize,
    device_calls: usize,
    reject_at: Option<DeviceStage>,
    trace: Vec<&'static str>,
}

fn world() -> World {
    World {
        files: HashMap::new(),
        disk_full: false,
        compiler_runs: 0,
        writes: 0,
        device_calls: 0,
        reject_at: None,
        trace: Vec::new(),
    }
}

fn fake_compile(request: &CompileRequest) -> Result<Vec<u32>, String> {
    if request.source.contains("@@") {
        Err(format!("{}:1: error: unexpected token", request.name))
    } else {
        let mut words: Vec<u32> = vec![SPIRV_MAGIC, 0x0001_0000];
        for byte in request.source.bytes() {
            words.push(byte as u32);
        }
        Ok(words)
    }
}

fn adapters() -> Vec<AdapterReport> {
    vec![
        AdapterReport {
            queue_families: vec![
                QueueFamilyInfo { kind: QueueKind::Transfer, presentable: true },
                QueueFamilyInfo { kind: QueueKind::General, presentable: true },
            ],
            features: 0x0000_5000_0000_0001,
            srgb_formats: Some(vec![false, true]),
        },
        AdapterReport {
            queue_families: vec![QueueFamilyInfo { kind: QueueKind::Graphics, presentable: true }],
            features: 0,
            srgb_formats: None,
        },
    ]
}

fn ready_backend() -> GfxBackend<Vec<u32>> {
    GfxBackend::new(&adapters(), None).0
}

fn compile(
    backend: &mut GfxBackend<Vec<u32>>,
    world: &mut World,
    path: &str,
    source: &str,
) -> Result<usize, BackendError> {
    world.trace.clear();
    let (mut state, mut action) = backend.compile_shader(path, source);
    loop {
        let event = match action {
            Action::ReadBytecode { path } => {
                world.trace.push("read");
                Event::BytecodeRead(world.files.get(&path).cloned())
            }
            Action::Compile(request) => {
                world.trace.push("compile");
                world.compiler_runs += 1;
                Event::Compiled(fake_compile(&request))
            }
            Action::WriteBytecode(write) => {
                world.trace.push("write");
                if world.disk_full {
                    Event::BytecodeWritten(false)
                } else {
                    world.writes += 1;
                    world.files.insert(write.path, write.bytes);
                    Event::BytecodeWritten(true)
                }
            }
            Action::BuildPipeline(request) => {
                world.trace.push("build");
                world.device_calls += 1;
                match world.reject_at {
                    Some(stage) => Event::PipelineBuilt(Err(DeviceFailure {
                        stage,
                        diagnostic: String::from("rejected"),
                    })),
                    None => Event::PipelineBuilt(Ok(request.fragment)),
                }
            }
            Action::Finish(result) => {
                assert_eq!(state, CompileState::Finished);
                return result;
            }
        };
        assert!(state.accepts(&event));
        let step = backend.advance(state, event);
        state = step.0;
        action = step.1;
    }
}

const RED: &str = "void main() { color = vec4(1, 0, 0, 1); }";
const BLUE: &str = "void main() { color = vec4(0, 0, 1, 1); }";

#[test]
fn a_new_backend_is_ready_and_empty() {
    let (backend, _): (GfxBackend<Vec<u32>>, SetupPlan) = GfxBackend::new(&adapters(), None);
    assert!(backend.is_ready());
    assert_eq!(backend.pipeline_count(), 0);
    assert!(!backend.has_pipeline(0));
    assert_ne!(BackendState::Uninitialized, BackendState::Ready);
}

#[test]
fn a_new_backend_comes_with_the_choices_of_the_setup() {
    let (_, plan): (GfxBackend<Vec<u32>>, SetupPlan) = GfxBackend::new(&adapters(), None);
    assert_eq!(
        plan,
        SetupPlan {
            adapter: 0,
            queue_family: 1,
            features: 0x0000_5000_0000_0000,
            format: FormatChoice::Listed(1),
        }
    );
}

#[test]
fn a_backend_can_compile_as_soon_as_it_exists() {
    let (mut backend, _): (GfxBackend<Vec<u32>>, SetupPlan) = GfxBackend::new(&adapters(), None);
    let mut w = world();
    assert_eq!(compile(&mut backend, &mut w, "red.frag", RED), Ok(0));
}

#[test]
fn the_first_run_starts_from_an_empty_pipeline_cache() {
    let backend = ready_backend();
    assert!(backend.initial_pipeline_cache().is_empty());
}

#[test]
fn a_flushed_pipeline_cache_is_found_by_the_next_run() {
    let first = ready_backend();
    assert!(first.initial_pipeline_cache().is_empty());
    let write = first.flush_pipeline_cache(Ok(vec![9, 8, 7, 6, 5])).unwrap();
    assert_eq!(
        write,
        FileWrite { path: String::from("pipeline.cache"), bytes: vec![9, 8, 7, 6, 5] }
    );
    let second: GfxBackend<Vec<u32>> = GfxBackend::new(&adapters(), Some(write.bytes)).0;
    assert_eq!(second.initial_pipeline_cache(), &vec![9, 8, 7, 6, 5]);
    assert!(!second.initial_pipeline_cache().is_empty());
}

#[test]
fn a_flush_fails_if_the_device_hands_nothing_back() {
    let mut backend = ready_backend();
    let mut w = world();
    assert_eq!(compile(&mut backend, &mut w, "red.frag", RED), Ok(0));
    assert_eq!(
        backend.flush_pipeline_cache(Err(String::from("out of memory"))),
        Err(BackendError::CacheIoError(String::from("out of memory")))
    );
    assert_eq!(backend.pipeline_count(), 1);
    assert!(backend.has_pipeline(0));
}

#[test]
fn compile_shader_starts_by_reading_the_bytecode_file() {
    let backend = ready_backend();
    let (state, action) = backend.compile_shader("red.frag", RED);
    assert_eq!(
        state,
        CompileState::Probing { key: String::from("red.frag"), source: String::from(RED) }
    );
    assert_eq!(action, Action::ReadBytecode { path: String::from("red.frag.compiled") });
}

#[test]
fn a_miss_asks_for_a_fragment_shader_named_by_its_key() {
    let mut backend = ready_backend();
    let (state, _) = backend.compile_shader("red.frag", RED);
    let (state, action) = backend.advance(state, Event::BytecodeRead(None));
    assert_eq!(state, CompileState::Compiling { key: String::from("red.frag") });
    assert_eq!(
        action,
        Action::Compile(CompileRequest {
            source: String::from(RED),
            kind: ShaderKind::Fragment,
            name: String::from("red.frag"),
            entry_point: String::from("main"),
        })
    );
}

#[test]
fn compiled_bytecode_is_stored_then_built() {
    let mut backend = ready_backend();
    let words: Vec<u32> = vec![SPIRV_MAGIC, 1, 2, 3];
    let (state, _) = backend.compile_shader("red.frag", RED);
    let (state, _) = backend.advance(state, Event::BytecodeRead(None));
    let (state, action) = backend.advance(state, Event::Compiled(Ok(words.clone())));
    assert_eq!(state, CompileState::Storing { words: words.clone() });
    assert_eq!(
        action,
        Action::WriteBytecode(FileWrite {
            path: String::from("red.frag.compiled"),
            bytes: vec![0x03, 0x02, 0x23, 0x07, 1, 0, 0, 0, 2, 0, 0, 0, 3, 0, 0, 0],
        })
    );
    let (state, action) = backend.advance(state, Event::BytecodeWritten(true));
    assert_eq!(state, CompileState::Building);
    assert_eq!(
        action,
        Action::BuildPipeline(PipelineRequest {
            fragment: words.clone(),
            entry_point: String::from("main"),
            fixed: FixedState {
                topology: Topology::TriangleList,
                color_outputs: 1,
                depth_stencil: false,
                vertex_attributes: 0,
            },
        })
    );
    let (state, action) = backend.advance(state, Event::PipelineBuilt(Ok(words.clone())));
    assert_eq!(state, CompileState::Finished);
    assert_eq!(action, Action::Finish(Ok(0)));
    assert_eq!(backend.pipeline_count(), 1);
}

#[test]
fn a_hit_goes_straight_to_the_device() {
    let mut backend = ready_backend();
    let words: Vec<u32> = vec![SPIRV_MAGIC, 7, 7];
    let (state, _) = backend.compile_shader("red.frag", "anything");
    let (state, action) =
        backend.advance(state, Event::BytecodeRead(Some(encode_words(&words))));
    assert_eq!(state, CompileState::Building);
    match action {
        Action::BuildPipeline(request) => assert_eq!(request.fragment, words),
        other => panic!("unexpected action {:?}", other),
    }
}

#[test]
fn a_file_that_holds_no_module_counts_as_a_miss() {
    let mut backend = ready_backend();
    let mut w = world();
    w.files.insert(String::from("red.frag.compiled"), vec![1, 2, 3]);
    assert_eq!(compile(&mut backend, &mut w, "red.frag", RED), Ok(0));
    assert_eq!(w.trace, vec!["read", "compile", "write", "build"]);
    assert_eq!(w.compiler_runs, 1);
    let expected = encode_words(&fake_compile(&CompileRequest {
        source: String::from(RED),
        kind: ShaderKind::Fragment,
        name: String::from("red.frag"),
        entry_point: String::from("main"),
    })
    .unwrap());
    assert_eq!(w.files.get("red.frag.compiled"), Some(&expected));
}

#[test]
fn the_second_compile_of_a_key_reads_the_cache() {
    let mut backend = ready_backend();
    let mut w = world();
    assert_eq!(compile(&mut backend, &mut w, "red.frag", RED), Ok(0));
    assert_eq!(w.trace, vec!["read", "compile", "write", "build"]);
    assert_eq!(compile(&mut backend, &mut w, "red.frag", RED), Ok(1));
    assert_eq!(w.trace, vec!["read", "build"]);
    assert_eq!(w.compiler_runs, 1);
    assert_eq!(w.writes, 1);
    let first = backend.render_frame(RenderParams { pipeline: 0, uniforms: () });
    let second = backend.render_frame(RenderParams { pipeline: 1, uniforms: () });
    assert_eq!(first.pipeline, second.pipeline);
}

#[test]
fn the_cache_is_keyed_by_path_alone() {
    let mut backend = ready_backend();
    let mut w = world();
    assert_eq!(compile(&mut backend, &mut w, "red.frag", RED), Ok(0));
    assert_eq!(compile(&mut backend, &mut w, "red.frag", BLUE), Ok(1));
    assert_eq!(w.compiler_runs, 1);
    let first = backend.render_frame(RenderParams { pipeline: 0, uniforms: () });
    let second = backend.render_frame(RenderParams { pipeline: 1, uniforms: () });
    assert_eq!(first.pipeline, second.pipeline);
}

#[test]
fn invalid_source_is_a_compile_error_and_writes_nothing() {
    let mut backend = ready_backend();
    let mut w = world();
    assert_eq!(
        compile(&mut backend, &mut w, "bad.frag", "void main() { @@ }"),
        Err(BackendError::CompileError(String::from("bad.frag:1: error: unexpected token")))
    );
    assert_eq!(w.trace, vec!["read", "compile"]);
    assert_eq!(w.writes, 0);
    assert!(w.files.is_empty());
    assert_eq!(w.device_calls, 0);
    assert_eq!(backend.pipeline_count(), 0);
}

#[test]
fn a_compile_error_can_be_retried_with_fixed_source() {
    let mut backend = ready_backend();
    let mut w = world();
    assert!(compile(&mut backend, &mut w, "a.frag", "@@").is_err());
    assert_eq!(compile(&mut backend, &mut w, "a.frag", RED), Ok(0));
    assert_eq!(w.compiler_runs, 2);
}

#[test]
fn a_failed_write_does_not_fail_the_compile() {
    let mut backend = ready_backend();
    let mut w = world();
    w.disk_full = true;
    assert_eq!(compile(&mut backend, &mut w, "red.frag", RED), Ok(0));
    assert_eq!(w.trace, vec!["read", "compile", "write", "build"]);
    assert_eq!(compile(&mut backend, &mut w, "red.frag", RED), Ok(1));
    assert_eq!(w.compiler_runs, 2);
}

#[test]
fn a_device_rejection_is_reported_and_leaves_the_pool() {
    let mut backend = ready_backend();
    let mut w = world();
    assert_eq!(compile(&mut backend, &mut w, "red.frag", RED), Ok(0));
    w.reject_at = Some(DeviceStage::ShaderModule);
    assert_eq!(
        compile(&mut backend, &mut w, "blue.frag", BLUE),
        Err(BackendError::DeviceCreationError(
            DeviceStage::ShaderModule,
            String::from("rejected")
        ))
    );
    assert_eq!(backend.pipeline_count(), 1);
    w.reject_at = Some(DeviceStage::Pipeline);
    assert_eq!(
        compile(&mut backend, &mut w, "blue.frag", BLUE),
        Err(BackendError::DeviceCreationError(DeviceStage::Pipeline, String::from("rejected")))
    );
    assert_eq!(backend.pipeline_count(), 1);
    w.reject_at = None;
    assert_eq!(compile(&mut backend, &mut w, "blue.frag", BLUE), Ok(1));
    assert_eq!(backend.pipeline_count(), 2);
}

#[test]
fn handles_count_up_in_call_order() {
    let mut backend = ready_backend();
    let mut w = world();
    for expected in 0..25usize {
        let path = format!("shader{}.frag", expected);
        let source = format!("void main() {{ x = {}; }}", expected);
        assert_eq!(compile(&mut backend, &mut w, &path, &source), Ok(expected));
        assert_eq!(backend.pipeline_count(), expected + 1);
    }
}

#[test]
fn red_blue_red_scenario() {
    let mut backend = ready_backend();
    let mut w = world();
    assert_eq!(compile(&mut backend, &mut w, "red.frag", RED), Ok(0));
    assert_eq!(compile(&mut backend, &mut w, "blue.frag", BLUE), Ok(1));
    {
        let DrawCall { pipeline, uniforms, steps } =
            backend.render_frame(RenderParams { pipeline: 0, uniforms: 16u64 });
        assert_eq!(pipeline[2], 'v' as u32);
        assert_eq!(uniforms, 16);
        assert_eq!(steps, frame_steps());
    }
    assert_eq!(backend.pipeline_count(), 2);
    {
        let call = backend.render_frame(RenderParams { pipeline: 1, uniforms: 33u64 });
        assert_eq!(call.uniforms, 33);
    }
    assert_eq!(backend.pipeline_count(), 2);
    let runs = w.compiler_runs;
    assert_eq!(compile(&mut backend, &mut w, "red.frag", RED), Ok(2));
    assert_eq!(w.compiler_runs, runs);
    assert_eq!(w.trace, vec!["read", "build"]);
    assert_eq!(backend.pipeline_count(), 3);
    let first = backend.render_frame(RenderParams { pipeline: 0, uniforms: () });
    let third = backend.render_frame(RenderParams { pipeline: 2, uniforms: () });
    assert_eq!(first.pipeline, third.pipeline);
}

#[test]
fn only_issued_handles_can_be_rendered() {
    let mut backend = ready_backend();
    let mut w = world();
    assert_eq!(compile(&mut backend, &mut w, "red.frag", RED), Ok(0));
    assert_eq!(compile(&mut backend, &mut w, "blue.frag", BLUE), Ok(1));
    assert!(backend.has_pipeline(0));
    assert!(backend.has_pipeline(1));
    assert!(!backend.has_pipeline(2));
    assert!(!backend.has_pipeline(99));
    assert_eq!(backend.pipeline_count(), 2);
    assert!(!BackendError::InvalidHandle(99).is_recoverable());
}

#[test]
fn states_accept_only_their_own_event() {
    let probing = CompileState::Probing { key: String::new(), source: String::new() };
    let compiling = CompileState::Compiling { key: String::new() };
    let storing = CompileState::Storing { words: Vec::new() };
    let read: Event<u8> = Event::BytecodeRead(None);
    let compiled: Event<u8> = Event::Compiled(Ok(Vec::new()));
    let written: Event<u8> = Event::BytecodeWritten(true);
    let built: Event<u8> = Event::PipelineBuilt(Ok(0));
    assert!(probing.accepts(&read));
    assert!(!probing.accepts(&compiled));
    assert!(compiling.accepts(&compiled));
    assert!(!compiling.accepts(&written));
    assert!(storing.accepts(&written));
    assert!(!storing.accepts(&built));
    assert!(CompileState::Building.accepts(&built));
    assert!(!CompileState::Building.accepts(&read));
    assert!(!CompileState::Finished.accepts(&read));
    assert!(!CompileState::Finished.accepts(&built));
}

#[test]
fn a_frame_is_one_render_pass_around_one_draw() {
    assert_eq!(
        frame_steps(),
        vec![
            FrameStep::AcquireImage,
            FrameStep::BeginRenderPass,
            FrameStep::BindPipeline,
            FrameStep::Draw { vertices: 3, instances: 1 },
            FrameStep::EndRenderPass,
            FrameStep::Submit,
            FrameStep::Present,
        ]
    );
}
