use shader_backend::bytecode_cache::{
    bytecode_path, compile_request, lookup, take_compiled, CompileRequest, ShaderKind,
};
use shader_backend::error::BackendError;
use shader_backend::pipeline::{pipeline_request, Topology};
use shader_backend::pipeline_cache::{
    flush_plan, flush_result, load_blob, pipeline_cache_path, FileWrite,
};
use shader_backend::spirv::SPIRV_MAGIC;

#[test]
fn the_bytecode_file_is_named_after_the_key() {
    assert_eq!(bytecode_path("red.frag"), "red.frag.compiled");
    assert_eq!(bytecode_path("shaders/a b.glsl"), "shaders/a b.glsl.compiled");
    assert_eq!(bytecode_path(""), ".compiled");
}

#[test]
fn shaders_compile_as_fragment_shaders_from_main() {
    assert_eq!(
        compile_request(String::from("k"), String::from("src")),
        CompileRequest {
            source: String::from("src"),
            kind: ShaderKind::Fragment,
            name: String::from("k"),
            entry_point: String::from("main"),
        }
    );
}

#[test]
fn lookup_hits_on_a_module() {
    let file: Vec<u8> = vec![0x03, 0x02, 0x23, 0x07, 0x2a, 0, 0, 0];
    assert_eq!(lookup(Some(file)), Some(vec![SPIRV_MAGIC, 42]));
}

#[test]
fn lookup_misses_without_a_file() {
    assert_eq!(lookup(None), None);
}

#[test]
fn lookup_misses_on_a_file_that_is_no_module() {
    assert_eq!(lookup(Some(vec![1, 2, 3, 4])), None);
    assert_eq!(lookup(Some(vec![0x03, 0x02, 0x23])), None);
    assert_eq!(lookup(Some(Vec::new())), None);
}

#[test]
fn compiled_bytecode_comes_with_its_file_bytes() {
    assert_eq!(
        take_compiled(Ok(vec![SPIRV_MAGIC, 0x0a0b_0c0d])),
        Ok((vec![SPIRV_MAGIC, 0x0a0b_0c0d], vec![0x03, 0x02, 0x23, 0x07, 0x0d, 0x0c, 0x0b, 0x0a]))
    );
}

#[test]
fn a_compiler_failure_becomes_a_compile_error() {
    assert_eq!(
        take_compiled(Err(String::from("1: bad"))),
        Err(BackendError::CompileError(String::from("1: bad")))
    );
}

#[test]
fn pipelines_are_triangle_lists_with_one_colour_output() {
    let request = pipeline_request(vec![SPIRV_MAGIC, 1]);
    assert_eq!(request.fragment, vec![SPIRV_MAGIC, 1]);
    assert_eq!(request.entry_point, "main");
    assert_eq!(request.fixed.topology, Topology::TriangleList);
    assert_eq!(request.fixed.color_outputs, 1);
    assert!(!request.fixed.depth_stencil);
    assert_eq!(request.fixed.vertex_attributes, 0);
}

#[test]
fn the_pipeline_cache_has_one_file() {
    assert_eq!(pipeline_cache_path(), "pipeline.cache");
}

#[test]
fn a_missing_cache_file_gives_the_empty_blob() {
    assert_eq!(load_blob(None), Vec::<u8>::new());
}

#[test]
fn a_cache_file_is_loaded_as_it_is() {
    assert_eq!(load_blob(Some(vec![1, 2, 3])), vec![1, 2, 3]);
    assert_eq!(load_blob(Some(Vec::new())), Vec::<u8>::new());
}

#[test]
fn a_flush_writes_the_whole_blob_to_the_cache_file() {
    assert_eq!(
        flush_plan(Ok(vec![0xca, 0xfe])),
        Ok(FileWrite { path: String::from("pipeline.cache"), bytes: vec![0xca, 0xfe] })
    );
    assert_eq!(load_blob(Some(flush_plan(Ok(vec![0xca, 0xfe])).unwrap().bytes)), vec![0xca, 0xfe]);
}

#[test]
fn a_flush_without_a_blob_writes_nothing() {
    assert_eq!(
        flush_plan(Err(String::from("device lost"))),
        Err(BackendError::CacheIoError(String::from("device lost")))
    );
}

#[test]
fn a_flush_fails_only_if_the_write_did() {
    assert_eq!(flush_result(Ok(())), Ok(()));
    assert_eq!(
        flush_result(Err(String::from("disk full"))),
        Err(BackendError::CacheIoError(String::from("disk full")))
    );
}
