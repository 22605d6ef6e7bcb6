//! The bytecode cache: one file per shader, named after the shader's key,
//! holding the compiled words. A shader is compiled only when its file is
//! missing or does not hold a module.
//!
//! The cache is keyed by the path alone. A file that is present is trusted
//! as it stands: it is not compared with the source text, so bytecode of an
//! earlier version of the source is returned until the file is removed.

use vstd::prelude::*;
use vstd::string::*;
use crate::error::{BackendError, BackendErrorView};
use crate::spirv::{decode_words, decoded, encode_words, encoded};

verus! {

/// The stage that a shader is compiled for.
#[derive(Clone, Copy, Debug, PartialEq, Eq, Structural)]
pub enum ShaderKind {
    Vertex,
    Fragment,
}

/// The name of the bytecode file of the shader with the given key.
pub open spec fn cache_path(key: Seq<char>) -> Seq<char> {
    key + ".compiled"@
}

/// The name of the bytecode file of the shader with the given key.
pub fn bytecode_path(key: &str) -> (path: String)
    ensures
        path@ == cache_path(key@),
{
    String::from_str(key).concat(".compiled")
}

/// The arguments of one run of the source compiler.
#[derive(Clone, Debug, PartialEq, Eq)]
pub struct CompileRequest {
    /// The shader text.
    pub source: String,
    /// The stage to compile for.
    pub kind: ShaderKind,
    /// The name under which diagnostics refer to the source.
    pub name: String,
    /// The function at which the shader starts.
    pub entry_point: String,
}

/// A [`CompileRequest`] as a mathematical value.
pub struct CompileRequestView {
    pub source: Seq<char>,
    pub kind: ShaderKind,
    pub name: Seq<char>,
    pub entry_point: Seq<char>,
}

impl View for CompileRequest {
    type V = CompileRequestView;

    open spec fn view(&self) -> CompileRequestView {
        CompileRequestView {
            source: self.source@,
            kind: self.kind,
            name: self.name@,
            entry_point: self.entry_point@,
        }
    }
}

/// How a user's shader is compiled: as a fragment shader, named by its key,
/// starting at `main`.
pub open spec fn compile_request_for(key: Seq<char>, source: Seq<char>) -> CompileRequestView {
    CompileRequestView { source, kind: ShaderKind::Fragment, name: key, entry_point: "main"@ }
}

/// The compiler run for the shader with the given key and text.
pub fn compile_request(key: String, source: String) -> (request: CompileRequest)
    ensures
        request@ == compile_request_for(key@, source@),
{
    CompileRequest {
        source,
        kind: ShaderKind::Fragment,
        name: key,
        entry_point: String::from_str("main"),
    }
}

/// The contents of a file that may be absent, as a mathematical value.
pub open spec fn file_view(file: Option<Vec<u8>>) -> Option<Seq<u8>> {
    match file {
        Some(bytes) => Some(bytes@),
        None => None,
    }
}

/// Optional bytecode as a mathematical value.
pub open spec fn words_view(words: Option<Vec<u32>>) -> Option<Seq<u32>> {
    match words {
        Some(w) => Some(w@),
        None => None,
    }
}

/// The outcome of a compiler run as a mathematical value.
pub open spec fn compiled_view(compiled: Result<Vec<u32>, String>) -> Result<
    Seq<u32>,
    Seq<char>,
> {
    match compiled {
        Ok(words) => Ok(words@),
        Err(diagnostic) => Err(diagnostic@),
    }
}

/// The bytecode that the cache holds for a shader, given its bytecode file:
/// the file's words, or nothing if the file is absent or holds no module.
pub open spec fn cached_words(file: Option<Seq<u8>>) -> Option<Seq<u32>> {
    match file {
        Some(bytes) => decoded(bytes),
        None => None,
    }
}

/// Looks a shader up, given the contents of its bytecode file, or `None` if
/// there is no such file. A file that cannot be read as a module counts as a
/// miss.
pub fn lookup(file: Option<Vec<u8>>) -> (hit: Option<Vec<u32>>)
    ensures
        words_view(hit) == cached_words(file_view(file)),
{
    match file {
        Some(bytes) => match decode_words(bytes.as_slice()) {
            Ok(words) => Some(words),
            Err(_) => None,
        },
        None => None,
    }
}

/// What the cache does with the outcome of a compiler run that followed a
/// miss: bytecode is kept, together with the bytes to store in the shader's
/// bytecode file; a failure becomes `CompileError` with the compiler's
/// diagnostic, and nothing is to be stored.
pub open spec fn compile_outcome(compiled: Result<Seq<u32>, Seq<char>>) -> Result<
    (Seq<u32>, Seq<u8>),
    BackendErrorView,
> {
    match compiled {
        Ok(words) => Ok((words, encoded(words))),
        Err(diagnostic) => Err(BackendErrorView::CompileError(diagnostic)),
    }
}

/// Takes the outcome of a compiler run that followed a miss, and returns the
/// bytecode with the bytes to store in the bytecode file, or the failure.
pub fn take_compiled(compiled: Result<Vec<u32>, String>) -> (res: Result<(Vec<u32>, Vec<u8>), BackendError>)
    ensures
        match res {
            Ok((words, bytes)) => compile_outcome(compiled_view(compiled)) == Ok::<
                (Seq<u32>, Seq<u8>),
                BackendErrorView,
            >((words@, bytes@)),
            Err(e) => compile_outcome(compiled_view(compiled)) == Err::<
                (Seq<u32>, Seq<u8>),
                BackendErrorView,
            >(e@),
        },
{
    match compiled {
        Ok(words) => {
            let bytes = encode_words(words.as_slice());
            Ok((words, bytes))
        },
        Err(diagnostic) => Err(BackendError::CompileError(diagnostic)),
    }
}

/// Everything that one request to the cache amounts to.
pub struct CacheOutcome {
    /// The bytecode returned, or the compile error.
    pub bytecode: Result<Seq<u32>, BackendErrorView>,
    /// Whether the source compiler was run.
    pub compiler_invoked: bool,
    /// The bytes stored in the shader's bytecode file, if it was written.
    pub written: Option<Seq<u8>>,
}

/// The cache's answer for a shader, given its bytecode file and what the
/// compiler would return for its source.
///
/// A file that holds a module is returned as it is, and the compiler is not
/// run. Otherwise the compiler is run; its bytecode is stored and returned,
/// its failure is returned and nothing is stored.
pub open spec fn get_or_compile(
    file: Option<Seq<u8>>,
    compiled: Result<Seq<u32>, Seq<char>>,
) -> CacheOutcome {
    match cached_words(file) {
        Some(words) => CacheOutcome { bytecode: Ok(words), compiler_invoked: false, written: None },
        None => match compile_outcome(compiled) {
            Ok((words, bytes)) => CacheOutcome {
                bytecode: Ok(words),
                compiler_invoked: true,
                written: Some(bytes),
            },
            Err(e) => CacheOutcome { bytecode: Err(e), compiler_invoked: true, written: None },
        },
    }
}

} // verus!
