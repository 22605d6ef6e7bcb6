//! Whole compilations: what the backend's steps add up to when every action
//! is carried out and its outcome reported back.
//!
//! The world is modelled by an [`Environment`]: the files on disk and what
//! the compiler and the device answer. [`run`] drives the backend through
//! one compilation in such a world. The lemmas state what every such
//! compilation does, and what two of them do to each other through the
//! files.

use vstd::prelude::*;
use crate::backend::{begin, next, ActionView, CompileStateView, EventView};
use crate::bytecode_cache::{
    cache_path,
    cached_words,
    compile_request_for,
    get_or_compile,
    CacheOutcome,
};
use crate::error::{BackendErrorView, DeviceFailure};
use crate::pipeline::request_for;
use crate::pipeline_cache::FileWriteView;
use crate::pool::{create_result, pool_after};
use crate::spirv::{encoded, lemma_decode_encode, starts_with_magic};

verus! {

/// The files on disk: contents by path.
pub type Files = Map<Seq<char>, Seq<u8>>;

/// What the world holds and answers during one compilation.
pub struct Environment<P> {
    /// The files on disk when the compilation starts.
    pub files: Files,
    /// Whether files can be written.
    pub writable: bool,
    /// What the source compiler returns for the shader.
    pub compiled: Result<Seq<u32>, Seq<char>>,
    /// What the device returns when asked to build the pipeline.
    pub built: Result<P, DeviceFailure>,
}

/// The contents of the file at `path`, if there is one.
pub open spec fn file_at(files: Files, path: Seq<char>) -> Option<Seq<u8>> {
    if files.dom().contains(path) {
        Some(files[path])
    } else {
        None
    }
}

/// The event that reports the outcome of `action`, carried out on the given
/// files in the given environment.
pub open spec fn respond<P>(action: ActionView, files: Files, env: Environment<P>) -> EventView<P> {
    match action {
        ActionView::ReadBytecode { path } => EventView::BytecodeRead(file_at(files, path)),
        ActionView::Compile(_) => EventView::Compiled(env.compiled),
        ActionView::WriteBytecode(_) => EventView::BytecodeWritten(env.writable),
        ActionView::BuildPipeline(_) => EventView::PipelineBuilt(env.built),
        ActionView::Finish(_) => arbitrary(),
    }
}

/// The files after `action` was carried out: a write that goes through
/// replaces the contents of its file, and nothing else changes anything.
pub open spec fn files_after<P>(action: ActionView, files: Files, env: Environment<P>) -> Files {
    match action {
        ActionView::WriteBytecode(write) => if env.writable {
            files.insert(write.path, write.bytes)
        } else {
            files
        },
        _ => files,
    }
}

/// A compilation from start to end.
pub struct Run<P> {
    /// Every action that the backend asked for, in order.
    pub actions: Seq<ActionView>,
    /// The pool at the end.
    pub pool: Seq<P>,
    /// The files at the end.
    pub files: Files,
}

/// The rest of a compilation that stands at `state` with `action` asked
/// for: the action is carried out and reported, until the backend finishes
/// or `steps` actions have been carried out.
pub open spec fn run_from<P>(
    pool: Seq<P>,
    files: Files,
    state: CompileStateView,
    action: ActionView,
    env: Environment<P>,
    steps: nat,
) -> Run<P>
    decreases steps,
{
    if action is Finish || steps == 0 {
        Run { actions: seq![action], pool, files }
    } else {
        let t = next(pool, state, respond(action, files, env));
        let rest = run_from(
            t.pool,
            files_after(action, files, env),
            t.state,
            t.action,
            env,
            (steps - 1) as nat,
        );
        Run { actions: seq![action] + rest.actions, pool: rest.pool, files: rest.files }
    }
}

/// The compilation of the shader with the given key and source, on the
/// given pool and in the given environment. No compilation takes more than
/// four actions before it finishes.
pub open spec fn run<P>(pool: Seq<P>, key: Seq<char>, source: Seq<char>, env: Environment<P>) -> Run<
    P,
> {
    let t = begin(pool, key, source);
    run_from(t.pool, env.files, t.state, t.action, env, 4)
}

impl<P> Run<P> {
    /// The result that the compilation handed out.
    pub open spec fn result(self) -> Result<usize, BackendErrorView> {
        match self.actions.last() {
            ActionView::Finish(result) => result,
            _ => arbitrary(),
        }
    }

    /// Whether the compilation came to an end.
    pub open spec fn finished(self) -> bool {
        self.actions.len() > 0 && self.actions.last() is Finish
    }

    /// Whether the source compiler was run.
    pub open spec fn invokes_compiler(self) -> bool {
        exists|i: int| 0 <= i < self.actions.len() && (#[trigger] self.actions[i]) is Compile
    }

    /// Whether the backend asked for a bytecode file to be written.
    pub open spec fn writes_bytecode(self) -> bool {
        exists|i: int| 0 <= i < self.actions.len() && (#[trigger] self.actions[i]) is WriteBytecode
    }

    /// Whether the device was asked to build a pipeline from `words`.
    pub open spec fn builds_from(self, words: Seq<u32>) -> bool {
        exists|i: int|
            0 <= i < self.actions.len() && #[trigger] self.actions[i] == ActionView::BuildPipeline(
                request_for(words),
            )
    }
}

/// The action that asks for the bytecode file of the shader with the given
/// key.
pub open spec fn read_action(key: Seq<char>) -> ActionView {
    ActionView::ReadBytecode { path: cache_path(key) }
}

/// The action that stores `bytes` in the bytecode file of the shader with
/// the given key.
pub open spec fn write_action(key: Seq<char>, bytes: Seq<u8>) -> ActionView {
    ActionView::WriteBytecode(FileWriteView { path: cache_path(key), bytes })
}

/// The cache's answer for the shader with the given key in the given
/// environment.
pub open spec fn cache_answer<P>(key: Seq<char>, env: Environment<P>) -> CacheOutcome {
    get_or_compile(file_at(env.files, cache_path(key)), env.compiled)
}

/// The actions of a compilation, stated outright.
///
/// The shader's bytecode file is read first. If the cache answers from it,
/// the device builds the pipeline from the file's words. Otherwise the
/// compiler runs; on success the bytecode is written to the file and the
/// device builds the pipeline from it; on failure the compilation ends at
/// once.
pub open spec fn expected_actions<P>(
    pool: Seq<P>,
    key: Seq<char>,
    source: Seq<char>,
    env: Environment<P>,
) -> Seq<ActionView> {
    let read = read_action(key);
    let compile = ActionView::Compile(compile_request_for(key, source));
    let cache = cache_answer(key, env);
    match cache.bytecode {
        Ok(words) => {
            let build = ActionView::BuildPipeline(request_for(words));
            let finish = ActionView::Finish(create_result(pool, env.built));
            match cache.written {
                Some(bytes) => seq![read, compile, write_action(key, bytes), build, finish],
                None => seq![read, build, finish],
            }
        },
        Err(e) => seq![read, compile, ActionView::Finish(Err(e))],
    }
}

/// The pool at the end of a compilation, stated outright: what the device
/// built is appended, if the compilation got as far as the device.
pub open spec fn expected_pool<P>(pool: Seq<P>, key: Seq<char>, env: Environment<P>) -> Seq<P> {
    match cache_answer(key, env).bytecode {
        Ok(_) => pool_after(pool, env.built),
        Err(_) => pool,
    }
}

/// The files at the end of a compilation, stated outright: the shader's
/// bytecode file holds what the cache stored, if it stored anything and the
/// write went through; every other file is as it was.
pub open spec fn expected_files<P>(key: Seq<char>, env: Environment<P>) -> Files {
    match cache_answer(key, env).written {
        Some(bytes) => if env.writable {
            env.files.insert(cache_path(key), bytes)
        } else {
            env.files
        },
        None => env.files,
    }
}

/// Step by step, the backend does what [`expected_actions`],
/// [`expected_pool`] and [`expected_files`] state, and finishes.
pub proof fn lemma_run_is_expected<P>(
    pool: Seq<P>,
    key: Seq<char>,
    source: Seq<char>,
    env: Environment<P>,
)
    ensures
        run(pool, key, source, env).actions == expected_actions(pool, key, source, env),
        run(pool, key, source, env).pool == expected_pool(pool, key, env),
        run(pool, key, source, env).files == expected_files(key, env),
        run(pool, key, source, env).finished(),
{
    reveal_with_fuel(run_from, 6);
    let r = run(pool, key, source, env);
    assert(r.actions =~= expected_actions(pool, key, source, env));
}

/// The compiler is run exactly when the cache does not answer from the
/// shader's bytecode file.
pub proof fn lemma_compiler_runs_on_miss<P>(
    pool: Seq<P>,
    key: Seq<char>,
    source: Seq<char>,
    env: Environment<P>,
)
    ensures
        run(pool, key, source, env).invokes_compiler() == cache_answer(key, env).compiler_invoked,
        run(pool, key, source, env).invokes_compiler() == (cached_words(
            file_at(env.files, cache_path(key)),
        ) is None),
{
    lemma_run_is_expected(pool, key, source, env);
    let r = run(pool, key, source, env);
    if cache_answer(key, env).compiler_invoked {
        assert(r.actions[1] is Compile);
    }
}

/// A write is asked for exactly when the compiler was run and returned
/// bytecode, and then it is of that bytecode and to the shader's own file.
/// No other file is ever touched.
pub proof fn lemma_write_follows_compile<P>(
    pool: Seq<P>,
    key: Seq<char>,
    source: Seq<char>,
    env: Environment<P>,
)
    ensures
        run(pool, key, source, env).writes_bytecode() == (cache_answer(key, env).compiler_invoked
            && env.compiled is Ok),
        run(pool, key, source, env).writes_bytecode() ==> run(pool, key, source, env).actions[2]
            == write_action(key, encoded(env.compiled->Ok_0)),
        !run(pool, key, source, env).writes_bytecode() ==> run(pool, key, source, env).files
            == env.files,
        forall|path: Seq<char>|
            path != cache_path(key) ==> file_at(run(pool, key, source, env).files, path)
                == file_at(env.files, path),
{
    lemma_run_is_expected(pool, key, source, env);
    let r = run(pool, key, source, env);
    if cache_answer(key, env).compiler_invoked && env.compiled is Ok {
        assert(r.actions[2] is WriteBytecode);
    }
}

/// Compiling under a key that was compiled before does not run the compiler
/// again: the second compilation reads the file that the first one left, and
/// hands the device the very bytecode that the first one did.
///
/// This holds where the first compilation got its bytecode and could store
/// it, where compiled bytecode is a module, that is, begins with the magic
/// number, and where nothing else changed the shader's bytecode file in
/// between. The source of the second compilation plays no part, nor does
/// what the compiler would answer.
pub proof fn lemma_second_compile_reuses_bytecode<P>(
    pool: Seq<P>,
    key: Seq<char>,
    source: Seq<char>,
    env: Environment<P>,
    source2: Seq<char>,
    env2: Environment<P>,
)
    requires
        cache_answer(key, env).bytecode is Ok,
        env.writable,
        env.compiled matches Ok(words) ==> starts_with_magic(words),
        file_at(env2.files, cache_path(key)) == file_at(
            run(pool, key, source, env).files,
            cache_path(key),
        ),
    ensures
        !run(run(pool, key, source, env).pool, key, source2, env2).invokes_compiler(),
        !run(run(pool, key, source, env).pool, key, source2, env2).writes_bytecode(),
        run(pool, key, source, env).builds_from(cache_answer(key, env).bytecode->Ok_0),
        run(run(pool, key, source, env).pool, key, source2, env2).builds_from(
            cache_answer(key, env).bytecode->Ok_0,
        ),
{
    let first = run(pool, key, source, env);
    let second = run(first.pool, key, source2, env2);
    let words = cache_answer(key, env).bytecode->Ok_0;
    lemma_run_is_expected(pool, key, source, env);
    lemma_run_is_expected(first.pool, key, source2, env2);
    if cache_answer(key, env).compiler_invoked {
        lemma_decode_encode(words);
        assert(first.actions[3] == ActionView::BuildPipeline(request_for(words)));
    } else {
        assert(first.actions[1] == ActionView::BuildPipeline(request_for(words)));
    }
    assert(cached_words(file_at(env2.files, cache_path(key))) == Some(words));
    assert(second.actions.len() == 3);
    assert(second.actions[0] is ReadBytecode);
    assert(second.actions[1] == ActionView::BuildPipeline(request_for(words)));
    assert(second.actions[2] is Finish);
}

/// Source that the compiler rejects leaves every file as it was, and,
/// unless the cache already holds bytecode under the shader's key, ends the
/// compilation with `CompileError` and the compiler's diagnostic, the pool
/// untouched and the device not asked.
pub proof fn lemma_invalid_source_writes_nothing<P>(
    pool: Seq<P>,
    key: Seq<char>,
    source: Seq<char>,
    env: Environment<P>,
    diagnostic: Seq<char>,
)
    requires
        env.compiled == Err::<Seq<u32>, Seq<char>>(diagnostic),
    ensures
        !run(pool, key, source, env).writes_bytecode(),
        run(pool, key, source, env).files == env.files,
        cache_answer(key, env).compiler_invoked ==> run(pool, key, source, env).result() == Err::<
            usize,
            BackendErrorView,
        >(BackendErrorView::CompileError(diagnostic)),
        cache_answer(key, env).compiler_invoked ==> run(pool, key, source, env).pool == pool,
        cache_answer(key, env).compiler_invoked ==> run(pool, key, source, env).actions.len() == 3,
{
    lemma_run_is_expected(pool, key, source, env);
    lemma_write_follows_compile(pool, key, source, env);
}

/// A compilation that succeeds appends exactly one pipeline, the one that
/// the device built, and returns its position; one that fails leaves the
/// pool as it was. Either way every earlier handle names what it named
/// before.
pub proof fn lemma_compile_appends_or_keeps<P>(
    pool: Seq<P>,
    key: Seq<char>,
    source: Seq<char>,
    env: Environment<P>,
)
    ensures
        match run(pool, key, source, env).result() {
            Ok(handle) => env.built is Ok && handle == pool.len() as usize && run(
                pool,
                key,
                source,
                env,
            ).pool == pool.push(env.built->Ok_0),
            Err(_) => run(pool, key, source, env).pool == pool,
        },
        forall|h: int| 0 <= h < pool.len() ==> run(pool, key, source, env).pool[h] == pool[h],
{
    lemma_run_is_expected(pool, key, source, env);
}

/// One call of `compile_shader`, with the world that it meets.
pub struct Call<P> {
    pub key: Seq<char>,
    pub source: Seq<char>,
    pub env: Environment<P>,
}

/// The pool after a series of compilations on a fresh backend, oldest first.
pub open spec fn pool_after_calls<P>(calls: Seq<Call<P>>) -> Seq<P>
    decreases calls.len(),
{
    if calls.len() == 0 {
        Seq::empty()
    } else {
        let last = calls.last();
        run(pool_after_calls(calls.drop_last()), last.key, last.source, last.env).pool
    }
}

/// The result of call number `i` (from zero) of the series.
pub open spec fn result_of_call<P>(calls: Seq<Call<P>>, i: int) -> Result<usize, BackendErrorView> {
    run(pool_after_calls(calls.take(i)), calls[i].key, calls[i].source, calls[i].env).result()
}

/// Whether every call of the series succeeds.
pub open spec fn all_succeed<P>(calls: Seq<Call<P>>) -> bool {
    forall|i: int| 0 <= i < calls.len() ==> (#[trigger] result_of_call(calls, i)) is Ok
}

/// After `n` successful compilations on a fresh backend the pool holds
/// exactly `n` pipelines, and the handles returned are `0, 1, ..., n - 1` in
/// the order of the calls. Compiling the same shader again gives a new
/// handle: the pool does not look at what it holds.
pub proof fn lemma_handles_in_call_order<P>(calls: Seq<Call<P>>)
    requires
        all_succeed(calls),
        calls.len() <= usize::MAX,
    ensures
        pool_after_calls(calls).len() == calls.len(),
        forall|i: int|
            0 <= i < calls.len() ==> #[trigger] result_of_call(calls, i) == Ok::<
                usize,
                BackendErrorView,
            >(i as usize),
        forall|i: int|
            0 <= i < calls.len() ==> pool_after_calls(calls)[i] == (
            #[trigger] calls[i]).env.built->Ok_0,
    decreases calls.len(),
{
    if calls.len() > 0 {
        let init = calls.drop_last();
        let last = calls.last();
        let n = init.len() as int;
        assert forall|i: int| 0 <= i < init.len() implies #[trigger] result_of_call(init, i)
            == result_of_call(calls, i) by {
            assert(init.take(i) =~= calls.take(i));
        }
        assert(all_succeed(init)) by {
            assert forall|i: int| 0 <= i < init.len() implies (#[trigger] result_of_call(
                init,
                i,
            )) is Ok by {
                assert(result_of_call(calls, i) is Ok);
            }
        }
        lemma_handles_in_call_order(init);
        assert(calls.take(n) =~= init);
        assert(result_of_call(calls, n) is Ok);
        lemma_compile_appends_or_keeps(pool_after_calls(init), last.key, last.source, last.env);
        assert forall|i: int| 0 <= i < calls.len() implies #[trigger] result_of_call(calls, i)
            == Ok::<usize, BackendErrorView>(i as usize) by {
            if i < n {
                assert(result_of_call(init, i) == result_of_call(calls, i));
            }
        }
        assert forall|i: int| 0 <= i < calls.len() implies pool_after_calls(calls)[i] == (
        #[trigger] calls[i]).env.built->Ok_0 by {
            if i < n {
                assert(init[i] == calls[i]);
            }
        }
    }
}

} // verus!
