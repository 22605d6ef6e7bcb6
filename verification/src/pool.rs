//! The pipeline pool: an append-only arena of pipeline objects, addressed by
//! the index at which each was appended.

use vstd::prelude::*;
use crate::error::{BackendError, BackendErrorView, DeviceFailure};

verus! {

/// The pool after one creation attempt: a built pipeline is appended, a
/// rejection changes nothing.
pub open spec fn pool_after<P>(pool: Seq<P>, built: Result<P, DeviceFailure>) -> Seq<P> {
    match built {
        Ok(pipeline) => pool.push(pipeline),
        Err(_) => pool,
    }
}

/// What one creation attempt returns: the index of the appended pipeline, or
/// the device's rejection as an error.
pub open spec fn create_result<P>(pool: Seq<P>, built: Result<P, DeviceFailure>) -> Result<
    usize,
    BackendErrorView,
> {
    match built {
        Ok(_) => Ok(pool.len() as usize),
        Err(failure) => Err(
            BackendErrorView::DeviceCreationError(failure.stage, failure.diagnostic@),
        ),
    }
}

/// The pool after a whole series of creation attempts, oldest first.
pub open spec fn pool_after_all<P>(pool: Seq<P>, builds: Seq<Result<P, DeviceFailure>>) -> Seq<P>
    decreases builds.len(),
{
    if builds.len() == 0 {
        pool
    } else {
        pool_after(pool_after_all(pool, builds.drop_last()), builds.last())
    }
}

/// What a lookup returns: the pipeline at `handle`, or the handle back as an
/// error if the pool never issued it.
pub open spec fn lookup_result<P>(pool: Seq<P>, handle: usize) -> Result<P, BackendErrorView> {
    if handle < pool.len() {
        Ok(pool[handle as int])
    } else {
        Err(BackendErrorView::InvalidHandle(handle))
    }
}

/// An append-only collection of pipeline objects of type `P`.
///
/// A handle is the position at which a pipeline was appended. Nothing is ever
/// removed or moved, so a handle stays valid, and keeps naming the same
/// pipeline, for as long as the pool lives.
pub struct PipelinePool<P> {
    pipelines: Vec<P>,
}

impl<P> View for PipelinePool<P> {
    type V = Seq<P>;

    closed spec fn view(&self) -> Seq<P> {
        self.pipelines@
    }
}

impl<P> PipelinePool<P> {
    /// An empty pool.
    pub fn new() -> (pool: Self)
        ensures
            pool@ == Seq::<P>::empty(),
    {
        PipelinePool { pipelines: Vec::new() }
    }

    /// The number of pipelines, which is also the next handle to be issued.
    pub fn len(&self) -> (n: usize)
        ensures
            n == self@.len(),
    {
        self.pipelines.len()
    }

    /// Whether `handle` was issued by this pool.
    pub fn contains(&self, handle: usize) -> (b: bool)
        ensures
            b == (handle < self@.len()),
    {
        handle < self.pipelines.len()
    }

    /// Takes the outcome of the device's attempt to build a pipeline. A built
    /// pipeline is appended and its index returned; a rejection leaves the
    /// pool as it was and is returned as `DeviceCreationError`.
    pub fn create(&mut self, built: Result<P, DeviceFailure>) -> (res: Result<usize, BackendError>)
        ensures
            final(self)@ == pool_after(old(self)@, built),
            match res {
                Ok(handle) => create_result(old(self)@, built) == Ok::<usize, BackendErrorView>(
                    handle,
                ),
                Err(e) => create_result(old(self)@, built) == Err::<usize, BackendErrorView>(e@),
            },
    {
        match built {
            Ok(pipeline) => {
                let handle: usize = self.pipelines.len();
                self.pipelines.push(pipeline);
                Ok(handle)
            },
            Err(failure) => Err(
                BackendError::DeviceCreationError(failure.stage, failure.diagnostic),
            ),
        }
    }

    /// The pipeline behind a handle that this pool issued.
    pub fn get(&self, handle: usize) -> (pipeline: &P)
        requires
            handle < self@.len(),
        ensures
            *pipeline == self@[handle as int],
    {
        &self.pipelines[handle]
    }

    /// The pipeline behind `handle`, or `InvalidHandle` if the pool never
    /// issued it.
    pub fn lookup(&self, handle: usize) -> (res: Result<&P, BackendError>)
        ensures
            match res {
                Ok(pipeline) => lookup_result(self@, handle) == Ok::<P, BackendErrorView>(
                    *pipeline,
                ),
                Err(e) => lookup_result(self@, handle) == Err::<P, BackendErrorView>(e@),
            },
    {
        if handle < self.pipelines.len() {
            Ok(&self.pipelines[handle])
        } else {
            Err(BackendError::InvalidHandle(handle))
        }
    }
}

/// The pool only grows, and a creation attempt never disturbs what is
/// already there: every handle issued before still names the same pipeline.
pub proof fn lemma_create_keeps_handles<P>(pool: Seq<P>, built: Result<P, DeviceFailure>)
    ensures
        pool_after(pool, built).len() >= pool.len(),
        forall|h: int| 0 <= h < pool.len() ==> pool_after(pool, built)[h] == pool[h],
{
}

/// The same over any series of attempts: the earlier pool is a prefix of the
/// later one.
pub proof fn lemma_pool_is_append_only<P>(pool: Seq<P>, builds: Seq<Result<P, DeviceFailure>>)
    ensures
        pool_after_all(pool, builds).len() >= pool.len(),
        pool_after_all(pool, builds).len() <= pool.len() + builds.len(),
        forall|h: int| 0 <= h < pool.len() ==> pool_after_all(pool, builds)[h] == pool[h],
    decreases builds.len(),
{
    if builds.len() > 0 {
        lemma_pool_is_append_only(pool, builds.drop_last());
    }
}

/// Whether every attempt in the series built a pipeline.
pub open spec fn all_built<P>(builds: Seq<Result<P, DeviceFailure>>) -> bool {
    forall|i: int| 0 <= i < builds.len() ==> (#[trigger] builds[i]) is Ok
}

/// A series of successful creations appends its pipelines in order.
pub proof fn lemma_all_built_appends<P>(pool: Seq<P>, builds: Seq<Result<P, DeviceFailure>>)
    requires
        all_built(builds),
    ensures
        pool_after_all(pool, builds).len() == pool.len() + builds.len(),
        forall|i: int|
            0 <= i < builds.len() ==> pool_after_all(pool, builds)[pool.len() + i]
                == (#[trigger] builds[i])->Ok_0,
    decreases builds.len(),
{
    if builds.len() > 0 {
        let init = builds.drop_last();
        assert(all_built(init)) by {
            assert forall|i: int| 0 <= i < init.len() implies (#[trigger] init[i]) is Ok by {
                assert(init[i] == builds[i]);
            }
        }
        lemma_all_built_appends(pool, init);
        let before = pool_after_all(pool, init);
        assert(builds.last() == builds[builds.len() - 1]);
        assert(pool_after_all(pool, builds) == before.push(builds.last()->Ok_0));
        assert forall|i: int| 0 <= i < builds.len() implies pool_after_all(pool, builds)[pool.len()
            + i] == (#[trigger] builds[i])->Ok_0 by {
            if i < init.len() {
                assert(init[i] == builds[i]);
            }
        }
    }
}

/// After `n` successful creations on an empty pool, the pool holds exactly
/// those `n` pipelines in the order of the calls, and the call number `i`
/// (from zero) returned the handle `i`.
pub proof fn lemma_handles_count_up<P>(builds: Seq<Result<P, DeviceFailure>>)
    requires
        all_built(builds),
        builds.len() <= usize::MAX,
    ensures
        pool_after_all(Seq::<P>::empty(), builds).len() == builds.len(),
        forall|i: int|
            0 <= i < builds.len() ==> pool_after_all(Seq::<P>::empty(), builds)[i]
                == (#[trigger] builds[i])->Ok_0,
        forall|i: int|
            0 <= i < builds.len() ==> create_result(
                pool_after_all(Seq::<P>::empty(), builds.take(i)),
                #[trigger] builds[i],
            ) == Ok::<usize, BackendErrorView>(i as usize),
{
    lemma_all_built_appends(Seq::<P>::empty(), builds);
    assert forall|i: int| 0 <= i < builds.len() implies create_result(
        pool_after_all(Seq::<P>::empty(), builds.take(i)),
        #[trigger] builds[i],
    ) == Ok::<usize, BackendErrorView>(i as usize) by {
        let earlier = builds.take(i);
        assert(all_built(earlier)) by {
            assert forall|j: int| 0 <= j < earlier.len() implies (#[trigger] earlier[j]) is Ok by {
                assert(earlier[j] == builds[j]);
            }
        }
        lemma_all_built_appends(Seq::<P>::empty(), earlier);
    }
}

} // verus!
