//! The pipeline cache's life on disk. The device keeps the cache itself; this
//! module decides what it starts from and what a flush writes.

use vstd::prelude::*;
use vstd::string::*;
use crate::error::{BackendError, BackendErrorView};

verus! {

/// The name of the one file that holds the pipeline cache between runs.
pub open spec fn pipeline_cache_file() -> Seq<char> {
    "pipeline.cache"@
}

/// The name of the one file that holds the pipeline cache between runs.
pub fn pipeline_cache_path() -> (path: String)
    ensures
        path@ == pipeline_cache_file(),
{
    String::from_str("pipeline.cache")
}

/// The blob that the device's cache starts from, given the cache file's
/// contents: the contents as they are, or nothing on a first run.
pub open spec fn initial_blob(file: Option<Seq<u8>>) -> Seq<u8> {
    match file {
        Some(bytes) => bytes,
        None => Seq::empty(),
    }
}

/// The blob to create the device's cache from, given the contents of the
/// cache file, or `None` if the file is absent or could not be read. A
/// missing file is no error: the cache then starts empty.
pub fn load_blob(file: Option<Vec<u8>>) -> (blob: Vec<u8>)
    ensures
        blob@ == initial_blob(
            match file {
                Some(bytes) => Some(bytes@),
                None => None,
            },
        ),
{
    match file {
        Some(bytes) => bytes,
        None => Vec::new(),
    }
}

/// A file to be written, replacing whatever it held.
#[derive(Clone, Debug, PartialEq, Eq)]
pub struct FileWrite {
    pub path: String,
    pub bytes: Vec<u8>,
}

/// A [`FileWrite`] as a mathematical value.
pub struct FileWriteView {
    pub path: Seq<char>,
    pub bytes: Seq<u8>,
}

impl View for FileWrite {
    type V = FileWriteView;

    open spec fn view(&self) -> FileWriteView {
        FileWriteView { path: self.path@, bytes: self.bytes@ }
    }
}

/// What a flush writes: the device's current blob, whole, to the cache file.
pub open spec fn flushed(blob: Seq<u8>) -> FileWriteView {
    FileWriteView { path: pipeline_cache_file(), bytes: blob }
}

/// The outcome of a device or file operation as a mathematical value.
pub open spec fn outcome_view<T>(outcome: Result<T, String>) -> Result<T, Seq<char>> {
    match outcome {
        Ok(value) => Ok(value),
        Err(diagnostic) => Err(diagnostic@),
    }
}

/// The blob read back from the device, or the device's diagnostic, as a
/// mathematical value.
pub open spec fn read_back_view(read_back: Result<Vec<u8>, String>) -> Result<Seq<u8>, Seq<char>> {
    match read_back {
        Ok(blob) => Ok(blob@),
        Err(diagnostic) => Err(diagnostic@),
    }
}

/// The first half of a flush, given what the device handed back: the write
/// that persists the blob, or `CacheIoError` with the device's diagnostic
/// if it handed nothing back.
pub open spec fn flush_write(read_back: Result<Seq<u8>, Seq<char>>) -> Result<
    FileWriteView,
    BackendErrorView,
> {
    match read_back {
        Ok(blob) => Ok(flushed(blob)),
        Err(diagnostic) => Err(BackendErrorView::CacheIoError(diagnostic)),
    }
}

/// Takes the blob read back from the device, or the device's diagnostic if
/// it could not hand the blob back, and returns the write that persists the
/// blob, or the failure. A failure leaves the cache file as it was.
pub fn flush_plan(read_back: Result<Vec<u8>, String>) -> (res: Result<FileWrite, BackendError>)
    ensures
        match res {
            Ok(write) => flush_write(read_back_view(read_back)) == Ok::<
                FileWriteView,
                BackendErrorView,
            >(write@),
            Err(e) => flush_write(read_back_view(read_back)) == Err::<
                FileWriteView,
                BackendErrorView,
            >(e@),
        },
{
    match read_back {
        Ok(blob) => Ok(FileWrite { path: pipeline_cache_path(), bytes: blob }),
        Err(diagnostic) => Err(BackendError::CacheIoError(diagnostic)),
    }
}

/// What a flush returns, given what came of its write.
pub open spec fn flush_outcome(written: Result<(), Seq<char>>) -> Result<(), BackendErrorView> {
    match written {
        Ok(_) => Ok(()),
        Err(diagnostic) => Err(BackendErrorView::CacheIoError(diagnostic)),
    }
}

/// The second half of a flush: takes what came of the write, and returns
/// the result of the flush, `CacheIoError` with the diagnostic if the write
/// failed.
pub fn flush_result(written: Result<(), String>) -> (res: Result<(), BackendError>)
    ensures
        match res {
            Ok(_) => flush_outcome(outcome_view(written)) == Ok::<(), BackendErrorView>(()),
            Err(e) => flush_outcome(outcome_view(written)) == Err::<(), BackendErrorView>(e@),
        },
{
    match written {
        Ok(_) => Ok(()),
        Err(diagnostic) => Err(BackendError::CacheIoError(diagnostic)),
    }
}

/// The cache survives a restart: a run that finds the file of an earlier
/// flush starts from exactly the blob that was flushed, which is not empty
/// if that blob was not. A run that finds no file starts from the empty
/// blob.
pub proof fn lemma_flush_then_reload(blob: Seq<u8>)
    ensures
        flush_write(Ok(blob)) == Ok::<FileWriteView, BackendErrorView>(flushed(blob)),
        flushed(blob).path == pipeline_cache_file(),
        initial_blob(Some(flushed(blob).bytes)) == blob,
        blob.len() > 0 ==> initial_blob(Some(flushed(blob).bytes)).len() > 0,
        initial_blob(None).len() == 0,
{
}

} // verus!
