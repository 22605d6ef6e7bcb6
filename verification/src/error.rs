//! The failures that the backend reports.

use vstd::prelude::*;
use vstd::string::*;

verus! {

/// The device call that rejected a shader on its way to becoming a pipeline.
#[derive(Clone, Copy, Debug, PartialEq, Eq, Structural)]
pub enum DeviceStage {
    /// Building the shader module from the fragment bytecode.
    ShaderModule,
    /// Building the graphics pipeline from the two modules.
    Pipeline,
}

/// A rejection by the device, with the device's own diagnostic.
#[derive(Clone, Debug, PartialEq, Eq)]
pub struct DeviceFailure {
    pub stage: DeviceStage,
    pub diagnostic: String,
}

/// A [`DeviceFailure`] as a mathematical value.
pub struct DeviceFailureView {
    pub stage: DeviceStage,
    pub diagnostic: Seq<char>,
}

impl View for DeviceFailure {
    type V = DeviceFailureView;

    open spec fn view(&self) -> DeviceFailureView {
        DeviceFailureView { stage: self.stage, diagnostic: self.diagnostic@ }
    }
}

/// Everything that can go wrong in the backend.
#[derive(Clone, Debug, PartialEq, Eq)]
pub enum BackendError {
    /// The shader source is invalid; carries the compiler's diagnostic. The
    /// caller may retry with corrected source.
    CompileError(String),
    /// The device rejected the shader module or the pipeline; carries the
    /// stage and the device's diagnostic. Other shaders may still compile.
    DeviceCreationError(DeviceStage, String),
    /// The pipeline cache could not be persisted: the device did not hand
    /// it back, or the cache file could not be written. Carries the
    /// diagnostic. The next run then starts from what the file held before.
    CacheIoError(String),
    /// A handle that the pool never issued; carries the handle. This is a
    /// bug in the caller, not a condition to recover from.
    InvalidHandle(usize),
}

/// A [`BackendError`] as a mathematical value.
pub enum BackendErrorView {
    CompileError(Seq<char>),
    DeviceCreationError(DeviceStage, Seq<char>),
    CacheIoError(Seq<char>),
    InvalidHandle(usize),
}

impl View for BackendError {
    type V = BackendErrorView;

    open spec fn view(&self) -> BackendErrorView {
        match self {
            BackendError::CompileError(d) => BackendErrorView::CompileError(d@),
            BackendError::DeviceCreationError(s, d) => BackendErrorView::DeviceCreationError(
                *s,
                d@,
            ),
            BackendError::CacheIoError(d) => BackendErrorView::CacheIoError(d@),
            BackendError::InvalidHandle(h) => BackendErrorView::InvalidHandle(*h),
        }
    }
}

impl BackendErrorView {
    /// The text that heads the diagnostic in [`BackendError::message`].
    pub open spec fn prefix(self) -> Seq<char> {
        match self {
            BackendErrorView::CompileError(_) => "glsl->spv error: "@,
            BackendErrorView::DeviceCreationError(DeviceStage::ShaderModule, _) =>
                "create_shader_module error: "@,
            BackendErrorView::DeviceCreationError(DeviceStage::Pipeline, _) =>
                "pipeline creation failed: "@,
            BackendErrorView::CacheIoError(_) => "pipeline cache not flushed: "@,
            BackendErrorView::InvalidHandle(_) => "invalid pipeline handle"@,
        }
    }

    /// The diagnostic carried by the error; empty where there is none.
    pub open spec fn diagnostic(self) -> Seq<char> {
        match self {
            BackendErrorView::CompileError(d) => d,
            BackendErrorView::DeviceCreationError(_, d) => d,
            BackendErrorView::CacheIoError(d) => d,
            BackendErrorView::InvalidHandle(_) => Seq::empty(),
        }
    }

    /// The whole message: the prefix, then the diagnostic.
    pub open spec fn message(self) -> Seq<char> {
        self.prefix() + self.diagnostic()
    }
}

impl BackendError {
    /// Whether the caller can carry on after this error. Only an invalid
    /// handle is fatal.
    pub open spec fn spec_is_recoverable(&self) -> bool {
        !(self is InvalidHandle)
    }

    /// Whether the caller can carry on after this error. Only an invalid
    /// handle is fatal.
    #[verifier::when_used_as_spec(spec_is_recoverable)]
    pub fn is_recoverable(&self) -> (r: bool)
        ensures
            r == self.spec_is_recoverable(),
    {
        match self {
            BackendError::InvalidHandle(_) => false,
            _ => true,
        }
    }

    /// The error as text for the user.
    pub fn message(&self) -> (text: String)
        ensures
            text@ == self@.message(),
    {
        match self {
            BackendError::CompileError(d) => String::from_str("glsl->spv error: ").concat(
                d.as_str(),
            ),
            BackendError::DeviceCreationError(DeviceStage::ShaderModule, d) => String::from_str(
                "create_shader_module error: ",
            ).concat(d.as_str()),
            BackendError::DeviceCreationError(DeviceStage::Pipeline, d) => String::from_str(
                "pipeline creation failed: ",
            ).concat(d.as_str()),
            BackendError::CacheIoError(d) => String::from_str(
                "pipeline cache not flushed: ",
            ).concat(d.as_str()),
            BackendError::InvalidHandle(_) => {
                let text = String::from_str("invalid pipeline handle");
                assert(text@ + Seq::<char>::empty() =~= text@);
                text
            },
        }
    }
}

} // verus!
