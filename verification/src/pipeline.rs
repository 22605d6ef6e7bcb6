//! What the device is asked to build for one shader.

use vstd::prelude::*;
use vstd::string::*;

verus! {

/// How vertices are assembled into primitives.
#[derive(Clone, Copy, Debug, PartialEq, Eq, Structural)]
pub enum Topology {
    PointList,
    LineList,
    TriangleList,
}

/// The fixed-function part of a pipeline.
#[derive(Clone, Copy, Debug, PartialEq, Eq, Structural)]
pub struct FixedState {
    /// How vertices are assembled.
    pub topology: Topology,
    /// The number of colour outputs.
    pub color_outputs: u32,
    /// Whether a depth or stencil test runs.
    pub depth_stencil: bool,
    /// The number of vertex attributes fed from buffers.
    pub vertex_attributes: u32,
}

/// The state that every pipeline of the backend shares: a triangle list
/// drawn to a single colour output, with no depth or stencil test and no
/// vertex attributes, since the vertex stage generates its own geometry.
pub open spec fn shared_fixed_state() -> FixedState {
    FixedState {
        topology: Topology::TriangleList,
        color_outputs: 1,
        depth_stencil: false,
        vertex_attributes: 0,
    }
}

/// A pipeline for the device to build: the fragment bytecode to make a fresh
/// shader module from, and the fixed state. The vertex stage is the
/// backend's one static module and is not part of the request.
#[derive(Clone, Debug, PartialEq, Eq)]
pub struct PipelineRequest {
    /// The fragment shader's bytecode.
    pub fragment: Vec<u32>,
    /// The function at which both stages start.
    pub entry_point: String,
    /// The fixed-function state.
    pub fixed: FixedState,
}

/// A [`PipelineRequest`] as a mathematical value.
pub struct PipelineRequestView {
    pub fragment: Seq<u32>,
    pub entry_point: Seq<char>,
    pub fixed: FixedState,
}

impl View for PipelineRequest {
    type V = PipelineRequestView;

    open spec fn view(&self) -> PipelineRequestView {
        PipelineRequestView {
            fragment: self.fragment@,
            entry_point: self.entry_point@,
            fixed: self.fixed,
        }
    }
}

/// The request that turns the given fragment bytecode into a pipeline.
pub open spec fn request_for(fragment: Seq<u32>) -> PipelineRequestView {
    PipelineRequestView { fragment, entry_point: "main"@, fixed: shared_fixed_state() }
}

/// The request that turns the given fragment bytecode into a pipeline.
pub fn pipeline_request(fragment: Vec<u32>) -> (request: PipelineRequest)
    ensures
        request@ == request_for(fragment@),
{
    PipelineRequest {
        fragment,
        entry_point: String::from_str("main"),
        fixed: FixedState {
            topology: Topology::TriangleList,
            color_outputs: 1,
            depth_stencil: false,
            vertex_attributes: 0,
        },
    }
}

} // verus!
