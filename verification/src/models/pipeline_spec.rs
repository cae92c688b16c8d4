use vstd::prelude::*;

use super::{
    AbstractVertex, Edge, InterStepBuffer, Lifecycle, PipelineLimits, SideInput, Templates,
    Watermark,
};

verus! {

/// The specification of a pipeline; every part of it is optional.
#[derive(Clone, Debug, PartialEq)]
pub struct PipelineSpec {
    /// Edges define the relationships between vertices
    pub edges: Option<Vec<Edge>>,
    pub inter_step_buffer: Option<Box<InterStepBuffer>>,
    /// InterStepBufferServiceName is the name of the InterStepBufferService to be used by the pipeline
    pub inter_step_buffer_service_name: Option<String>,
    pub lifecycle: Option<Box<Lifecycle>>,
    pub limits: Option<Box<PipelineLimits>>,
    /// SideInputs defines the Side Inputs of a pipeline.
    pub side_inputs: Option<Vec<SideInput>>,
    pub templates: Option<Box<Templates>>,
    pub vertices: Option<Vec<AbstractVertex>>,
    pub watermark: Option<Box<Watermark>>,
}

impl PipelineSpec {
    /// An empty specification: no part of it is set.
    pub fn new() -> (spec: PipelineSpec)
        ensures
            spec.edges is None,
            spec.inter_step_buffer is None,
            spec.inter_step_buffer_service_name is None,
            spec.lifecycle is None,
            spec.limits is None,
            spec.side_inputs is None,
            spec.templates is None,
            spec.vertices is None,
            spec.watermark is None,
    {
        PipelineSpec {
            edges: None,
            inter_step_buffer: None,
            inter_step_buffer_service_name: None,
            lifecycle: None,
            limits: None,
            side_inputs: None,
            templates: None,
            vertices: None,
            watermark: None,
        }
    }
}

} // verus!
