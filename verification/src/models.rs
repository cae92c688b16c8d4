//! The data model of a pipeline's specification.

pub mod pipeline_spec;

use vstd::prelude::*;

verus! {

/// A relationship between two vertices.
#[derive(Clone, Debug, PartialEq)]
pub struct Edge {}

/// The inter-step buffer settings of a pipeline.
#[derive(Clone, Debug, PartialEq)]
pub struct InterStepBuffer {}

/// The lifecycle settings of a pipeline.
#[derive(Clone, Debug, PartialEq)]
pub struct Lifecycle {}

/// The limits that apply to every vertex of a pipeline.
#[derive(Clone, Debug, PartialEq)]
pub struct PipelineLimits {}

/// A side input of a pipeline.
#[derive(Clone, Debug, PartialEq)]
pub struct SideInput {}

/// The templates that vertices and daemons are built from.
#[derive(Clone, Debug, PartialEq)]
pub struct Templates {}

/// A vertex of a pipeline.
#[derive(Clone, Debug, PartialEq)]
pub struct AbstractVertex {}

/// The watermark settings of a pipeline.
#[derive(Clone, Debug, PartialEq)]
pub struct Watermark {}

} // verus!
