//! The processing cores of the pipeline.
use vstd::prelude::*;

verus! {

/// A core of the vertex stage; it keeps no state between vertices.
#[derive(Debug, Default, Clone, Copy)]
pub struct VertexCore {}

} // verus!
