//! First-order endpoint derivatives carried alongside a stroke's endpoints.
//!
//! The geometric payload of a regular derivative (a unit tangent and a
//! curvature) is kept opaque: the history only stores, moves and compares
//! these values structurally.
use vstd::prelude::*;

verus! {

/// The derivative of a path at one end of a segment.
#[derive(Copy, Clone, Debug, PartialEq)]
pub enum EndpointDifferential<R> {
    /// No derivative is known (for example a flattened sample).
    Unknown,
    /// The segment has no usable tangent at this end.
    Degenerate,
    /// A regular end: tangent and curvature.
    Regular(R),
}

/// The derivatives on both sides of an endpoint.
#[derive(Copy, Clone, Debug, PartialEq)]
pub struct EndpointDifferentials<R> {
    pub incoming: EndpointDifferential<R>,
    pub outgoing: EndpointDifferential<R>,
}

/// The derivatives at the start and at the end of one segment.
#[derive(Copy, Clone, Debug, PartialEq)]
pub struct SegmentDifferentials<R> {
    pub start: EndpointDifferential<R>,
    pub end: EndpointDifferential<R>,
}

/// Both sides unknown: the value every fresh or cleared entry holds.
pub open spec fn no_differentials<R>() -> EndpointDifferentials<R> {
    EndpointDifferentials { incoming: EndpointDifferential::Unknown, outgoing: EndpointDifferential::Unknown }
}

impl<R> Default for EndpointDifferentials<R> {
    fn default() -> (d: Self)
        ensures
            d == no_differentials::<R>(),
    {
        EndpointDifferentials { incoming: EndpointDifferential::Unknown, outgoing: EndpointDifferential::Unknown }
    }
}

} // verus!
