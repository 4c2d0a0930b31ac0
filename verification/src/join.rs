//! The structural description of a stroke join: which side is which, the
//! attachment points and vertices of each side, the join styles, and the
//! typed reasons for which an Arcs join falls back to a Round one.
//!
//! Positions are kept opaque (`Pt`): the decisions here only move them
//! around. Geometric tests on them (range checks, coincidence) are made by
//! the caller and handed in as plain values.
use vstd::prelude::*;

verus! {

/// Index of the positive side of a stroke.
pub const SIDE_POSITIVE: usize = 0;

/// Index of the negative side of a stroke.
pub const SIDE_NEGATIVE: usize = 1;

/// The shape drawn on the outer side of a corner.
#[derive(Copy, Clone, Debug, PartialEq, Eq, Structural)]
pub enum LineJoin {
    Miter,
    MiterClip,
    Round,
    Bevel,
    /// A join built from the endpoint tangents and curvatures.
    Arcs,
    /// An Arcs join whose miter cuts are rounded.
    ArcsRound,
}

/// An output vertex.
#[derive(Copy, Clone, Debug, PartialEq, Eq, Structural)]
pub struct VertexId(pub u32);

/// The direction in which a path turns at a join.
#[derive(Copy, Clone, Debug, PartialEq, Eq, Structural)]
pub enum TurnSide {
    Left,
    Right,
}

/// The attachment of one side of the stroke at a join.
#[derive(Copy, Clone, Debug)]
pub struct SidePoints<Pt> {
    /// Where the incoming segment's side ends.
    pub prev: Pt,
    /// Where the outgoing segment's side starts.
    pub next: Pt,
    /// Set when both sides meet in one point (the inner side of a turn).
    pub single_vertex: Option<Pt>,
    pub prev_vertex: VertexId,
    pub next_vertex: VertexId,
}

/// The part of an endpoint that join emission reads and rewrites.
#[derive(Copy, Clone, Debug)]
pub struct JoinSides<Pt> {
    pub side_points: [SidePoints<Pt>; 2],
    pub fold: [bool; 2],
    pub line_join: LineJoin,
}

/// Why an Arcs join was replaced by a Round join.
#[derive(Clone, Debug, PartialEq, Eq)]
pub enum ArcsJoinFallback<C, M> {
    /// One side of the endpoint has no regular derivative.
    MissingDifferentials,
    /// The geometric construction failed.
    Construction(C),
    /// A constructed position does not fit the output coordinate type.
    UnrepresentablePoint,
    /// Meshing the constructed boundary failed.
    Mesh(M),
    /// The join's attachments cannot hold the constructed shape.
    IncompatibleAttachments,
    /// A constructed vertex coincides with the join position.
    CollapsedVertex,
}

/// The outcome of emitting an Arcs shape.
pub enum JoinEmission<C, M> {
    Emitted,
    Fallback(ArcsJoinFallback<C, M>),
}

/// Reusable state of join emission: scratch vertex ids and the last cause
/// for which an Arcs join fell back to Round.
pub struct JoinWorkspace<C, M> {
    pub vertex_ids: Vec<VertexId>,
    pub last_fallback: Option<ArcsJoinFallback<C, M>>,
}

impl<C, M> JoinWorkspace<C, M> {
    pub fn new() -> (workspace: Self)
        ensures
            workspace.vertex_ids@.len() == 0,
            workspace.last_fallback is None,
    {
        JoinWorkspace { vertex_ids: Vec::new(), last_fallback: None }
    }

    /// Records why an Arcs join is abandoned and selects Round instead.
    pub fn fallback(&mut self, reason: ArcsJoinFallback<C, M>) -> (style: LineJoin)
        ensures
            style == LineJoin::Round,
            final(self).last_fallback == Some(reason),
            final(self).vertex_ids == old(self).vertex_ids,
    {
        self.last_fallback = Some(reason);
        LineJoin::Round
    }
}

impl<C, M> JoinEmission<C, M> {
    /// Whether the shape was emitted; a fallback cause is recorded.
    pub fn emitted(self, workspace: &mut JoinWorkspace<C, M>) -> (emitted: bool)
        ensures
            emitted == (self is Emitted),
            final(workspace).vertex_ids == old(workspace).vertex_ids,
            match self {
                JoinEmission::Emitted => final(workspace).last_fallback == old(workspace).last_fallback,
                JoinEmission::Fallback(reason) => final(workspace).last_fallback == Some(reason),
            },
    {
        match self {
            JoinEmission::Emitted => true,
            JoinEmission::Fallback(reason) => {
                workspace.fallback(reason);
                false
            },
        }
    }
}

/// The side on which a turn's outer corner lies.
pub open spec fn outer_side_of(turn: TurnSide) -> usize {
    match turn {
        TurnSide::Left => SIDE_NEGATIVE,
        TurnSide::Right => SIDE_POSITIVE,
    }
}

pub fn arcs_outer_side(turn: TurnSide) -> (side: usize)
    ensures
        side == outer_side_of(turn),
        side < 2,
{
    match turn {
        TurnSide::Left => SIDE_NEGATIVE,
        TurnSide::Right => SIDE_POSITIVE,
    }
}

/// The straight-segment shape of an Arcs join whose sides are parallel.
#[derive(Copy, Clone, Debug)]
pub struct ParallelRectangleJoin<Q> {
    pub near_left: Q,
    pub near_right: Q,
    pub far_left: Q,
    pub far_right: Q,
}

/// An Arcs join cut along the radial edges.
#[derive(Copy, Clone, Debug)]
pub struct RadialClipJoin<Q> {
    pub turn: TurnSide,
    pub incoming_offset_point: Q,
    pub outgoing_offset_point: Q,
    pub incoming: Q,
    pub outgoing: Q,
}

/// What the Arcs construction produced, with its positions of type `Q` and
/// a curved result of type `A`.
pub enum JoinConstruction<Q, A> {
    /// Nothing to add: an ordinary miter.
    Empty,
    /// A flat cut: an ordinary clipped miter.
    MiterClip,
    ParallelRectangle(ParallelRectangleJoin<Q>),
    RadialClip(RadialClipJoin<Q>),
    Arcs(A),
}

/// A parallel rectangle whose corners were converted to output positions.
pub type PreparedParallelRectangle<Pt> = ParallelRectangleJoin<Pt>;

/// A radial clip whose points were converted to output positions.
pub type PreparedRadialClip<Pt> = RadialClipJoin<Pt>;

/// Arcs geometry ready to be emitted.
pub enum PreparedArcsJoin<Pt, A> {
    Curved(A),
    ParallelRectangle(PreparedParallelRectangle<Pt>),
    RadialClip(PreparedRadialClip<Pt>),
}

/// The result of preparing a join: an ordinary style, or Arcs geometry.
pub enum PreparedJoin<Pt, A> {
    Standard(LineJoin),
    Arcs(PreparedArcsJoin<Pt, A>),
}

/// What alignment and emission need from a curved Arcs result: its turn,
/// its two offset points (each converted to an output position when it
/// fits), whether its cut crosses a radial edge (a mixed clip), and whether
/// its clip endpoints exist and fit the output (so that ArcsRound can round
/// the cut). One value describes the result for both steps.
#[derive(Copy, Clone, Debug)]
pub struct CurvedAttachment<Pt> {
    pub turn: TurnSide,
    pub incoming_offset_point: Option<Pt>,
    pub outgoing_offset_point: Option<Pt>,
    pub clips_radial_edge: bool,
    pub clip_tip_available: bool,
}

} // verus!
