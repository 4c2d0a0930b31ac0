//! What the shapes of a join are made of: which constructed points a
//! prepared join keeps and where alignment attaches them, how a clipped
//! join and the interior fill connect the attachment vertices, and when a
//! subunit miter cut is looked for.
use vstd::prelude::*;
use crate::join::{
    CurvedAttachment, JoinSides, LineJoin, ParallelRectangleJoin, PreparedArcsJoin, RadialClipJoin,
    SIDE_NEGATIVE, SIDE_POSITIVE, VertexId, outer_side_of,
};
use crate::join_mesh::{clipped_triangles_of, interior_triangles_of, side_needs_join};
use crate::join_plan::{ArcsShape, JoinAction, JoinContext, JoinStage, join_step};
use crate::join_prepare::{aligned_sides, converted_radial_clip, converted_rectangle};

verus! {

/// A prepared radial clip keeps each constructed point in its own field,
/// and exists exactly when all four points fit the output.
pub proof fn lemma_radial_clip_keeps_its_points<Pt>(clip: RadialClipJoin<Option<Pt>>)
    ensures
        converted_radial_clip(clip) is Some <==> (clip.incoming_offset_point is Some
            && clip.outgoing_offset_point is Some && clip.incoming is Some && clip.outgoing is Some),
        converted_radial_clip(clip) matches Some(prepared) ==> {
            &&& prepared.turn == clip.turn
            &&& Some(prepared.incoming_offset_point) == clip.incoming_offset_point
            &&& Some(prepared.outgoing_offset_point) == clip.outgoing_offset_point
            &&& Some(prepared.incoming) == clip.incoming
            &&& Some(prepared.outgoing) == clip.outgoing
        },
{
}

/// A prepared parallel rectangle keeps each constructed corner in its own
/// field, and exists exactly when all four corners fit the output.
pub proof fn lemma_rectangle_keeps_its_corners<Pt>(rectangle: ParallelRectangleJoin<Option<Pt>>)
    ensures
        converted_rectangle(rectangle) is Some <==> (rectangle.near_left is Some && rectangle.near_right is Some
            && rectangle.far_left is Some && rectangle.far_right is Some),
        converted_rectangle(rectangle) matches Some(prepared) ==> {
            &&& Some(prepared.near_left) == rectangle.near_left
            &&& Some(prepared.near_right) == rectangle.near_right
            &&& Some(prepared.far_left) == rectangle.far_left
            &&& Some(prepared.far_right) == rectangle.far_right
        },
{
}

/// Alignment attaches the outer side of a curved or radially clipped join
/// to the construction's offset points, incoming end to incoming point and
/// outgoing end to outgoing point, and leaves the inner side, the folds and
/// the attachment vertices alone. A parallel rectangle attaches the
/// positive side from its near left to its near right corner, the negative
/// side the other way round, and unfolds both sides.
pub proof fn lemma_alignment_attaches_ends_in_order<Pt, A>(
    before: JoinSides<Pt>,
    after: JoinSides<Pt>,
    prepared: PreparedArcsJoin<Pt, A>,
    curved: CurvedAttachment<Pt>,
)
    requires
        aligned_sides(before, after, prepared, curved),
    ensures
        after.line_join == before.line_join,
        forall|s: int|
            0 <= s < 2 ==> {
                &&& #[trigger] after.side_points@[s].prev_vertex == before.side_points@[s].prev_vertex
                &&& after.side_points@[s].next_vertex == before.side_points@[s].next_vertex
            },
        prepared is Curved ==> {
            let s = outer_side_of(curved.turn) as int;
            &&& after.side_points@[s].prev == curved.incoming_offset_point->0
            &&& after.side_points@[s].next == curved.outgoing_offset_point->0
            &&& after.side_points@[s].single_vertex is None
            &&& after.side_points@[1 - s] == before.side_points@[1 - s]
            &&& after.fold == before.fold
        },
        prepared matches PreparedArcsJoin::RadialClip(clip) ==> {
            let s = outer_side_of(clip.turn) as int;
            &&& after.side_points@[s].prev == clip.incoming_offset_point
            &&& after.side_points@[s].next == clip.outgoing_offset_point
            &&& after.side_points@[s].single_vertex is None
            &&& after.side_points@[1 - s] == before.side_points@[1 - s]
            &&& after.fold == before.fold
        },
        prepared matches PreparedArcsJoin::ParallelRectangle(rectangle) ==> {
            &&& after.side_points@[SIDE_POSITIVE as int].prev == rectangle.near_left
            &&& after.side_points@[SIDE_POSITIVE as int].next == rectangle.near_right
            &&& after.side_points@[SIDE_NEGATIVE as int].prev == rectangle.near_right
            &&& after.side_points@[SIDE_NEGATIVE as int].next == rectangle.near_left
            &&& after.side_points@[SIDE_POSITIVE as int].single_vertex is None
            &&& after.side_points@[SIDE_NEGATIVE as int].single_vertex is None
            &&& !after.fold@[0] && !after.fold@[1]
        },
{
}

/// Whether `t` holds the vertex `v`.
pub open spec fn holds(t: [VertexId; 3], v: VertexId) -> bool {
    t@[0] == v || t@[1] == v || t@[2] == v
}

/// In a clipped join, each clip vertex shares a triangle with the outer
/// attachment at its own end: the first triangle of the fan holds the
/// attachment and the clip vertex of the end where the fan starts, and the
/// last one those of the other end. Every triangle holds the inner vertex.
pub proof fn lemma_clip_vertices_meet_their_own_ends<Pt>(
    join: JoinSides<Pt>,
    outer_side: int,
    incoming_clip: VertexId,
    outgoing_clip: VertexId,
)
    requires
        0 <= outer_side < 2,
    ensures
        ({
            let triangles = clipped_triangles_of(join, outer_side, incoming_clip, outgoing_clip);
            let inner = join.side_points@[1 - outer_side].prev_vertex;
            let incoming_outer = join.side_points@[outer_side].prev_vertex;
            let outgoing_outer = join.side_points@[outer_side].next_vertex;
            &&& forall|t: int| 0 <= t < triangles.len() ==> holds(#[trigger] triangles[t], inner)
            &&& outer_side == SIDE_POSITIVE ==> {
                &&& triangles[0]@[1] == incoming_outer && triangles[0]@[2] == incoming_clip
                &&& triangles.last()@[1] == outgoing_clip && triangles.last()@[2] == outgoing_outer
            }
            &&& outer_side == SIDE_NEGATIVE ==> {
                &&& triangles[0]@[1] == outgoing_outer && triangles[0]@[2] == outgoing_clip
                &&& triangles.last()@[1] == incoming_clip && triangles.last()@[2] == incoming_outer
            }
            &&& incoming_clip != outgoing_clip ==> holds(triangles[1], incoming_clip) && holds(
                triangles[1],
                outgoing_clip,
            )
        }),
{
}

/// The attachment vertices around a join, in the order in which the fill is
/// wound: the positive side from its incoming to its outgoing attachment,
/// then the negative side from its outgoing to its incoming attachment.
pub open spec fn attachment_ring<Pt>(join: JoinSides<Pt>) -> Seq<VertexId> {
    let p = join.side_points@[SIDE_POSITIVE as int];
    let n = join.side_points@[SIDE_NEGATIVE as int];
    seq![p.prev_vertex, p.next_vertex, n.next_vertex, n.prev_vertex]
}

/// `t` takes three corners of `ring` in the ring's own cyclic order.
pub open spec fn wound_along(t: [VertexId; 3], ring: Seq<VertexId>) -> bool {
    exists|a: int, b: int, c: int|
        #![trigger ring[a], ring[b], ring[c]]
        0 <= a < ring.len() && 0 <= b < ring.len() && 0 <= c < ring.len() && t@ == seq![
            ring[a],
            ring[b],
            ring[c],
        ] && ((a < b < c) || (b < c < a) || (c < a < b))
}

/// The interior fill is wound along the attachments. When exactly one side
/// needs a join shape, its one triangle spans that side's incoming and
/// outgoing attachments and the other side's incoming one; when both do,
/// two triangles split the four attachments along the diagonal from the
/// positive side's incoming attachment, and together hold all four.
pub proof fn lemma_interior_spans_the_open_sides<Pt>(join: JoinSides<Pt>)
    requires
        !join.fold@[SIDE_POSITIVE as int],
        !join.fold@[SIDE_NEGATIVE as int],
    ensures
        ({
            let triangles = interior_triangles_of(join);
            let ring = attachment_ring(join);
            let p = join.side_points@[SIDE_POSITIVE as int];
            let n = join.side_points@[SIDE_NEGATIVE as int];
            let positive = side_needs_join(join, SIDE_POSITIVE as int);
            let negative = side_needs_join(join, SIDE_NEGATIVE as int);
            &&& forall|t: int| 0 <= t < triangles.len() ==> wound_along(#[trigger] triangles[t], ring)
            &&& positive && !negative ==> {
                &&& triangles.len() == 1
                &&& holds(triangles[0], p.prev_vertex) && holds(triangles[0], p.next_vertex)
                &&& holds(triangles[0], n.prev_vertex)
            }
            &&& negative && !positive ==> {
                &&& triangles.len() == 1
                &&& holds(triangles[0], n.prev_vertex) && holds(triangles[0], n.next_vertex)
                &&& holds(triangles[0], p.prev_vertex)
            }
            &&& positive && negative ==> {
                &&& triangles.len() == 2
                &&& holds(triangles[0], p.prev_vertex) && holds(triangles[0], n.next_vertex)
                &&& holds(triangles[1], p.prev_vertex) && holds(triangles[1], n.next_vertex)
                &&& holds(triangles[0], p.next_vertex) && holds(triangles[1], n.prev_vertex)
            }
            &&& !positive && !negative ==> triangles.len() == 0
        }),
{
    let triangles = interior_triangles_of(join);
    let ring = attachment_ring(join);
    let positive = side_needs_join(join, SIDE_POSITIVE as int);
    let negative = side_needs_join(join, SIDE_NEGATIVE as int);
    if positive && negative {
        assert(triangles[0]@ =~= seq![ring[0], ring[1], ring[2]]);
        assert(triangles[1]@ =~= seq![ring[0], ring[2], ring[3]]);
        assert(wound_along(triangles[0], ring));
        assert(wound_along(triangles[1], ring));
    } else if negative {
        assert(triangles[0]@ =~= seq![ring[3], ring[0], ring[2]]);
        assert(wound_along(triangles[0], ring));
    } else if positive {
        assert(triangles[0]@ =~= seq![ring[3], ring[0], ring[1]]);
        assert(wound_along(triangles[0], ring));
    }
    assert forall|t: int| 0 <= t < triangles.len() implies wound_along(#[trigger] triangles[t], ring) by {
        if positive && negative {
            assert(t == 0 || t == 1);
        }
    }
}

/// Whether the plan looks for a subunit miter cut: a MiterClip join with a
/// miter limit below one, in an extended join.
pub open spec fn cuts_subunit_miters(context: JoinContext) -> bool {
    context.extended && context.line_join == LineJoin::MiterClip && context.miter_limit_below_one
}

/// A MiterClip join with a miter limit below one looks for a subunit cut
/// before the interior is filled, whatever style was requested: once the
/// Arcs shapes are out of the way, the first side that does not meet in a
/// single vertex gets a cut computed; a found cut is offered; a cut that is
/// missing or does not attach passes on to the next side; after the last
/// side the interior is filled. A cut that attached completes the join.
pub proof fn lemma_subunit_cut_searched_before_interior(context: JoinContext, outcome: bool)
    requires
        cuts_subunit_miters(context),
    ensures
        ({
            let first = if !context.single_vertex@[0] {
                (JoinStage::SubunitClipComputed(0), JoinAction::ComputeSubunitClip { side: 0 })
            } else if !context.single_vertex@[1] {
                (JoinStage::SubunitClipComputed(1), JoinAction::ComputeSubunitClip { side: 1 })
            } else {
                (JoinStage::Side(0), JoinAction::EmitInterior)
            };
            &&& (context.arcs == ArcsShape::Absent || context.arcs matches ArcsShape::Curved {
                clips_radial_edge: false,
                ..
            }) ==> join_step(context, JoinStage::Start, outcome) == first
            &&& join_step(context, JoinStage::RadialClipTried, false) == first
            &&& join_step(context, JoinStage::MixedClipTried, false) == first
            &&& join_step(context, JoinStage::SubunitSide(0), false) == first
        }),
        ({
            let after_first = if !context.single_vertex@[1] {
                (JoinStage::SubunitClipComputed(1), JoinAction::ComputeSubunitClip { side: 1 })
            } else {
                (JoinStage::Side(0), JoinAction::EmitInterior)
            };
            &&& join_step(context, JoinStage::SubunitClipComputed(0), false) == after_first
            &&& join_step(context, JoinStage::SubunitClipTried(0), false) == after_first
            &&& join_step(context, JoinStage::SubunitClipComputed(1), false) == (
                JoinStage::Side(0),
                JoinAction::EmitInterior,
            )
            &&& join_step(context, JoinStage::SubunitClipTried(1), false) == (
                JoinStage::Side(0),
                JoinAction::EmitInterior,
            )
        }),
        forall|s: usize|
            s < 2 ==> #[trigger] join_step(context, JoinStage::SubunitClipComputed(s), true) == (
                JoinStage::SubunitClipTried(s),
                JoinAction::TrySubunitClip { side: s },
            ),
        forall|s: usize|
            s < 2 ==> (#[trigger] join_step(context, JoinStage::SubunitClipTried(s), true)).0
                == JoinStage::Finished,
{
    reveal_with_fuel(join_step, 4);
    assert(join_step(context, JoinStage::SubunitSide(2), false) == (JoinStage::Side(0), JoinAction::EmitInterior));
}

} // verus!
