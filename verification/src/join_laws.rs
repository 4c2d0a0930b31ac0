//! Properties of join preparation, join topology and the emission order.
use vstd::prelude::*;
use crate::differentials::EndpointDifferentials;
use crate::join::{
    ArcsJoinFallback, JoinConstruction, JoinSides, JoinWorkspace, LineJoin, PreparedJoin, SIDE_NEGATIVE,
    SIDE_POSITIVE, VertexId,
};
use crate::join_mesh::{
    MeshEmission, MeshPoint, MeshVertex, NewVertex, clipped_triangles_of, first_point_fallback,
    flipped, interior_triangles_of, mesh_output_outcome, offer_recorded, side_label, side_needs_join,
};
use crate::join_plan::{
    ArcsShape, JoinAction, JoinContext, JoinStage, join_step, stage_rank, stage_valid,
};
use crate::join_prepare::{is_arcs_preparation, is_arcs_style, regular_pair, selected_style};

verus! {

/// After an Arcs style was prepared, the join keeps an Arcs style exactly
/// when Arcs geometry is available: constructions that call for an ordinary
/// style select Miter or MiterClip, and failures select Round.
pub proof fn lemma_arcs_style_implies_geometry<R, Pt, A, C, M, F: FnOnce(R, R) -> Result<
    JoinConstruction<Option<Pt>, A>,
    C,
>>(
    requested: LineJoin,
    differentials: EndpointDifferentials<R>,
    construct: F,
    preparation: Result<PreparedJoin<Pt, A>, ArcsJoinFallback<C, M>>,
)
    requires
        is_arcs_style(requested),
        is_arcs_preparation(differentials, construct, preparation),
    ensures
        is_arcs_style(selected_style(requested, preparation)) <==> (preparation matches Ok(
            PreparedJoin::Arcs(_),
        )),
        preparation matches Ok(PreparedJoin::Standard(style)) ==> (style == LineJoin::Miter || style
            == LineJoin::MiterClip),
{
    match regular_pair(differentials) {
        None => {},
        Some((incoming, outgoing)) => {
            let result = choose|result: Result<JoinConstruction<Option<Pt>, A>, C>|
                construct.ensures((incoming, outgoing), result) && preparation == match result {
                    Ok(construction) => crate::join_prepare::prepared_from::<Pt, A, C, M>(construction),
                    Err(error) => Err(ArcsJoinFallback::Construction(error)),
                };
            match result {
                Ok(construction) => {
                    match construction {
                        JoinConstruction::ParallelRectangle(r) => {},
                        JoinConstruction::RadialClip(c) => {},
                        _ => {},
                    }
                },
                Err(_) => {},
            }
        },
    }
}

/// Without both regular derivatives, an Arcs join falls back to Round for
/// missing derivatives, whatever the construction would have done.
pub proof fn lemma_missing_derivatives_select_round<R, Pt, A, C, M, F: FnOnce(R, R) -> Result<
    JoinConstruction<Option<Pt>, A>,
    C,
>>(
    requested: LineJoin,
    differentials: EndpointDifferentials<R>,
    construct: F,
    preparation: Result<PreparedJoin<Pt, A>, ArcsJoinFallback<C, M>>,
)
    requires
        regular_pair(differentials) is None,
        is_arcs_preparation(differentials, construct, preparation),
    ensures
        preparation == Err::<PreparedJoin<Pt, A>, ArcsJoinFallback<C, M>>(
            ArcsJoinFallback::MissingDifferentials,
        ),
        selected_style(requested, preparation) == LineJoin::Round,
{
}

/// The vertices of a join attachment.
pub open spec fn is_attachment_vertex<Pt>(join: JoinSides<Pt>, v: VertexId) -> bool {
    exists|s: int|
        0 <= s < 2 && (v == #[trigger] join.side_points@[s].prev_vertex || v
            == join.side_points@[s].next_vertex)
}

/// The interior of a join is filled with one triangle per side that needs a
/// join shape (none once a side folded), and only joins attachment vertices.
pub proof fn lemma_interior_uses_attachments<Pt>(join: JoinSides<Pt>)
    ensures
        interior_triangles_of(join).len() == if join.fold@[SIDE_POSITIVE as int]
            || join.fold@[SIDE_NEGATIVE as int] {
            0
        } else {
            (if side_needs_join(join, SIDE_POSITIVE as int) { 1int } else { 0int }) + (if side_needs_join(
                join,
                SIDE_NEGATIVE as int,
            ) {
                1int
            } else {
                0int
            })
        },
        forall|t: int, c: int|
            0 <= t < interior_triangles_of(join).len() && 0 <= c < 3 ==> is_attachment_vertex(
                join,
                #[trigger] interior_triangles_of(join)[t]@[c],
            ),
{
    let p = join.side_points@[0];
    let n = join.side_points@[1];
    assert(is_attachment_vertex(join, p.prev_vertex));
    assert(is_attachment_vertex(join, p.next_vertex));
    assert(is_attachment_vertex(join, n.prev_vertex));
    assert(is_attachment_vertex(join, n.next_vertex));
}

/// A clipped join is a fan around the inner vertex: it starts at one outer
/// attachment, ends at the other, and each triangle shares an edge with the
/// next one, so the filled region has no gap.
pub proof fn lemma_clipped_join_is_a_fan<Pt>(
    join: JoinSides<Pt>,
    outer_side: int,
    incoming_clip: VertexId,
    outgoing_clip: VertexId,
)
    requires
        0 <= outer_side < 2,
    ensures
        ({
            let triangles = clipped_triangles_of(join, outer_side, incoming_clip, outgoing_clip);
            let inner = join.side_points@[1 - outer_side].prev_vertex;
            let incoming_outer = join.side_points@[outer_side].prev_vertex;
            let outgoing_outer = join.side_points@[outer_side].next_vertex;
            &&& triangles.len() == if incoming_clip == outgoing_clip { 2int } else { 3int }
            &&& forall|t: int| 0 <= t < triangles.len() ==> #[trigger] triangles[t]@[0] == inner
            &&& forall|t: int| 0 <= t < triangles.len() - 1 ==> #[trigger] triangles[t]@[2] == triangles[t
                + 1]@[1]
            &&& (outer_side == SIDE_NEGATIVE ==> triangles[0]@[1] == outgoing_outer
                && triangles.last()@[2] == incoming_outer)
            &&& (outer_side == SIDE_POSITIVE ==> triangles[0]@[1] == incoming_outer
                && triangles.last()@[2] == outgoing_outer)
        }),
{
}

/// Every triangle wired from a mesh uses only the given vertex ids, and
/// the orientation is reversed: exchanging the last two corners again gives
/// back the mesh triangle.
pub proof fn lemma_flipped_triangle_uses_ids(vertex_ids: Seq<VertexId>, a: usize, b: usize, c: usize)
    requires
        a < vertex_ids.len(),
        b < vertex_ids.len(),
        c < vertex_ids.len(),
    ensures
        vertex_ids.contains(flipped(vertex_ids, a, b, c)@[0]),
        vertex_ids.contains(flipped(vertex_ids, a, b, c)@[1]),
        vertex_ids.contains(flipped(vertex_ids, a, b, c)@[2]),
        flipped(vertex_ids, a, c, b)@ == seq![vertex_ids[a as int], vertex_ids[b as int], vertex_ids[c as int]],
{
    assert(flipped(vertex_ids, a, b, c)@[0] == vertex_ids[a as int]);
    assert(flipped(vertex_ids, a, b, c)@[1] == vertex_ids[c as int]);
    assert(flipped(vertex_ids, a, b, c)@[2] == vertex_ids[b as int]);
    assert(flipped(vertex_ids, a, c, b)@ =~= seq![vertex_ids[a as int], vertex_ids[b as int], vertex_ids[c as int]]);
}

/// An accepted Arcs mesh adds exactly its inner vertices, in mesh order,
/// each labelled with the side that emits it, and keeps its indices: the
/// attachments already in the output are not added again.
pub proof fn lemma_accepted_mesh_keeps_order_and_side<Pt, C, M>(
    side: int,
    vertices: Seq<MeshVertex<Pt>>,
    indices: Seq<usize>,
    emission: MeshEmission<Pt>,
)
    requires
        mesh_output_outcome::<Pt, C, M>(side, vertices, indices, Ok(emission)),
    ensures
        vertices.len() >= 3,
        emission.vertices@.len() == vertices.len() - 2,
        forall|i: int|
            0 <= i < emission.vertices@.len() ==> #[trigger] emission.vertices@[i] == (NewVertex {
                side: side_label(side),
                position: vertices[i + 1].position,
            }),
        emission.indices@ == indices,
{
    assert(vertices.len() >= 3);
}

/// Mesh points are accepted exactly when every one of them converts to a
/// position away from the join.
pub proof fn lemma_mesh_points_accepted_iff_all_offset<C, M>(points: Seq<MeshPoint>)
    ensures
        first_point_fallback::<C, M>(points) is None <==> forall|i: int|
            0 <= i < points.len() ==> #[trigger] points[i] == MeshPoint::Offset,
    decreases points.len(),
{
    if points.len() > 0 {
        lemma_mesh_points_accepted_iff_all_offset::<C, M>(points.drop_first());
        if first_point_fallback::<C, M>(points) is None {
            assert forall|i: int| 0 <= i < points.len() implies #[trigger] points[i] == MeshPoint::Offset by {
                if i > 0 {
                    assert(points[i] == points.drop_first()[i - 1]);
                }
            }
        } else {
            if forall|i: int| 0 <= i < points.len() ==> #[trigger] points[i] == MeshPoint::Offset {
                assert(points[0] == MeshPoint::Offset);
                assert forall|i: int| 0 <= i < points.drop_first().len() implies #[trigger] points.drop_first()[i]
                    == MeshPoint::Offset by {
                    assert(points.drop_first()[i] == points[i + 1]);
                }
            }
        }
    }
}

/// Every emission step moves to a valid stage of lower rank, unless the join
/// is complete; so a join is emitted in at most twenty-one actions.
pub proof fn lemma_join_step_progresses(context: JoinContext, stage: JoinStage, outcome: bool)
    requires
        stage_valid(stage),
    ensures
        stage_valid(join_step(context, stage, outcome).0),
        join_step(context, stage, outcome).1 == JoinAction::Done ==> join_step(context, stage, outcome).0
            == JoinStage::Finished,
        join_step(context, stage, outcome).1 != JoinAction::Done ==> stage_rank(
            join_step(context, stage, outcome).0,
        ) < stage_rank(stage),
    decreases stage_rank(stage),
{
    match stage {
        JoinStage::Start => {
            lemma_join_step_progresses(context, JoinStage::Interior, false);
            lemma_join_step_progresses(context, JoinStage::SubunitSide(0), false);
        },
        JoinStage::RadialClipTried | JoinStage::MixedClipTried => {
            lemma_join_step_progresses(context, JoinStage::SubunitSide(0), false);
        },
        JoinStage::SubunitSide(s) => {
            if s <= 2 {
                lemma_join_step_progresses(context, JoinStage::Interior, false);
            }
            if s < 2 {
                lemma_join_step_progresses(context, JoinStage::SubunitSide((s + 1) as usize), false);
            }
        },
        JoinStage::SubunitClipComputed(s) | JoinStage::SubunitClipTried(s) => {
            if s < 2 {
                lemma_join_step_progresses(context, JoinStage::SubunitSide((s + 1) as usize), false);
            }
        },
        JoinStage::Side(s) | JoinStage::ArcsTried(s) => {
            if s < 2 {
                lemma_join_step_progresses(context, JoinStage::Side((s + 1) as usize), false);
            }
        },
        _ => {},
    }
}

/// The stages an ordinary (not extended) join goes through.
pub open spec fn is_ordinary_stage(stage: JoinStage) -> bool {
    match stage {
        JoinStage::Start | JoinStage::Interior | JoinStage::Finished => true,
        JoinStage::Side(s) => s <= 2,
        _ => false,
    }
}

/// The actions of an ordinary join.
pub open spec fn is_ordinary_action(action: JoinAction) -> bool {
    match action {
        JoinAction::EmitInterior | JoinAction::RoundJoin { .. } | JoinAction::Done => true,
        _ => false,
    }
}

/// Ordinary joins never take an extended branch: they fill the interior,
/// round the sides that need it, and finish.
pub proof fn lemma_ordinary_joins_stay_ordinary(context: JoinContext, stage: JoinStage, outcome: bool)
    requires
        !context.extended,
        is_ordinary_stage(stage),
    ensures
        is_ordinary_stage(join_step(context, stage, outcome).0),
        is_ordinary_action(join_step(context, stage, outcome).1),
    decreases stage_rank(stage),
{
    match stage {
        JoinStage::Start => {
            lemma_ordinary_joins_stay_ordinary(context, JoinStage::Interior, false);
        },
        JoinStage::Side(s) => {
            if s < 2 {
                lemma_ordinary_joins_stay_ordinary(context, JoinStage::Side((s + 1) as usize), false);
            }
        },
        _ => {},
    }
}

/// A mixed clip is offered before anything else, in particular before the
/// bevel fill of the interior.
pub proof fn lemma_mixed_clip_comes_first(context: JoinContext, outcome: bool)
    requires
        context.extended,
        context.arcs matches ArcsShape::Curved { clips_radial_edge, .. } && clips_radial_edge,
    ensures
        join_step(context, JoinStage::Start, outcome) == (JoinStage::MixedClipTried, JoinAction::TryMixedClip),
{
}

/// A parallel rectangle replaces the whole join: it is emitted first and,
/// after an optional rounded tip, the join is complete.
pub proof fn lemma_rectangle_replaces_join(context: JoinContext, outcome: bool)
    requires
        context.extended,
        context.arcs == ArcsShape::ParallelRectangle,
    ensures
        join_step(context, JoinStage::Start, outcome) == (
            JoinStage::RectangleEmitted,
            JoinAction::EmitParallelRectangle,
        ),
        join_step(context, JoinStage::RectangleEmitted, outcome).0 == JoinStage::Finished,
{
}

/// A clip that was emitted completes the join: no bevel fill or side shape
/// follows it, only a rounded tip for ArcsRound.
pub proof fn lemma_emitted_clip_completes_join(context: JoinContext, s: usize)
    requires
        s < 2,
    ensures
        join_step(context, JoinStage::RadialClipTried, true).0 == JoinStage::Finished,
        join_step(context, JoinStage::MixedClipTried, true).0 == JoinStage::Finished,
        join_step(context, JoinStage::SubunitClipTried(s), true).0 == JoinStage::Finished,
        context.requested_join != LineJoin::ArcsRound ==> join_step(
            context,
            JoinStage::SubunitClipTried(s),
            true,
        ).1 == JoinAction::Done,
{
}

/// When the Arcs shape of a side is not emitted, that side gets a Round join.
pub proof fn lemma_failed_arcs_fall_back_to_round(context: JoinContext, s: usize)
    requires
        s < 2,
    ensures
        join_step(context, JoinStage::ArcsTried(s), false) == (
            JoinStage::Side((s + 1) as usize),
            JoinAction::RoundJoin { side: s },
        ),
{
}

/// A side that needs a join shape in a Round join gets exactly a round join.
pub proof fn lemma_round_sides_get_round_joins(context: JoinContext, s: usize, outcome: bool)
    requires
        s < 2,
        context.line_join == LineJoin::Round,
        context.needs_join@[s as int],
    ensures
        join_step(context, JoinStage::Side(s), outcome) == (
            JoinStage::Side((s + 1) as usize),
            JoinAction::RoundJoin { side: s },
        ),
{
}

/// The rounding of a cut (the tip of a rectangle, a radial, mixed or
/// subunit clip, a curved join or a clipped miter).
pub open spec fn is_rounded_tip(action: JoinAction) -> bool {
    match action {
        JoinAction::RoundRectangleTip | JoinAction::RoundRadialClipTip { .. }
        | JoinAction::RoundCurvedClipTip { .. } | JoinAction::RoundSubunitClipTip { .. }
        | JoinAction::RoundMiterClipTip { .. } => true,
        _ => false,
    }
}

/// Cuts are only rounded when ArcsRound was requested.
pub proof fn lemma_tips_only_for_arcs_round(context: JoinContext, stage: JoinStage, outcome: bool)
    ensures
        is_rounded_tip(join_step(context, stage, outcome).1) ==> context.requested_join
            == LineJoin::ArcsRound,
    decreases stage_rank(stage),
{
    match stage {
        JoinStage::Start => {
            lemma_tips_only_for_arcs_round(context, JoinStage::Interior, false);
            lemma_tips_only_for_arcs_round(context, JoinStage::SubunitSide(0), false);
        },
        JoinStage::RadialClipTried | JoinStage::MixedClipTried => {
            lemma_tips_only_for_arcs_round(context, JoinStage::SubunitSide(0), false);
        },
        JoinStage::SubunitSide(s) => {
            if s <= 2 {
                lemma_tips_only_for_arcs_round(context, JoinStage::Interior, false);
            }
            if s < 2 {
                lemma_tips_only_for_arcs_round(context, JoinStage::SubunitSide((s + 1) as usize), false);
            }
        },
        JoinStage::SubunitClipComputed(s) | JoinStage::SubunitClipTried(s) => {
            if s < 2 {
                lemma_tips_only_for_arcs_round(context, JoinStage::SubunitSide((s + 1) as usize), false);
            }
        },
        JoinStage::Side(s) | JoinStage::ArcsTried(s) => {
            if s < 2 {
                lemma_tips_only_for_arcs_round(context, JoinStage::Side((s + 1) as usize), false);
            }
        },
        _ => {},
    }
}


/// A declined Arcs offer on a side records its cause in the workspace, and
/// the plan then gives that side a Round join, with no rounded tip.
pub proof fn lemma_declined_arcs_offer_rounds_the_side<Pt, C, M>(
    context: JoinContext,
    s: usize,
    reason: ArcsJoinFallback<C, M>,
    before: JoinWorkspace<C, M>,
    after: JoinWorkspace<C, M>,
    emission: Option<MeshEmission<Pt>>,
)
    requires
        s < 2,
        offer_recorded(Err::<MeshEmission<Pt>, ArcsJoinFallback<C, M>>(reason), before, after, emission),
    ensures
        after.last_fallback == Some(reason),
        after.vertex_ids == before.vertex_ids,
        join_step(context, JoinStage::ArcsTried(s), emission is Some) == (
            JoinStage::Side((s + 1) as usize),
            JoinAction::RoundJoin { side: s },
        ),
        !is_rounded_tip(join_step(context, JoinStage::ArcsTried(s), emission is Some).1),
{
}

/// The same join with plain Arcs requested instead of ArcsRound.
pub open spec fn with_plain_arcs(context: JoinContext) -> JoinContext {
    JoinContext {
        requested_join: LineJoin::Arcs,
        line_join: if context.line_join == LineJoin::ArcsRound {
            LineJoin::Arcs
        } else {
            context.line_join
        },
        ..context
    }
}

/// ArcsRound only adds rounded tips to the plan of an Arcs join: every
/// other step is the Arcs step, and skipping a tip resumes where the Arcs
/// plan goes on. A parallel rectangle gets no rounded tip unless the miter
/// limit is positive.
pub proof fn lemma_arcs_round_only_adds_tips(context: JoinContext, stage: JoinStage, outcome: bool)
    requires
        context.requested_join == LineJoin::ArcsRound,
    ensures
        !is_rounded_tip(join_step(context, stage, outcome).1) ==> join_step(context, stage, outcome)
            == join_step(with_plain_arcs(context), stage, outcome),
        is_rounded_tip(join_step(context, stage, outcome).1) ==> join_step(with_plain_arcs(context), stage, outcome)
            == join_step(with_plain_arcs(context), join_step(context, stage, outcome).0, false),
        !context.miter_limit_positive ==> join_step(context, stage, outcome).1 != JoinAction::RoundRectangleTip,
    decreases stage_rank(stage),
{
    let plain = with_plain_arcs(context);
    match stage {
        JoinStage::Start => {
            lemma_arcs_round_only_adds_tips(context, JoinStage::Interior, false);
            lemma_arcs_round_only_adds_tips(context, JoinStage::SubunitSide(0), false);
        },
        JoinStage::RadialClipTried | JoinStage::MixedClipTried => {
            lemma_arcs_round_only_adds_tips(context, JoinStage::SubunitSide(0), false);
        },
        JoinStage::SubunitSide(s) => {
            if s <= 2 {
                lemma_arcs_round_only_adds_tips(context, JoinStage::Interior, false);
            }
            if s < 2 {
                lemma_arcs_round_only_adds_tips(context, JoinStage::SubunitSide((s + 1) as usize), false);
            }
        },
        JoinStage::SubunitClipComputed(s) | JoinStage::SubunitClipTried(s) => {
            if s < 2 {
                lemma_arcs_round_only_adds_tips(context, JoinStage::SubunitSide((s + 1) as usize), false);
            }
        },
        JoinStage::Side(s) | JoinStage::ArcsTried(s) => {
            if s < 2 {
                lemma_arcs_round_only_adds_tips(context, JoinStage::Side((s + 1) as usize), false);
            }
        },
        _ => {},
    }
}

} // verus!
