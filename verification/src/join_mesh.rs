//! The mesh topology of a join: which triangles fill its interior, how a
//! clipped join or a parallel rectangle is attached to the segment sides,
//! and how an Arcs mesh is wired to the join's attachment vertices.
//!
//! Emission runs in two phases. The `emit_*` functions decide whether a
//! shape is emitted and, if so, which new vertices it adds, in order and
//! with their side; nothing is added when they decline. The caller adds
//! those vertices to the output (an output error aborts the join), then the
//! wiring functions say which vertices each triangle joins.
use vstd::prelude::*;
use crate::join::{
    ArcsJoinFallback, JoinEmission, JoinSides, JoinWorkspace, ParallelRectangleJoin, SIDE_NEGATIVE,
    SIDE_POSITIVE, VertexId,
};

verus! {

/// Which side of the stroke an output vertex lies on.
#[derive(Copy, Clone, Debug, PartialEq, Eq, Structural)]
pub enum Side {
    Positive,
    Negative,
}

/// The attributes shared by every vertex emitted for a join.
#[derive(Copy, Clone, Debug)]
pub struct JoinVertexData<Pt, W> {
    /// The join position on the path.
    pub position_on_path: Pt,
    /// The half width of the stroke at the join.
    pub half_width: W,
    pub side: Side,
}

/// Sets the metadata of the vertices about to be emitted on side `side` of
/// a join at `position` with half width `half_width`.
pub fn set_join_vertex_metadata<Pt, W>(position: Pt, half_width: W, side: usize, vertex: &mut JoinVertexData<Pt, W>)
    ensures
        final(vertex).position_on_path == position,
        final(vertex).half_width == half_width,
        final(vertex).side == (if side == SIDE_POSITIVE { Side::Positive } else { Side::Negative }),
{
    vertex.position_on_path = position;
    vertex.half_width = half_width;
    vertex.side = if side == SIDE_POSITIVE {
        Side::Positive
    } else {
        Side::Negative
    };
}

/// The side label of the vertices of side `side`.
pub open spec fn side_label(side: int) -> Side {
    if side == SIDE_POSITIVE {
        Side::Positive
    } else {
        Side::Negative
    }
}

/// A vertex to add to the output for a join: its side and its position.
#[derive(Copy, Clone, Debug, PartialEq)]
pub struct NewVertex<Pt> {
    pub side: Side,
    pub position: Pt,
}

/// One step of emitting the base of a join.
#[derive(Copy, Clone, Debug, PartialEq, Eq, Structural)]
pub enum JoinBaseStep {
    /// Add the base vertices of one side.
    Vertices(Side),
    /// Add the triangles of the edge from the previous endpoint.
    EdgeTriangles,
}

/// The steps of emitting a join's base, in order: the negative side's base
/// vertices, the positive side's, then the edge triangles when asked for.
pub open spec fn join_base_steps(emit_edge: bool) -> Seq<JoinBaseStep> {
    if emit_edge {
        seq![JoinBaseStep::Vertices(Side::Negative), JoinBaseStep::Vertices(Side::Positive), JoinBaseStep::EdgeTriangles]
    } else {
        seq![JoinBaseStep::Vertices(Side::Negative), JoinBaseStep::Vertices(Side::Positive)]
    }
}

/// Emits the base of a join. Before the base vertices of a variable-width
/// join are added, a side may only fold when the other side is not concave
/// (has no single inner vertex); fixed-width joins keep their folds. The
/// returned steps are then performed in order; the first output error
/// aborts the remaining ones.
pub fn emit_join_base<Pt>(join: &mut JoinSides<Pt>, fixed_width: bool, emit_edge: bool) -> (steps: Vec<
    JoinBaseStep,
>)
    ensures
        steps@ == join_base_steps(emit_edge),
        final(join).side_points == old(join).side_points,
        final(join).line_join == old(join).line_join,
        final(join).fold@[SIDE_NEGATIVE as int] == (old(join).fold@[SIDE_NEGATIVE as int] && (fixed_width
            || old(join).side_points@[SIDE_POSITIVE as int].single_vertex is None)),
        final(join).fold@[SIDE_POSITIVE as int] == (old(join).fold@[SIDE_POSITIVE as int] && (fixed_width
            || old(join).side_points@[SIDE_NEGATIVE as int].single_vertex is None)),
{
    if !fixed_width {
        if join.side_points[SIDE_POSITIVE].single_vertex.is_some() {
            join.fold[SIDE_NEGATIVE] = false;
        }
        if join.side_points[SIDE_NEGATIVE].single_vertex.is_some() {
            join.fold[SIDE_POSITIVE] = false;
        }
    }
    let mut steps: Vec<JoinBaseStep> = Vec::new();
    steps.push(JoinBaseStep::Vertices(Side::Negative));
    steps.push(JoinBaseStep::Vertices(Side::Positive));
    if emit_edge {
        steps.push(JoinBaseStep::EdgeTriangles);
    }
    proof {
        assert(steps@ =~= join_base_steps(emit_edge));
    }
    steps
}

/// Whether side `side` needs a join shape: it has two distinct attachment
/// points and the other side did not fold over it.
pub open spec fn side_needs_join<Pt>(join: JoinSides<Pt>, side: int) -> bool {
    join.side_points@[side].single_vertex is None && !join.fold@[1 - side]
}

pub fn sides_needing_join<Pt>(join: &JoinSides<Pt>) -> (needs: [bool; 2])
    ensures
        needs@[SIDE_POSITIVE as int] == side_needs_join(*join, SIDE_POSITIVE as int),
        needs@[SIDE_NEGATIVE as int] == side_needs_join(*join, SIDE_NEGATIVE as int),
{
    [
        join.side_points[SIDE_POSITIVE].single_vertex.is_none() && !join.fold[SIDE_NEGATIVE],
        join.side_points[SIDE_NEGATIVE].single_vertex.is_none() && !join.fold[SIDE_POSITIVE],
    ]
}

/// The triangles filling the interior of a join (between both sides'
/// attachments), when neither side folded.
pub open spec fn interior_triangles_of<Pt>(join: JoinSides<Pt>) -> Seq<[VertexId; 3]> {
    let p = join.side_points@[SIDE_POSITIVE as int];
    let n = join.side_points@[SIDE_NEGATIVE as int];
    let positive = side_needs_join(join, SIDE_POSITIVE as int);
    let negative = side_needs_join(join, SIDE_NEGATIVE as int);
    if join.fold@[SIDE_POSITIVE as int] || join.fold@[SIDE_NEGATIVE as int] {
        Seq::empty()
    } else if positive && negative {
        seq![[p.prev_vertex, p.next_vertex, n.next_vertex], [p.prev_vertex, n.next_vertex, n.prev_vertex]]
    } else if negative {
        seq![[n.prev_vertex, p.prev_vertex, n.next_vertex]]
    } else if positive {
        seq![[n.prev_vertex, p.prev_vertex, p.next_vertex]]
    } else {
        Seq::empty()
    }
}

pub fn interior_triangles<Pt>(join: &JoinSides<Pt>) -> (triangles: Vec<[VertexId; 3]>)
    ensures
        triangles@ == interior_triangles_of(*join),
{
    let mut triangles: Vec<[VertexId; 3]> = Vec::new();
    let needs = sides_needing_join(join);
    let p = &join.side_points[SIDE_POSITIVE];
    let n = &join.side_points[SIDE_NEGATIVE];
    if !join.fold[SIDE_POSITIVE] && !join.fold[SIDE_NEGATIVE] {
        if needs[SIDE_POSITIVE] && needs[SIDE_NEGATIVE] {
            triangles.push([p.prev_vertex, p.next_vertex, n.next_vertex]);
            triangles.push([p.prev_vertex, n.next_vertex, n.prev_vertex]);
        } else if needs[SIDE_NEGATIVE] {
            triangles.push([n.prev_vertex, p.prev_vertex, n.next_vertex]);
        } else if needs[SIDE_POSITIVE] {
            triangles.push([n.prev_vertex, p.prev_vertex, p.next_vertex]);
        }
    }
    proof {
        assert(triangles@ =~= interior_triangles_of(*join));
    }
    triangles
}

/// Whether a pair of clipped join edges can be filled against unchanged
/// segment attachments: the inner side meets in one vertex and no side
/// folded.
pub open spec fn clip_attaches<Pt>(join: JoinSides<Pt>, outer_side: int) -> bool {
    &&& join.side_points@[1 - outer_side].single_vertex is Some
    &&& !join.fold@[outer_side]
    &&& !join.fold@[1 - outer_side]
}

pub fn clipped_join_attaches<Pt>(join: &JoinSides<Pt>, outer_side: usize) -> (attaches: bool)
    requires
        outer_side < 2,
    ensures
        attaches == clip_attaches(*join, outer_side as int),
{
    let inner_side = 1 - outer_side;
    !(join.side_points[inner_side].single_vertex.is_none() || join.fold[outer_side]
        || join.fold[inner_side])
}

/// The fan around the inner vertex that joins the outer side's incoming
/// attachment, the clip vertices and the outgoing attachment. The middle
/// triangle is left out when both clip points share one vertex.
pub open spec fn clipped_triangles_of<Pt>(
    join: JoinSides<Pt>,
    outer_side: int,
    incoming_clip: VertexId,
    outgoing_clip: VertexId,
) -> Seq<[VertexId; 3]> {
    let inner = join.side_points@[1 - outer_side].prev_vertex;
    let incoming_outer = join.side_points@[outer_side].prev_vertex;
    let outgoing_outer = join.side_points@[outer_side].next_vertex;
    if outer_side == SIDE_NEGATIVE {
        if outgoing_clip != incoming_clip {
            seq![
                [inner, outgoing_outer, outgoing_clip],
                [inner, outgoing_clip, incoming_clip],
                [inner, incoming_clip, incoming_outer],
            ]
        } else {
            seq![[inner, outgoing_outer, outgoing_clip], [inner, incoming_clip, incoming_outer]]
        }
    } else {
        if incoming_clip != outgoing_clip {
            seq![
                [inner, incoming_outer, incoming_clip],
                [inner, incoming_clip, outgoing_clip],
                [inner, outgoing_clip, outgoing_outer],
            ]
        } else {
            seq![[inner, incoming_outer, incoming_clip], [inner, outgoing_clip, outgoing_outer]]
        }
    }
}

/// Emits a pair of clipped join edges on side `outer_side` against the
/// unchanged segment attachments: `None` (nothing is added) when the clip
/// cannot attach, and otherwise the clip vertices to add, incoming first;
/// a single vertex when both clip points coincide (`same_point`).
pub fn emit_clipped_join<Pt: Copy>(
    join: &JoinSides<Pt>,
    outer_side: usize,
    incoming: Pt,
    outgoing: Pt,
    same_point: bool,
) -> (vertices: Option<Vec<NewVertex<Pt>>>)
    requires
        outer_side < 2,
    ensures
        !clip_attaches(*join, outer_side as int) ==> vertices is None,
        clip_attaches(*join, outer_side as int) ==> (vertices matches Some(v) && v@ == if same_point {
            seq![NewVertex { side: side_label(outer_side as int), position: incoming }]
        } else {
            seq![
                NewVertex { side: side_label(outer_side as int), position: incoming },
                NewVertex { side: side_label(outer_side as int), position: outgoing },
            ]
        }),
{
    if !clipped_join_attaches(join, outer_side) {
        return None;
    }
    let side = if outer_side == SIDE_POSITIVE {
        Side::Positive
    } else {
        Side::Negative
    };
    let mut vertices: Vec<NewVertex<Pt>> = Vec::new();
    vertices.push(NewVertex { side, position: incoming });
    if !same_point {
        vertices.push(NewVertex { side, position: outgoing });
    }
    Some(vertices)
}

/// The triangles that fill a clipped join once its clip vertices were
/// added: `incoming_clip` and `outgoing_clip` (the same vertex when only
/// one was added).
pub fn clipped_join_triangles<Pt>(
    join: &JoinSides<Pt>,
    outer_side: usize,
    incoming_clip: VertexId,
    outgoing_clip: VertexId,
) -> (triangles: Vec<[VertexId; 3]>)
    requires
        outer_side < 2,
        clip_attaches(*join, outer_side as int),
    ensures
        triangles@ == clipped_triangles_of(*join, outer_side as int, incoming_clip, outgoing_clip),
{
    let inner_side = 1 - outer_side;
    let inner = join.side_points[inner_side].prev_vertex;
    let incoming_outer = join.side_points[outer_side].prev_vertex;
    let outgoing_outer = join.side_points[outer_side].next_vertex;
    let mut triangles: Vec<[VertexId; 3]> = Vec::new();
    if outer_side == SIDE_NEGATIVE {
        triangles.push([inner, outgoing_outer, outgoing_clip]);
        if outgoing_clip.0 != incoming_clip.0 {
            triangles.push([inner, outgoing_clip, incoming_clip]);
        }
        triangles.push([inner, incoming_clip, incoming_outer]);
    } else {
        triangles.push([inner, incoming_outer, incoming_clip]);
        if incoming_clip.0 != outgoing_clip.0 {
            triangles.push([inner, incoming_clip, outgoing_clip]);
        }
        triangles.push([inner, outgoing_clip, outgoing_outer]);
    }
    proof {
        assert(triangles@ =~= clipped_triangles_of(*join, outer_side as int, incoming_clip, outgoing_clip));
    }
    triangles
}

/// Emits a parallel rectangle: `None` (nothing is added) when its far
/// corners already are the incoming attachments of both sides
/// (`far_left_at_near` and `far_right_at_near` tell whether the far left
/// corner equals the positive side's incoming point, and the far right
/// corner the negative side's); otherwise the far left corner on the
/// positive side, then the far right corner on the negative side.
pub fn emit_parallel_arcs_rectangle<Pt: Copy>(
    rectangle: &ParallelRectangleJoin<Pt>,
    far_left_at_near: bool,
    far_right_at_near: bool,
) -> (vertices: Option<[NewVertex<Pt>; 2]>)
    ensures
        far_left_at_near && far_right_at_near ==> vertices is None,
        !(far_left_at_near && far_right_at_near) ==> vertices == Some(
            [
                NewVertex { side: Side::Positive, position: rectangle.far_left },
                NewVertex { side: Side::Negative, position: rectangle.far_right },
            ],
        ),
{
    if far_left_at_near && far_right_at_near {
        return None;
    }
    Some(
        [
            NewVertex { side: Side::Positive, position: rectangle.far_left },
            NewVertex { side: Side::Negative, position: rectangle.far_right },
        ],
    )
}

/// The two triangles of a parallel rectangle once its far corners were
/// added: the near corners are the incoming attachments of both sides.
pub fn parallel_rectangle_triangles<Pt>(
    join: &JoinSides<Pt>,
    far_left: VertexId,
    far_right: VertexId,
) -> (triangles: [[VertexId; 3]; 2])
    ensures
        triangles@[0] == [join.side_points@[SIDE_POSITIVE as int].prev_vertex, far_left, far_right],
        triangles@[1] == [
            join.side_points@[SIDE_POSITIVE as int].prev_vertex,
            far_right,
            join.side_points@[SIDE_NEGATIVE as int].prev_vertex,
        ],
{
    let near_left = join.side_points[SIDE_POSITIVE].prev_vertex;
    let near_right = join.side_points[SIDE_NEGATIVE].prev_vertex;
    [[near_left, far_left, far_right], [near_left, far_right, near_right]]
}

/// How a constructed mesh point maps to the output.
#[derive(Copy, Clone, Debug, PartialEq, Eq, Structural)]
pub enum MeshPoint {
    /// Outside the output coordinate range.
    Unrepresentable,
    /// Converts to exactly the join position.
    OnJoin,
    /// Converts to a point away from the join position.
    Offset,
}

/// The first reason a sequence of mesh points cannot be emitted, in order:
/// an unrepresentable point, or one that collapses onto the join.
pub open spec fn first_point_fallback<C, M>(points: Seq<MeshPoint>) -> Option<ArcsJoinFallback<C, M>>
    decreases points.len(),
{
    if points.len() == 0 {
        None
    } else {
        match points[0] {
            MeshPoint::Unrepresentable => Some(ArcsJoinFallback::UnrepresentablePoint),
            MeshPoint::OnJoin => Some(ArcsJoinFallback::CollapsedVertex),
            MeshPoint::Offset => first_point_fallback(points.drop_first()),
        }
    }
}

proof fn lemma_first_point_fallback_step<C, M>(points: Seq<MeshPoint>, i: int)
    requires
        0 <= i < points.len(),
        first_point_fallback::<C, M>(points.subrange(0, i)) is None,
    ensures
        first_point_fallback::<C, M>(points.subrange(0, i + 1)) == match points[i] {
            MeshPoint::Unrepresentable => Some(ArcsJoinFallback::<C, M>::UnrepresentablePoint),
            MeshPoint::OnJoin => Some(ArcsJoinFallback::<C, M>::CollapsedVertex),
            MeshPoint::Offset => None,
        },
    decreases i,
{
    if i == 0 {
        assert(points.subrange(0, 1).drop_first() =~= Seq::<MeshPoint>::empty());
        assert(points.subrange(0, 1)[0] == points[0]);
        reveal_with_fuel(first_point_fallback, 2);
    } else {
        assert(points.drop_first()[i - 1] == points[i]);
        assert(points.subrange(0, i).drop_first() =~= points.drop_first().subrange(0, i - 1));
        assert(points.subrange(0, i + 1).drop_first() =~= points.drop_first().subrange(0, i));
        assert(points.subrange(0, i)[0] == points[0]);
        lemma_first_point_fallback_step::<C, M>(points.drop_first(), i - 1);
    }
}

proof fn lemma_first_point_fallback_prefix<C, M>(points: Seq<MeshPoint>, i: int)
    requires
        0 <= i <= points.len(),
        first_point_fallback::<C, M>(points.subrange(0, i)) is Some,
    ensures
        first_point_fallback::<C, M>(points) == first_point_fallback::<C, M>(points.subrange(0, i)),
    decreases i,
{
    assert(i > 0);
    assert(points.subrange(0, i)[0] == points[0]);
    if points[0] == MeshPoint::Offset {
        assert(points.subrange(0, i).drop_first() =~= points.drop_first().subrange(0, i - 1));
        lemma_first_point_fallback_prefix::<C, M>(points.drop_first(), i - 1);
    }
}

/// Scans `points[start..end]` for the first point that cannot be emitted.
fn scan_mesh_points<C, M>(points: &[MeshPoint], start: usize, end: usize, reject_collapsed: bool) -> (reason:
    Option<ArcsJoinFallback<C, M>>)
    requires
        start <= end <= points@.len(),
    ensures
        reject_collapsed ==> reason == first_point_fallback::<C, M>(points@.subrange(start as int, end as int)),
        !reject_collapsed ==> reason == if points@.subrange(start as int, end as int).contains(
            MeshPoint::Unrepresentable,
        ) {
            Some(ArcsJoinFallback::<C, M>::UnrepresentablePoint)
        } else {
            None
        },
{
    let ghost window = points@.subrange(start as int, end as int);
    let mut i = start;
    while i < end
        invariant
            start <= i <= end,
            end <= points@.len(),
            window == points@.subrange(start as int, end as int),
            reject_collapsed ==> first_point_fallback::<C, M>(window.subrange(0, i - start)) is None,
            !reject_collapsed ==> !window.subrange(0, i - start).contains(MeshPoint::Unrepresentable),
        decreases end - i,
    {
        let k = i - start;
        proof {
            assert(window[k as int] == points@[i as int]);
            if reject_collapsed {
                lemma_first_point_fallback_step::<C, M>(window, k as int);
            }
            assert(window.subrange(0, k + 1) =~= window.subrange(0, k as int).push(window[k as int]));
        }
        match points[i] {
            MeshPoint::Unrepresentable => {
                proof {
                    if reject_collapsed {
                        lemma_first_point_fallback_prefix::<C, M>(window, k + 1);
                    } else {
                        assert(window.subrange(0, k + 1)[k as int] == MeshPoint::Unrepresentable);
                        assert(window.subrange(0, k + 1).contains(MeshPoint::Unrepresentable));
                    }
                }
                return Some(ArcsJoinFallback::UnrepresentablePoint);
            },
            MeshPoint::OnJoin => {
                if reject_collapsed {
                    proof {
                        lemma_first_point_fallback_prefix::<C, M>(window, k + 1);
                    }
                    return Some(ArcsJoinFallback::CollapsedVertex);
                }
            },
            MeshPoint::Offset => {},
        }
        i = i + 1;
    }
    proof {
        assert(window.subrange(0, end - start) =~= window);
    }
    None
}

/// Why the vertices of a meshed Arcs output (fan or indexed mesh) cannot be
/// emitted: fewer than three vertices cannot attach, and the inner vertices
/// must be representable and away from the join. The first and last
/// vertices are the existing attachments.
pub open spec fn mesh_output_fallback_of<C, M>(vertices: Seq<MeshPoint>) -> Option<ArcsJoinFallback<C, M>> {
    if vertices.len() < 3 {
        Some(ArcsJoinFallback::IncompatibleAttachments)
    } else {
        first_point_fallback(vertices.subrange(1, vertices.len() - 1))
    }
}

pub fn mesh_output_fallback<C, M>(vertices: &[MeshPoint]) -> (reason: Option<ArcsJoinFallback<C, M>>)
    ensures
        reason == mesh_output_fallback_of::<C, M>(vertices@),
{
    if vertices.len() < 3 {
        return Some(ArcsJoinFallback::IncompatibleAttachments);
    }
    scan_mesh_points(vertices, 1, vertices.len() - 1, true)
}

/// Why the middle vertex of a single-triangle Arcs output cannot be emitted.
pub fn triangle_output_fallback<C, M>(middle: MeshPoint) -> (reason: Option<ArcsJoinFallback<C, M>>)
    ensures
        reason == first_point_fallback::<C, M>(seq![middle]),
{
    proof {
        assert(seq![middle].drop_first() =~= Seq::<MeshPoint>::empty());
        reveal_with_fuel(first_point_fallback, 2);
    }
    match middle {
        MeshPoint::Unrepresentable => Some(ArcsJoinFallback::UnrepresentablePoint),
        MeshPoint::OnJoin => Some(ArcsJoinFallback::CollapsedVertex),
        MeshPoint::Offset => None,
    }
}

/// Why the two middle vertices of a quad Arcs output cannot be emitted:
/// both are converted before either is compared with the join position.
pub open spec fn quad_output_fallback_of<C, M>(first: MeshPoint, second: MeshPoint) -> Option<
    ArcsJoinFallback<C, M>,
> {
    if first == MeshPoint::Unrepresentable || second == MeshPoint::Unrepresentable {
        Some(ArcsJoinFallback::UnrepresentablePoint)
    } else if first == MeshPoint::OnJoin || second == MeshPoint::OnJoin {
        Some(ArcsJoinFallback::CollapsedVertex)
    } else {
        None
    }
}

pub fn quad_output_fallback<C, M>(first: MeshPoint, second: MeshPoint) -> (reason: Option<
    ArcsJoinFallback<C, M>,
>)
    ensures
        reason == quad_output_fallback_of::<C, M>(first, second),
{
    if first == MeshPoint::Unrepresentable || second == MeshPoint::Unrepresentable {
        Some(ArcsJoinFallback::UnrepresentablePoint)
    } else if first == MeshPoint::OnJoin || second == MeshPoint::OnJoin {
        Some(ArcsJoinFallback::CollapsedVertex)
    } else {
        None
    }
}

/// Why the inner vertices of a mixed clip mesh cannot be emitted: the last
/// two vertices are the outgoing attachment and the inner vertex, the first
/// is the incoming attachment; the others must be representable.
pub open spec fn mixed_clip_points_fallback_of<C, M>(vertices: Seq<MeshPoint>) -> Option<
    ArcsJoinFallback<C, M>,
> {
    if vertices.subrange(1, vertices.len() - 2).contains(MeshPoint::Unrepresentable) {
        Some(ArcsJoinFallback::UnrepresentablePoint)
    } else {
        None
    }
}

pub fn mixed_clip_points_fallback<C, M>(vertices: &[MeshPoint]) -> (reason: Option<ArcsJoinFallback<C, M>>)
    requires
        vertices@.len() >= 3,
    ensures
        reason == mixed_clip_points_fallback_of::<C, M>(vertices@),
{
    scan_mesh_points(vertices, 1, vertices.len() - 2, false)
}

/// The inner vertex position a mixed clip is meshed against, or why the
/// join's attachments cannot hold one: the inner side must meet in a single
/// vertex and no side may fold.
pub fn mixed_clip_inner_vertex<Pt: Copy, C, M>(join: &JoinSides<Pt>, outer_side: usize) -> (inner: Result<
    Pt,
    ArcsJoinFallback<C, M>,
>)
    requires
        outer_side < 2,
    ensures
        clip_attaches(*join, outer_side as int) ==> inner == Ok::<Pt, ArcsJoinFallback<C, M>>(
            join.side_points@[1 - outer_side].single_vertex->0,
        ),
        !clip_attaches(*join, outer_side as int) ==> inner == Err::<Pt, ArcsJoinFallback<C, M>>(
            ArcsJoinFallback::IncompatibleAttachments,
        ),
{
    let inner_side = 1 - outer_side;
    let inner_position = match join.side_points[inner_side].single_vertex {
        Some(p) => p,
        None => return Err(ArcsJoinFallback::IncompatibleAttachments),
    };
    if join.fold[outer_side] || join.fold[inner_side] {
        return Err(ArcsJoinFallback::IncompatibleAttachments);
    }
    Ok(inner_position)
}

/// Fills `vertex_ids` with `first`, then the newly emitted vertices, then
/// `tail`: the ids that a constructed mesh's indices refer to.
pub fn fill_attachment_ids(
    vertex_ids: &mut Vec<VertexId>,
    first: VertexId,
    inserted: &[VertexId],
    tail: &[VertexId],
)
    ensures
        final(vertex_ids)@ == seq![first] + inserted@ + tail@,
{
    vertex_ids.clear();
    vertex_ids.push(first);
    let mut i: usize = 0;
    while i < inserted.len()
        invariant
            i <= inserted@.len(),
            vertex_ids@ == seq![first] + inserted@.subrange(0, i as int),
        decreases inserted@.len() - i,
    {
        vertex_ids.push(inserted[i]);
        proof {
            assert(inserted@.subrange(0, i + 1) =~= inserted@.subrange(0, i as int).push(inserted@[i as int]));
        }
        i = i + 1;
    }
    let mut j: usize = 0;
    while j < tail.len()
        invariant
            j <= tail@.len(),
            vertex_ids@ == seq![first] + inserted@ + tail@.subrange(0, j as int),
        decreases tail@.len() - j,
    {
        vertex_ids.push(tail[j]);
        proof {
            assert(tail@.subrange(0, j + 1) =~= tail@.subrange(0, j as int).push(tail@[j as int]));
        }
        j = j + 1;
    }
    proof {
        assert(inserted@.subrange(0, inserted@.len() as int) =~= inserted@);
        assert(tail@.subrange(0, tail@.len() as int) =~= tail@);
    }
}

/// The output triangle for mesh triangle `t`: the mesh is wound the other
/// way, so the second and third corners are exchanged.
pub open spec fn flipped(vertex_ids: Seq<VertexId>, a: usize, b: usize, c: usize) -> [VertexId; 3] {
    [vertex_ids[a as int], vertex_ids[c as int], vertex_ids[b as int]]
}

/// Whether every complete triangle of `indices` refers to one of the ids.
pub open spec fn indices_in_range(vertex_ids: Seq<VertexId>, indices: Seq<usize>) -> bool {
    forall|k: int| 0 <= k < indices.len() / 3 * 3 ==> #[trigger] indices[k] < vertex_ids.len()
}

/// The output triangles for the complete index triples of a mesh; a
/// trailing partial triple is ignored.
pub fn flipped_triangles(vertex_ids: &[VertexId], indices: &[usize]) -> (triangles: Vec<[VertexId; 3]>)
    requires
        indices_in_range(vertex_ids@, indices@),
    ensures
        triangles@.len() == indices@.len() / 3,
        forall|k: int|
            0 <= k < triangles@.len() ==> #[trigger] triangles@[k] == flipped(
                vertex_ids@,
                indices@[3 * k],
                indices@[3 * k + 1],
                indices@[3 * k + 2],
            ),
{
    let mut triangles: Vec<[VertexId; 3]> = Vec::new();
    let n = indices.len();
    let count = n / 3;
    let mut t: usize = 0;
    while t < count
        invariant
            n == indices@.len(),
            count == n / 3,
            t <= count,
            indices_in_range(vertex_ids@, indices@),
            triangles@.len() == t,
            forall|k: int|
                0 <= k < t ==> #[trigger] triangles@[k] == flipped(
                    vertex_ids@,
                    indices@[3 * k],
                    indices@[3 * k + 1],
                    indices@[3 * k + 2],
                ),
        decreases count - t,
    {
        assert(3 * t + 2 < count * 3 && count * 3 <= n) by (nonlinear_arith)
            requires
                t < count,
                count == n / 3,
        ;
        let base = 3 * t;
        let a = indices[base];
        let b = indices[base + 1];
        let c = indices[base + 2];
        assert(a < vertex_ids@.len() && b < vertex_ids@.len() && c < vertex_ids@.len()) by {
            assert(indices@[base as int] < vertex_ids@.len());
            assert(indices@[base + 1] < vertex_ids@.len());
            assert(indices@[base + 2] < vertex_ids@.len());
        }
        triangles.push([vertex_ids[a], vertex_ids[c], vertex_ids[b]]);
        t = t + 1;
    }
    triangles
}

/// Wires an Arcs mesh on side `side` (a single triangle, a quad, a fan or
/// an indexed mesh) into output triangles once its new vertices were added:
/// the mesh's vertices are the side's incoming attachment, the added
/// vertices `inserted`, and the side's outgoing attachment. `vertex_ids` is
/// scratch space.
pub fn arcs_mesh_triangles<Pt>(
    join: &JoinSides<Pt>,
    side: usize,
    vertex_ids: &mut Vec<VertexId>,
    inserted: &[VertexId],
    indices: &[usize],
) -> (triangles: Vec<[VertexId; 3]>)
    requires
        side < 2,
        indices_in_range(
            seq![join.side_points@[side as int].prev_vertex] + inserted@ + seq![
                join.side_points@[side as int].next_vertex,
            ],
            indices@,
        ),
    ensures
        final(vertex_ids)@ == seq![join.side_points@[side as int].prev_vertex] + inserted@ + seq![
            join.side_points@[side as int].next_vertex,
        ],
        triangles@.len() == indices@.len() / 3,
        forall|k: int|
            0 <= k < triangles@.len() ==> #[trigger] triangles@[k] == flipped(
                final(vertex_ids)@,
                indices@[3 * k],
                indices@[3 * k + 1],
                indices@[3 * k + 2],
            ),
{
    let tail = [join.side_points[side].next_vertex];
    fill_attachment_ids(vertex_ids, join.side_points[side].prev_vertex, inserted, tail.as_slice());
    proof {
        assert(tail@ =~= seq![join.side_points@[side as int].next_vertex]);
    }
    flipped_triangles(vertex_ids.as_slice(), indices)
}

/// Wires the mesh of a mixed clip cut on side `outer_side` into output
/// triangles once its new vertices were added: the mesh's vertices are the
/// outer side's incoming attachment, the added vertices `inserted`, the
/// outer side's outgoing attachment and the inner vertex. `vertex_ids` is
/// scratch space.
pub fn mixed_clip_triangles<Pt>(
    join: &JoinSides<Pt>,
    outer_side: usize,
    vertex_ids: &mut Vec<VertexId>,
    inserted: &[VertexId],
    indices: &[usize],
) -> (triangles: Vec<[VertexId; 3]>)
    requires
        outer_side < 2,
        clip_attaches(*join, outer_side as int),
        indices_in_range(
            seq![join.side_points@[outer_side as int].prev_vertex] + inserted@ + seq![
                join.side_points@[outer_side as int].next_vertex,
                join.side_points@[1 - outer_side].prev_vertex,
            ],
            indices@,
        ),
    ensures
        final(vertex_ids)@ == seq![join.side_points@[outer_side as int].prev_vertex] + inserted@ + seq![
            join.side_points@[outer_side as int].next_vertex,
            join.side_points@[1 - outer_side].prev_vertex,
        ],
        triangles@.len() == indices@.len() / 3,
        forall|k: int|
            0 <= k < triangles@.len() ==> #[trigger] triangles@[k] == flipped(
                final(vertex_ids)@,
                indices@[3 * k],
                indices@[3 * k + 1],
                indices@[3 * k + 2],
            ),
{
    let inner_side = 1 - outer_side;
    let tail = [join.side_points[outer_side].next_vertex, join.side_points[inner_side].prev_vertex];
    fill_attachment_ids(vertex_ids, join.side_points[outer_side].prev_vertex, inserted, tail.as_slice());
    proof {
        assert(tail@ =~= seq![
            join.side_points@[outer_side as int].next_vertex,
            join.side_points@[1 - outer_side].prev_vertex,
        ]);
    }
    flipped_triangles(vertex_ids.as_slice(), indices)
}

/// A vertex of a constructed Arcs mesh: how it maps to the output, and its
/// output position (meaningful when it is representable).
#[derive(Copy, Clone, Debug)]
pub struct MeshVertex<Pt> {
    pub class: MeshPoint,
    pub position: Pt,
}

pub open spec fn classes<Pt>(vertices: Seq<MeshVertex<Pt>>) -> Seq<MeshPoint> {
    vertices.map_values(|v: MeshVertex<Pt>| v.class)
}

/// The vertices to add for mesh vertices, all on one side.
pub open spec fn new_vertices<Pt>(vertices: Seq<MeshVertex<Pt>>, side: Side) -> Seq<NewVertex<Pt>> {
    vertices.map_values(|v: MeshVertex<Pt>| NewVertex { side, position: v.position })
}

fn vertex_classes<Pt: Copy>(vertices: &[MeshVertex<Pt>]) -> (result: Vec<MeshPoint>)
    ensures
        result@ == classes(vertices@),
{
    let mut result: Vec<MeshPoint> = Vec::new();
    let mut i: usize = 0;
    while i < vertices.len()
        invariant
            i <= vertices@.len(),
            result@ == classes(vertices@.subrange(0, i as int)),
        decreases vertices@.len() - i,
    {
        result.push(vertices[i].class);
        proof {
            assert(classes(vertices@.subrange(0, i + 1)) =~= classes(vertices@.subrange(0, i as int)).push(
                vertices@[i as int].class,
            ));
        }
        i = i + 1;
    }
    proof {
        assert(vertices@.subrange(0, vertices@.len() as int) =~= vertices@);
    }
    result
}

fn vertices_to_add<Pt: Copy>(vertices: &[MeshVertex<Pt>], start: usize, end: usize, side: Side) -> (result: Vec<
    NewVertex<Pt>,
>)
    requires
        start <= end <= vertices@.len(),
    ensures
        result@ == new_vertices(vertices@.subrange(start as int, end as int), side),
{
    let mut result: Vec<NewVertex<Pt>> = Vec::new();
    let mut i: usize = start;
    while i < end
        invariant
            start <= i <= end,
            end <= vertices@.len(),
            result@ == new_vertices(vertices@.subrange(start as int, i as int), side),
        decreases end - i,
    {
        result.push(NewVertex { side, position: vertices[i].position });
        proof {
            assert(new_vertices(vertices@.subrange(start as int, i + 1), side) =~= new_vertices(
                vertices@.subrange(start as int, i as int),
                side,
            ).push(NewVertex { side, position: vertices@[i as int].position }));
        }
        i = i + 1;
    }
    result
}

fn copy_indices(indices: &[usize]) -> (result: Vec<usize>)
    ensures
        result@ == indices@,
{
    let mut result: Vec<usize> = Vec::new();
    let mut i: usize = 0;
    while i < indices.len()
        invariant
            i <= indices@.len(),
            result@ == indices@.subrange(0, i as int),
        decreases indices@.len() - i,
    {
        result.push(indices[i]);
        proof {
            assert(indices@.subrange(0, i + 1) =~= indices@.subrange(0, i as int).push(indices@[i as int]));
        }
        i = i + 1;
    }
    proof {
        assert(indices@.subrange(0, indices@.len() as int) =~= indices@);
    }
    result
}

/// What an Arcs shape adds to the output: its new vertices in order, and
/// the indices of its triangles into the incoming attachment, the new
/// vertices, and then the remaining attachments.
#[derive(Clone, Debug)]
pub struct MeshEmission<Pt> {
    pub vertices: Vec<NewVertex<Pt>>,
    pub indices: Vec<usize>,
}

/// A constructed mesh: its vertices, attachments included, and the indices
/// of its triangles (a fan's triangles, or an indexed mesh).
pub struct ArcsMesh<Pt> {
    pub vertices: Vec<MeshVertex<Pt>>,
    pub indices: Vec<usize>,
}

/// The meshed Arcs output of a side, by shape.
pub enum ArcsOutput<Pt> {
    /// One middle vertex between the two attachments.
    Triangle { middle: MeshVertex<Pt>, indices: [usize; 3] },
    /// Two middle vertices between the two attachments.
    Quad { middle: [MeshVertex<Pt>; 2], indices: [u8; 6] },
    /// A fan or an indexed mesh.
    Mesh(ArcsMesh<Pt>),
}

/// `emission` holds exactly `vertices` and `indices`.
pub open spec fn emits<Pt>(emission: MeshEmission<Pt>, vertices: Seq<NewVertex<Pt>>, indices: Seq<usize>) -> bool {
    emission.vertices@ == vertices && emission.indices@ == indices
}

/// The outcome of emitting a fan or an indexed mesh on side `side`.
pub open spec fn mesh_output_outcome<Pt, C, M>(
    side: int,
    vertices: Seq<MeshVertex<Pt>>,
    indices: Seq<usize>,
    outcome: Result<MeshEmission<Pt>, ArcsJoinFallback<C, M>>,
) -> bool {
    match mesh_output_fallback_of::<C, M>(classes(vertices)) {
        Some(reason) => outcome == Err::<MeshEmission<Pt>, ArcsJoinFallback<C, M>>(reason),
        None => outcome matches Ok(emission) && emits(
            emission,
            new_vertices(vertices.subrange(1, vertices.len() - 1), side_label(side)),
            indices,
        ),
    }
}

/// Emits a fan or an indexed Arcs mesh on side `side`: the mesh needs at
/// least three vertices, and its inner vertices (all but the first and the
/// last, which are the side's attachments) must be representable and away
/// from the join; the first vertex that is not decides the fallback.
/// Otherwise the inner vertices are added on the side, in order.
pub fn emit_arcs_mesh_output<Pt: Copy, C, M>(side: usize, vertices: &[MeshVertex<Pt>], indices: &[usize]) -> (outcome:
    Result<MeshEmission<Pt>, ArcsJoinFallback<C, M>>)
    ensures
        mesh_output_outcome(side as int, vertices@, indices@, outcome),
{
    let kinds = vertex_classes(vertices);
    match mesh_output_fallback(kinds.as_slice()) {
        Some(reason) => Err(reason),
        None => {
            let label = if side == SIDE_POSITIVE {
                Side::Positive
            } else {
                Side::Negative
            };
            let added = vertices_to_add(vertices, 1, vertices.len() - 1, label);
            Ok(MeshEmission { vertices: added, indices: copy_indices(indices) })
        },
    }
}

/// Quad indices widened to `usize`.
pub open spec fn widened(indices: [u8; 6]) -> Seq<usize> {
    indices@.map_values(|i: u8| i as usize)
}

/// The outcome of emitting a side's meshed Arcs output.
pub open spec fn arcs_output_outcome<Pt, C, M>(
    side: int,
    output: Result<ArcsOutput<Pt>, M>,
    outcome: Result<MeshEmission<Pt>, ArcsJoinFallback<C, M>>,
) -> bool {
    match output {
        Err(error) => outcome == Err::<MeshEmission<Pt>, ArcsJoinFallback<C, M>>(ArcsJoinFallback::Mesh(error)),
        Ok(ArcsOutput::Triangle { middle, indices }) => match first_point_fallback::<C, M>(seq![middle.class]) {
            Some(reason) => outcome == Err::<MeshEmission<Pt>, ArcsJoinFallback<C, M>>(reason),
            None => outcome matches Ok(emission) && emits(
                emission,
                seq![NewVertex { side: side_label(side), position: middle.position }],
                indices@,
            ),
        },
        Ok(ArcsOutput::Quad { middle, indices }) => match quad_output_fallback_of::<C, M>(
            middle@[0].class,
            middle@[1].class,
        ) {
            Some(reason) => outcome == Err::<MeshEmission<Pt>, ArcsJoinFallback<C, M>>(reason),
            None => outcome matches Ok(emission) && emits(
                emission,
                new_vertices(middle@, side_label(side)),
                widened(indices),
            ),
        },
        Ok(ArcsOutput::Mesh(mesh)) => mesh_output_outcome(side, mesh.vertices@, mesh.indices@, outcome),
    }
}

/// Emits the curved Arcs shape on side `side`. A cut across a radial edge
/// needs the mixed clip instead (incompatible attachments, and the shape is
/// not meshed). Otherwise `tessellate` meshes it; a meshing error, an
/// unrepresentable middle vertex or one that collapses onto the join falls
/// back; else the middle vertices are added on the side, in order.
pub fn emit_arcs_join<Pt: Copy, C, M, F: FnOnce() -> Result<ArcsOutput<Pt>, M>>(
    side: usize,
    clips_radial_edge: bool,
    tessellate: F,
) -> (outcome: Result<MeshEmission<Pt>, ArcsJoinFallback<C, M>>)
    requires
        !clips_radial_edge ==> tessellate.requires(()),
    ensures
        clips_radial_edge ==> outcome == Err::<MeshEmission<Pt>, ArcsJoinFallback<C, M>>(
            ArcsJoinFallback::IncompatibleAttachments,
        ),
        !clips_radial_edge ==> (exists|output: Result<ArcsOutput<Pt>, M>|
            tessellate.ensures((), output) && arcs_output_outcome(side as int, output, outcome)),
{
    if clips_radial_edge {
        return Err(ArcsJoinFallback::IncompatibleAttachments);
    }
    let output = tessellate();
    let ghost produced = output;
    let label = if side == SIDE_POSITIVE {
        Side::Positive
    } else {
        Side::Negative
    };
    let outcome = match output {
        Err(error) => Err(ArcsJoinFallback::Mesh(error)),
        Ok(ArcsOutput::Triangle { middle, indices }) => {
            match triangle_output_fallback(middle.class) {
                Some(reason) => Err(reason),
                None => {
                    let mut added: Vec<NewVertex<Pt>> = Vec::new();
                    added.push(NewVertex { side: label, position: middle.position });
                    let triangle = copy_indices(indices.as_slice());
                    proof {
                        assert(added@ =~= seq![NewVertex { side: label, position: middle.position }]);
                    }
                    Ok(MeshEmission { vertices: added, indices: triangle })
                },
            }
        },
        Ok(ArcsOutput::Quad { middle, indices }) => {
            match quad_output_fallback(middle[0].class, middle[1].class) {
                Some(reason) => Err(reason),
                None => {
                    let mut added: Vec<NewVertex<Pt>> = Vec::new();
                    added.push(NewVertex { side: label, position: middle[0].position });
                    added.push(NewVertex { side: label, position: middle[1].position });
                    let mut wide: Vec<usize> = Vec::new();
                    let mut k: usize = 0;
                    while k < 6
                        invariant
                            k <= 6,
                            wide@ == widened(indices).subrange(0, k as int),
                        decreases 6 - k,
                    {
                        wide.push(indices[k] as usize);
                        proof {
                            assert(widened(indices).subrange(0, k + 1) =~= widened(indices).subrange(
                                0,
                                k as int,
                            ).push(indices@[k as int] as usize));
                        }
                        k = k + 1;
                    }
                    proof {
                        assert(widened(indices).subrange(0, 6) =~= widened(indices));
                        assert(added@ =~= new_vertices(middle@, label));
                    }
                    Ok(MeshEmission { vertices: added, indices: wide })
                },
            }
        },
        Ok(ArcsOutput::Mesh(mesh)) => emit_arcs_mesh_output(side, mesh.vertices.as_slice(), mesh.indices.as_slice()),
    };
    assert(tessellate.ensures((), produced) && arcs_output_outcome(side as int, produced, outcome));
    outcome
}

/// The outcome of emitting a mixed clip on side `outer_side` with the given
/// mesh: its vertices end with the outgoing attachment and the inner
/// vertex; the vertices between the incoming attachment and those must be
/// representable, and are added on the outer side, in order.
pub open spec fn mixed_clip_outcome<Pt, C, M>(
    outer_side: int,
    mesh: Result<ArcsMesh<Pt>, M>,
    outcome: Result<MeshEmission<Pt>, ArcsJoinFallback<C, M>>,
) -> bool {
    match mesh {
        Err(error) => outcome == Err::<MeshEmission<Pt>, ArcsJoinFallback<C, M>>(ArcsJoinFallback::Mesh(error)),
        Ok(m) => match mixed_clip_points_fallback_of::<C, M>(classes(m.vertices@)) {
            Some(reason) => outcome == Err::<MeshEmission<Pt>, ArcsJoinFallback<C, M>>(reason),
            None => outcome matches Ok(emission) && emits(
                emission,
                new_vertices(m.vertices@.subrange(1, m.vertices@.len() - 2), side_label(outer_side)),
                m.indices@,
            ),
        },
    }
}

/// Emits a mixed clip cut on side `outer_side`: the inner side must meet in
/// a single vertex and no side may fold (otherwise the attachments are
/// incompatible and nothing is meshed); `tessellate` meshes the cut against
/// the inner vertex; a meshing error or an unrepresentable vertex falls
/// back; else the new vertices are added on the outer side, in order.
pub fn emit_mixed_arcs_clip<Pt: Copy, C, M, F: FnOnce(Pt) -> Result<ArcsMesh<Pt>, M>>(
    join: &JoinSides<Pt>,
    outer_side: usize,
    tessellate: F,
) -> (outcome: Result<MeshEmission<Pt>, ArcsJoinFallback<C, M>>)
    requires
        outer_side < 2,
        clip_attaches(*join, outer_side as int) ==> {
            let inner = join.side_points@[1 - outer_side].single_vertex->0;
            &&& tessellate.requires((inner,))
            &&& forall|mesh: Result<ArcsMesh<Pt>, M>|
                #[trigger] tessellate.ensures((inner,), mesh) ==> (mesh matches Ok(m)
                    ==> m.vertices@.len() >= 3)
        },
    ensures
        !clip_attaches(*join, outer_side as int) ==> outcome == Err::<
            MeshEmission<Pt>,
            ArcsJoinFallback<C, M>,
        >(ArcsJoinFallback::IncompatibleAttachments),
        clip_attaches(*join, outer_side as int) ==> (exists|mesh: Result<ArcsMesh<Pt>, M>|
            tessellate.ensures((join.side_points@[1 - outer_side].single_vertex->0,), mesh)
                && mixed_clip_outcome(outer_side as int, mesh, outcome)),
{
    let inner: Result<Pt, ArcsJoinFallback<C, M>> = mixed_clip_inner_vertex(join, outer_side);
    let inner_position = match inner {
        Ok(p) => p,
        Err(reason) => return Err(reason),
    };
    let mesh = tessellate(inner_position);
    let ghost produced = mesh;
    let outcome = match mesh {
        Err(error) => Err(ArcsJoinFallback::Mesh(error)),
        Ok(m) => {
            let kinds = vertex_classes(m.vertices.as_slice());
            match mixed_clip_points_fallback(kinds.as_slice()) {
                Some(reason) => Err(reason),
                None => {
                    let label = if outer_side == SIDE_POSITIVE {
                        Side::Positive
                    } else {
                        Side::Negative
                    };
                    let added = vertices_to_add(m.vertices.as_slice(), 1, m.vertices.len() - 2, label);
                    Ok(MeshEmission { vertices: added, indices: copy_indices(m.indices.as_slice()) })
                },
            }
        },
    };
    assert(tessellate.ensures((inner_position,), produced) && mixed_clip_outcome(
        outer_side as int,
        produced,
        outcome,
    ));
    outcome
}


/// How the outcome of offering an Arcs shape was taken up: an accepted
/// shape's emission is handed on, and the workspace is unchanged; a
/// declined shape hands on nothing and its cause is recorded as the last
/// fallback.
pub open spec fn offer_recorded<Pt, C, M>(
    outcome: Result<MeshEmission<Pt>, ArcsJoinFallback<C, M>>,
    before: JoinWorkspace<C, M>,
    after: JoinWorkspace<C, M>,
    emission: Option<MeshEmission<Pt>>,
) -> bool {
    &&& after.vertex_ids == before.vertex_ids
    &&& match outcome {
        Ok(accepted) => emission == Some(accepted) && after.last_fallback == before.last_fallback,
        Err(reason) => emission is None && after.last_fallback == Some(reason),
    }
}

/// Takes up the outcome of offering an Arcs shape: returns the emission to
/// perform, or records why the shape was declined (the side then gets a
/// Round join). Whether a shape was emitted is `emission.is_some()`, the
/// outcome that the emission plan reads.
pub fn record_offer<Pt, C, M>(
    outcome: Result<MeshEmission<Pt>, ArcsJoinFallback<C, M>>,
    workspace: &mut JoinWorkspace<C, M>,
) -> (emission: Option<MeshEmission<Pt>>)
    ensures
        offer_recorded(outcome, *old(workspace), *final(workspace), emission),
{
    match outcome {
        Ok(accepted) => Some(accepted),
        Err(reason) => {
            JoinEmission::Fallback(reason).emitted(workspace);
            None
        },
    }
}

/// Offers the curved Arcs shape on side `side` (see `emit_arcs_join`) and
/// takes up the outcome (see `record_offer`).
pub fn offer_arcs_join<Pt: Copy, C, M, F: FnOnce() -> Result<ArcsOutput<Pt>, M>>(
    side: usize,
    clips_radial_edge: bool,
    tessellate: F,
    workspace: &mut JoinWorkspace<C, M>,
) -> (emission: Option<MeshEmission<Pt>>)
    requires
        !clips_radial_edge ==> tessellate.requires(()),
    ensures
        clips_radial_edge ==> offer_recorded(
            Err::<MeshEmission<Pt>, ArcsJoinFallback<C, M>>(ArcsJoinFallback::IncompatibleAttachments),
            *old(workspace),
            *final(workspace),
            emission,
        ),
        !clips_radial_edge ==> (exists|output: Result<ArcsOutput<Pt>, M>, outcome: Result<MeshEmission<Pt>, ArcsJoinFallback<C, M>>|
            #![trigger tessellate.ensures((), output), arcs_output_outcome(side as int, output, outcome)]
            tessellate.ensures((), output) && arcs_output_outcome(side as int, output, outcome)
                && offer_recorded(outcome, *old(workspace), *final(workspace), emission)),
{
    let outcome = emit_arcs_join(side, clips_radial_edge, tessellate);
    record_offer(outcome, workspace)
}

/// Offers the mixed clip cut on side `outer_side` (see
/// `emit_mixed_arcs_clip`) and takes up the outcome (see `record_offer`).
pub fn offer_mixed_arcs_clip<Pt: Copy, C, M, F: FnOnce(Pt) -> Result<ArcsMesh<Pt>, M>>(
    join: &JoinSides<Pt>,
    outer_side: usize,
    tessellate: F,
    workspace: &mut JoinWorkspace<C, M>,
) -> (emission: Option<MeshEmission<Pt>>)
    requires
        outer_side < 2,
        clip_attaches(*join, outer_side as int) ==> {
            let inner = join.side_points@[1 - outer_side].single_vertex->0;
            &&& tessellate.requires((inner,))
            &&& forall|mesh: Result<ArcsMesh<Pt>, M>|
                #[trigger] tessellate.ensures((inner,), mesh) ==> (mesh matches Ok(m)
                    ==> m.vertices@.len() >= 3)
        },
    ensures
        !clip_attaches(*join, outer_side as int) ==> offer_recorded(
            Err::<MeshEmission<Pt>, ArcsJoinFallback<C, M>>(ArcsJoinFallback::IncompatibleAttachments),
            *old(workspace),
            *final(workspace),
            emission,
        ),
        clip_attaches(*join, outer_side as int) ==> (exists|mesh: Result<ArcsMesh<Pt>, M>, outcome: Result<MeshEmission<Pt>, ArcsJoinFallback<C, M>>|
            #![trigger tessellate.ensures((join.side_points@[1 - outer_side].single_vertex->0,), mesh), mixed_clip_outcome(outer_side as int, mesh, outcome)]
            tessellate.ensures((join.side_points@[1 - outer_side].single_vertex->0,), mesh)
                && mixed_clip_outcome(outer_side as int, mesh, outcome)
                && offer_recorded(outcome, *old(workspace), *final(workspace), emission)),
{
    let outcome = emit_mixed_arcs_clip(join, outer_side, tessellate);
    record_offer(outcome, workspace)
}

} // verus!
