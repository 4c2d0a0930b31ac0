//! Preparation of a join: choosing between the ordinary styles and Arcs
//! geometry, converting constructed geometry to output positions, and
//! aligning the side attachments with the chosen geometry.
//!
//! Preparation never emits anything, and a failed preparation leaves the
//! endpoint as it was: the style is only changed by the selection step.
use vstd::prelude::*;
use crate::differentials::{EndpointDifferential, EndpointDifferentials};
use crate::join::{
    ArcsJoinFallback, CurvedAttachment, JoinConstruction, JoinSides, JoinWorkspace, LineJoin,
    ParallelRectangleJoin, PreparedArcsJoin, PreparedJoin, RadialClipJoin, SidePoints,
    SIDE_NEGATIVE, SIDE_POSITIVE, arcs_outer_side, outer_side_of,
};

verus! {

/// Whether `style` asks for Arcs geometry.
pub open spec fn is_arcs_style(style: LineJoin) -> bool {
    style == LineJoin::Arcs || style == LineJoin::ArcsRound
}

/// Whether an endpoint join goes through the extended path: Arcs styles,
/// and clipped miters whose limit is below one.
pub fn uses_extended_join(style: LineJoin, miter_limit_below_one: bool) -> (extended: bool)
    ensures
        extended == (is_arcs_style(style) || (style == LineJoin::MiterClip && miter_limit_below_one)),
{
    match style {
        LineJoin::Arcs | LineJoin::ArcsRound => true,
        LineJoin::MiterClip => miter_limit_below_one,
        _ => false,
    }
}

/// The two regular derivatives at an endpoint, when both sides have one.
pub open spec fn regular_pair<R>(differentials: EndpointDifferentials<R>) -> Option<(R, R)> {
    match (differentials.incoming, differentials.outgoing) {
        (EndpointDifferential::Regular(incoming), EndpointDifferential::Regular(outgoing)) => Some(
            (incoming, outgoing),
        ),
        _ => None,
    }
}

/// A construction result with its error reported as a fallback cause.
pub open spec fn construction_result<Q, A, C, M>(result: Result<JoinConstruction<Q, A>, C>) -> Result<
    JoinConstruction<Q, A>,
    ArcsJoinFallback<C, M>,
> {
    match result {
        Ok(construction) => Ok(construction),
        Err(error) => Err(ArcsJoinFallback::Construction(error)),
    }
}

/// Resolves an endpoint's derivatives into Arcs geometry. `construct` runs
/// the geometric construction on the incoming and outgoing regular
/// derivatives; it is only called when both exist.
pub fn resolve_arcs_join<R: Copy, Q, A, C, M, F: FnOnce(R, R) -> Result<JoinConstruction<Q, A>, C>>(
    differentials: EndpointDifferentials<R>,
    construct: F,
) -> (resolution: Result<JoinConstruction<Q, A>, ArcsJoinFallback<C, M>>)
    requires
        regular_pair(differentials) matches Some((incoming, outgoing)) ==> construct.requires(
            (incoming, outgoing),
        ),
    ensures
        regular_pair(differentials) is None ==> resolution == Err::<
            JoinConstruction<Q, A>,
            ArcsJoinFallback<C, M>,
        >(ArcsJoinFallback::MissingDifferentials),
        regular_pair(differentials) matches Some((incoming, outgoing)) ==> (exists|
            result: Result<JoinConstruction<Q, A>, C>,
        |
            construct.ensures((incoming, outgoing), result) && resolution == construction_result::<
                Q,
                A,
                C,
                M,
            >(result)),
{
    match (differentials.incoming, differentials.outgoing) {
        (EndpointDifferential::Regular(incoming), EndpointDifferential::Regular(outgoing)) => {
            let result = construct(incoming, outgoing);
            let ghost built = result;
            let resolution = match result {
                Ok(construction) => Ok(construction),
                Err(error) => Err(ArcsJoinFallback::Construction(error)),
            };
            assert(construct.ensures((incoming, outgoing), built) && resolution
                == construction_result::<Q, A, C, M>(built));
            resolution
        },
        _ => Err(ArcsJoinFallback::MissingDifferentials),
    }
}

/// The radial clip with all four points converted, if they all fit.
pub open spec fn converted_radial_clip<Pt>(clip: RadialClipJoin<Option<Pt>>) -> Option<RadialClipJoin<Pt>> {
    if clip.incoming_offset_point is Some && clip.outgoing_offset_point is Some && clip.incoming is Some
        && clip.outgoing is Some {
        Some(
            RadialClipJoin {
                turn: clip.turn,
                incoming_offset_point: clip.incoming_offset_point->0,
                outgoing_offset_point: clip.outgoing_offset_point->0,
                incoming: clip.incoming->0,
                outgoing: clip.outgoing->0,
            },
        )
    } else {
        None
    }
}

/// The rectangle with all four corners converted, if they all fit.
pub open spec fn converted_rectangle<Pt>(rectangle: ParallelRectangleJoin<Option<Pt>>) -> Option<
    ParallelRectangleJoin<Pt>,
> {
    if rectangle.near_left is Some && rectangle.near_right is Some && rectangle.far_left is Some
        && rectangle.far_right is Some {
        Some(
            ParallelRectangleJoin {
                near_left: rectangle.near_left->0,
                near_right: rectangle.near_right->0,
                far_left: rectangle.far_left->0,
                far_right: rectangle.far_right->0,
            },
        )
    } else {
        None
    }
}

/// Takes a radial clip whose points were converted to output positions
/// (`None` where a point does not fit).
pub fn prepare_radial_clip<Pt: Copy, C, M>(clip: RadialClipJoin<Option<Pt>>) -> (prepared: Result<
    RadialClipJoin<Pt>,
    ArcsJoinFallback<C, M>,
>)
    ensures
        prepared == match converted_radial_clip(clip) {
            Some(converted) => Ok(converted),
            None => Err(ArcsJoinFallback::<C, M>::UnrepresentablePoint),
        },
{
    let incoming_offset_point = match clip.incoming_offset_point {
        Some(p) => p,
        None => return Err(ArcsJoinFallback::UnrepresentablePoint),
    };
    let outgoing_offset_point = match clip.outgoing_offset_point {
        Some(p) => p,
        None => return Err(ArcsJoinFallback::UnrepresentablePoint),
    };
    let incoming = match clip.incoming {
        Some(p) => p,
        None => return Err(ArcsJoinFallback::UnrepresentablePoint),
    };
    let outgoing = match clip.outgoing {
        Some(p) => p,
        None => return Err(ArcsJoinFallback::UnrepresentablePoint),
    };
    Ok(RadialClipJoin { turn: clip.turn, incoming_offset_point, outgoing_offset_point, incoming, outgoing })
}

/// Takes a parallel rectangle whose corners were converted to output
/// positions (`None` where a corner does not fit).
pub fn prepare_parallel_rectangle<Pt: Copy, C, M>(rectangle: ParallelRectangleJoin<Option<Pt>>) -> (prepared:
    Result<ParallelRectangleJoin<Pt>, ArcsJoinFallback<C, M>>)
    ensures
        prepared == match converted_rectangle(rectangle) {
            Some(converted) => Ok(converted),
            None => Err(ArcsJoinFallback::<C, M>::UnrepresentablePoint),
        },
{
    let near_left = match rectangle.near_left {
        Some(p) => p,
        None => return Err(ArcsJoinFallback::UnrepresentablePoint),
    };
    let near_right = match rectangle.near_right {
        Some(p) => p,
        None => return Err(ArcsJoinFallback::UnrepresentablePoint),
    };
    let far_left = match rectangle.far_left {
        Some(p) => p,
        None => return Err(ArcsJoinFallback::UnrepresentablePoint),
    };
    let far_right = match rectangle.far_right {
        Some(p) => p,
        None => return Err(ArcsJoinFallback::UnrepresentablePoint),
    };
    Ok(ParallelRectangleJoin { near_left, near_right, far_left, far_right })
}

/// The preparation that a construction result calls for: the empty and
/// flat-cut constructions select the ordinary Miter and MiterClip styles,
/// the other shapes become Arcs geometry once their points are converted.
pub open spec fn prepared_from<Pt, A, C, M>(construction: JoinConstruction<Option<Pt>, A>) -> Result<
    PreparedJoin<Pt, A>,
    ArcsJoinFallback<C, M>,
> {
    match construction {
        JoinConstruction::Empty => Ok(PreparedJoin::Standard(LineJoin::Miter)),
        JoinConstruction::MiterClip => Ok(PreparedJoin::Standard(LineJoin::MiterClip)),
        JoinConstruction::ParallelRectangle(rectangle) => match converted_rectangle(rectangle) {
            Some(r) => Ok(PreparedJoin::Arcs(PreparedArcsJoin::ParallelRectangle(r))),
            None => Err(ArcsJoinFallback::<C, M>::UnrepresentablePoint),
        },
        JoinConstruction::RadialClip(clip) => match converted_radial_clip(clip) {
            Some(c) => Ok(PreparedJoin::Arcs(PreparedArcsJoin::RadialClip(c))),
            None => Err(ArcsJoinFallback::<C, M>::UnrepresentablePoint),
        },
        JoinConstruction::Arcs(resolved) => Ok(PreparedJoin::Arcs(PreparedArcsJoin::Curved(resolved))),
    }
}

/// Turns a construction (positions already converted) into a preparation.
pub fn prepare_construction<Pt: Copy, A, C, M>(construction: JoinConstruction<Option<Pt>, A>) -> (prepared:
    Result<PreparedJoin<Pt, A>, ArcsJoinFallback<C, M>>)
    ensures
        prepared == prepared_from::<Pt, A, C, M>(construction),
{
    match construction {
        JoinConstruction::Empty => Ok(PreparedJoin::Standard(LineJoin::Miter)),
        JoinConstruction::MiterClip => Ok(PreparedJoin::Standard(LineJoin::MiterClip)),
        JoinConstruction::ParallelRectangle(rectangle) => {
            match prepare_parallel_rectangle(rectangle) {
                Ok(r) => Ok(PreparedJoin::Arcs(PreparedArcsJoin::ParallelRectangle(r))),
                Err(e) => Err(e),
            }
        },
        JoinConstruction::RadialClip(clip) => {
            match prepare_radial_clip(clip) {
                Ok(c) => Ok(PreparedJoin::Arcs(PreparedArcsJoin::RadialClip(c))),
                Err(e) => Err(e),
            }
        },
        JoinConstruction::Arcs(resolved) => Ok(PreparedJoin::Arcs(PreparedArcsJoin::Curved(resolved))),
    }
}

/// A full preparation outcome for the given derivatives: missing
/// derivatives, a construction error, or what the construction calls for.
pub open spec fn is_arcs_preparation<R, Pt, A, C, M, F: FnOnce(R, R) -> Result<
    JoinConstruction<Option<Pt>, A>,
    C,
>>(
    differentials: EndpointDifferentials<R>,
    construct: F,
    preparation: Result<PreparedJoin<Pt, A>, ArcsJoinFallback<C, M>>,
) -> bool {
    match regular_pair(differentials) {
        None => preparation == Err::<PreparedJoin<Pt, A>, ArcsJoinFallback<C, M>>(
            ArcsJoinFallback::MissingDifferentials,
        ),
        Some((incoming, outgoing)) => exists|result: Result<JoinConstruction<Option<Pt>, A>, C>|
            construct.ensures((incoming, outgoing), result) && preparation == match result {
                Ok(construction) => prepared_from::<Pt, A, C, M>(construction),
                Err(error) => Err(ArcsJoinFallback::Construction(error)),
            },
    }
}

/// Resolves and prepares Arcs geometry without touching the endpoint.
/// `construct` builds the geometry from the two regular derivatives and
/// converts its positions; it is only called when both derivatives exist.
pub fn prepare_arcs_join<R: Copy, Pt: Copy, A, C, M, F: FnOnce(R, R) -> Result<
    JoinConstruction<Option<Pt>, A>,
    C,
>>(differentials: EndpointDifferentials<R>, construct: F) -> (preparation: Result<
    PreparedJoin<Pt, A>,
    ArcsJoinFallback<C, M>,
>)
    requires
        regular_pair(differentials) matches Some((incoming, outgoing)) ==> construct.requires(
            (incoming, outgoing),
        ),
    ensures
        is_arcs_preparation(differentials, construct, preparation),
{
    let resolution: Result<JoinConstruction<Option<Pt>, A>, ArcsJoinFallback<C, M>> = resolve_arcs_join(
        differentials,
        construct,
    );
    match resolution {
        Ok(construction) => prepare_construction(construction),
        Err(reason) => Err(reason),
    }
}

/// The style an extended join is emitted with: the requested style when
/// Arcs geometry was prepared, the ordinary style a construction called
/// for, and Round after a failure.
pub open spec fn selected_style<Pt, A, C, M>(
    requested: LineJoin,
    preparation: Result<PreparedJoin<Pt, A>, ArcsJoinFallback<C, M>>,
) -> LineJoin {
    match preparation {
        Ok(PreparedJoin::Arcs(_)) => requested,
        Ok(PreparedJoin::Standard(style)) => style,
        Err(_) => LineJoin::Round,
    }
}

/// Selects the style and the geometry of a join from its preparation; a
/// failure is recorded in the workspace.
pub fn select_prepared_join<Pt, A, C, M>(
    join: &mut JoinSides<Pt>,
    preparation: Result<PreparedJoin<Pt, A>, ArcsJoinFallback<C, M>>,
    workspace: &mut JoinWorkspace<C, M>,
) -> (prepared: Option<PreparedArcsJoin<Pt, A>>)
    ensures
        final(join).line_join == selected_style(old(join).line_join, preparation),
        final(join).side_points == old(join).side_points,
        final(join).fold == old(join).fold,
        final(workspace).vertex_ids == old(workspace).vertex_ids,
        match preparation {
            Ok(PreparedJoin::Arcs(geometry)) => prepared == Some(geometry),
            _ => prepared is None,
        },
        match preparation {
            Err(reason) => final(workspace).last_fallback == Some(reason),
            _ => final(workspace).last_fallback == old(workspace).last_fallback,
        },
{
    match preparation {
        Ok(PreparedJoin::Arcs(geometry)) => Some(geometry),
        Ok(PreparedJoin::Standard(style)) => {
            join.line_join = style;
            None
        },
        Err(reason) => {
            join.line_join = workspace.fallback(reason);
            None
        },
    }
}

/// Prepares an extended join: Arcs styles are resolved through
/// `construct`, other styles are kept; the endpoint's style is set to the
/// selected one. Returns the requested style and the Arcs geometry.
pub fn prepare_extended_join<R: Copy, Pt: Copy, A, C, M, F: FnOnce(R, R) -> Result<
    JoinConstruction<Option<Pt>, A>,
    C,
>>(
    join: &mut JoinSides<Pt>,
    differentials: EndpointDifferentials<R>,
    construct: F,
    workspace: &mut JoinWorkspace<C, M>,
) -> (result: (LineJoin, Option<PreparedArcsJoin<Pt, A>>))
    requires
        is_arcs_style(old(join).line_join) ==> (regular_pair(differentials) matches Some(
            (incoming, outgoing),
        ) ==> construct.requires((incoming, outgoing))),
    ensures
        result.0 == old(join).line_join,
        final(join).side_points == old(join).side_points,
        final(join).fold == old(join).fold,
        final(workspace).vertex_ids == old(workspace).vertex_ids,
        !is_arcs_style(old(join).line_join) ==> {
            &&& final(join).line_join == old(join).line_join
            &&& result.1 is None
            &&& final(workspace).last_fallback == old(workspace).last_fallback
        },
        is_arcs_style(old(join).line_join) ==> (exists|
            preparation: Result<PreparedJoin<Pt, A>, ArcsJoinFallback<C, M>>,
        |
            {
                &&& is_arcs_preparation(differentials, construct, preparation)
                &&& final(join).line_join == selected_style(old(join).line_join, preparation)
                &&& match preparation {
                    Ok(PreparedJoin::Arcs(geometry)) => result.1 == Some(geometry),
                    _ => result.1 is None,
                }
                &&& match preparation {
                    Err(reason) => final(workspace).last_fallback == Some(reason),
                    _ => final(workspace).last_fallback == old(workspace).last_fallback,
                }
            }),
{
    let requested = join.line_join;
    if !matches!(requested, LineJoin::Arcs | LineJoin::ArcsRound) {
        return (requested, None);
    }
    let preparation = prepare_arcs_join(differentials, construct);
    let prepared = select_prepared_join(join, preparation, workspace);
    (requested, prepared)
}

/// A side attached to the constructed points `prev` and `next`, with no
/// shared inner vertex.
pub open spec fn attached<Pt>(side: SidePoints<Pt>, prev: Pt, next: Pt) -> SidePoints<Pt> {
    SidePoints {
        prev,
        next,
        single_vertex: None,
        prev_vertex: side.prev_vertex,
        next_vertex: side.next_vertex,
    }
}

/// Whether alignment can use the prepared geometry: every kind but the
/// curved one carries converted points already; a curved result needs both
/// of its offset points to fit.
pub open spec fn alignment_fits<Pt, A>(prepared: PreparedArcsJoin<Pt, A>, curved: CurvedAttachment<Pt>) -> bool {
    prepared is Curved ==> (curved.incoming_offset_point is Some && curved.outgoing_offset_point is Some)
}

/// `after` is `before` with its side attachments aligned with the prepared
/// geometry: the outer side of a curved or radially clipped join is
/// attached to the construction's offset points; a parallel rectangle
/// attaches both sides to its near corners and removes any fold.
pub open spec fn aligned_sides<Pt, A>(
    before: JoinSides<Pt>,
    after: JoinSides<Pt>,
    prepared: PreparedArcsJoin<Pt, A>,
    curved: CurvedAttachment<Pt>,
) -> bool {
    &&& after.line_join == before.line_join
    &&& match prepared {
        PreparedArcsJoin::Curved(_) => {
            let side = outer_side_of(curved.turn) as int;
            &&& after.side_points@[side] == attached(
                before.side_points@[side],
                curved.incoming_offset_point->0,
                curved.outgoing_offset_point->0,
            )
            &&& after.side_points@[1 - side] == before.side_points@[1 - side]
            &&& after.fold == before.fold
        },
        PreparedArcsJoin::ParallelRectangle(rectangle) => {
            &&& after.side_points@[SIDE_POSITIVE as int] == attached(
                before.side_points@[SIDE_POSITIVE as int],
                rectangle.near_left,
                rectangle.near_right,
            )
            &&& after.side_points@[SIDE_NEGATIVE as int] == attached(
                before.side_points@[SIDE_NEGATIVE as int],
                rectangle.near_right,
                rectangle.near_left,
            )
            &&& after.fold@ == seq![false, false]
        },
        PreparedArcsJoin::RadialClip(clip) => {
            let side = outer_side_of(clip.turn) as int;
            &&& after.side_points@[side] == attached(
                before.side_points@[side],
                clip.incoming_offset_point,
                clip.outgoing_offset_point,
            )
            &&& after.side_points@[1 - side] == before.side_points@[1 - side]
            &&& after.fold == before.fold
        },
    }
}

/// Attaches the join's sides to prepared Arcs geometry. `curved` describes
/// a curved result (its turn and its converted offset points) and is only
/// read for one. When a curved offset point does not fit, the endpoint is
/// left unchanged.
pub fn align_arcs_side_points<Pt: Copy, A, C, M>(
    join: &mut JoinSides<Pt>,
    prepared: &PreparedArcsJoin<Pt, A>,
    curved: CurvedAttachment<Pt>,
) -> (alignment: Result<(), ArcsJoinFallback<C, M>>)
    ensures
        alignment is Ok <==> alignment_fits(*prepared, curved),
        alignment is Ok ==> aligned_sides(*old(join), *final(join), *prepared, curved),
        alignment is Err ==> *final(join) == *old(join) && alignment == Err::<(), ArcsJoinFallback<C, M>>(
            ArcsJoinFallback::UnrepresentablePoint,
        ),
{
    match prepared {
        PreparedArcsJoin::Curved(_) => {
            let incoming = match curved.incoming_offset_point {
                Some(p) => p,
                None => return Err(ArcsJoinFallback::UnrepresentablePoint),
            };
            let outgoing = match curved.outgoing_offset_point {
                Some(p) => p,
                None => return Err(ArcsJoinFallback::UnrepresentablePoint),
            };
            let side = arcs_outer_side(curved.turn);
            join.side_points[side].prev = incoming;
            join.side_points[side].next = outgoing;
            join.side_points[side].single_vertex = None;
        },
        PreparedArcsJoin::ParallelRectangle(rectangle) => {
            join.side_points[SIDE_POSITIVE].prev = rectangle.near_left;
            join.side_points[SIDE_POSITIVE].next = rectangle.near_right;
            join.side_points[SIDE_POSITIVE].single_vertex = None;
            join.side_points[SIDE_NEGATIVE].prev = rectangle.near_right;
            join.side_points[SIDE_NEGATIVE].next = rectangle.near_left;
            join.side_points[SIDE_NEGATIVE].single_vertex = None;
            join.fold = [false, false];
        },
        PreparedArcsJoin::RadialClip(clip) => {
            let side = arcs_outer_side(clip.turn);
            join.side_points[side].prev = clip.incoming_offset_point;
            join.side_points[side].next = clip.outgoing_offset_point;
            join.side_points[side].single_vertex = None;
        },
    }
    Ok(())
}

/// Aligns the side attachments with the prepared geometry, if any. When
/// the curved geometry's offset points do not fit, the join falls back to
/// Round: the cause is recorded and the geometry dropped.
pub fn align_prepared_join<Pt: Copy, A, C, M>(
    join: &mut JoinSides<Pt>,
    prepared: Option<PreparedArcsJoin<Pt, A>>,
    curved: CurvedAttachment<Pt>,
    workspace: &mut JoinWorkspace<C, M>,
) -> (aligned: Option<PreparedArcsJoin<Pt, A>>)
    ensures
        final(workspace).vertex_ids == old(workspace).vertex_ids,
        match prepared {
            None => {
                &&& aligned is None
                &&& *final(join) == *old(join)
                &&& final(workspace).last_fallback == old(workspace).last_fallback
            },
            Some(geometry) => if alignment_fits(geometry, curved) {
                &&& aligned == Some(geometry)
                &&& aligned_sides(*old(join), *final(join), geometry, curved)
                &&& final(workspace).last_fallback == old(workspace).last_fallback
            } else {
                &&& aligned is None
                &&& final(join).side_points == old(join).side_points
                &&& final(join).fold == old(join).fold
                &&& final(join).line_join == LineJoin::Round
                &&& final(workspace).last_fallback == Some(
                    ArcsJoinFallback::<C, M>::UnrepresentablePoint,
                )
            },
        },
{
    match prepared {
        None => None,
        Some(geometry) => {
            match align_arcs_side_points(join, &geometry, curved) {
                Ok(()) => Some(geometry),
                Err(reason) => {
                    join.line_join = workspace.fallback(reason);
                    None
                },
            }
        },
    }
}

/// Whether a constructed position fits the output coordinates, given the
/// IEEE-754 bit patterns of its two double-precision components: each must
/// be finite and at most the largest single-precision value in magnitude.
/// Clearing the sign bit leaves the magnitude, and for non-negative doubles
/// the order of bit patterns is the order of values, with the infinities
/// and NaNs above every finite value.
pub open spec fn fits_output(x_bits: u64, y_bits: u64) -> bool {
    &&& x_bits & 0x7fff_ffff_ffff_ffff <= 0x47ef_ffff_e000_0000
    &&& y_bits & 0x7fff_ffff_ffff_ffff <= 0x47ef_ffff_e000_0000
}

/// Converts a constructed position, given the bit patterns of its two
/// double-precision components, to an output position: `narrow` performs
/// the conversion and is only called when the position fits the output
/// coordinates (see `fits_output`).
pub fn point64_to_point<Pt, C, M, F: FnOnce(u64, u64) -> Pt>(x_bits: u64, y_bits: u64, narrow: F) -> (point: Result<
    Pt,
    ArcsJoinFallback<C, M>,
>)
    requires
        fits_output(x_bits, y_bits) ==> narrow.requires((x_bits, y_bits)),
    ensures
        point is Ok <==> fits_output(x_bits, y_bits),
        point matches Ok(p) ==> narrow.ensures((x_bits, y_bits), p),
        point is Err ==> point == Err::<Pt, ArcsJoinFallback<C, M>>(ArcsJoinFallback::UnrepresentablePoint),
{
    let magnitude_mask: u64 = 0x7fff_ffff_ffff_ffff;
    let largest: u64 = 0x47ef_ffff_e000_0000;
    if (x_bits & magnitude_mask) > largest || (y_bits & magnitude_mask) > largest {
        return Err(ArcsJoinFallback::UnrepresentablePoint);
    }
    Ok(narrow(x_bits, y_bits))
}

} // verus!
