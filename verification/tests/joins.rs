use stroke_joins::differentials::{EndpointDifferential, EndpointDifferentials};
use stroke_joins::join::{
    arcs_outer_side, ArcsJoinFallback, CurvedAttachment, JoinConstruction, JoinEmission, JoinSides,
    JoinWorkspace, LineJoin, ParallelRectangleJoin, PreparedArcsJoin, PreparedJoin, RadialClipJoin,
    SidePoints, TurnSide, VertexId, SIDE_NEGATIVE, SIDE_POSITIVE,
};
use stroke_joins::join_mesh::{
    arcs_mesh_triangles, clipped_join_attaches, clipped_join_triangles, emit_arcs_join,
    emit_arcs_mesh_output, emit_clipped_join, emit_join_base, emit_mixed_arcs_clip,
    emit_parallel_arcs_rectangle, fill_attachment_ids, flipped_triangles, mixed_clip_triangles,
    parallel_rectangle_triangles, ArcsMesh, ArcsOutput, JoinBaseStep, MeshEmission, MeshVertex,
    NewVertex,
    interior_triangles, mesh_output_fallback, mixed_clip_inner_vertex, mixed_clip_points_fallback,
    quad_output_fallback, set_join_vertex_metadata, sides_needing_join, triangle_output_fallback,
    JoinVertexData, MeshPoint, Side, offer_arcs_join, offer_mixed_arcs_clip, record_offer,
};
use stroke_joins::join_plan::{
    arcs_shape, join_context, tessellate_join, ArcsShape, JoinAction, JoinContext, JoinStage,
};
use stroke_joins::join_prepare::{
    align_arcs_side_points, align_prepared_join, point64_to_point, prepare_arcs_join,
    prepare_construction, prepare_extended_join, prepare_parallel_rectangle, prepare_radial_clip,
    resolve_arcs_join, select_prepared_join, uses_extended_join,
};

type Pt = (f32, f32);

#[derive(Copy, Clone, Debug, PartialEq)]
struct Regular {
    unit_tangent: (f32, f32),
    curvature: f64,
}

#[derive(Copy, Clone, Debug, PartialEq, Eq)]
enum SolverError {
    NonPositiveHalfWidth,
}

#[derive(Copy, Clone, Debug, PartialEq, Eq)]
struct MeshError;

/// Stands for a resolved curved join: the two supports it was built from.
type Resolved = (Regular, Regular);
type Fallback = ArcsJoinFallback<SolverError, MeshError>;
type Workspace = JoinWorkspace<SolverError, MeshError>;

fn regular(tangent: (f32, f32), curvature: f64) -> EndpointDifferential<Regular> {
    EndpointDifferential::Regular(Regular { unit_tangent: tangent, curvature })
}

fn side(prev: Pt, next: Pt, single: Option<Pt>, prev_vertex: u32, next_vertex: u32) -> SidePoints<Pt> {
    SidePoints {
        prev,
        next,
        single_vertex: single,
        prev_vertex: VertexId(prev_vertex),
        next_vertex: VertexId(next_vertex),
    }
}

/// A left turn: the positive side is the inner one and meets in one vertex.
fn left_turn(style: LineJoin) -> JoinSides<Pt> {
    JoinSides {
        side_points: [
            side((1.0, 1.0), (1.0, 1.0), Some((1.0, 1.0)), 10, 11),
            side((-1.0, -1.0), (1.0, -1.0), None, 20, 21),
        ],
        fold: [false, false],
        line_join: style,
    }
}

/// Emulates the construction: a zero half width fails, straight sides give a
/// flat cut, anything else a curved join built from both supports.
fn construct(half_width: f32) -> impl FnOnce(Regular, Regular) -> Result<JoinConstruction<Option<Pt>, Resolved>, SolverError> {
    move |incoming: Regular, outgoing: Regular| {
        if half_width <= 0.0 {
            Err(SolverError::NonPositiveHalfWidth)
        } else if incoming.curvature == 0.0 && outgoing.curvature == 0.0 {
            Ok(JoinConstruction::MiterClip)
        } else {
            Ok(JoinConstruction::Arcs((incoming, outgoing)))
        }
    }
}

/// Narrows a double-precision position given by its bit patterns.
fn narrow(x: u64, y: u64) -> Pt {
    (f64::from_bits(x) as f32, f64::from_bits(y) as f32)
}

fn run_plan(
    extended: bool,
    join: &JoinSides<Pt>,
    requested: LineJoin,
    arcs: ArcsShape,
    mut outcome_of: impl FnMut(JoinAction) -> bool,
) -> Vec<JoinAction> {
    let context = join_context(join, extended, requested, arcs, true, false);
    let mut actions = Vec::new();
    let mut stage = JoinStage::Start;
    let mut outcome = false;
    loop {
        let (next, action) = tessellate_join(&context, stage, outcome);
        if action == JoinAction::Done {
            return actions;
        }
        actions.push(action);
        outcome = outcome_of(action);
        stage = next;
        assert!(actions.len() <= 21);
    }
}

#[test]
fn public_pipeline_records_degenerate_fallback_without_masking_valid_arcs() {
    for style in [LineJoin::Arcs, LineJoin::ArcsRound] {
        for degenerate in [false, true] {
            let mut join = left_turn(style);
            let differentials = EndpointDifferentials {
                incoming: regular((1.0, 0.0), 0.0),
                outgoing: if degenerate {
                    EndpointDifferential::Degenerate
                } else {
                    regular((0.0, 1.0), -0.05)
                },
            };
            let mut workspace = Workspace::new();
            let (requested, prepared) =
                prepare_extended_join(&mut join, differentials, construct(1.0), &mut workspace);
            if degenerate {
                assert_eq!(workspace.last_fallback, Some(ArcsJoinFallback::MissingDifferentials));
            } else {
                assert_eq!(workspace.last_fallback, None);
            }
            assert_eq!(prepared.is_some(), !degenerate);
            assert_eq!(join.line_join, if degenerate { LineJoin::Round } else { style });
            let curved = CurvedAttachment {
                turn: TurnSide::Left,
                incoming_offset_point: Some((3.0, 3.0)),
                outgoing_offset_point: Some((4.0, 4.0)),
                clips_radial_edge: false,
                clip_tip_available: true,
            };
            let prepared = align_prepared_join(&mut join, prepared, curved, &mut workspace);
            assert_eq!(prepared.is_some(), !degenerate);
            let shape = arcs_shape(prepared.as_ref(), &curved);
            let actions = run_plan(true, &join, requested, shape, |_| true);
            assert!(actions.contains(&JoinAction::EmitInterior));
            assert!(!interior_triangles(&join).is_empty());
        }
    }
}

#[test]
fn construction_failures_keep_the_solver_error() {
    let differentials = EndpointDifferentials {
        incoming: regular((1.0, 0.0), 0.1),
        outgoing: regular((0.0, 1.0), 0.1),
    };
    let prepared: Result<PreparedJoin<Pt, Resolved>, Fallback> =
        prepare_arcs_join(differentials, construct(0.0));
    assert!(matches!(prepared, Err(ArcsJoinFallback::Construction(_))));
    assert!(matches!(
        point64_to_point::<Pt, SolverError, MeshError, _>(f64::INFINITY.to_bits(), 0.0f64.to_bits(), narrow),
        Err(ArcsJoinFallback::UnrepresentablePoint)
    ));
}

#[test]
fn arcs_join_resolves_endpoint_differentials_into_support_geometry() {
    let differentials = EndpointDifferentials {
        incoming: regular((1.0, 0.0), 0.0),
        outgoing: regular((0.0, 1.0), 0.1),
    };
    let resolution: Result<JoinConstruction<Option<Pt>, Resolved>, Fallback> =
        resolve_arcs_join(differentials, construct(2.0));
    assert!(matches!(resolution, Ok(JoinConstruction::Arcs(_))));
    if let Ok(JoinConstruction::Arcs((incoming, outgoing))) = resolution {
        assert_eq!(EndpointDifferential::Regular(incoming), differentials.incoming);
        assert_eq!(EndpointDifferential::Regular(outgoing), differentials.outgoing);
    }
}

#[test]
fn arcs_join_keeps_explicit_svg_fallback_states() {
    let join = left_turn(LineJoin::Arcs);
    let line_differentials = EndpointDifferentials {
        incoming: regular((1.0, 0.0), 0.0),
        outgoing: regular((0.0, 1.0), 0.0),
    };
    let line_join: Result<JoinConstruction<Option<Pt>, Resolved>, Fallback> =
        resolve_arcs_join(line_differentials, construct(2.0));
    let line_geometry: Result<PreparedJoin<Pt, Resolved>, Fallback> =
        prepare_arcs_join(line_differentials, construct(2.0));
    let degenerate_differentials = EndpointDifferentials {
        outgoing: EndpointDifferential::Degenerate,
        ..line_differentials
    };
    let degenerate_join: Result<JoinConstruction<Option<Pt>, Resolved>, Fallback> =
        resolve_arcs_join(degenerate_differentials, construct(2.0));
    let degenerate_geometry: Result<PreparedJoin<Pt, Resolved>, Fallback> =
        prepare_arcs_join(degenerate_differentials, construct(2.0));

    assert!(matches!(line_join, Ok(JoinConstruction::MiterClip)));
    assert!(matches!(line_geometry, Ok(PreparedJoin::Standard(LineJoin::MiterClip))));
    assert!(degenerate_join.is_err());
    assert!(matches!(degenerate_geometry, Err(ArcsJoinFallback::MissingDifferentials)));
    assert_eq!(join.line_join, LineJoin::Arcs);
}

#[test]
fn construction_is_not_attempted_without_both_derivatives() {
    for differentials in [
        EndpointDifferentials { incoming: EndpointDifferential::Unknown, outgoing: regular((0.0, 1.0), 0.1) },
        EndpointDifferentials { incoming: regular((1.0, 0.0), 0.1), outgoing: EndpointDifferential::Degenerate },
    ] {
        let prepared: Result<PreparedJoin<Pt, Resolved>, Fallback> =
            prepare_arcs_join(differentials, |_: Regular, _: Regular| -> Result<JoinConstruction<Option<Pt>, Resolved>, SolverError> {
                panic!("construction needs both derivatives")
            });
        assert_eq!(prepared.err(), Some(ArcsJoinFallback::MissingDifferentials));
    }
}

#[test]
fn constructions_map_to_styles_and_geometry() {
    let empty: Result<PreparedJoin<Pt, Resolved>, Fallback> = prepare_construction(JoinConstruction::Empty);
    assert!(matches!(empty, Ok(PreparedJoin::Standard(LineJoin::Miter))));
    let clip = RadialClipJoin {
        turn: TurnSide::Right,
        incoming_offset_point: Some((1.0, 2.0)),
        outgoing_offset_point: Some((3.0, 4.0)),
        incoming: Some((5.0, 6.0)),
        outgoing: Some((7.0, 8.0)),
    };
    let radial: Result<PreparedJoin<Pt, Resolved>, Fallback> =
        prepare_construction(JoinConstruction::RadialClip(clip));
    match radial {
        Ok(PreparedJoin::Arcs(PreparedArcsJoin::RadialClip(prepared))) => {
            assert_eq!(prepared.incoming_offset_point, (1.0, 2.0));
            assert_eq!(prepared.outgoing, (7.0, 8.0));
            assert_eq!(prepared.turn, TurnSide::Right);
        }
        _ => panic!("a radial clip with representable points is kept"),
    }
    let unfit = RadialClipJoin { incoming: None, ..clip };
    assert_eq!(prepare_radial_clip::<Pt, SolverError, MeshError>(unfit).err(), Some(ArcsJoinFallback::UnrepresentablePoint));
    let rectangle = ParallelRectangleJoin {
        near_left: Some((0.0, 1.0)),
        near_right: Some((0.0, -1.0)),
        far_left: Some((2.0, 1.0)),
        far_right: None,
    };
    assert_eq!(
        prepare_parallel_rectangle::<Pt, SolverError, MeshError>(rectangle).err(),
        Some(ArcsJoinFallback::UnrepresentablePoint)
    );
    let fitting = ParallelRectangleJoin { far_right: Some((2.0, -1.0)), ..rectangle };
    let prepared = prepare_parallel_rectangle::<Pt, SolverError, MeshError>(fitting).ok().unwrap();
    assert_eq!(prepared.far_right, (2.0, -1.0));
    assert_eq!(prepared.near_left, (0.0, 1.0));
}

#[test]
fn selection_records_failures_and_keeps_geometry() {
    let mut workspace = Workspace::new();
    let mut join = left_turn(LineJoin::ArcsRound);
    let failed: Result<PreparedJoin<Pt, Resolved>, Fallback> = Err(ArcsJoinFallback::CollapsedVertex);
    assert!(select_prepared_join(&mut join, failed, &mut workspace).is_none());
    assert_eq!(join.line_join, LineJoin::Round);
    assert_eq!(workspace.last_fallback, Some(ArcsJoinFallback::CollapsedVertex));

    let mut join = left_turn(LineJoin::ArcsRound);
    let curved: Result<PreparedJoin<Pt, Resolved>, Fallback> = Ok(PreparedJoin::Arcs(PreparedArcsJoin::Curved((
        Regular { unit_tangent: (1.0, 0.0), curvature: 0.1 },
        Regular { unit_tangent: (0.0, 1.0), curvature: 0.1 },
    ))));
    assert!(select_prepared_join(&mut join, curved, &mut workspace).is_some());
    assert_eq!(join.line_join, LineJoin::ArcsRound);

    let mut join = left_turn(LineJoin::Bevel);
    let (requested, prepared) = prepare_extended_join(
        &mut join,
        EndpointDifferentials::default(),
        construct(1.0),
        &mut workspace,
    );
    assert_eq!(requested, LineJoin::Bevel);
    assert!(prepared.is_none());
    assert_eq!(join.line_join, LineJoin::Bevel);

    let mut emitted_workspace = Workspace::new();
    assert!(JoinEmission::Emitted.emitted(&mut emitted_workspace));
    assert_eq!(emitted_workspace.last_fallback, None);
    assert!(!JoinEmission::Fallback(ArcsJoinFallback::Mesh(MeshError)).emitted(&mut emitted_workspace));
    assert_eq!(emitted_workspace.last_fallback, Some(ArcsJoinFallback::Mesh(MeshError)));
    assert_eq!(emitted_workspace.fallback(ArcsJoinFallback::IncompatibleAttachments), LineJoin::Round);
}

#[test]
fn extended_path_is_taken_by_arcs_and_subunit_clips() {
    assert!(uses_extended_join(LineJoin::Arcs, false));
    assert!(uses_extended_join(LineJoin::ArcsRound, false));
    assert!(uses_extended_join(LineJoin::MiterClip, true));
    assert!(!uses_extended_join(LineJoin::MiterClip, false));
    assert!(!uses_extended_join(LineJoin::Miter, true));
    assert!(!uses_extended_join(LineJoin::Round, true));
}

#[test]
fn output_range_check_follows_the_single_precision_range() {
    let check = |x: f64, y: f64| {
        point64_to_point::<Pt, SolverError, MeshError, _>(x.to_bits(), y.to_bits(), narrow).is_ok()
    };
    assert_eq!(
        point64_to_point::<Pt, SolverError, MeshError, _>(2.5f64.to_bits(), (-1.0f64).to_bits(), narrow),
        Ok((2.5, -1.0))
    );
    assert!(check(0.0, -0.0));
    assert!(check(f64::from(f32::MAX), f64::from(f32::MIN)));
    assert!(check(-12.5, 1.0e30));
    assert!(!check(f64::from(f32::MAX) * 1.000001, 0.0));
    assert!(!check(0.0, f64::from(f32::MIN) * 1.000001));
    assert!(!check(f64::NAN, 0.0));
    assert!(!check(0.0, f64::NEG_INFINITY));
}

#[test]
fn alignment_attaches_the_outer_side() {
    let mut join = left_turn(LineJoin::Arcs);
    let clip: PreparedArcsJoin<Pt, Resolved> = PreparedArcsJoin::RadialClip(RadialClipJoin {
        turn: TurnSide::Left,
        incoming_offset_point: (5.0, 5.0),
        outgoing_offset_point: (6.0, 6.0),
        incoming: (7.0, 7.0),
        outgoing: (8.0, 8.0),
    });
    let unused = CurvedAttachment {
        turn: TurnSide::Right,
        incoming_offset_point: None,
        outgoing_offset_point: None,
        clips_radial_edge: false,
        clip_tip_available: false,
    };
    assert!(align_arcs_side_points::<Pt, Resolved, SolverError, MeshError>(&mut join, &clip, unused).is_ok());
    assert_eq!(arcs_outer_side(TurnSide::Left), SIDE_NEGATIVE);
    assert_eq!(join.side_points[SIDE_NEGATIVE].prev, (5.0, 5.0));
    assert_eq!(join.side_points[SIDE_NEGATIVE].next, (6.0, 6.0));
    assert_eq!(join.side_points[SIDE_NEGATIVE].single_vertex, None);
    assert_eq!(join.side_points[SIDE_POSITIVE].single_vertex, Some((1.0, 1.0)));

    let mut join = left_turn(LineJoin::Arcs);
    join.fold = [true, false];
    let rectangle: PreparedArcsJoin<Pt, Resolved> = PreparedArcsJoin::ParallelRectangle(ParallelRectangleJoin {
        near_left: (0.0, 1.0),
        near_right: (0.0, -1.0),
        far_left: (2.0, 1.0),
        far_right: (2.0, -1.0),
    });
    assert!(align_arcs_side_points::<Pt, Resolved, SolverError, MeshError>(&mut join, &rectangle, unused).is_ok());
    assert_eq!(join.fold, [false, false]);
    assert_eq!(join.side_points[SIDE_POSITIVE].prev, (0.0, 1.0));
    assert_eq!(join.side_points[SIDE_NEGATIVE].prev, (0.0, -1.0));
    assert_eq!(join.side_points[SIDE_NEGATIVE].next, (0.0, 1.0));

    let mut join = left_turn(LineJoin::ArcsRound);
    let before = join;
    let curved: PreparedArcsJoin<Pt, Resolved> = PreparedArcsJoin::Curved((
        Regular { unit_tangent: (1.0, 0.0), curvature: 0.1 },
        Regular { unit_tangent: (0.0, 1.0), curvature: 0.1 },
    ));
    let unfit = CurvedAttachment {
        turn: TurnSide::Left,
        incoming_offset_point: Some((3.0, 3.0)),
        outgoing_offset_point: None,
        clips_radial_edge: false,
        clip_tip_available: false,
    };
    let mut workspace = Workspace::new();
    assert!(align_prepared_join(&mut join, Some(curved), unfit, &mut workspace).is_none());
    assert_eq!(join.line_join, LineJoin::Round);
    assert_eq!(join.side_points[SIDE_NEGATIVE].prev, before.side_points[SIDE_NEGATIVE].prev);
    assert_eq!(workspace.last_fallback, Some(ArcsJoinFallback::UnrepresentablePoint));
}

#[test]
fn folds_are_prevented_against_concave_sides() {
    let mut join = left_turn(LineJoin::Miter);
    join.fold = [true, true];
    let steps = emit_join_base(&mut join, true, true);
    assert_eq!(join.fold, [true, true]);
    assert_eq!(
        steps,
        vec![
            JoinBaseStep::Vertices(Side::Negative),
            JoinBaseStep::Vertices(Side::Positive),
            JoinBaseStep::EdgeTriangles,
        ]
    );
    let steps = emit_join_base(&mut join, false, false);
    assert_eq!(join.fold, [true, false]);
    assert_eq!(steps, vec![JoinBaseStep::Vertices(Side::Negative), JoinBaseStep::Vertices(Side::Positive)]);
    let mut vertex = JoinVertexData { position_on_path: (0.0f32, 0.0f32), half_width: 0.0f32, side: Side::Positive };
    set_join_vertex_metadata((3.0, 4.0), 1.5, SIDE_NEGATIVE, &mut vertex);
    assert_eq!(vertex.position_on_path, (3.0, 4.0));
    assert_eq!(vertex.half_width, 1.5);
    assert_eq!(vertex.side, Side::Negative);
    set_join_vertex_metadata((3.0, 4.0), 1.5, SIDE_POSITIVE, &mut vertex);
    assert_eq!(vertex.side, Side::Positive);
}

#[test]
fn interior_is_filled_per_side_needing_a_join() {
    let mut join = left_turn(LineJoin::Bevel);
    assert_eq!(sides_needing_join(&join), [false, true]);
    assert_eq!(interior_triangles(&join), vec![[VertexId(20), VertexId(10), VertexId(21)]]);
    join.side_points[SIDE_POSITIVE].single_vertex = None;
    assert_eq!(
        interior_triangles(&join),
        vec![[VertexId(10), VertexId(11), VertexId(21)], [VertexId(10), VertexId(21), VertexId(20)]]
    );
    join.fold[SIDE_POSITIVE] = true;
    assert!(interior_triangles(&join).is_empty());
}

#[test]
fn clipped_join_fans_around_the_inner_vertex() {
    let join = left_turn(LineJoin::MiterClip);
    assert!(clipped_join_attaches(&join, SIDE_NEGATIVE));
    assert!(!clipped_join_attaches(&join, SIDE_POSITIVE));
    assert!(emit_clipped_join(&join, SIDE_POSITIVE, (5.0, 5.0), (6.0, 6.0), false).is_none());
    let mut folded = join;
    folded.fold[SIDE_NEGATIVE] = true;
    assert!(emit_clipped_join(&folded, SIDE_NEGATIVE, (5.0, 5.0), (6.0, 6.0), false).is_none());
    assert_eq!(
        emit_clipped_join(&join, SIDE_NEGATIVE, (5.0, 5.0), (6.0, 6.0), false),
        Some(vec![
            NewVertex { side: Side::Negative, position: (5.0, 5.0) },
            NewVertex { side: Side::Negative, position: (6.0, 6.0) },
        ])
    );
    assert_eq!(
        emit_clipped_join(&join, SIDE_NEGATIVE, (5.0, 5.0), (5.0, 5.0), true),
        Some(vec![NewVertex { side: Side::Negative, position: (5.0, 5.0) }])
    );
    let triangles = clipped_join_triangles(&join, SIDE_NEGATIVE, VertexId(30), VertexId(31));
    assert_eq!(
        triangles,
        vec![
            [VertexId(10), VertexId(21), VertexId(31)],
            [VertexId(10), VertexId(31), VertexId(30)],
            [VertexId(10), VertexId(30), VertexId(20)],
        ]
    );
    let shared = clipped_join_triangles(&join, SIDE_NEGATIVE, VertexId(30), VertexId(30));
    assert_eq!(shared.len(), 2);
    let corners = ParallelRectangleJoin {
        near_left: (0.0, 1.0),
        near_right: (0.0, -1.0),
        far_left: (2.0, 1.0),
        far_right: (2.0, -1.0),
    };
    assert!(emit_parallel_arcs_rectangle(&corners, true, true).is_none());
    assert_eq!(
        emit_parallel_arcs_rectangle(&corners, true, false),
        Some([
            NewVertex { side: Side::Positive, position: (2.0, 1.0) },
            NewVertex { side: Side::Negative, position: (2.0, -1.0) },
        ])
    );
    let rectangle = parallel_rectangle_triangles(&join, VertexId(40), VertexId(41));
    assert_eq!(
        rectangle,
        [[VertexId(10), VertexId(40), VertexId(41)], [VertexId(10), VertexId(41), VertexId(20)]]
    );
}

#[test]
fn mesh_points_are_checked_in_order() {
    assert_eq!(mesh_output_fallback::<SolverError, MeshError>(&[MeshPoint::Offset, MeshPoint::Offset]), Some(ArcsJoinFallback::IncompatibleAttachments));
    assert_eq!(mesh_output_fallback::<SolverError, MeshError>(&[MeshPoint::OnJoin, MeshPoint::Offset, MeshPoint::Offset, MeshPoint::OnJoin]), None);
    assert_eq!(
        mesh_output_fallback::<SolverError, MeshError>(&[MeshPoint::Offset, MeshPoint::OnJoin, MeshPoint::Unrepresentable, MeshPoint::Offset]),
        Some(ArcsJoinFallback::CollapsedVertex)
    );
    assert_eq!(
        mesh_output_fallback::<SolverError, MeshError>(&[MeshPoint::Offset, MeshPoint::Unrepresentable, MeshPoint::OnJoin, MeshPoint::Offset]),
        Some(ArcsJoinFallback::UnrepresentablePoint)
    );
    assert_eq!(quad_output_fallback::<SolverError, MeshError>(MeshPoint::OnJoin, MeshPoint::Unrepresentable), Some(ArcsJoinFallback::UnrepresentablePoint));
    assert_eq!(quad_output_fallback::<SolverError, MeshError>(MeshPoint::Offset, MeshPoint::OnJoin), Some(ArcsJoinFallback::CollapsedVertex));
    assert_eq!(triangle_output_fallback::<SolverError, MeshError>(MeshPoint::OnJoin), Some(ArcsJoinFallback::CollapsedVertex));
    assert_eq!(triangle_output_fallback::<SolverError, MeshError>(MeshPoint::Offset), None);
    assert_eq!(mixed_clip_points_fallback::<SolverError, MeshError>(&[MeshPoint::Offset, MeshPoint::OnJoin, MeshPoint::Offset, MeshPoint::Unrepresentable]), None);
    assert_eq!(
        mixed_clip_points_fallback::<SolverError, MeshError>(&[MeshPoint::Offset, MeshPoint::Offset, MeshPoint::Unrepresentable, MeshPoint::Offset, MeshPoint::Offset]),
        Some(ArcsJoinFallback::UnrepresentablePoint)
    );
}

#[test]
fn mesh_triangles_are_wired_to_attachments_with_reversed_winding() {
    let join = left_turn(LineJoin::Arcs);
    let mut ids = Vec::new();
    fill_attachment_ids(&mut ids, VertexId(1), &[VertexId(2), VertexId(3)], &[VertexId(4)]);
    assert_eq!(ids, vec![VertexId(1), VertexId(2), VertexId(3), VertexId(4)]);
    assert_eq!(
        flipped_triangles(&ids, &[0, 1, 2, 0, 2, 3, 1]),
        vec![[VertexId(1), VertexId(3), VertexId(2)], [VertexId(1), VertexId(4), VertexId(3)]]
    );
    let triangles = arcs_mesh_triangles(&join, SIDE_NEGATIVE, &mut ids, &[VertexId(50)], &[0, 1, 2]);
    assert_eq!(ids, vec![VertexId(20), VertexId(50), VertexId(21)]);
    assert_eq!(triangles, vec![[VertexId(20), VertexId(21), VertexId(50)]]);
    let mixed = mixed_clip_triangles(&join, SIDE_NEGATIVE, &mut ids, &[VertexId(60)], &[3, 0, 1, 3, 1, 2]);
    assert_eq!(ids, vec![VertexId(20), VertexId(60), VertexId(21), VertexId(10)]);
    assert_eq!(
        mixed,
        vec![[VertexId(10), VertexId(60), VertexId(20)], [VertexId(10), VertexId(21), VertexId(60)]]
    );
    let inner: Result<Pt, Fallback> = mixed_clip_inner_vertex(&join, SIDE_NEGATIVE);
    assert_eq!(inner, Ok((1.0, 1.0)));
    let unattached: Result<Pt, Fallback> = mixed_clip_inner_vertex(&join, SIDE_POSITIVE);
    assert_eq!(unattached, Err(ArcsJoinFallback::IncompatibleAttachments));
}

#[test]
fn ordinary_joins_fill_the_interior_and_round_their_sides() {
    let join = left_turn(LineJoin::Round);
    let actions = run_plan(false, &join, LineJoin::Round, ArcsShape::Absent, |_| true);
    assert_eq!(actions, vec![JoinAction::EmitInterior, JoinAction::RoundJoin { side: SIDE_NEGATIVE }]);
    let bevel = left_turn(LineJoin::Bevel);
    assert_eq!(run_plan(false, &bevel, LineJoin::Bevel, ArcsShape::Absent, |_| true), vec![JoinAction::EmitInterior]);
}

#[test]
fn arcs_joins_fall_back_to_round_per_side() {
    let join = left_turn(LineJoin::ArcsRound);
    let curved = ArcsShape::Curved { turn: TurnSide::Left, clips_radial_edge: false, clip_tip_available: true };
    let emitted = run_plan(true, &join, LineJoin::ArcsRound, curved, |_| true);
    assert_eq!(
        emitted,
        vec![
            JoinAction::EmitInterior,
            JoinAction::TryArcs { side: SIDE_NEGATIVE },
            JoinAction::RoundCurvedClipTip { side: SIDE_NEGATIVE },
        ]
    );
    let failed = run_plan(true, &join, LineJoin::ArcsRound, curved, |_| false);
    assert_eq!(
        failed,
        vec![
            JoinAction::EmitInterior,
            JoinAction::TryArcs { side: SIDE_NEGATIVE },
            JoinAction::RoundJoin { side: SIDE_NEGATIVE },
        ]
    );
}

#[test]
fn retained_clips_come_before_the_bevel_fill() {
    let join = left_turn(LineJoin::Arcs);
    let mixed = ArcsShape::Curved { turn: TurnSide::Left, clips_radial_edge: true, clip_tip_available: true };
    assert_eq!(run_plan(true, &join, LineJoin::Arcs, mixed, |_| true), vec![JoinAction::TryMixedClip]);
    let fallback = run_plan(true, &join, LineJoin::Arcs, mixed, |_| false);
    assert_eq!(fallback[0], JoinAction::TryMixedClip);
    assert_eq!(fallback[1], JoinAction::EmitInterior);
    let radial = ArcsShape::RadialClip { turn: TurnSide::Left };
    assert_eq!(
        run_plan(true, &join, LineJoin::ArcsRound, radial, |_| true),
        vec![JoinAction::TryRadialClip { side: SIDE_NEGATIVE }, JoinAction::RoundRadialClipTip { side: SIDE_NEGATIVE }]
    );
    assert_eq!(
        run_plan(true, &join, LineJoin::ArcsRound, ArcsShape::ParallelRectangle, |_| true),
        vec![JoinAction::EmitParallelRectangle, JoinAction::RoundRectangleTip]
    );
}

#[test]
fn rounded_tips_need_arcs_round() {
    let join = left_turn(LineJoin::Arcs);
    let shapes = [
        ArcsShape::ParallelRectangle,
        ArcsShape::RadialClip { turn: TurnSide::Left },
        ArcsShape::Curved { turn: TurnSide::Left, clips_radial_edge: true, clip_tip_available: true },
        ArcsShape::Curved { turn: TurnSide::Left, clips_radial_edge: false, clip_tip_available: true },
    ];
    for shape in shapes {
        for outcome in [false, true] {
            let actions = run_plan(true, &join, LineJoin::Arcs, shape, |_| outcome);
            assert!(actions.iter().all(|action| !matches!(
                action,
                JoinAction::RoundRectangleTip
                    | JoinAction::RoundRadialClipTip { .. }
                    | JoinAction::RoundCurvedClipTip { .. }
                    | JoinAction::RoundSubunitClipTip { .. }
                    | JoinAction::RoundMiterClipTip { .. }
            )));
        }
    }
}

#[test]
fn subunit_miter_clips_are_searched_on_open_sides() {
    let join = left_turn(LineJoin::MiterClip);
    let context = join_context(&join, true, LineJoin::ArcsRound, ArcsShape::Absent, true, true);
    let (stage, action) = tessellate_join(&context, JoinStage::Start, false);
    assert_eq!(action, JoinAction::ComputeSubunitClip { side: SIDE_NEGATIVE });
    let (stage, action) = tessellate_join(&context, stage, true);
    assert_eq!(action, JoinAction::TrySubunitClip { side: SIDE_NEGATIVE });
    let (_, action) = tessellate_join(&context, stage, false);
    assert_eq!(action, JoinAction::EmitInterior);
    let (_, tip) = tessellate_join(&context, JoinStage::SubunitClipTried(SIDE_NEGATIVE), true);
    assert_eq!(tip, JoinAction::RoundSubunitClipTip { side: SIDE_NEGATIVE });
    let (_, miter_tip) = tessellate_join(&context, JoinStage::Side(SIDE_NEGATIVE), false);
    assert_eq!(miter_tip, JoinAction::RoundMiterClipTip { side: SIDE_NEGATIVE });
}

fn vertex(class: MeshPoint, x: f32) -> MeshVertex<Pt> {
    MeshVertex { class, position: (x, 0.0) }
}

type Emission = Result<MeshEmission<Pt>, Fallback>;

fn added(emission: &Emission) -> Vec<NewVertex<Pt>> {
    emission.as_ref().ok().unwrap().vertices.clone()
}

#[test]
fn arcs_joins_add_their_middle_vertices_or_fall_back() {
    let offset = MeshPoint::Offset;
    let clipped: Emission = emit_arcs_join(SIDE_NEGATIVE, true, || -> Result<ArcsOutput<Pt>, MeshError> {
        panic!("a mixed clip is not meshed as an Arcs join")
    });
    assert_eq!(clipped.err(), Some(ArcsJoinFallback::IncompatibleAttachments));
    let failed: Emission = emit_arcs_join(SIDE_NEGATIVE, false, || Err(MeshError));
    assert_eq!(failed.err(), Some(ArcsJoinFallback::Mesh(MeshError)));
    let collapsed: Emission = emit_arcs_join(SIDE_NEGATIVE, false, || {
        Ok(ArcsOutput::Triangle { middle: vertex(MeshPoint::OnJoin, 0.0), indices: [0, 1, 2] })
    });
    assert_eq!(collapsed.err(), Some(ArcsJoinFallback::CollapsedVertex));
    let triangle: Emission = emit_arcs_join(SIDE_POSITIVE, false, || {
        Ok(ArcsOutput::Triangle { middle: vertex(offset, 3.0), indices: [0, 1, 2] })
    });
    assert_eq!(added(&triangle), vec![NewVertex { side: Side::Positive, position: (3.0, 0.0) }]);
    assert_eq!(triangle.as_ref().ok().unwrap().indices, vec![0, 1, 2]);
    let quad: Emission = emit_arcs_join(SIDE_NEGATIVE, false, || {
        Ok(ArcsOutput::Quad { middle: [vertex(offset, 1.0), vertex(offset, 2.0)], indices: [0, 1, 2, 0, 2, 3] })
    });
    assert_eq!(
        added(&quad),
        vec![
            NewVertex { side: Side::Negative, position: (1.0, 0.0) },
            NewVertex { side: Side::Negative, position: (2.0, 0.0) },
        ]
    );
    assert_eq!(quad.as_ref().ok().unwrap().indices, vec![0, 1, 2, 0, 2, 3]);
    let unfit: Emission = emit_arcs_join(SIDE_NEGATIVE, false, || {
        Ok(ArcsOutput::Quad {
            middle: [vertex(MeshPoint::OnJoin, 1.0), vertex(MeshPoint::Unrepresentable, 2.0)],
            indices: [0, 1, 2, 0, 2, 3],
        })
    });
    assert_eq!(unfit.err(), Some(ArcsJoinFallback::UnrepresentablePoint));
    let mesh: Emission = emit_arcs_join(SIDE_NEGATIVE, false, || {
        Ok(ArcsOutput::Mesh(ArcsMesh {
            vertices: vec![vertex(MeshPoint::OnJoin, 0.0), vertex(offset, 1.0), vertex(offset, 2.0), vertex(offset, 3.0)],
            indices: vec![0, 1, 2, 0, 2, 3],
        }))
    });
    assert_eq!(
        added(&mesh),
        vec![
            NewVertex { side: Side::Negative, position: (1.0, 0.0) },
            NewVertex { side: Side::Negative, position: (2.0, 0.0) },
        ]
    );
    let short: Emission = emit_arcs_mesh_output(SIDE_NEGATIVE, &[vertex(offset, 0.0), vertex(offset, 1.0)], &[]);
    assert_eq!(short.err(), Some(ArcsJoinFallback::IncompatibleAttachments));
}

#[test]
fn mixed_clips_check_attachments_mesh_and_points() {
    let join = left_turn(LineJoin::Arcs);
    let offset = MeshPoint::Offset;
    let unattached: Emission = emit_mixed_arcs_clip(&join, SIDE_POSITIVE, |_: Pt| -> Result<ArcsMesh<Pt>, MeshError> {
        panic!("nothing is meshed without a single inner vertex")
    });
    assert_eq!(unattached.err(), Some(ArcsJoinFallback::IncompatibleAttachments));
    let failed: Emission = emit_mixed_arcs_clip(&join, SIDE_NEGATIVE, |_: Pt| Err(MeshError));
    assert_eq!(failed.err(), Some(ArcsJoinFallback::Mesh(MeshError)));
    let unfit: Emission = emit_mixed_arcs_clip(&join, SIDE_NEGATIVE, |_: Pt| {
        Ok(ArcsMesh {
            vertices: vec![vertex(offset, 0.0), vertex(MeshPoint::Unrepresentable, 1.0), vertex(offset, 2.0), vertex(offset, 3.0)],
            indices: vec![],
        })
    });
    assert_eq!(unfit.err(), Some(ArcsJoinFallback::UnrepresentablePoint));
    let emitted: Emission = emit_mixed_arcs_clip(&join, SIDE_NEGATIVE, |inner: Pt| {
        assert_eq!(inner, (1.0, 1.0));
        Ok(ArcsMesh {
            vertices: vec![vertex(offset, 0.0), vertex(MeshPoint::OnJoin, 1.0), vertex(offset, 2.0), vertex(offset, 3.0)],
            indices: vec![3, 0, 1, 3, 1, 2],
        })
    });
    assert_eq!(added(&emitted), vec![NewVertex { side: Side::Negative, position: (1.0, 0.0) }]);
    assert_eq!(emitted.as_ref().ok().unwrap().indices, vec![3, 0, 1, 3, 1, 2]);
}

#[test]
fn accepted_mesh_adds_inner_vertices_in_order_on_its_side() {
    let offset = MeshPoint::Offset;
    let mesh = [vertex(offset, 0.0), vertex(offset, 1.0), vertex(offset, 2.0), vertex(offset, 3.0), vertex(offset, 4.0)];
    let emitted: Emission = emit_arcs_mesh_output(SIDE_POSITIVE, &mesh, &[0, 1, 2, 0, 2, 3, 0, 3, 4]);
    assert_eq!(
        added(&emitted),
        vec![
            NewVertex { side: Side::Positive, position: (1.0, 0.0) },
            NewVertex { side: Side::Positive, position: (2.0, 0.0) },
            NewVertex { side: Side::Positive, position: (3.0, 0.0) },
        ]
    );
    assert_eq!(emitted.as_ref().ok().unwrap().indices, vec![0, 1, 2, 0, 2, 3, 0, 3, 4]);
}

#[test]
fn declined_arcs_offers_record_their_cause_and_round_the_side() {
    let join = left_turn(LineJoin::Arcs);
    let offset = MeshPoint::Offset;
    let mut workspace = Workspace::new();
    let declined: Option<MeshEmission<Pt>> =
        offer_arcs_join(SIDE_NEGATIVE, false, || -> Result<ArcsOutput<Pt>, MeshError> { Err(MeshError) }, &mut workspace);
    assert!(declined.is_none());
    assert_eq!(workspace.last_fallback, Some(ArcsJoinFallback::Mesh(MeshError)));
    let curved = ArcsShape::Curved { turn: TurnSide::Left, clips_radial_edge: false, clip_tip_available: true };
    let context = join_context(&join, true, LineJoin::ArcsRound, curved, true, false);
    assert_eq!(
        tessellate_join(&context, JoinStage::ArcsTried(SIDE_NEGATIVE), declined.is_some()),
        (JoinStage::Side(2), JoinAction::RoundJoin { side: SIDE_NEGATIVE })
    );

    let crossing: Option<MeshEmission<Pt>> = offer_arcs_join(
        SIDE_NEGATIVE,
        true,
        || -> Result<ArcsOutput<Pt>, MeshError> { panic!("a crossing cut is not meshed") },
        &mut workspace,
    );
    assert!(crossing.is_none());
    assert_eq!(workspace.last_fallback, Some(ArcsJoinFallback::IncompatibleAttachments));

    let accepted: Option<MeshEmission<Pt>> = offer_arcs_join(
        SIDE_NEGATIVE,
        false,
        || -> Result<ArcsOutput<Pt>, MeshError> {
            Ok(ArcsOutput::Triangle { middle: vertex(offset, 1.0), indices: [0, 1, 2] })
        },
        &mut workspace,
    );
    assert_eq!(accepted.unwrap().vertices, vec![NewVertex { side: Side::Negative, position: (1.0, 0.0) }]);
    assert_eq!(workspace.last_fallback, Some(ArcsJoinFallback::IncompatibleAttachments));

    let mut workspace = Workspace::new();
    let unattached: Option<MeshEmission<Pt>> = offer_mixed_arcs_clip(
        &join,
        SIDE_POSITIVE,
        |_: Pt| -> Result<ArcsMesh<Pt>, MeshError> { panic!("nothing is meshed without an inner vertex") },
        &mut workspace,
    );
    assert!(unattached.is_none());
    assert_eq!(workspace.last_fallback, Some(ArcsJoinFallback::IncompatibleAttachments));
    let failed: Option<MeshEmission<Pt>> =
        offer_mixed_arcs_clip(&join, SIDE_NEGATIVE, |_: Pt| -> Result<ArcsMesh<Pt>, MeshError> { Err(MeshError) }, &mut workspace);
    assert!(failed.is_none());
    assert_eq!(workspace.last_fallback, Some(ArcsJoinFallback::Mesh(MeshError)));

    let recorded: Option<MeshEmission<Pt>> =
        record_offer(Err(ArcsJoinFallback::CollapsedVertex), &mut workspace);
    assert!(recorded.is_none());
    assert_eq!(workspace.last_fallback, Some(ArcsJoinFallback::CollapsedVertex));
}

fn plan_actions(context: &JoinContext, mut outcome_of: impl FnMut(JoinAction) -> bool) -> Vec<JoinAction> {
    let mut actions = Vec::new();
    let mut stage = JoinStage::Start;
    let mut outcome = false;
    loop {
        let (next, action) = tessellate_join(context, stage, outcome);
        if action == JoinAction::Done {
            return actions;
        }
        actions.push(action);
        outcome = outcome_of(action);
        stage = next;
        assert!(actions.len() <= 21);
    }
}

fn is_tip(action: &JoinAction) -> bool {
    matches!(
        action,
        JoinAction::RoundRectangleTip
            | JoinAction::RoundRadialClipTip { .. }
            | JoinAction::RoundCurvedClipTip { .. }
            | JoinAction::RoundSubunitClipTip { .. }
            | JoinAction::RoundMiterClipTip { .. }
    )
}

#[test]
fn arcs_round_plans_are_arcs_plans_with_tips() {
    let join = left_turn(LineJoin::Arcs);
    for limit_positive in [false, true] {
        let plain = join_context(&join, true, LineJoin::Arcs, ArcsShape::ParallelRectangle, limit_positive, false);
        let round = join_context(&join, true, LineJoin::ArcsRound, ArcsShape::ParallelRectangle, limit_positive, false);
        assert_eq!(plan_actions(&plain, |_| true), vec![JoinAction::EmitParallelRectangle]);
        if limit_positive {
            assert_eq!(
                plan_actions(&round, |_| true),
                vec![JoinAction::EmitParallelRectangle, JoinAction::RoundRectangleTip]
            );
        } else {
            assert_eq!(plan_actions(&round, |_| true), vec![JoinAction::EmitParallelRectangle]);
        }
    }
    let curved = ArcsShape::Curved { turn: TurnSide::Left, clips_radial_edge: true, clip_tip_available: true };
    for emitted in [false, true] {
        let plain = join_context(&join, true, LineJoin::Arcs, curved, false, false);
        let round = join_context(&join, true, LineJoin::ArcsRound, curved, false, false);
        let plain_actions = plan_actions(&plain, |_| emitted);
        let round_actions = plan_actions(&round, |_| emitted);
        let without_tips: Vec<JoinAction> = round_actions.iter().copied().filter(|a| !is_tip(a)).collect();
        assert_eq!(without_tips, plain_actions);
        assert_eq!(round_actions.len() > plain_actions.len(), emitted);
    }
}
