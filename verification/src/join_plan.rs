//! The order in which the parts of a join are emitted.
//!
//! Emitting a join alternates between output work (adding vertices and
//! triangles, building Arcs meshes, rounding tips) and decisions that depend
//! on whether that work succeeded. The decisions are made here: from the
//! join's context, the current stage and the outcome of the previous action,
//! `tessellate_join` gives the next action and the stage to resume at. The
//! caller performs each action and reports its outcome, until `Done`.
use vstd::prelude::*;
use crate::join::{
    CurvedAttachment, JoinSides, LineJoin, PreparedArcsJoin, TurnSide, SIDE_NEGATIVE, SIDE_POSITIVE, arcs_outer_side,
    outer_side_of,
};
use crate::join_mesh::{side_needs_join, sides_needing_join};

verus! {

/// The kind of prepared Arcs geometry a join carries.
#[derive(Copy, Clone, Debug, PartialEq, Eq, Structural)]
pub enum ArcsShape {
    /// No Arcs geometry.
    Absent,
    /// A curved join. `clips_radial_edge` when its cut crosses a radial
    /// edge (a mixed clip); `clip_tip_available` when its clip endpoints
    /// exist and fit the output, so that ArcsRound can round the cut.
    Curved { turn: TurnSide, clips_radial_edge: bool, clip_tip_available: bool },
    ParallelRectangle,
    RadialClip { turn: TurnSide },
}

/// What the emission decisions read about a join.
#[derive(Copy, Clone, Debug)]
pub struct JoinContext {
    /// Whether the extended (Arcs and subunit clip) paths are compiled in.
    pub extended: bool,
    /// The style selected for the join.
    pub line_join: LineJoin,
    /// The style that was asked for.
    pub requested_join: LineJoin,
    pub arcs: ArcsShape,
    /// The miter limit is above zero.
    pub miter_limit_positive: bool,
    /// The miter limit is below one.
    pub miter_limit_below_one: bool,
    /// Per side: whether both attachments meet in a single vertex.
    pub single_vertex: [bool; 2],
    /// Per side: whether the side folded.
    pub fold: [bool; 2],
    /// Per side: whether the side needs a join shape.
    pub needs_join: [bool; 2],
}

/// The context of a join described by `join`.
pub open spec fn context_of<Pt>(
    join: JoinSides<Pt>,
    extended: bool,
    requested_join: LineJoin,
    arcs: ArcsShape,
    miter_limit_positive: bool,
    miter_limit_below_one: bool,
    context: JoinContext,
) -> bool {
    &&& context.extended == extended
    &&& context.line_join == join.line_join
    &&& context.requested_join == requested_join
    &&& context.arcs == arcs
    &&& context.miter_limit_positive == miter_limit_positive
    &&& context.miter_limit_below_one == miter_limit_below_one
    &&& context.fold == join.fold
    &&& forall|s: int| 0 <= s < 2 ==> {
        &&& #[trigger] context.single_vertex@[s] == (join.side_points@[s].single_vertex is Some)
        &&& context.needs_join@[s] == side_needs_join(join, s)
    }
}

pub fn join_context<Pt>(
    join: &JoinSides<Pt>,
    extended: bool,
    requested_join: LineJoin,
    arcs: ArcsShape,
    miter_limit_positive: bool,
    miter_limit_below_one: bool,
) -> (context: JoinContext)
    ensures
        context_of(*join, extended, requested_join, arcs, miter_limit_positive, miter_limit_below_one, context),
{
    let needs_join = sides_needing_join(join);
    let context = JoinContext {
        extended,
        line_join: join.line_join,
        requested_join,
        arcs,
        miter_limit_positive,
        miter_limit_below_one,
        single_vertex: [
            join.side_points[SIDE_POSITIVE].single_vertex.is_some(),
            join.side_points[SIDE_NEGATIVE].single_vertex.is_some(),
        ],
        fold: join.fold,
        needs_join,
    };
    context
}

/// The kind of a prepared join's geometry; a curved result is described by
/// `curved`, the same description that aligned the join's sides.
pub fn arcs_shape<Pt, A>(prepared: Option<&PreparedArcsJoin<Pt, A>>, curved: &CurvedAttachment<Pt>) -> (shape:
    ArcsShape)
    ensures
        shape == match prepared {
            None => ArcsShape::Absent,
            Some(PreparedArcsJoin::Curved(_)) => ArcsShape::Curved {
                turn: curved.turn,
                clips_radial_edge: curved.clips_radial_edge,
                clip_tip_available: curved.clip_tip_available,
            },
            Some(PreparedArcsJoin::ParallelRectangle(_)) => ArcsShape::ParallelRectangle,
            Some(PreparedArcsJoin::RadialClip(clip)) => ArcsShape::RadialClip { turn: clip.turn },
        },
{
    match prepared {
        None => ArcsShape::Absent,
        Some(PreparedArcsJoin::Curved(_)) => ArcsShape::Curved {
            turn: curved.turn,
            clips_radial_edge: curved.clips_radial_edge,
            clip_tip_available: curved.clip_tip_available,
        },
        Some(PreparedArcsJoin::ParallelRectangle(_)) => ArcsShape::ParallelRectangle,
        Some(PreparedArcsJoin::RadialClip(clip)) => ArcsShape::RadialClip { turn: clip.turn },
    }
}

/// Where emission resumes.
#[derive(Copy, Clone, Debug, PartialEq, Eq, Structural)]
pub enum JoinStage {
    Start,
    /// The parallel rectangle was emitted.
    RectangleEmitted,
    /// The radial clip was offered; the outcome tells whether it attached.
    RadialClipTried,
    /// The mixed clip was offered; the outcome tells whether it was emitted.
    MixedClipTried,
    /// About to look for a subunit miter cut on a side (2: none left).
    SubunitSide(usize),
    /// A subunit cut was computed; the outcome tells whether one exists.
    SubunitClipComputed(usize),
    /// A subunit cut was offered; the outcome tells whether it attached.
    SubunitClipTried(usize),
    /// About to fill the interior.
    Interior,
    /// About to give a side its shape (2: all sides done).
    Side(usize),
    /// The Arcs shape of a side was offered; the outcome tells whether it
    /// was emitted.
    ArcsTried(usize),
    Finished,
}

/// The next piece of output work.
#[derive(Copy, Clone, Debug, PartialEq, Eq, Structural)]
pub enum JoinAction {
    /// Emit the parallel rectangle.
    EmitParallelRectangle,
    /// Round the far edge of the parallel rectangle.
    RoundRectangleTip,
    /// Offer the radial clip, cut on side `side`; report whether it attached.
    TryRadialClip { side: usize },
    RoundRadialClipTip { side: usize },
    /// Offer the mixed clip mesh; report whether it was emitted.
    TryMixedClip,
    /// Round the cut of the curved join on side `side`.
    RoundCurvedClipTip { side: usize },
    /// Compute a subunit miter cut on side `side`; report whether one exists.
    ComputeSubunitClip { side: usize },
    /// Offer that cut; report whether it attached.
    TrySubunitClip { side: usize },
    RoundSubunitClipTip { side: usize },
    /// Fill the interior between both sides.
    EmitInterior,
    /// Emit a round join on side `side`.
    RoundJoin { side: usize },
    /// Offer the curved Arcs shape on side `side`; report whether it was emitted.
    TryArcs { side: usize },
    /// Round the cut of a clipped miter on side `side`.
    RoundMiterClipTip { side: usize },
    Done,
}

/// Stage indices are sides, or the end of the side sequence.
pub open spec fn stage_valid(stage: JoinStage) -> bool {
    match stage {
        JoinStage::SubunitSide(s) => s <= 2,
        JoinStage::SubunitClipComputed(s) => s < 2,
        JoinStage::SubunitClipTried(s) => s < 2,
        JoinStage::Side(s) => s <= 2,
        JoinStage::ArcsTried(s) => s < 2,
        _ => true,
    }
}

/// How much of the join is left: every action moves to a lower rank.
pub open spec fn stage_rank(stage: JoinStage) -> nat {
    match stage {
        JoinStage::Start => 20,
        JoinStage::RectangleEmitted => 19,
        JoinStage::RadialClipTried => 18,
        JoinStage::MixedClipTried => 17,
        JoinStage::SubunitSide(s) => (16 - 3 * (s as int)) as nat,
        JoinStage::SubunitClipComputed(s) => (15 - 3 * (s as int)) as nat,
        JoinStage::SubunitClipTried(s) => (14 - 3 * (s as int)) as nat,
        JoinStage::Interior => 9,
        JoinStage::Side(s) => (8 - 3 * (s as int)) as nat,
        JoinStage::ArcsTried(s) => (7 - 3 * (s as int)) as nat,
        JoinStage::Finished => 0,
    }
}

/// Whether a subunit miter cut is searched for.
pub open spec fn seeks_subunit_clip(context: JoinContext) -> bool {
    context.line_join == LineJoin::MiterClip && context.miter_limit_below_one
}

/// The end of a successful clip: ArcsRound rounds its cut, then the join is
/// complete.
pub open spec fn finish_clip(context: JoinContext, tip: JoinAction) -> (JoinStage, JoinAction) {
    if context.requested_join == LineJoin::ArcsRound {
        (JoinStage::Finished, tip)
    } else {
        (JoinStage::Finished, JoinAction::Done)
    }
}

/// The next action and the stage to resume at, given the outcome of the
/// previous action. Stages that have nothing to do pass on to the next one.
pub open spec fn join_step(context: JoinContext, stage: JoinStage, outcome: bool) -> (JoinStage, JoinAction)
    decreases stage_rank(stage),
{
    match stage {
        JoinStage::Start => {
            if !context.extended {
                join_step(context, JoinStage::Interior, false)
            } else {
                match context.arcs {
                    ArcsShape::ParallelRectangle => (JoinStage::RectangleEmitted, JoinAction::EmitParallelRectangle),
                    ArcsShape::RadialClip { turn } => (
                        JoinStage::RadialClipTried,
                        JoinAction::TryRadialClip { side: outer_side_of(turn) },
                    ),
                    ArcsShape::Curved { clips_radial_edge, .. } => if clips_radial_edge {
                        (JoinStage::MixedClipTried, JoinAction::TryMixedClip)
                    } else {
                        join_step(context, JoinStage::SubunitSide(0), false)
                    },
                    ArcsShape::Absent => join_step(context, JoinStage::SubunitSide(0), false),
                }
            }
        },
        JoinStage::RectangleEmitted => {
            if context.requested_join == LineJoin::ArcsRound && context.miter_limit_positive {
                (JoinStage::Finished, JoinAction::RoundRectangleTip)
            } else {
                (JoinStage::Finished, JoinAction::Done)
            }
        },
        JoinStage::RadialClipTried => {
            if outcome {
                match context.arcs {
                    ArcsShape::RadialClip { turn } => finish_clip(
                        context,
                        JoinAction::RoundRadialClipTip { side: outer_side_of(turn) },
                    ),
                    _ => (JoinStage::Finished, JoinAction::Done),
                }
            } else {
                join_step(context, JoinStage::SubunitSide(0), false)
            }
        },
        JoinStage::MixedClipTried => {
            if outcome {
                match context.arcs {
                    ArcsShape::Curved { turn, clip_tip_available, .. } => if clip_tip_available {
                        finish_clip(context, JoinAction::RoundCurvedClipTip { side: outer_side_of(turn) })
                    } else {
                        (JoinStage::Finished, JoinAction::Done)
                    },
                    _ => (JoinStage::Finished, JoinAction::Done),
                }
            } else {
                join_step(context, JoinStage::SubunitSide(0), false)
            }
        },
        JoinStage::SubunitSide(s) => {
            if s > 2 {
                (JoinStage::Finished, JoinAction::Done)
            } else if s == 2 || !seeks_subunit_clip(context) {
                join_step(context, JoinStage::Interior, false)
            } else if context.single_vertex@[s as int] {
                join_step(context, JoinStage::SubunitSide((s + 1) as usize), false)
            } else {
                (JoinStage::SubunitClipComputed(s), JoinAction::ComputeSubunitClip { side: s })
            }
        },
        JoinStage::SubunitClipComputed(s) => {
            if s >= 2 {
                (JoinStage::Finished, JoinAction::Done)
            } else if outcome {
                (JoinStage::SubunitClipTried(s), JoinAction::TrySubunitClip { side: s })
            } else {
                join_step(context, JoinStage::SubunitSide((s + 1) as usize), false)
            }
        },
        JoinStage::SubunitClipTried(s) => {
            if s >= 2 {
                (JoinStage::Finished, JoinAction::Done)
            } else if outcome {
                finish_clip(context, JoinAction::RoundSubunitClipTip { side: s })
            } else {
                join_step(context, JoinStage::SubunitSide((s + 1) as usize), false)
            }
        },
        JoinStage::Interior => (JoinStage::Side(0), JoinAction::EmitInterior),
        JoinStage::Side(s) => {
            if s >= 2 {
                (JoinStage::Finished, JoinAction::Done)
            } else if !context.needs_join@[s as int] {
                join_step(context, JoinStage::Side((s + 1) as usize), false)
            } else {
                match context.line_join {
                    LineJoin::Round => (JoinStage::Side((s + 1) as usize), JoinAction::RoundJoin { side: s }),
                    LineJoin::Arcs | LineJoin::ArcsRound => if !context.extended {
                        join_step(context, JoinStage::Side((s + 1) as usize), false)
                    } else {
                        match context.arcs {
                            ArcsShape::Curved { turn, .. } => if s == outer_side_of(turn) {
                                (JoinStage::ArcsTried(s), JoinAction::TryArcs { side: s })
                            } else {
                                (JoinStage::Side((s + 1) as usize), JoinAction::RoundJoin { side: s })
                            },
                            _ => (JoinStage::Side((s + 1) as usize), JoinAction::RoundJoin { side: s }),
                        }
                    },
                    LineJoin::MiterClip => if context.extended && context.requested_join
                        == LineJoin::ArcsRound {
                        (JoinStage::Side((s + 1) as usize), JoinAction::RoundMiterClipTip { side: s })
                    } else {
                        join_step(context, JoinStage::Side((s + 1) as usize), false)
                    },
                    _ => join_step(context, JoinStage::Side((s + 1) as usize), false),
                }
            }
        },
        JoinStage::ArcsTried(s) => {
            if s >= 2 {
                (JoinStage::Finished, JoinAction::Done)
            } else if !outcome {
                (JoinStage::Side((s + 1) as usize), JoinAction::RoundJoin { side: s })
            } else if context.requested_join == LineJoin::ArcsRound && (match context.arcs {
                ArcsShape::Curved { clip_tip_available, .. } => clip_tip_available,
                _ => false,
            }) {
                (JoinStage::Side((s + 1) as usize), JoinAction::RoundCurvedClipTip { side: s })
            } else {
                join_step(context, JoinStage::Side((s + 1) as usize), false)
            }
        },
        JoinStage::Finished => (JoinStage::Finished, JoinAction::Done),
    }
}

/// One step of tessellating a join: the next action and the stage to
/// resume at, given the outcome of the previous action (see `join_step`).
pub fn tessellate_join(context: &JoinContext, stage: JoinStage, outcome: bool) -> (next: (
    JoinStage,
    JoinAction,
))
    ensures
        next == join_step(*context, stage, outcome),
{
    let ghost target = join_step(*context, stage, outcome);
    let mut current = stage;
    let mut reported = outcome;
    loop
        invariant
            join_step(*context, current, reported) == target,
            target == join_step(*context, stage, outcome),
        decreases stage_rank(current),
    {
        match current {
            JoinStage::Start => {
                if !context.extended {
                    current = JoinStage::Interior;
                    reported = false;
                } else {
                    match context.arcs {
                        ArcsShape::ParallelRectangle => {
                            return (JoinStage::RectangleEmitted, JoinAction::EmitParallelRectangle);
                        },
                        ArcsShape::RadialClip { turn } => {
                            return (
                                JoinStage::RadialClipTried,
                                JoinAction::TryRadialClip { side: arcs_outer_side(turn) },
                            );
                        },
                        ArcsShape::Curved { clips_radial_edge, .. } => {
                            if clips_radial_edge {
                                return (JoinStage::MixedClipTried, JoinAction::TryMixedClip);
                            }
                            current = JoinStage::SubunitSide(0);
                            reported = false;
                        },
                        ArcsShape::Absent => {
                            current = JoinStage::SubunitSide(0);
                            reported = false;
                        },
                    }
                }
            },
            JoinStage::RectangleEmitted => {
                if context.requested_join == LineJoin::ArcsRound && context.miter_limit_positive {
                    return (JoinStage::Finished, JoinAction::RoundRectangleTip);
                }
                return (JoinStage::Finished, JoinAction::Done);
            },
            JoinStage::RadialClipTried => {
                if reported {
                    match context.arcs {
                        ArcsShape::RadialClip { turn } => {
                            if context.requested_join == LineJoin::ArcsRound {
                                return (
                                    JoinStage::Finished,
                                    JoinAction::RoundRadialClipTip { side: arcs_outer_side(turn) },
                                );
                            }
                            return (JoinStage::Finished, JoinAction::Done);
                        },
                        _ => {
                            return (JoinStage::Finished, JoinAction::Done);
                        },
                    }
                }
                current = JoinStage::SubunitSide(0);
                reported = false;
            },
            JoinStage::MixedClipTried => {
                if reported {
                    match context.arcs {
                        ArcsShape::Curved { turn, clip_tip_available, .. } => {
                            if clip_tip_available && context.requested_join == LineJoin::ArcsRound {
                                return (
                                    JoinStage::Finished,
                                    JoinAction::RoundCurvedClipTip { side: arcs_outer_side(turn) },
                                );
                            }
                            return (JoinStage::Finished, JoinAction::Done);
                        },
                        _ => {
                            return (JoinStage::Finished, JoinAction::Done);
                        },
                    }
                }
                current = JoinStage::SubunitSide(0);
                reported = false;
            },
            JoinStage::SubunitSide(s) => {
                if s > 2 {
                    return (JoinStage::Finished, JoinAction::Done);
                } else if s == 2 || !(context.line_join == LineJoin::MiterClip
                    && context.miter_limit_below_one) {
                    current = JoinStage::Interior;
                    reported = false;
                } else if context.single_vertex[s] {
                    current = JoinStage::SubunitSide(s + 1);
                    reported = false;
                } else {
                    return (JoinStage::SubunitClipComputed(s), JoinAction::ComputeSubunitClip { side: s });
                }
            },
            JoinStage::SubunitClipComputed(s) => {
                if s >= 2 {
                    return (JoinStage::Finished, JoinAction::Done);
                } else if reported {
                    return (JoinStage::SubunitClipTried(s), JoinAction::TrySubunitClip { side: s });
                }
                current = JoinStage::SubunitSide(s + 1);
                reported = false;
            },
            JoinStage::SubunitClipTried(s) => {
                if s >= 2 {
                    return (JoinStage::Finished, JoinAction::Done);
                } else if reported {
                    if context.requested_join == LineJoin::ArcsRound {
                        return (JoinStage::Finished, JoinAction::RoundSubunitClipTip { side: s });
                    }
                    return (JoinStage::Finished, JoinAction::Done);
                }
                current = JoinStage::SubunitSide(s + 1);
                reported = false;
            },
            JoinStage::Interior => {
                return (JoinStage::Side(0), JoinAction::EmitInterior);
            },
            JoinStage::Side(s) => {
                if s >= 2 {
                    return (JoinStage::Finished, JoinAction::Done);
                } else if !context.needs_join[s] {
                    current = JoinStage::Side(s + 1);
                    reported = false;
                } else {
                    match context.line_join {
                        LineJoin::Round => {
                            return (JoinStage::Side(s + 1), JoinAction::RoundJoin { side: s });
                        },
                        LineJoin::Arcs | LineJoin::ArcsRound => {
                            if !context.extended {
                                current = JoinStage::Side(s + 1);
                                reported = false;
                            } else {
                                match context.arcs {
                                    ArcsShape::Curved { turn, .. } => {
                                        if s == arcs_outer_side(turn) {
                                            return (JoinStage::ArcsTried(s), JoinAction::TryArcs { side: s });
                                        }
                                        return (JoinStage::Side(s + 1), JoinAction::RoundJoin { side: s });
                                    },
                                    _ => {
                                        return (JoinStage::Side(s + 1), JoinAction::RoundJoin { side: s });
                                    },
                                }
                            }
                        },
                        LineJoin::MiterClip => {
                            if context.extended && context.requested_join == LineJoin::ArcsRound {
                                return (JoinStage::Side(s + 1), JoinAction::RoundMiterClipTip { side: s });
                            }
                            current = JoinStage::Side(s + 1);
                            reported = false;
                        },
                        _ => {
                            current = JoinStage::Side(s + 1);
                            reported = false;
                        },
                    }
                }
            },
            JoinStage::ArcsTried(s) => {
                if s >= 2 {
                    return (JoinStage::Finished, JoinAction::Done);
                } else if !reported {
                    return (JoinStage::Side(s + 1), JoinAction::RoundJoin { side: s });
                }
                let tip = match context.arcs {
                    ArcsShape::Curved { clip_tip_available, .. } => clip_tip_available,
                    _ => false,
                };
                if context.requested_join == LineJoin::ArcsRound && tip {
                    return (JoinStage::Side(s + 1), JoinAction::RoundCurvedClipTip { side: s });
                }
                current = JoinStage::Side(s + 1);
                reported = false;
            },
            JoinStage::Finished => {
                return (JoinStage::Finished, JoinAction::Done);
            },
        }
    }
}

} // verus!
