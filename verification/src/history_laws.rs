//! Properties of the endpoint history that span several operations.
use vstd::prelude::*;
use crate::differentials::{EndpointDifferentials, SegmentDifferentials, no_differentials};
use crate::history::{DifferentialState, HistoryState};

verus! {

/// Every operation keeps both histories within their bounds and, while
/// derivatives are tracked, keeps one derivative entry per held point and per
/// saved first point.
pub proof fn lemma_operations_keep_histories_aligned<P, R>(
    history: HistoryState<P, R>,
    point: P,
    is_endpoint: bool,
    segment: SegmentDifferentials<R>,
    closing: Option<SegmentDifferentials<R>>,
)
    requires
        history.consistent(),
    ensures
        history.enable_differentials().consistent(),
        history.push(point, is_endpoint).consistent(),
        history.second_for_close().consistent(),
        history.clear().consistent(),
        history.points.len() > 0 ==> history.replace_last(point, is_endpoint).consistent(),
        history.points.len() > 0 ==> history.record_segment(segment).consistent(),
        history.points.len() > 0 && history.firsts.len() > 0 ==> history.first_for_close(
            closing,
        ).consistent(),
        history.points.len() >= 2 && history.firsts.len() == 0 ==> history.capture_firsts().consistent(),
{
}

/// A history started over storage that respects the bounds is consistent.
pub proof fn lemma_started_history_is_aligned<P, R>(storage: DifferentialState<R>, enabled: bool)
    requires
        storage.points.len() <= 3,
        storage.firsts.len() <= 2,
    ensures
        HistoryState::<P, R>::started(storage, enabled).consistent(),
{
}

/// Clearing a history leaves exactly what starting a fresh history over the
/// same storage gives, so a history can be reused contour after contour.
pub proof fn lemma_clear_restarts<P, R>(history: HistoryState<P, R>)
    ensures
        history.clear() == HistoryState::<P, R>::started(history.differentials, history.enabled),
{
    assert(history.clear() =~= HistoryState::<P, R>::started(history.differentials, history.enabled));
}

/// While derivatives are disabled no operation other than enabling touches
/// the derivative storage; recording a segment or preparing a closure
/// changes nothing at all.
pub proof fn lemma_disabled_history_leaves_storage_untouched<P, R>(
    history: HistoryState<P, R>,
    point: P,
    is_endpoint: bool,
    segment: SegmentDifferentials<R>,
    closing: Option<SegmentDifferentials<R>>,
)
    requires
        !history.enabled,
    ensures
        history.record_segment(segment) == history,
        history.first_for_close(closing) == history,
        history.second_for_close() == history,
        history.push(point, is_endpoint).differentials == history.differentials,
        history.replace_last(point, is_endpoint).differentials == history.differentials,
        history.capture_firsts().differentials == history.differentials,
        history.clear().differentials == history.differentials,
{
}

/// Enabling derivatives twice is the same as enabling them once.
pub proof fn lemma_enable_is_idempotent<P, R>(history: HistoryState<P, R>)
    ensures
        history.enable_differentials().enable_differentials() == history.enable_differentials(),
{
}

/// A flattened sample, pushed or replacing the newest point, gets no
/// derivatives and leaves the pending endpoint derivatives in place; the
/// endpoint that finally replaces it receives them.
pub proof fn lemma_samples_keep_pending_derivatives<P, R>(
    history: HistoryState<P, R>,
    sample: P,
    endpoint: P,
)
    requires
        history.consistent(),
        history.enabled,
        history.points.len() > 0,
    ensures
        history.push(sample, false).differentials.current() == no_differentials::<R>(),
        history.push(sample, false).differentials.next == history.differentials.next,
        history.replace_last(sample, false).differentials.current() == no_differentials::<R>(),
        history.replace_last(sample, false).differentials.next == history.differentials.next,
        history.push(sample, false).replace_last(sample, false).replace_last(
            endpoint,
            true,
        ).differentials.current() == history.differentials.next,
        history.push(sample, false).replace_last(sample, false).replace_last(
            endpoint,
            true,
        ).differentials.next == no_differentials::<R>(),
{
}

/// The derivative recorded at the end of a segment becomes the incoming
/// derivative of the next endpoint pushed, whatever samples came between
/// as replacements.
pub proof fn lemma_segment_end_reaches_next_endpoint<P, R>(
    history: HistoryState<P, R>,
    segment: SegmentDifferentials<R>,
    endpoint: P,
)
    requires
        history.consistent(),
        history.enabled,
        history.points.len() > 0,
    ensures
        history.record_segment(segment).push(endpoint, true).differentials.current().incoming
            == segment.end,
        history.record_segment(segment).differentials.current().outgoing == segment.start,
        history.record_segment(segment).differentials.current().incoming
            == history.differentials.current().incoming,
{
}

/// Closing onto a point that already lies on the first one (an explicit
/// closure) keeps the newest point's incoming derivative and gives it the
/// first point's outgoing derivative; the first point becomes pending as is.
pub proof fn lemma_explicit_closure_keeps_incoming<P, R>(history: HistoryState<P, R>)
    requires
        history.consistent(),
        history.enabled,
        history.points.len() > 0,
        history.firsts.len() > 0,
    ensures
        history.first_for_close(None).differentials.current() == (EndpointDifferentials {
            incoming: history.differentials.current().incoming,
            outgoing: history.differentials.firsts[0].outgoing,
        }),
        history.first_for_close(None).differentials.next == history.differentials.firsts[0],
{
}

/// Closing with a straight segment gives the newest point the segment's
/// start derivative and the first point, pushed again, the segment's end
/// derivative as incoming side.
pub proof fn lemma_implicit_closure_uses_closing_segment<P, R>(
    history: HistoryState<P, R>,
    closing: SegmentDifferentials<R>,
)
    requires
        history.consistent(),
        history.enabled,
        history.points.len() > 0,
        history.firsts.len() > 0,
    ensures
        history.first_for_close(Some(closing)).differentials.current().outgoing == closing.start,
        history.first_for_close(Some(closing)).differentials.current().incoming
            == history.differentials.current().incoming,
        history.first_for_close(Some(closing)).push(history.firsts[0], true).differentials.current()
            == (EndpointDifferentials {
            incoming: closing.end,
            outgoing: history.differentials.firsts[0].outgoing,
        }),
{
}

/// Enabling derivatives after the first points were saved gives them unknown
/// derivatives: closing the contour still works, the closing segment reaches
/// the first point and the second point is pushed again with nothing known.
pub proof fn lemma_enabling_late_preserves_closure<P, R>(
    history: HistoryState<P, R>,
    closing: SegmentDifferentials<R>,
)
    requires
        history.consistent(),
        !history.enabled,
        history.points.len() > 0,
        history.firsts.len() == 2,
    ensures
        ({
            let enabled = history.enable_differentials();
            &&& enabled.consistent()
            &&& enabled.differentials.points.len() == history.points.len()
            &&& enabled.first_for_close(Some(closing)).push(history.firsts[0], true).differentials.current().incoming
                == closing.end
            &&& enabled.second_for_close().push(history.firsts[1], true).differentials.current()
                == no_differentials::<R>()
        }),
{
    let enabled = history.enable_differentials();
    assert(enabled.differentials.firsts[1] == no_differentials::<R>());
}

/// The window holds at most three points and the newest one is the point
/// just pushed.
pub proof fn lemma_push_keeps_newest<P, R>(history: HistoryState<P, R>, point: P, is_endpoint: bool)
    requires
        history.consistent(),
    ensures
        history.push(point, is_endpoint).points.last() == point,
        history.push(point, is_endpoint).points.len() == if history.points.len() < 3 {
            history.points.len() + 1
        } else {
            3
        },
        history.points.len() == 3 ==> history.push(point, is_endpoint).points.drop_last()
            == history.points.drop_first(),
{
    if history.points.len() == 3 {
        assert(history.push(point, is_endpoint).points.drop_last() =~= history.points.drop_first());
    }
}

} // verus!
