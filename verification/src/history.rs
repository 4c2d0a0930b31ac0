//! The endpoint history of a contour being stroked, and the optional history
//! of endpoint derivatives that is updated together with it.
//!
//! Every structural change (push, replacement, capturing the first endpoints,
//! closing, clearing) is applied to both histories at once, so that while
//! derivatives are enabled the two stay aligned entry for entry.
use vstd::prelude::*;
use crate::differentials::{EndpointDifferentials, SegmentDifferentials, no_differentials};
use crate::point_buffer::{PointBuffer, window_push, filled_window};

verus! {

/// The abstract content of a derivative history.
#[verifier::ext_equal]
pub struct DifferentialState<R> {
    /// Derivatives of the points in the endpoint window, oldest first.
    pub points: Seq<EndpointDifferentials<R>>,
    /// Derivatives of the first two points of the contour, once captured.
    pub firsts: Seq<EndpointDifferentials<R>>,
    /// Derivatives waiting for the next endpoint to be pushed.
    pub next: EndpointDifferentials<R>,
}

impl<R> DifferentialState<R> {
    pub open spec fn empty() -> Self {
        DifferentialState { points: Seq::empty(), firsts: Seq::empty(), next: no_differentials() }
    }

    /// Forget everything and hold `point_count` unknown entries.
    pub open spec fn reset(self, point_count: nat) -> Self {
        DifferentialState {
            points: filled_window(point_count, no_differentials()),
            firsts: Seq::empty(),
            next: no_differentials(),
        }
    }

    /// The newest point gets the segment's start derivative as its outgoing
    /// side; the segment's end derivative waits for the next endpoint.
    pub open spec fn record_segment(self, segment: SegmentDifferentials<R>) -> Self {
        let last = self.points.last();
        DifferentialState {
            points: self.points.update(
                self.points.len() - 1,
                EndpointDifferentials { incoming: last.incoming, outgoing: segment.start },
            ),
            firsts: self.firsts,
            next: EndpointDifferentials { incoming: segment.end, outgoing: self.next.outgoing },
        }
    }

    /// What a pushed or replacing point receives: the pending derivatives
    /// for an original endpoint, nothing for a flattened sample.
    pub open spec fn taken(self, is_endpoint: bool) -> EndpointDifferentials<R> {
        if is_endpoint {
            self.next
        } else {
            no_differentials()
        }
    }

    /// The pending derivatives after a point was pushed or replaced: an
    /// endpoint consumes them, a flattened sample leaves them pending.
    pub open spec fn next_after(self, is_endpoint: bool) -> EndpointDifferentials<R> {
        if is_endpoint {
            no_differentials()
        } else {
            self.next
        }
    }

    pub open spec fn push_next(self, is_endpoint: bool) -> Self {
        DifferentialState {
            points: window_push(self.points, self.taken(is_endpoint)),
            firsts: self.firsts,
            next: self.next_after(is_endpoint),
        }
    }

    pub open spec fn replace_last_with_next(self, is_endpoint: bool) -> Self {
        DifferentialState {
            points: self.points.update(self.points.len() - 1, self.taken(is_endpoint)),
            firsts: self.firsts,
            next: self.next_after(is_endpoint),
        }
    }

    /// Save the derivatives of the two newest points as the contour's first two.
    pub open spec fn capture_firsts(self) -> Self {
        DifferentialState {
            points: self.points,
            firsts: self.firsts.push(self.points[self.points.len() - 2]).push(
                self.points[self.points.len() - 1],
            ),
            next: self.next,
        }
    }

    /// Prepare the closing segment back to the first point. `closing` is
    /// `None` when the last point already lies on the first one (an explicit
    /// closure), and otherwise the derivatives of the straight closing
    /// segment. The first point becomes the pending entry.
    pub open spec fn prepare_first_for_close(self, closing: Option<SegmentDifferentials<R>>) -> Self {
        let first = self.firsts[0];
        let last = self.points.last();
        match closing {
            Option::None => DifferentialState {
                points: self.points.update(
                    self.points.len() - 1,
                    EndpointDifferentials { incoming: last.incoming, outgoing: first.outgoing },
                ),
                firsts: self.firsts,
                next: first,
            },
            Option::Some(segment) => DifferentialState {
                points: self.points.update(
                    self.points.len() - 1,
                    EndpointDifferentials { incoming: last.incoming, outgoing: segment.start },
                ),
                firsts: self.firsts,
                next: EndpointDifferentials { incoming: segment.end, outgoing: first.outgoing },
            },
        }
    }

    /// The second point of the contour becomes the pending entry.
    pub open spec fn prepare_second_for_close(self) -> Self {
        DifferentialState { points: self.points, firsts: self.firsts, next: self.firsts[1] }
    }

    /// The derivatives of the newest point.
    pub open spec fn current(self) -> EndpointDifferentials<R> {
        self.points.last()
    }
}

/// Storage for the derivatives of a contour's endpoints.
pub struct DifferentialHistory<R> {
    point_buffer: PointBuffer<EndpointDifferentials<R>>,
    firsts: Vec<EndpointDifferentials<R>>,
    next: EndpointDifferentials<R>,
}

impl<R> DifferentialHistory<R> {
    pub closed spec fn wf(&self) -> bool {
        &&& self.point_buffer.wf()
        &&& self.point_buffer@.len() <= 3
        &&& self.firsts@.len() <= 2
    }

    pub closed spec fn state(&self) -> DifferentialState<R> {
        DifferentialState { points: self.point_buffer@, firsts: self.firsts@, next: self.next }
    }

    /// A valid derivative storage holds at most three point entries and at
    /// most two first-point entries.
    pub proof fn lemma_wf_bounds(&self)
        requires
            self.wf(),
        ensures
            self@.points.len() <= 3,
            self@.firsts.len() <= 2,
    {
    }
}

impl<R> View for DifferentialHistory<R> {
    type V = DifferentialState<R>;

    open spec fn view(&self) -> DifferentialState<R> {
        self.state()
    }
}

impl<R: Copy> Default for DifferentialHistory<R> {
    fn default() -> (history: Self)
        ensures
            history.wf(),
            history@ == DifferentialState::<R>::empty(),
    {
        DifferentialHistory {
            point_buffer: PointBuffer::new(),
            firsts: Vec::new(),
            next: EndpointDifferentials::default(),
        }
    }
}

impl<R: Copy> DifferentialHistory<R> {
    /// The derivatives of the newest point.
    pub fn current(&self) -> (d: EndpointDifferentials<R>)
        requires
            self.wf(),
            self@.points.len() > 0,
        ensures
            d == self@.current(),
    {
        *self.point_buffer.last()
    }

    /// Forgets everything and holds `point_count` unknown entries (at most
    /// three are kept).
    pub fn reset_differentials(&mut self, point_count: usize)
        ensures
            final(self).wf(),
            final(self)@ == old(self)@.reset(point_count as nat),
    {
        self.point_buffer.clear();
        self.firsts.clear();
        self.next = EndpointDifferentials::default();
        let mut i: usize = 0;
        while i < point_count
            invariant
                i <= point_count,
                self.wf(),
                self.firsts@.len() == 0,
                self.next == no_differentials::<R>(),
                self.point_buffer@ == filled_window(i as nat, no_differentials::<R>()),
            decreases point_count - i,
        {
            self.point_buffer.push(EndpointDifferentials::default());
            proof {
                assert(self.point_buffer@ =~= filled_window((i + 1) as nat, no_differentials::<R>()));
            }
            i = i + 1;
        }
        proof {
            assert(self@ =~= old(self)@.reset(point_count as nat));
        }
    }

    /// Records the derivatives of the segment leaving the newest point.
    pub fn record_segment(&mut self, differentials: SegmentDifferentials<R>)
        requires
            old(self).wf(),
            old(self)@.points.len() > 0,
        ensures
            final(self).wf(),
            final(self)@ == old(self)@.record_segment(differentials),
    {
        let last = self.point_buffer.last_mut();
        last.outgoing = differentials.start;
        self.next.incoming = differentials.end;
    }

    /// Appends the entry of a new point (see `take_next`).
    pub fn push_next(&mut self, is_endpoint: bool)
        requires
            old(self).wf(),
        ensures
            final(self).wf(),
            final(self)@ == old(self)@.push_next(is_endpoint),
    {
        let next = self.take_next(is_endpoint);
        self.point_buffer.push(next);
    }

    /// Replaces the entry of the newest point (see `take_next`).
    pub fn replace_last_with_next(&mut self, is_endpoint: bool)
        requires
            old(self).wf(),
            old(self)@.points.len() > 0,
        ensures
            final(self).wf(),
            final(self)@ == old(self)@.replace_last_with_next(is_endpoint),
    {
        let next = self.take_next(is_endpoint);
        self.point_buffer.replace_last(next);
    }

    /// The entry for a new point: an endpoint takes the pending derivatives,
    /// a flattened sample takes none and leaves them pending.
    pub fn take_next(&mut self, is_endpoint: bool) -> (taken: EndpointDifferentials<R>)
        requires
            old(self).wf(),
        ensures
            taken == old(self)@.taken(is_endpoint),
            final(self).wf(),
            final(self)@.points == old(self)@.points,
            final(self)@.firsts == old(self)@.firsts,
            final(self)@.next == old(self)@.next_after(is_endpoint),
    {
        if !is_endpoint {
            return EndpointDifferentials::default();
        }
        let next = self.next;
        self.next = EndpointDifferentials::default();
        next
    }

    /// Saves the entries of the two newest points as the contour's first two.
    pub fn capture_firsts(&mut self)
        requires
            old(self).wf(),
            old(self)@.points.len() >= 2,
            old(self)@.firsts.len() == 0,
        ensures
            final(self).wf(),
            final(self)@ == old(self)@.capture_firsts(),
    {
        let (prev, join) = self.point_buffer.last_two();
        let prev = *prev;
        let join = *join;
        self.firsts.push(prev);
        self.firsts.push(join);
    }

    /// Prepares closing the contour onto its first point; `closing` is `None`
    /// when the newest point lies on the first point, otherwise the
    /// derivatives of the straight closing segment.
    pub fn prepare_first_for_close(&mut self, closing: Option<SegmentDifferentials<R>>)
        requires
            old(self).wf(),
            old(self)@.points.len() > 0,
            old(self)@.firsts.len() > 0,
        ensures
            final(self).wf(),
            final(self)@ == old(self)@.prepare_first_for_close(closing),
    {
        let mut first = self.firsts[0];
        match closing {
            Option::None => {
                let last = self.point_buffer.last_mut();
                last.outgoing = first.outgoing;
            },
            Option::Some(segment) => {
                let last = self.point_buffer.last_mut();
                last.outgoing = segment.start;
                first.incoming = segment.end;
            },
        }
        self.next = first;
    }

    /// Makes the second point's entry pending, to push it again.
    pub fn prepare_second_for_close(&mut self)
        requires
            old(self).wf(),
            old(self)@.firsts.len() > 1,
        ensures
            final(self).wf(),
            final(self)@ == old(self)@.prepare_second_for_close(),
    {
        self.next = self.firsts[1];
    }

    /// Forgets every entry.
    pub fn clear(&mut self)
        ensures
            final(self).wf(),
            final(self)@ == old(self)@.reset(0),
    {
        self.reset_differentials(0);
    }
}

/// The abstract content of an endpoint history.
#[verifier::ext_equal]
pub struct HistoryState<P, R> {
    /// The newest points of the contour, oldest first (at most three).
    pub points: Seq<P>,
    /// The first two points of the contour, once captured.
    pub firsts: Seq<P>,
    /// The derivative storage.
    pub differentials: DifferentialState<R>,
    /// Whether derivatives are tracked.
    pub enabled: bool,
}

impl<P, R> HistoryState<P, R> {
    /// The bounds of both histories, and, while derivatives are tracked,
    /// their alignment: one derivative entry per held point and per saved
    /// first point.
    pub open spec fn consistent(self) -> bool {
        &&& self.points.len() <= 3
        &&& self.firsts.len() <= 2
        &&& self.differentials.points.len() <= 3
        &&& self.differentials.firsts.len() <= 2
        &&& self.enabled ==> {
            &&& self.differentials.points.len() == self.points.len()
            &&& self.differentials.firsts.len() == self.firsts.len()
        }
    }

    pub open spec fn with_points(self, points: Seq<P>) -> Self {
        HistoryState { points, firsts: self.firsts, differentials: self.differentials, enabled: self.enabled }
    }

    pub open spec fn with_differentials(self, differentials: DifferentialState<R>) -> Self {
        HistoryState { points: self.points, firsts: self.firsts, differentials, enabled: self.enabled }
    }

    /// A fresh history over `storage`; enabled storage is cleared first.
    pub open spec fn started(storage: DifferentialState<R>, enabled: bool) -> Self {
        HistoryState {
            points: Seq::empty(),
            firsts: Seq::empty(),
            differentials: if enabled { storage.reset(0) } else { storage },
            enabled,
        }
    }

    /// Start tracking derivatives: every held point and saved first point
    /// gets an unknown entry. Has no effect once enabled.
    pub open spec fn enable_differentials(self) -> Self {
        if self.enabled {
            self
        } else {
            HistoryState {
                points: self.points,
                firsts: self.firsts,
                differentials: DifferentialState {
                    points: filled_window(self.points.len(), no_differentials()),
                    firsts: Seq::new(self.firsts.len(), |i: int| no_differentials()),
                    next: no_differentials(),
                },
                enabled: true,
            }
        }
    }

    pub open spec fn record_segment(self, segment: SegmentDifferentials<R>) -> Self {
        if self.enabled {
            self.with_differentials(self.differentials.record_segment(segment))
        } else {
            self
        }
    }

    pub open spec fn push(self, point: P, is_endpoint: bool) -> Self {
        HistoryState {
            points: window_push(self.points, point),
            firsts: self.firsts,
            differentials: if self.enabled {
                self.differentials.push_next(is_endpoint)
            } else {
                self.differentials
            },
            enabled: self.enabled,
        }
    }

    pub open spec fn replace_last(self, point: P, is_endpoint: bool) -> Self {
        HistoryState {
            points: self.points.update(self.points.len() - 1, point),
            firsts: self.firsts,
            differentials: if self.enabled {
                self.differentials.replace_last_with_next(is_endpoint)
            } else {
                self.differentials
            },
            enabled: self.enabled,
        }
    }

    pub open spec fn capture_firsts(self) -> Self {
        HistoryState {
            points: self.points,
            firsts: self.firsts.push(self.points[self.points.len() - 2]).push(
                self.points[self.points.len() - 1],
            ),
            differentials: if self.enabled {
                self.differentials.capture_firsts()
            } else {
                self.differentials
            },
            enabled: self.enabled,
        }
    }

    pub open spec fn first_for_close(self, closing: Option<SegmentDifferentials<R>>) -> Self {
        if self.enabled {
            self.with_differentials(self.differentials.prepare_first_for_close(closing))
        } else {
            self
        }
    }

    pub open spec fn second_for_close(self) -> Self {
        if self.enabled && self.firsts.len() >= 2 {
            self.with_differentials(self.differentials.prepare_second_for_close())
        } else {
            self
        }
    }

    pub open spec fn clear(self) -> Self {
        HistoryState {
            points: Seq::empty(),
            firsts: Seq::empty(),
            differentials: if self.enabled {
                self.differentials.reset(0)
            } else {
                self.differentials
            },
            enabled: self.enabled,
        }
    }
}

/// The newest endpoints of a contour, the contour's first two endpoints, and
/// the derivative storage that follows them while derivatives are enabled.
pub struct EndpointHistory<P, R> {
    points: PointBuffer<P>,
    firsts: Vec<P>,
    differentials: DifferentialHistory<R>,
    enabled: bool,
}

impl<P, R> EndpointHistory<P, R> {
    pub closed spec fn state(&self) -> HistoryState<P, R> {
        HistoryState {
            points: self.points@,
            firsts: self.firsts@,
            differentials: self.differentials@,
            enabled: self.enabled,
        }
    }

    pub closed spec fn wf(&self) -> bool {
        &&& self.points.wf()
        &&& self.differentials.wf()
        &&& self.state().consistent()
    }

    /// A valid history is consistent: both histories are bounded and, while
    /// derivatives are tracked, aligned entry for entry.
    pub proof fn lemma_wf_consistent(&self)
        requires
            self.wf(),
        ensures
            self@.consistent(),
    {
    }
}

impl<P, R> View for EndpointHistory<P, R> {
    type V = HistoryState<P, R>;

    open spec fn view(&self) -> HistoryState<P, R> {
        self.state()
    }
}

impl<P: Copy + Default, R: Copy> EndpointHistory<P, R> {
    /// Starts a contour over `differentials`, which is cleared when enabled
    /// and left untouched otherwise.
    pub fn new(storage: DifferentialHistory<R>, enabled: bool) -> (history: Self)
        requires
            storage.wf(),
        ensures
            history.wf(),
            history@ == HistoryState::<P, R>::started(storage@, enabled),
    {
        let mut differentials = storage;
        if enabled {
            differentials.reset_differentials(0);
        }
        let history = EndpointHistory { points: PointBuffer::new(), firsts: Vec::new(), differentials, enabled };
        proof {
            assert(history@ =~= HistoryState::<P, R>::started(storage@, enabled));
        }
        history
    }

    /// Hands the derivative storage back for reuse by the next contour.
    pub fn into_differentials(self) -> (differentials: DifferentialHistory<R>)
        requires
            self.wf(),
        ensures
            differentials.wf(),
            differentials@ == self@.differentials,
    {
        self.differentials
    }

    /// Starts tracking derivatives in the middle of a contour.
    pub fn enable_differentials(&mut self)
        requires
            old(self).wf(),
        ensures
            final(self).wf(),
            final(self)@ == old(self)@.enable_differentials(),
    {
        if !self.enabled {
            let count = self.points.count();
            self.differentials.reset_differentials(count);
            let n = self.firsts.len();
            for _i in 0..n
                invariant
                    n == self.firsts@.len(),
                    n <= 2,
                    !self.enabled,
                    self.points == old(self).points,
                    self.firsts == old(self).firsts,
                    count == self.points@.len(),
                    self.differentials.wf(),
                    self.differentials@.points == filled_window(count as nat, no_differentials::<R>()),
                    self.differentials@.next == no_differentials::<R>(),
                    self.differentials@.firsts == Seq::new(_i as nat, |i: int| no_differentials::<R>()),
            {
                self.differentials.firsts.push(EndpointDifferentials::default());
                proof {
                    assert(self.differentials@.firsts =~= Seq::new((_i + 1) as nat, |i: int| no_differentials::<R>()));
                }
            }
            self.enabled = true;
            proof {
                assert(self@ =~= old(self)@.enable_differentials());
            }
        }
    }

    /// Records the derivatives of the segment leaving the newest point.
    /// `compute` is called only while derivatives are enabled.
    pub fn record_segment<F: FnOnce() -> SegmentDifferentials<R>>(&mut self, compute: F)
        requires
            old(self).wf(),
            old(self)@.enabled ==> old(self)@.points.len() > 0,
            old(self)@.enabled ==> compute.requires(()),
        ensures
            final(self).wf(),
            !old(self)@.enabled ==> final(self)@ == old(self)@,
            old(self)@.enabled ==> (exists|segment: SegmentDifferentials<R>|
                compute.ensures((), segment) && final(self)@ == old(self)@.record_segment(segment)),
    {
        if self.enabled {
            let segment = compute();
            self.differentials.record_segment(segment);
            proof {
                assert(self@ =~= old(self)@.record_segment(segment));
            }
        }
    }

    /// Appends a point. `is_endpoint` tells an original endpoint, which takes
    /// the pending derivatives, from a flattened sample, which takes none.
    pub fn push(&mut self, point: &P, is_endpoint: bool)
        requires
            old(self).wf(),
        ensures
            final(self).wf(),
            final(self)@ == old(self)@.push(*point, is_endpoint),
    {
        if self.enabled {
            self.differentials.push_next(is_endpoint);
        }
        self.points.push(*point);
        proof {
            assert(self@ =~= old(self)@.push(*point, is_endpoint));
        }
    }

    /// Replaces the newest point, as `push` would have stored it.
    pub fn replace_last(&mut self, point: &P, is_endpoint: bool)
        requires
            old(self).wf(),
            old(self)@.points.len() > 0,
        ensures
            final(self).wf(),
            final(self)@ == old(self)@.replace_last(*point, is_endpoint),
    {
        if self.enabled {
            self.differentials.replace_last_with_next(is_endpoint);
        }
        self.points.replace_last(*point);
        proof {
            assert(self@ =~= old(self)@.replace_last(*point, is_endpoint));
        }
    }

    /// Saves the two newest points as the first two points of the contour.
    pub fn capture_firsts(&mut self)
        requires
            old(self).wf(),
            old(self)@.points.len() >= 2,
            old(self)@.firsts.len() == 0,
        ensures
            final(self).wf(),
            final(self)@ == old(self)@.capture_firsts(),
    {
        let (prev, join) = self.points.last_two();
        let prev = *prev;
        let join = *join;
        self.firsts.push(prev);
        self.firsts.push(join);
        if self.enabled {
            self.differentials.capture_firsts();
        }
        proof {
            assert(self@ =~= old(self)@.capture_firsts());
        }
    }

    /// The first point of the contour, to be pushed again to close it.
    /// While derivatives are enabled, `closing` is called with the newest
    /// point and the first point; it returns `None` when they coincide and
    /// otherwise the derivatives of the straight segment between them.
    pub fn first_for_close<F: FnOnce(P, P) -> Option<SegmentDifferentials<R>>>(
        &mut self,
        closing: F,
    ) -> (first: &P)
        requires
            old(self).wf(),
            old(self)@.enabled ==> old(self)@.points.len() > 0,
            old(self)@.firsts.len() > 0,
            old(self)@.enabled ==> closing.requires((old(self)@.points.last(), old(self)@.firsts[0])),
        ensures
            *first == old(self)@.firsts[0],
            final(self).wf(),
            !old(self)@.enabled ==> final(self)@ == old(self)@,
            old(self)@.enabled ==> (exists|c: Option<SegmentDifferentials<R>>|
                closing.ensures((old(self)@.points.last(), old(self)@.firsts[0]), c) && final(self)@
                    == old(self)@.first_for_close(c)),
    {
        if self.enabled {
            let last = *self.points.last();
            let first = self.firsts[0];
            let c = closing(last, first);
            self.differentials.prepare_first_for_close(c);
            proof {
                assert(self@ =~= old(self)@.first_for_close(c));
            }
        }
        &self.firsts[0]
    }

    /// The second point of the contour, if it was captured.
    pub fn second_for_close(&mut self) -> (second: Option<&P>)
        requires
            old(self).wf(),
        ensures
            final(self).wf(),
            final(self)@ == old(self)@.second_for_close(),
            old(self)@.firsts.len() >= 2 <==> (second is Some),
            (second is Some) ==> *second->0 == old(self)@.firsts[1],
    {
        if self.firsts.len() < 2 {
            return None;
        }
        if self.enabled {
            self.differentials.prepare_second_for_close();
        }
        proof {
            assert(self@ =~= old(self)@.second_for_close());
        }
        Some(&self.firsts[1])
    }

    /// Forgets the contour; enabled derivative storage is cleared too.
    pub fn clear(&mut self)
        requires
            old(self).wf(),
        ensures
            final(self).wf(),
            final(self)@ == old(self)@.clear(),
    {
        self.points.clear();
        self.firsts.clear();
        if self.enabled {
            self.differentials.clear();
        }
        proof {
            assert(self@ =~= old(self)@.clear());
        }
    }

    /// The two newest points, for a join, with the derivative storage.
    pub fn join_mut(&mut self) -> (r: (&mut P, &mut P, &DifferentialHistory<R>))
        requires
            old(self).wf(),
            old(self)@.points.len() >= 2,
        ensures
            *r.0 == old(self)@.points[old(self)@.points.len() - 2],
            *r.1 == old(self)@.points[old(self)@.points.len() - 1],
            r.2.wf(),
            r.2@ == old(self)@.differentials,
            final(self).wf(),
            final(self)@ == old(self)@.with_points(
                old(self)@.points.update(old(self)@.points.len() - 2, *final(r.0)).update(
                    old(self)@.points.len() - 1,
                    *final(r.1),
                ),
            ),
    {
        let (prev, join) = self.points.last_two_mut();
        (prev, join, &self.differentials)
    }

    pub fn count(&self) -> (n: usize)
        requires
            self.wf(),
        ensures
            n == self@.points.len(),
    {
        self.points.count()
    }

    pub fn get(&self, index: usize) -> (point: &P)
        requires
            self.wf(),
            index < self@.points.len(),
        ensures
            *point == self@.points[index as int],
    {
        self.points.get(index)
    }

    pub fn last(&self) -> (point: &P)
        requires
            self.wf(),
            self@.points.len() > 0,
        ensures
            *point == self@.points.last(),
    {
        self.points.last()
    }

    pub fn last_mut(&mut self) -> (point: &mut P)
        requires
            old(self).wf(),
            old(self)@.points.len() > 0,
        ensures
            *point == old(self)@.points.last(),
            final(self).wf(),
            final(self)@ == old(self)@.with_points(
                old(self)@.points.update(old(self)@.points.len() - 1, *final(point)),
            ),
    {
        self.points.last_mut()
    }

    pub fn last_two_mut(&mut self) -> (r: (&mut P, &mut P))
        requires
            old(self).wf(),
            old(self)@.points.len() >= 2,
        ensures
            *r.0 == old(self)@.points[old(self)@.points.len() - 2],
            *r.1 == old(self)@.points[old(self)@.points.len() - 1],
            final(self).wf(),
            final(self)@ == old(self)@.with_points(
                old(self)@.points.update(old(self)@.points.len() - 2, *final(r.0)).update(
                    old(self)@.points.len() - 1,
                    *final(r.1),
                ),
            ),
    {
        self.points.last_two_mut()
    }

    /// The saved first points of the contour.
    pub fn firsts(&self) -> (firsts: &[P])
        requires
            self.wf(),
        ensures
            firsts@ == self@.firsts,
    {
        self.firsts.as_slice()
    }
}

} // verus!
