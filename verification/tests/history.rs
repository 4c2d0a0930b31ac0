use stroke_joins::differentials::{
    EndpointDifferential, EndpointDifferentials, SegmentDifferentials,
};
use stroke_joins::history::{DifferentialHistory, EndpointHistory};
use stroke_joins::point_buffer::PointBuffer;

#[derive(Copy, Clone, Debug, Default, PartialEq)]
struct EndpointData {
    position: (f32, f32),
    is_endpoint: bool,
}

#[derive(Copy, Clone, Debug, PartialEq)]
struct Regular {
    unit_tangent: (f32, f32),
    curvature: f64,
}

type History = EndpointHistory<EndpointData, Regular>;
type Segment = SegmentDifferentials<Regular>;

fn endpoint(x: f32) -> EndpointData {
    EndpointData { position: (x, 0.0), is_endpoint: true }
}

fn sample(x: f32) -> EndpointData {
    EndpointData { position: (x, 0.0), is_endpoint: false }
}

fn push(history: &mut History, point: &EndpointData) {
    history.push(point, point.is_endpoint);
}

fn replace_last(history: &mut History, point: &EndpointData) {
    history.replace_last(point, point.is_endpoint);
}

fn segment(curvature: f64) -> Segment {
    SegmentDifferentials {
        start: EndpointDifferential::Regular(Regular { unit_tangent: (1.0, 0.0), curvature }),
        end: EndpointDifferential::Regular(Regular { unit_tangent: (0.0, 1.0), curvature: -curvature }),
    }
}

/// The derivatives of a straight segment between two points.
fn line_differentials(from: (f32, f32), to: (f32, f32)) -> Segment {
    let (dx, dy) = (to.0 - from.0, to.1 - from.1);
    let length = (dx * dx + dy * dy).sqrt();
    let tangent = EndpointDifferential::Regular(Regular {
        unit_tangent: (dx / length, dy / length),
        curvature: 0.0,
    });
    SegmentDifferentials { start: tangent, end: tangent }
}

fn closing(last: EndpointData, first: EndpointData) -> Option<Segment> {
    if last.position == first.position {
        None
    } else {
        Some(line_differentials(last.position, first.position))
    }
}

fn current(history: &mut History) -> EndpointDifferentials<Regular> {
    history.join_mut().2.current()
}

#[test]
fn ordinary_history_never_computes_derivatives() {
    let storage = DifferentialHistory::default();
    let mut history = History::new(storage, false);
    push(&mut history, &endpoint(0.0));
    history.record_segment(|| -> Segment { panic!("derivatives are disabled") });
    push(&mut history, &endpoint(1.0));
    assert_eq!(history.count(), 2);
}

#[test]
fn replaced_flattening_points_keep_pending_endpoint_derivatives() {
    let storage = DifferentialHistory::default();
    let mut history = History::new(storage, true);
    push(&mut history, &endpoint(0.0));
    history.record_segment(|| segment(0.25));
    for x in 1..8 {
        let point = sample(x as f32);
        push(&mut history, &point);
        replace_last(&mut history, &point);
        assert_eq!(current(&mut history).incoming, EndpointDifferential::Unknown);
    }
    replace_last(&mut history, &endpoint(10.0));
    assert_eq!(current(&mut history).incoming, segment(0.25).end);
}

#[test]
fn enabling_after_wraparound_preserves_implicit_closure() {
    let storage = DifferentialHistory::default();
    let mut history = History::new(storage, false);
    push(&mut history, &endpoint(0.0));
    push(&mut history, &endpoint(1.0));
    history.capture_firsts();
    for x in 2..9 {
        push(&mut history, &endpoint(x as f32));
    }
    history.enable_differentials();
    history.record_segment(|| segment(0.5));
    push(&mut history, &endpoint(9.0));
    assert_eq!(current(&mut history).incoming, segment(0.5).end);
    let first = *history.first_for_close(closing);
    push(&mut history, &first);
    assert_eq!(
        current(&mut history).incoming,
        line_differentials((9.0, 0.0), first.position).end
    );
    let second = *history.second_for_close().unwrap();
    push(&mut history, &second);
    assert_eq!(current(&mut history), EndpointDifferentials::default());
}

#[test]
fn explicit_closure_keeps_the_incoming_curve() {
    let storage = DifferentialHistory::default();
    let mut history = History::new(storage, true);
    push(&mut history, &endpoint(0.0));
    history.record_segment(|| segment(0.25));
    push(&mut history, &endpoint(1.0));
    history.capture_firsts();
    history.record_segment(|| segment(0.75));
    push(&mut history, &endpoint(0.0));
    history.first_for_close(closing);
    let current = current(&mut history);
    assert_eq!(current.incoming, segment(0.75).end);
    assert_eq!(current.outgoing, segment(0.25).start);
}

#[test]
fn point_buffer_keeps_the_last_three_points() {
    let mut buffer: PointBuffer<u32> = PointBuffer::new();
    for value in 0..5u32 {
        buffer.push(value);
    }
    assert_eq!(buffer.count(), 3);
    assert_eq!(*buffer.get(0), 2);
    assert_eq!(*buffer.get(1), 3);
    assert_eq!(*buffer.get(2), 4);
    assert_eq!(*buffer.last(), 4);
    buffer.replace_last(9);
    assert_eq!(buffer.last_two(), (&3, &9));
    {
        let (a, b) = buffer.last_two_mut();
        *a = 30;
        *b = 90;
    }
    assert_eq!(*buffer.get(0), 2);
    assert_eq!(*buffer.get(1), 30);
    *buffer.last_mut() = 91;
    assert_eq!(*buffer.get(2), 91);
    buffer.clear();
    assert_eq!(buffer.count(), 0);
    buffer.push(7);
    assert_eq!(*buffer.last(), 7);
    assert_eq!(buffer.count(), 1);
}

#[test]
fn disabled_history_leaves_storage_untouched() {
    let mut storage = DifferentialHistory::default();
    {
        let mut history = History::new(storage, true);
        push(&mut history, &endpoint(0.0));
        history.record_segment(|| segment(0.5));
        push(&mut history, &endpoint(1.0));
        storage = history.into_differentials();
    }
    let before = storage.current();
    let mut history = History::new(storage, false);
    push(&mut history, &endpoint(2.0));
    push(&mut history, &endpoint(3.0));
    history.capture_firsts();
    history.record_segment(|| -> Segment { panic!("derivatives are disabled") });
    let first = *history.first_for_close(|_, _| -> Option<Segment> { panic!("derivatives are disabled") });
    assert_eq!(first, endpoint(2.0));
    assert_eq!(history.join_mut().2.current(), before);
    history.clear();
    let storage = history.into_differentials();
    assert_eq!(storage.current(), before);
}

#[test]
fn clear_restarts_and_enable_is_idempotent() {
    let storage = DifferentialHistory::default();
    let mut history = History::new(storage, false);
    push(&mut history, &endpoint(0.0));
    push(&mut history, &endpoint(1.0));
    history.enable_differentials();
    history.record_segment(|| segment(0.5));
    history.enable_differentials();
    push(&mut history, &endpoint(2.0));
    assert_eq!(current(&mut history).incoming, segment(0.5).end);
    history.clear();
    assert_eq!(history.count(), 0);
    assert!(history.firsts().is_empty());
    assert!(history.second_for_close().is_none());
    push(&mut history, &sample(5.0));
    assert_eq!(*history.last(), sample(5.0));
    assert_eq!(*history.get(0), sample(5.0));
    *history.last_mut() = endpoint(6.0);
    assert_eq!(*history.last(), endpoint(6.0));
}

#[test]
fn capture_firsts_saves_both_points_with_their_derivatives() {
    let storage = DifferentialHistory::default();
    let mut history = History::new(storage, true);
    push(&mut history, &endpoint(0.0));
    history.record_segment(|| segment(0.1));
    push(&mut history, &endpoint(1.0));
    history.record_segment(|| segment(0.2));
    history.capture_firsts();
    assert_eq!(history.firsts(), &[endpoint(0.0), endpoint(1.0)]);
    push(&mut history, &endpoint(2.0));
    {
        let (prev, join) = history.last_two_mut();
        assert_eq!(*prev, endpoint(1.0));
        assert_eq!(*join, endpoint(2.0));
        join.position = (2.5, 0.0);
    }
    assert_eq!(history.last().position, (2.5, 0.0));
    let second = *history.second_for_close().unwrap();
    assert_eq!(second, endpoint(1.0));
    push(&mut history, &second);
    let expected = EndpointDifferentials { incoming: segment(0.1).end, outgoing: segment(0.2).start };
    assert_eq!(current(&mut history), expected);
}
