use metime_core::{TimePoint, Timeline};

fn at(nanos: i128) -> TimePoint {
    TimePoint::from_nanos(nanos)
}

#[test]
fn new_timeline_lists_nothing() {
    let timeline = Timeline::new();
    assert!(timeline.events.is_empty());
    assert_eq!(timeline.range(at(i128::MIN), at(i128::MAX)), vec![]);
}

#[test]
fn range_lists_in_ascending_order_and_leaves_the_upper_bound_out() {
    let (t1, t2, t3) = (at(1_000), at(2_000), at(3_000));
    let mut timeline = Timeline::new();
    timeline.record(t1, 11);
    timeline.record(t2, 22);
    timeline.record(t3, 33);
    assert_eq!(timeline.range(t1, t3), vec![(t1, 11), (t2, 22)]);
    assert_eq!(timeline.range(t2, t2), vec![]);
    assert_eq!(timeline.range(t1, at(3_001)), vec![(t1, 11), (t2, 22), (t3, 33)]);
    assert_eq!(timeline.range(at(1_001), t3), vec![(t2, 22)]);
    assert_eq!(timeline.range(t3, t1), vec![]);
}

#[test]
fn range_does_not_depend_on_the_order_of_recording() {
    let (t1, t2, t3) = (at(-50), at(0), at(70));
    let mut timeline = Timeline::new();
    timeline.record(t3, 3);
    timeline.record(t1, 1);
    timeline.record(t2, 2);
    assert_eq!(
        timeline.range(at(-100), at(100)),
        vec![(t1, 1), (t2, 2), (t3, 3)]
    );
    assert_eq!(timeline.range(t1, t3), vec![(t1, 1), (t2, 2)]);
}

#[test]
fn recording_twice_at_one_time_keeps_the_latest() {
    let t = at(5_000);
    let mut timeline = Timeline::new();
    timeline.record(t, 1);
    timeline.record(at(6_000), 7);
    timeline.record(t, 2);
    assert_eq!(timeline.range(at(0), at(10_000)), vec![(t, 2), (at(6_000), 7)]);
    assert_eq!(timeline.events.len(), 2);
}

#[test]
fn range_reaches_the_ends_of_time() {
    let mut timeline = Timeline::new();
    timeline.record(at(i128::MIN), 1);
    timeline.record(at(i128::MAX), 2);
    assert_eq!(
        timeline.range(at(i128::MIN), at(i128::MAX)),
        vec![(at(i128::MIN), 1)]
    );
}

#[test]
fn default_timeline_lists_nothing() {
    let timeline = Timeline::default();
    assert!(timeline.events.is_empty());
    assert_eq!(timeline.range(at(0), at(1)), vec![]);
}
