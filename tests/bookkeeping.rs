use orbits::bodies::{Tracer, DEFAULT_TRACE_CAPACITY};
use orbits::scene::{tick_plan, ticks_per_frame, Step};

#[test]
fn tracer_keeps_newest_first_up_to_capacity() {
    let mut t: Tracer<u32> = Tracer::with_capacity(3);
    assert_eq!(t.len(), 0);
    t.record(1);
    t.record(2);
    assert_eq!(t.len(), 2);
    assert_eq!(*t.get(0), 2);
    assert_eq!(*t.get(1), 1);
    t.record(3);
    t.record(4);
    assert_eq!(t.len(), 3);
    assert_eq!(*t.get(0), 4);
    assert_eq!(*t.get(1), 3);
    assert_eq!(*t.get(2), 2);
    assert_eq!(t.capacity(), 3);
}

#[test]
fn tracer_with_no_room_stays_empty() {
    let mut t: Tracer<u32> = Tracer::with_capacity(0);
    t.record(7);
    assert_eq!(t.len(), 0);
}

#[test]
fn default_tracer_keeps_ten() {
    let mut t: Tracer<usize> = Tracer::default();
    assert_eq!(t.capacity(), DEFAULT_TRACE_CAPACITY);
    for i in 0..25 {
        t.record(i);
    }
    assert_eq!(t.len(), 10);
    assert_eq!(*t.get(0), 24);
    assert_eq!(*t.get(9), 15);
}

#[test]
fn tick_plan_anchors_only_the_locked_body() {
    let plan = tick_plan(4, 2);
    assert_eq!(plan, vec![Step::Follow, Step::Follow, Step::Anchor, Step::Follow]);
    assert_eq!(tick_plan(1, 0), vec![Step::Anchor]);
}

#[test]
fn ticks_per_frame_defaults_to_one() {
    assert_eq!(ticks_per_frame(None), 1);
    assert_eq!(ticks_per_frame(Some(5)), 5);
}
