use bangle_emu::touch::{touch_events, Gesture, TouchEvent, TouchTracker};

fn feed(tracker: &mut TouchTracker, samples: &[((u8, u8), bool)]) -> Vec<Vec<Gesture>> {
    samples
        .iter()
        .map(|(pt, on)| {
            assert!(tracker.can_take(*pt));
            tracker.add_touch(*pt, *on)
        })
        .collect()
}

#[test]
fn accumulated_2_1_is_a_tap() {
    let mut t = TouchTracker::new();
    let out = feed(&mut t, &[((10, 10), true), ((11, 11), true), ((12, 11), true)]);
    assert_eq!(out, vec![vec![Gesture::Drag]; 3]);
    assert_eq!(t.distance(), Some((2, 1)));
    assert_eq!(t.add_touch((12, 11), false), vec![Gesture::Drag, Gesture::Tap]);
    assert_eq!(t.contact(), None);
}

#[test]
fn tap_from_10_10_to_11_10() {
    let mut t = TouchTracker::new();
    assert_eq!(t.add_touch((10, 10), true), vec![Gesture::Drag]);
    assert_eq!(t.add_touch((11, 10), false), vec![Gesture::Drag, Gesture::Tap]);
}

#[test]
fn accumulated_100_5_is_a_swipe_right() {
    let mut t = TouchTracker::new();
    assert_eq!(t.add_touch((10, 50), true), vec![Gesture::Drag]);
    assert_eq!(t.add_touch((110, 55), true), vec![Gesture::Drag]);
    assert_eq!(t.distance(), Some((100, 5)));
    assert_eq!(t.contact(), Some(((10, 50), (110, 55))));
    assert_eq!(t.add_touch((110, 55), false), vec![Gesture::Drag, Gesture::SwipeRight]);
}

#[test]
fn swipe_right_from_10_50_to_120_50() {
    let mut t = TouchTracker::new();
    t.add_touch((10, 50), true);
    t.add_touch((105, 52), true);
    // dx = 95 + 15, dy = 2 + 2
    assert_eq!(t.add_touch((120, 50), false), vec![Gesture::Drag, Gesture::SwipeRight]);
}

#[test]
fn long_way_left_is_a_swipe_left() {
    let mut t = TouchTracker::new();
    t.add_touch((150, 50), true);
    assert_eq!(t.add_touch((20, 50), false), vec![Gesture::Drag, Gesture::SwipeLeft]);
}

#[test]
fn accumulated_5_100_is_a_swipe_up() {
    let mut t = TouchTracker::new();
    t.add_touch((50, 110), true);
    t.add_touch((55, 10), true);
    assert_eq!(t.distance(), Some((5, 100)));
    assert_eq!(t.add_touch((55, 10), false), vec![Gesture::Drag, Gesture::SwipeUp]);
}

#[test]
fn swipe_up_from_50_10_to_50_5() {
    // down a long way and up again, to end above the start
    let mut t = TouchTracker::new();
    t.add_touch((50, 10), true);
    t.add_touch((52, 55), true);
    // dx = 2 + 2, dy = 45 + 50
    assert_eq!(t.add_touch((50, 5), false), vec![Gesture::Drag, Gesture::SwipeUp]);
}

#[test]
fn long_way_down_is_a_swipe_down() {
    let mut t = TouchTracker::new();
    t.add_touch((50, 10), true);
    assert_eq!(t.add_touch((50, 100), false), vec![Gesture::Drag, Gesture::SwipeDown]);
}

#[test]
fn swipe_direction_goes_by_displacement_not_by_path() {
    // far to the right and all the way back: a long way, ending where it began
    let mut t = TouchTracker::new();
    t.add_touch((10, 50), true);
    t.add_touch((100, 50), true);
    assert_eq!(t.add_touch((10, 50), false), vec![Gesture::Drag, Gesture::SwipeLeft]);
}

#[test]
fn thresholds_are_strict() {
    // dx = 5 is no tap
    let mut t = TouchTracker::new();
    t.add_touch((10, 10), true);
    assert_eq!(t.add_touch((15, 10), false), vec![Gesture::Drag]);
    // dx = 4, dy = 4 is one
    let mut t = TouchTracker::new();
    t.add_touch((10, 10), true);
    assert_eq!(t.add_touch((14, 14), false), vec![Gesture::Drag, Gesture::Tap]);
    // dx = 80 is no swipe, dx = 81 is one
    let mut t = TouchTracker::new();
    t.add_touch((10, 10), true);
    assert_eq!(t.add_touch((90, 10), false), vec![Gesture::Drag]);
    let mut t = TouchTracker::new();
    t.add_touch((10, 10), true);
    assert_eq!(t.add_touch((91, 10), false), vec![Gesture::Drag, Gesture::SwipeRight]);
    // dx = 81 with dy = 20 is none, with dy = 19 is one
    let mut t = TouchTracker::new();
    t.add_touch((10, 10), true);
    assert_eq!(t.add_touch((91, 30), false), vec![Gesture::Drag]);
    let mut t = TouchTracker::new();
    t.add_touch((10, 10), true);
    assert_eq!(t.add_touch((91, 29), false), vec![Gesture::Drag, Gesture::SwipeRight]);
    // a diagonal is neither
    let mut t = TouchTracker::new();
    t.add_touch((10, 10), true);
    assert_eq!(t.add_touch((110, 110), false), vec![Gesture::Drag]);
}

#[test]
fn release_without_touch_yields_nothing() {
    let mut t = TouchTracker::default();
    assert_eq!(t.add_touch((3, 4), false), vec![]);
    assert_eq!(t.contact(), None);
    assert_eq!(t.distance(), None);
    assert_eq!(t.add_touch((3, 4), false), vec![]);
}

#[test]
fn same_sample_twice_adds_no_distance() {
    let mut t = TouchTracker::new();
    assert_eq!(t.add_touch((40, 60), true), vec![Gesture::Drag]);
    let once = (t.contact(), t.distance());
    assert_eq!(t.add_touch((40, 60), true), vec![Gesture::Drag]);
    assert_eq!((t.contact(), t.distance()), once);
    assert_eq!(t.distance(), Some((0, 0)));
    // and in the middle of a touch
    t.add_touch((50, 70), true);
    assert_eq!(t.add_touch((60, 75), true), vec![Gesture::Drag]);
    let once = (t.contact(), t.distance());
    assert_eq!(once.1, Some((20, 15)));
    assert_eq!(t.add_touch((60, 75), true), vec![Gesture::Drag]);
    assert_eq!((t.contact(), t.distance()), once);
}

#[test]
fn one_drag_for_each_sample_of_a_touch() {
    let mut t = TouchTracker::new();
    let samples: Vec<((u8, u8), bool)> =
        (0..20u8).map(|i| ((10 + i, 30), true)).chain([((29, 30), false)]).collect();
    let out: Vec<Gesture> = feed(&mut t, &samples).into_iter().flatten().collect();
    assert_eq!(out.iter().filter(|g| **g == Gesture::Drag).count(), samples.len());
    assert_eq!(out.iter().filter(|g| **g == Gesture::Tap).count(), 0);
    assert_eq!(out.len(), samples.len());
    assert_eq!(t.contact(), None);
}

#[test]
fn a_new_touch_starts_from_zero() {
    let mut t = TouchTracker::new();
    t.add_touch((0, 0), true);
    t.add_touch((100, 0), false);
    assert_eq!(t.add_touch((5, 5), true), vec![Gesture::Drag]);
    assert_eq!(t.distance(), Some((0, 0)));
    assert_eq!(t.contact(), Some(((5, 5), (5, 5))));
    assert_eq!(t.add_touch((5, 6), false), vec![Gesture::Drag, Gesture::Tap]);
}

#[test]
fn gesture_codes() {
    assert_eq!(Gesture::Drag.code(), 0);
    assert_eq!(Gesture::SwipeDown.code(), 1);
    assert_eq!(Gesture::SwipeUp.code(), 2);
    assert_eq!(Gesture::SwipeLeft.code(), 3);
    assert_eq!(Gesture::SwipeRight.code(), 4);
    assert_eq!(Gesture::Tap.code(), 5);
}

#[test]
fn touch_events_for_the_firmware() {
    let mut t = TouchTracker::new();
    assert_eq!(
        touch_events(&mut t, 10, 20, true),
        vec![TouchEvent { x: 10, y: 20, contact: 1, gesture: 0 }]
    );
    assert_eq!(
        touch_events(&mut t, 11, 20, false),
        vec![
            TouchEvent { x: 11, y: 20, contact: 0, gesture: 0 },
            TouchEvent { x: 11, y: 20, contact: 0, gesture: 5 },
        ]
    );
    assert_eq!(touch_events(&mut t, 11, 20, false), vec![]);
    touch_events(&mut t, 200, 100, true);
    assert_eq!(
        touch_events(&mut t, 200, 0, false),
        vec![
            TouchEvent { x: 200, y: 0, contact: 0, gesture: 0 },
            TouchEvent { x: 200, y: 0, contact: 0, gesture: 2 },
        ]
    );
}
