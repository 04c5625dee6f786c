//! The touch gesture classifier: from a stream of pointer samples to taps,
//! drags and swipes.

use vstd::prelude::*;

verus! {

/// A semantic touch event, as the firmware understands it.
#[derive(Clone, Copy, Debug, PartialEq, Eq, Structural)]
pub enum Gesture {
    Drag,
    SwipeDown,
    SwipeUp,
    SwipeLeft,
    SwipeRight,
    Tap,
}

impl Gesture {
    /// The number by which the firmware knows this gesture.
    pub open spec fn spec_code(self) -> int {
        match self {
            Gesture::Drag => 0,
            Gesture::SwipeDown => 1,
            Gesture::SwipeUp => 2,
            Gesture::SwipeLeft => 3,
            Gesture::SwipeRight => 4,
            Gesture::Tap => 5,
        }
    }

    /// The number by which the firmware knows this gesture.
    pub fn code(self) -> (c: i32)
        ensures
            c == self.spec_code(),
    {
        match self {
            Gesture::Drag => 0,
            Gesture::SwipeDown => 1,
            Gesture::SwipeUp => 2,
            Gesture::SwipeLeft => 3,
            Gesture::SwipeRight => 4,
            Gesture::Tap => 5,
        }
    }
}

/// A touch that has travelled less than this along both axes is a tap.
pub const TAP_BELOW: u64 = 5;

/// A touch that has travelled more than this along one axis is a swipe along
/// that axis, if it has kept to the side limit on the other.
pub const SWIPE_ABOVE: u64 = 80;

/// A swipe has travelled less than this along the axis across it.
pub const SWIPE_SIDE_BELOW: u64 = 20;

/// A pixel position on the display, `(x, y)`.
pub type Point = (u8, u8);

/// A touch in progress: where it began, where the pointer was last seen, and
/// how far it has travelled along each axis since it began.
pub struct Touch {
    pub start: Point,
    pub last: Point,
    pub dx: nat,
    pub dy: nat,
}

/// The distance between two coordinates on one axis.
pub open spec fn gap(a: u8, b: u8) -> nat {
    if a >= b {
        (a - b) as nat
    } else {
        (b - a) as nat
    }
}

/// The touch `t` after the pointer has moved to `pt`.
pub open spec fn moved(t: Touch, pt: Point) -> Touch {
    Touch { start: t.start, last: pt, dx: t.dx + gap(pt.0, t.last.0), dy: t.dy + gap(pt.1, t.last.1) }
}

/// What a finished touch `t` yields: always a drag, then a tap if the pointer
/// hardly moved, then a swipe if it travelled far along one axis and little
/// along the other. The direction of a swipe is that from the first position
/// to the last.
pub open spec fn release_gestures(t: Touch) -> Seq<Gesture> {
    seq![Gesture::Drag] + (if t.dx < TAP_BELOW && t.dy < TAP_BELOW {
        seq![Gesture::Tap]
    } else {
        Seq::empty()
    }) + (if t.dx > SWIPE_ABOVE && t.dy < SWIPE_SIDE_BELOW {
        seq![if t.last.0 > t.start.0 { Gesture::SwipeRight } else { Gesture::SwipeLeft }]
    } else {
        Seq::empty()
    }) + (if t.dx < SWIPE_SIDE_BELOW && t.dy > SWIPE_ABOVE {
        seq![if t.last.1 > t.start.1 { Gesture::SwipeDown } else { Gesture::SwipeUp }]
    } else {
        Seq::empty()
    })
}

/// One step of the classifier: the state after the sample `(pt, contact)` and
/// the gestures that the sample yields.
pub open spec fn step(t: Option<Touch>, pt: Point, contact: bool) -> (Option<Touch>, Seq<Gesture>) {
    match t {
        None => if contact {
            (Some(Touch { start: pt, last: pt, dx: 0, dy: 0 }), seq![Gesture::Drag])
        } else {
            (None, Seq::empty())
        },
        Some(t) => if contact {
            (Some(moved(t, pt)), seq![Gesture::Drag])
        } else {
            (None, release_gestures(moved(t, pt)))
        },
    }
}

/// The classifier run over `samples` in order: the state at the end and all
/// the gestures yielded on the way.
pub open spec fn run(t: Option<Touch>, samples: Seq<(Point, bool)>) -> (Option<Touch>, Seq<Gesture>)
    decreases samples.len(),
{
    if samples.len() == 0 {
        (t, Seq::empty())
    } else {
        let first = step(t, samples[0].0, samples[0].1);
        let rest = run(first.0, samples.skip(1));
        (rest.0, first.1 + rest.1)
    }
}

/// How many entries of `gs` are the gesture `g`.
pub open spec fn count(gs: Seq<Gesture>, g: Gesture) -> nat
    decreases gs.len(),
{
    if gs.len() == 0 {
        0
    } else {
        count(gs.drop_last(), g) + if gs.last() == g {
            1nat
        } else {
            0nat
        }
    }
}

/// How many entries of `gs` are directional swipes.
pub open spec fn swipes(gs: Seq<Gesture>) -> nat {
    count(gs, Gesture::SwipeDown) + count(gs, Gesture::SwipeUp) + count(gs, Gesture::SwipeLeft)
        + count(gs, Gesture::SwipeRight)
}

/// A touch that starts and ends: every sample but the last has contact, the
/// last is the release.
pub open spec fn single_touch(samples: Seq<(Point, bool)>) -> bool {
    &&& samples.len() >= 2
    &&& !samples.last().1
    &&& forall|i: int| 0 <= i < samples.len() - 1 ==> (#[trigger] samples[i]).1
}

/// Tracks the touch in progress, if any.
#[derive(Debug)]
pub struct TouchTracker {
    start_last: Option<(Point, Point)>,
    dist: (u64, u64),
}

impl View for TouchTracker {
    type V = Option<Touch>;

    closed spec fn view(&self) -> Option<Touch> {
        match self.start_last {
            None => None,
            Some((start, last)) => Some(
                Touch { start, last, dx: self.dist.0 as nat, dy: self.dist.1 as nat },
            ),
        }
    }
}

fn abs_diff(a: u8, b: u8) -> (d: u8)
    ensures
        d == gap(a, b),
{
    if a >= b {
        a - b
    } else {
        b - a
    }
}

impl TouchTracker {
    /// A tracker with no touch in progress.
    pub fn new() -> (tracker: Self)
        ensures
            tracker@ is None,
    {
        TouchTracker { start_last: None, dist: (0, 0) }
    }

    /// Where the touch in progress began and where the pointer was last
    /// seen, if a touch is in progress.
    pub fn contact(&self) -> (ends: Option<(Point, Point)>)
        ensures
            ends == match self@ {
                Some(t) => Some((t.start, t.last)),
                None => None::<(Point, Point)>,
            },
    {
        self.start_last
    }

    /// How far the touch in progress has travelled along each axis, if a
    /// touch is in progress.
    pub fn distance(&self) -> (travelled: Option<(u64, u64)>)
        ensures
            match (travelled, self@) {
                (Some(d), Some(t)) => d.0 == t.dx && d.1 == t.dy,
                (None, None) => true,
                _ => false,
            },
    {
        match self.start_last {
            Some(_) => Some(self.dist),
            None => None,
        }
    }

    /// Whether the distance travelled still fits the counters once the
    /// pointer has moved to `pt`.
    pub open spec fn has_room(&self, pt: Point) -> bool {
        self@ matches Some(t) ==> moved(t, pt).dx <= u64::MAX && moved(t, pt).dy <= u64::MAX
    }

    /// Whether the distance travelled still fits the counters once the
    /// pointer has moved to `pt`.
    pub fn can_take(&self, pt: Point) -> (ok: bool)
        ensures
            ok == self.has_room(pt),
    {
        match self.start_last {
            None => true,
            Some((_, last)) => {
                self.dist.0 <= u64::MAX - abs_diff(pt.0, last.0) as u64 && self.dist.1 <= u64::MAX
                    - abs_diff(pt.1, last.1) as u64
            },
        }
    }

    /// Takes one pointer sample and returns the gestures it yields, in the
    /// order drag, tap, swipe.
    pub fn add_touch(&mut self, pt: Point, on: bool) -> (gestures: Vec<Gesture>)
        requires
            old(self).has_room(pt),
        ensures
            final(self)@ == step(old(self)@, pt, on).0,
            gestures@ == step(old(self)@, pt, on).1,
    {
        match self.start_last {
            None => {
                if on {
                    self.start_last = Some((pt, pt));
                    self.dist = (0, 0);
                    vec![Gesture::Drag]
                } else {
                    Vec::new()
                }
            },
            Some((start, last)) => {
                let dx: u64 = self.dist.0 + abs_diff(pt.0, last.0) as u64;
                let dy: u64 = self.dist.1 + abs_diff(pt.1, last.1) as u64;
                self.dist = (dx, dy);
                let mut ret: Vec<Gesture> = vec![Gesture::Drag];
                if on {
                    self.start_last = Some((start, pt));
                    return ret;
                }
                if dx < TAP_BELOW && dy < TAP_BELOW {
                    ret.push(Gesture::Tap);
                }
                if dx > SWIPE_ABOVE && dy < SWIPE_SIDE_BELOW {
                    ret.push(if pt.0 > start.0 { Gesture::SwipeRight } else { Gesture::SwipeLeft });
                }
                if dx < SWIPE_SIDE_BELOW && dy > SWIPE_ABOVE {
                    ret.push(if pt.1 > start.1 { Gesture::SwipeDown } else { Gesture::SwipeUp });
                }
                self.start_last = None;
                ret
            },
        }
    }
}

impl Default for TouchTracker {
    /// A tracker with no touch in progress.
    fn default() -> (tracker: Self)
        ensures
            tracker@ is None,
    {
        TouchTracker::new()
    }
}

/// What the firmware is told of one gesture: where the pointer is, whether
/// the screen is touched (1) or not (0), and the gesture's number.
#[derive(Clone, Copy, Debug, PartialEq, Eq, Structural)]
pub struct TouchEvent {
    pub x: i32,
    pub y: i32,
    pub contact: i32,
    pub gesture: i32,
}

/// What the firmware is told of the gesture `g`, made at `pt`.
pub open spec fn touch_event(pt: Point, contact: bool, g: Gesture) -> TouchEvent {
    TouchEvent {
        x: pt.0 as i32,
        y: pt.1 as i32,
        contact: if contact { 1i32 } else { 0i32 },
        gesture: g.spec_code() as i32,
    }
}

/// Takes one pointer sample and returns what the firmware is to be told of
/// it: one event for each gesture that the sample yields, in their order.
pub fn touch_events(tracker: &mut TouchTracker, x: u8, y: u8, on: bool) -> (events: Vec<TouchEvent>)
    requires
        old(tracker).has_room((x, y)),
    ensures
        final(tracker)@ == step(old(tracker)@, (x, y), on).0,
        events@ == step(old(tracker)@, (x, y), on).1.map_values(
            |g: Gesture| touch_event((x, y), on, g),
        ),
{
    let gestures = tracker.add_touch((x, y), on);
    let mut events: Vec<TouchEvent> = Vec::new();
    let mut i: usize = 0;
    while i < gestures.len()
        invariant
            i <= gestures@.len(),
            events@ == gestures@.subrange(0, i as int).map_values(
                |g: Gesture| touch_event((x, y), on, g),
            ),
        decreases gestures@.len() - i,
    {
        let g = gestures[i];
        events.push(
            TouchEvent {
                x: x as i32,
                y: y as i32,
                contact: if on { 1 } else { 0 },
                gesture: g.code(),
            },
        );
        i += 1;
    }
    events
}

proof fn lemma_count_concat(a: Seq<Gesture>, b: Seq<Gesture>)
    ensures
        forall|g: Gesture| #[trigger] count(a + b, g) == count(a, g) + count(b, g),
    decreases b.len(),
{
    if b.len() > 0 {
        lemma_count_concat(a, b.drop_last());
        assert forall|g: Gesture| #[trigger] count(a + b, g) == count(a, g) + count(b, g) by {
            assert((a + b).drop_last() =~= a + b.drop_last());
            assert(count(a + b.drop_last(), g) == count(a, g) + count(b.drop_last(), g));
        }
    } else {
        assert(a + b =~= a);
    }
}

proof fn lemma_count_one(x: Gesture)
    ensures
        forall|g: Gesture| #[trigger] count(seq![x], g) == if x == g { 1nat } else { 0nat },
        forall|g: Gesture| #[trigger] count(Seq::<Gesture>::empty(), g) == 0,
{
    reveal_with_fuel(count, 2);
    assert(seq![x].drop_last() =~= Seq::<Gesture>::empty());
}

/// A finished touch yields one drag and at most one further gesture.
proof fn lemma_count_release(t: Touch)
    ensures
        count(release_gestures(t), Gesture::Drag) == 1,
        count(release_gestures(t), Gesture::Tap) + swipes(release_gestures(t)) <= 1,
{
    let drag = seq![Gesture::Drag];
    let tap = if t.dx < TAP_BELOW && t.dy < TAP_BELOW {
        seq![Gesture::Tap]
    } else {
        Seq::empty()
    };
    let across = if t.dx > SWIPE_ABOVE && t.dy < SWIPE_SIDE_BELOW {
        seq![if t.last.0 > t.start.0 { Gesture::SwipeRight } else { Gesture::SwipeLeft }]
    } else {
        Seq::empty()
    };
    let along = if t.dx < SWIPE_SIDE_BELOW && t.dy > SWIPE_ABOVE {
        seq![if t.last.1 > t.start.1 { Gesture::SwipeDown } else { Gesture::SwipeUp }]
    } else {
        Seq::empty()
    };
    lemma_count_one(Gesture::Drag);
    lemma_count_one(Gesture::Tap);
    lemma_count_one(Gesture::SwipeRight);
    lemma_count_one(Gesture::SwipeLeft);
    lemma_count_one(Gesture::SwipeDown);
    lemma_count_one(Gesture::SwipeUp);
    lemma_count_concat(drag, tap);
    lemma_count_concat(drag + tap, across);
    lemma_count_concat(drag + tap + across, along);
}

/// A touch in progress that goes on for `samples` and ends with its release
/// yields one drag for each sample and at most one further gesture.
proof fn lemma_touch_in_progress(t: Touch, samples: Seq<(Point, bool)>)
    requires
        samples.len() >= 1,
        !samples.last().1,
        forall|i: int| 0 <= i < samples.len() - 1 ==> (#[trigger] samples[i]).1,
    ensures
        run(Some(t), samples).0 is None,
        count(run(Some(t), samples).1, Gesture::Drag) == samples.len(),
        count(run(Some(t), samples).1, Gesture::Tap) + swipes(run(Some(t), samples).1) <= 1,
    decreases samples.len(),
{
    let first = step(Some(t), samples[0].0, samples[0].1);
    let later = samples.skip(1);
    let rest = run(first.0, later);
    lemma_count_one(Gesture::Drag);
    lemma_count_concat(first.1, rest.1);
    if samples.len() == 1 {
        lemma_count_release(moved(t, samples[0].0));
    } else {
        assert(later.last() == samples.last());
        assert forall|i: int| 0 <= i < later.len() - 1 implies (#[trigger] later[i]).1 by {
            assert(later[i] == samples[i + 1]);
        }
        lemma_touch_in_progress(moved(t, samples[0].0), later);
    }
}

/// A touch of `n` samples that starts with no touch in progress and ends with
/// its release yields exactly `n` drags, one for each sample, and besides
/// them at most one tap and at most one swipe; in fact at most one of the
/// two. No touch is in progress afterwards.
pub proof fn lemma_single_touch(samples: Seq<(Point, bool)>)
    requires
        single_touch(samples),
    ensures
        run(None, samples).0 is None,
        count(run(None, samples).1, Gesture::Drag) == samples.len(),
        count(run(None, samples).1, Gesture::Tap) <= 1,
        swipes(run(None, samples).1) <= 1,
        count(run(None, samples).1, Gesture::Tap) + swipes(run(None, samples).1) <= 1,
{
    let first = step(None, samples[0].0, samples[0].1);
    let later = samples.skip(1);
    let rest = run(first.0, later);
    assert(later.last() == samples.last());
    assert forall|i: int| 0 <= i < later.len() - 1 implies (#[trigger] later[i]).1 by {
        assert(later[i] == samples[i + 1]);
    }
    lemma_touch_in_progress(first.0->0, later);
    lemma_count_one(Gesture::Drag);
    lemma_count_concat(first.1, rest.1);
}

/// The same contact sample twice in a row yields one drag each time, and the
/// second time the touch in progress is left as it was: nothing is added to
/// the distance travelled.
pub proof fn lemma_repeated_sample(t: Option<Touch>, pt: Point)
    ensures
        step(t, pt, true).1 == seq![Gesture::Drag],
        step(step(t, pt, true).0, pt, true).1 == seq![Gesture::Drag],
        step(step(t, pt, true).0, pt, true).0 == step(t, pt, true).0,
        step(t, pt, true).0 is Some,
        moved(step(t, pt, true).0->0, pt).dx == step(t, pt, true).0->0.dx,
        moved(step(t, pt, true).0->0, pt).dy == step(t, pt, true).0->0.dy,
{
}

/// While a touch is in progress the distance travelled never decreases.
pub proof fn lemma_distance_grows(t: Touch, pt: Point)
    ensures
        moved(t, pt).dx >= t.dx,
        moved(t, pt).dy >= t.dy,
        moved(t, pt).start == t.start,
{
}

} // verus!
