//! The button watchdog: how long the button is held decides whether a reset
//! and an interrupt are asked of the device.

use crate::flags::{FlagState, Flags};
use vstd::prelude::*;

verus! {

/// The button must be held this long, in milliseconds, for a reset request.
pub const RESET_HOLD_MS: u64 = 1500;

/// The button must be held this long, in milliseconds, for an interrupt
/// request.
pub const INTERRUPT_HOLD_MS: u64 = 2000;

/// Whether the deadlines of a press at time `now` lie within the clock's
/// range.
pub open spec fn armable(now: u64) -> bool {
    now + INTERRUPT_HOLD_MS <= u64::MAX
}

/// Whether the deadlines of a press at time `now` lie within the clock's
/// range.
pub fn can_arm(now: u64) -> (ok: bool)
    ensures
        ok == armable(now),
{
    now <= u64::MAX - INTERRUPT_HOLD_MS
}

/// The armed deadlines, as times in milliseconds on the session's clock.
/// With neither armed the watchdog is idle.
pub struct Deadlines {
    pub reset: Option<u64>,
    pub interrupt: Option<u64>,
}

/// No deadline armed.
pub open spec fn idle() -> Deadlines {
    Deadlines { reset: None, interrupt: None }
}

/// Whether the deadline `d` is armed and has passed at time `now`.
pub open spec fn due(d: Option<u64>, now: u64) -> bool {
    d matches Some(at) && at <= now
}

/// The deadlines after a button transition at time `now`: a press arms both,
/// counted from `now`, whatever was armed before; a release disarms both.
pub open spec fn after_button(d: Deadlines, pressed: bool, now: u64) -> Deadlines {
    if pressed {
        Deadlines {
            reset: Some((now + RESET_HOLD_MS) as u64),
            interrupt: Some((now + INTERRUPT_HOLD_MS) as u64),
        }
    } else {
        idle()
    }
}

/// The deadlines and flags after the watchdog has looked at the clock at time
/// `now`, and whether the runner is to be woken. A reset deadline that has
/// passed raises the reset flag, wakes the runner and is disarmed. An
/// interrupt deadline that has passed is disarmed too, and raises the
/// interrupt flag if the reset flag is still raised; a reset that the device
/// has consumed by then has settled the hold. Where both have passed the
/// reset deadline comes first.
pub open spec fn after_poll(d: Deadlines, f: FlagState, now: u64) -> (Deadlines, FlagState, bool) {
    let reset_due = due(d.reset, now);
    let interrupt_due = due(d.interrupt, now);
    let reset_flag = f.reset || reset_due;
    (
        Deadlines {
            reset: if reset_due { None } else { d.reset },
            interrupt: if interrupt_due { None } else { d.interrupt },
        },
        FlagState { reset: reset_flag, interrupt: f.interrupt || (interrupt_due && reset_flag) },
        reset_due,
    )
}

/// The deadlines and flags after the watchdog has looked at the clock at each
/// of `times` in turn, with nobody else touching the flags meanwhile.
pub open spec fn after_polls(d: Deadlines, f: FlagState, times: Seq<u64>) -> (Deadlines, FlagState)
    decreases times.len(),
{
    if times.len() == 0 {
        (d, f)
    } else {
        let before = after_polls(d, f, times.drop_last());
        let last = after_poll(before.0, before.1, times.last());
        (last.0, last.1)
    }
}

/// The watchdog's state: the deadlines that a button press has armed.
#[derive(Debug)]
pub struct Watchdog {
    reset_deadline: Option<u64>,
    interrupt_deadline: Option<u64>,
}

impl View for Watchdog {
    type V = Deadlines;

    closed spec fn view(&self) -> Deadlines {
        Deadlines { reset: self.reset_deadline, interrupt: self.interrupt_deadline }
    }
}

impl Watchdog {
    /// An idle watchdog.
    pub fn new() -> (watchdog: Self)
        ensures
            watchdog@ == idle(),
    {
        Watchdog { reset_deadline: None, interrupt_deadline: None }
    }

    /// The time at which the reset deadline fires, if it is armed.
    pub fn reset_deadline(&self) -> (at: Option<u64>)
        ensures
            at == self@.reset,
    {
        self.reset_deadline
    }

    /// The time at which the interrupt deadline fires, if it is armed.
    pub fn interrupt_deadline(&self) -> (at: Option<u64>)
        ensures
            at == self@.interrupt,
    {
        self.interrupt_deadline
    }

    /// Takes a button transition seen at time `now`.
    pub fn button(&mut self, pressed: bool, now: u64)
        requires
            pressed ==> armable(now),
        ensures
            final(self)@ == after_button(old(self)@, pressed, now),
    {
        if pressed {
            self.reset_deadline = Some(now + RESET_HOLD_MS);
            self.interrupt_deadline = Some(now + INTERRUPT_HOLD_MS);
        } else {
            self.reset_deadline = None;
            self.interrupt_deadline = None;
        }
    }

    /// Looks at the clock at time `now`: fires each armed deadline that has
    /// passed, the reset deadline first. Returns whether the runner is to be
    /// woken.
    pub fn poll(&mut self, now: u64, flags: &mut Flags) -> (wake: bool)
        ensures
            final(self)@ == after_poll(old(self)@, old(flags)@, now).0,
            final(flags)@ == after_poll(old(self)@, old(flags)@, now).1,
            wake == after_poll(old(self)@, old(flags)@, now).2,
    {
        let mut wake = false;
        if let Some(at) = self.reset_deadline {
            if at <= now {
                flags.reset.set();
                self.reset_deadline = None;
                wake = true;
            }
        }
        if let Some(at) = self.interrupt_deadline {
            if at <= now {
                if flags.reset.get() {
                    flags.interrupt.set();
                }
                self.interrupt_deadline = None;
            }
        }
        wake
    }

    /// The time at which the watchdog next has something to do, if any
    /// deadline is armed: the earlier of the armed deadlines.
    pub fn next_deadline(&self) -> (next: Option<u64>)
        ensures
            next == match (self@.reset, self@.interrupt) {
                (None, None) => None::<u64>,
                (Some(r), None) => Some(r),
                (None, Some(i)) => Some(i),
                (Some(r), Some(i)) => Some(if r <= i { r } else { i }),
            },
    {
        match (self.reset_deadline, self.interrupt_deadline) {
            (None, None) => None,
            (Some(r), None) => Some(r),
            (None, Some(i)) => Some(i),
            (Some(r), Some(i)) => Some(if r <= i { r } else { i }),
        }
    }
}

/// An idle watchdog does nothing, whenever it looks at the clock.
pub proof fn lemma_idle_polls(f: FlagState, times: Seq<u64>)
    ensures
        after_polls(idle(), f, times) == (idle(), f),
    decreases times.len(),
{
    if times.len() > 0 {
        lemma_idle_polls(f, times.drop_last());
    }
}

/// A release with no press before it changes nothing: the watchdog stays
/// idle, and whenever it looks at the clock afterwards it raises no flag.
pub proof fn lemma_release_when_idle(now: u64, f: FlagState, times: Seq<u64>)
    ensures
        after_button(idle(), false, now) == idle(),
        after_polls(after_button(idle(), false, now), f, times) == (idle(), f),
{
    lemma_idle_polls(f, times);
}

/// A press arms both deadlines anew, whatever was armed before: a second
/// press without a release between restarts the timers.
pub proof fn lemma_press_rearms(a: Deadlines, b: Deadlines, now: u64)
    ensures
        after_button(a, true, now) == after_button(b, true, now),
        armable(now) ==> after_button(a, true, now).reset == Some(
            (now + RESET_HOLD_MS) as u64,
        ) && after_button(a, true, now).interrupt == Some((now + INTERRUPT_HOLD_MS) as u64),
{
}

/// A reset that the device has consumed settles the hold: where the reset
/// deadline has fired before and the reset flag is down again when the
/// interrupt deadline passes, the interrupt deadline is disarmed and no flag
/// is raised.
pub proof fn lemma_consumed_reset_settles(interrupt_at: u64, f: FlagState, now: u64)
    requires
        !f.reset,
        now >= interrupt_at,
    ensures
        after_poll(Deadlines { reset: None, interrupt: Some(interrupt_at) }, f, now) == (
            idle(),
            f,
            false,
        ),
{
}

/// The watchdog raises flags and never lowers one.
pub proof fn lemma_poll_never_lowers(d: Deadlines, f: FlagState, now: u64)
    ensures
        f.reset ==> after_poll(d, f, now).1.reset,
        f.interrupt ==> after_poll(d, f, now).1.interrupt,
{
}

/// While a press at `pressed_at` is held, whenever the watchdog looks at the
/// clock: each deadline is either still armed as the press armed it or has
/// fired, a reset deadline that has fired has left the reset flag raised, and
/// the interrupt flag is raised by the watchdog only after the reset flag.
proof fn lemma_hold(before: Deadlines, f: FlagState, pressed_at: u64, times: Seq<u64>)
    requires
        armable(pressed_at),
    ensures
        ({
            let armed = after_button(before, true, pressed_at);
            let now = after_polls(armed, f, times);
            &&& now.0.reset == armed.reset || (now.0.reset is None && now.1.reset)
            &&& (now.0.interrupt == armed.interrupt && now.1.interrupt == f.interrupt) || (
            now.0.interrupt is None && now.1.interrupt && now.1.reset)
            &&& now.0.reset is Some ==> now.0.interrupt is Some && now.1 == f
            &&& f.reset ==> now.1.reset
            &&& now.0.reset is None ==> exists|i: int|
                0 <= i < times.len() && times[i] >= pressed_at + RESET_HOLD_MS
            &&& now.0.interrupt is None ==> exists|i: int|
                0 <= i < times.len() && times[i] >= pressed_at + INTERRUPT_HOLD_MS
        }),
    decreases times.len(),
{
    if times.len() > 0 {
        let earlier = times.drop_last();
        lemma_hold(before, f, pressed_at, earlier);
        let was = after_polls(after_button(before, true, pressed_at), f, earlier);
        if was.0.reset is None {
            let i = choose|i: int| 0 <= i < earlier.len() && earlier[i] >= pressed_at + RESET_HOLD_MS;
            assert(times[i] == earlier[i]);
        }
        if was.0.interrupt is None {
            let i = choose|i: int|
                0 <= i < earlier.len() && earlier[i] >= pressed_at + INTERRUPT_HOLD_MS;
            assert(times[i] == earlier[i]);
        }
    }
}

/// A press that is held for at least 2000 ms raises both flags, the reset
/// flag first. The press comes at `pressed_at`, the watchdog looks at the
/// clock at each of `times`, the last of them 2000 ms or more after the
/// press, and meanwhile the button is not released and the device lowers no
/// flag. Then both flags are raised and the watchdog is idle again; and at no
/// moment on the way has the watchdog raised the interrupt flag with the
/// reset flag down.
pub proof fn lemma_long_hold(before: Deadlines, f: FlagState, pressed_at: u64, times: Seq<u64>)
    requires
        armable(pressed_at),
        times.len() > 0,
        times.last() >= pressed_at + INTERRUPT_HOLD_MS,
    ensures
        after_polls(after_button(before, true, pressed_at), f, times).0 == idle(),
        after_polls(after_button(before, true, pressed_at), f, times).1 == (FlagState {
            reset: true,
            interrupt: true,
        }),
        forall|k: int|
            #![trigger times.take(k)]
            0 <= k <= times.len() ==> {
                let on_the_way = after_polls(
                    after_button(before, true, pressed_at),
                    f,
                    times.take(k),
                ).1;
                on_the_way.interrupt && !f.interrupt ==> on_the_way.reset
            },
{
    lemma_hold(before, f, pressed_at, times.drop_last());
    assert forall|k: int| #![trigger times.take(k)] 0 <= k <= times.len() implies {
        let on_the_way = after_polls(after_button(before, true, pressed_at), f, times.take(k)).1;
        on_the_way.interrupt && !f.interrupt ==> on_the_way.reset
    } by {
        lemma_hold(before, f, pressed_at, times.take(k));
    }
}

/// A press that is held for 1500 ms or more and released before 2000 ms have
/// passed raises the reset flag and leaves the interrupt flag alone, for good.
/// The press comes at `pressed_at`; while it is held the watchdog looks at the
/// clock at each of `held`, every time less than 2000 ms after the press and
/// at least once 1500 ms or more after it; then comes the release, and after
/// it the watchdog looks at the clock at each of `later`. The device lowers
/// no flag meanwhile.
pub proof fn lemma_short_hold(
    before: Deadlines,
    f: FlagState,
    pressed_at: u64,
    held: Seq<u64>,
    released_at: u64,
    later: Seq<u64>,
)
    requires
        armable(pressed_at),
        forall|i: int| 0 <= i < held.len() ==> held[i] < pressed_at + INTERRUPT_HOLD_MS,
        exists|i: int| 0 <= i < held.len() && held[i] >= pressed_at + RESET_HOLD_MS,
    ensures
        ({
            let during = after_polls(after_button(before, true, pressed_at), f, held);
            let after = after_polls(after_button(during.0, false, released_at), during.1, later);
            &&& during.1 == (FlagState { reset: true, interrupt: f.interrupt })
            &&& after.1 == during.1
            &&& after.0 == idle()
        }),
{
    lemma_hold(before, f, pressed_at, held);
    lemma_held_past_reset(before, f, pressed_at, held);
    let during = after_polls(after_button(before, true, pressed_at), f, held);
    lemma_idle_polls(during.1, later);
}

/// Once the watchdog has looked at the clock 1500 ms or more after a press
/// that is still held, the reset deadline has fired.
proof fn lemma_held_past_reset(before: Deadlines, f: FlagState, pressed_at: u64, times: Seq<u64>)
    requires
        armable(pressed_at),
        exists|i: int| 0 <= i < times.len() && times[i] >= pressed_at + RESET_HOLD_MS,
    ensures
        after_polls(after_button(before, true, pressed_at), f, times).0.reset is None,
    decreases times.len(),
{
    let earlier = times.drop_last();
    lemma_hold(before, f, pressed_at, earlier);
    if times.last() < pressed_at + RESET_HOLD_MS {
        let i = choose|i: int| 0 <= i < times.len() && times[i] >= pressed_at + RESET_HOLD_MS;
        assert(earlier[i] == times[i]);
        lemma_held_past_reset(before, f, pressed_at, earlier);
    }
}

} // verus!
