//! The scheduler: when the firmware is stepped, when its output is harvested
//! and when queued input is delivered to it.
//!
//! The scheduler is a state machine. Its driver performs the action that a
//! step asks for, one operation at a time, and hands back what came of it as
//! the next event.

use crate::event::{delivery, dispatch, console_output, published, DeviceCall, Input, Output, BTN1};
use crate::screen::Screen;
use vstd::prelude::*;

verus! {

/// The firmware is stepped at most this many times in a row before the
/// scheduler turns to input, whatever the firmware says.
pub const IDLE_ATTEMPTS: u8 = 5;

/// The delay, in milliseconds, that is assumed when the firmware has named
/// none after `IDLE_ATTEMPTS` steps.
pub const DEFAULT_DELAY_MS: u64 = 1;

/// The first wait for input in a cycle lasts at least this long, in
/// milliseconds.
pub const MIN_FIRST_WAIT_MS: u64 = 10;

/// Every later wait for input in a cycle lasts this long, in milliseconds.
pub const LATER_WAIT_MS: u64 = 1;

/// Where in its cycle the scheduler stands: which operation is under way.
#[derive(Clone, Copy, Debug, PartialEq, Eq, Structural)]
pub enum Phase {
    /// Nothing has been asked of the device yet.
    Fresh,
    /// The device is being told of the button's pin, once, at the start.
    Announcing,
    /// The device's console output is being collected for the first time.
    FirstDrain,
    /// The firmware is being stepped, for the `attempt`th time in this cycle.
    Idling { attempt: u8 },
    /// The device is being asked whether its display has changed.
    CheckingDisplay { delay: u64 },
    /// A snapshot of the display is being taken.
    FetchingScreen { delay: u64 },
    /// The device's console output is being collected.
    Draining { delay: u64 },
    /// The driver waits for input, for a wake-up or for the time to run out.
    Waiting,
    /// An input is being delivered to the device.
    Delivering,
    /// The input queue was closed: the session has ended in good order.
    Finished,
    /// A device operation failed, or the driver handed back an event that the
    /// operation under way cannot have given: the session was aborted.
    Failed,
}

/// What came of the operation that the scheduler asked for.
#[derive(Debug, PartialEq, Eq)]
pub enum Event {
    /// The driver is ready to begin.
    Start,
    /// A device operation that gives no result is done.
    Done,
    /// The firmware was stepped and wants to be stepped again after so many
    /// milliseconds; zero or less where it names no time.
    IdleHint(i32),
    /// The device said whether its display has changed.
    DisplayChanged(bool),
    /// The snapshot of the display.
    Frame(Box<Screen>),
    /// The console output that the device had to hand over.
    Drained(Vec<u8>),
    /// The wait ran out.
    Timeout,
    /// The watchdog woke the runner.
    Wake,
    /// An input arrived.
    Input(Input),
    /// The input queue was closed.
    InputClosed,
    /// The device operation failed.
    DeviceFailed,
}

/// What the driver is to do next.
#[derive(Debug, PartialEq, Eq)]
pub enum Action {
    /// Tell the device that this pin may have changed.
    SendPinWatch(i32),
    /// Step the firmware.
    Idle,
    /// Ask the device whether its display has changed.
    CheckDisplay,
    /// Take a snapshot of the display.
    FetchScreen,
    /// Collect the device's console output.
    Drain,
    /// Wait for an input or a wake-up, at most this many milliseconds.
    Wait(u64),
    /// Make this device call.
    Deliver(DeviceCall),
    /// End the session in good order.
    Stop,
    /// End the session and report the failure to its owner.
    Abort,
}

/// The outcome of one step: an output to publish first, if any, and the next
/// operation.
#[derive(Debug, PartialEq, Eq)]
pub struct Step {
    pub publish: Option<Output>,
    pub action: Action,
}

/// The length of the first wait of a cycle in which the firmware wants to be
/// stepped again after `delay` milliseconds.
pub open spec fn first_wait(delay: u64) -> u64 {
    if delay >= MIN_FIRST_WAIT_MS {
        delay
    } else {
        MIN_FIRST_WAIT_MS
    }
}

/// The scheduler's transition: the phase and the step that follow when
/// `event` comes in `phase`.
///
/// A cycle steps the firmware until it names a delay, at most `IDLE_ATTEMPTS`
/// times; publishes a snapshot of the display if it has changed; publishes
/// the console output if there is any; and waits for input, the first time for
/// `first_wait` of the delay, after each input or wake-up for
/// `LATER_WAIT_MS`, until a wait runs out. An input is delivered at once.
pub open spec fn next(phase: Phase, event: Event) -> (Phase, Step) {
    match (phase, event) {
        (Phase::Finished, _) => (Phase::Finished, Step { publish: None, action: Action::Stop }),
        (Phase::Fresh, Event::Start) => (
            Phase::Announcing,
            Step { publish: None, action: Action::SendPinWatch(BTN1) },
        ),
        (Phase::Announcing, Event::Done) => (
            Phase::FirstDrain,
            Step { publish: None, action: Action::Drain },
        ),
        (Phase::FirstDrain, Event::Drained(bytes)) => (
            Phase::Idling { attempt: 1 },
            Step { publish: published(bytes), action: Action::Idle },
        ),
        (Phase::Idling { attempt }, Event::IdleHint(hint)) => if hint > 0 {
            (
                Phase::CheckingDisplay { delay: hint as u64 },
                Step { publish: None, action: Action::CheckDisplay },
            )
        } else if attempt < IDLE_ATTEMPTS {
            (
                Phase::Idling { attempt: (attempt + 1) as u8 },
                Step { publish: None, action: Action::Idle },
            )
        } else {
            (
                Phase::CheckingDisplay { delay: DEFAULT_DELAY_MS },
                Step { publish: None, action: Action::CheckDisplay },
            )
        },
        (Phase::CheckingDisplay { delay }, Event::DisplayChanged(changed)) => if changed {
            (Phase::FetchingScreen { delay }, Step { publish: None, action: Action::FetchScreen })
        } else {
            (Phase::Draining { delay }, Step { publish: None, action: Action::Drain })
        },
        (Phase::FetchingScreen { delay }, Event::Frame(screen)) => (
            Phase::Draining { delay },
            Step { publish: Some(Output::Screen(screen)), action: Action::Drain },
        ),
        (Phase::Draining { delay }, Event::Drained(bytes)) => (
            Phase::Waiting,
            Step { publish: published(bytes), action: Action::Wait(first_wait(delay)) },
        ),
        (Phase::Waiting, Event::Timeout) => (
            Phase::Idling { attempt: 1 },
            Step { publish: None, action: Action::Idle },
        ),
        (Phase::Waiting, Event::Wake) => (
            Phase::Waiting,
            Step { publish: None, action: Action::Wait(LATER_WAIT_MS) },
        ),
        (Phase::Waiting, Event::Input(input)) => (
            Phase::Delivering,
            Step { publish: None, action: Action::Deliver(delivery(input)) },
        ),
        (Phase::Waiting, Event::InputClosed) => (
            Phase::Finished,
            Step { publish: None, action: Action::Stop },
        ),
        (Phase::Delivering, Event::Done) => (
            Phase::Waiting,
            Step { publish: None, action: Action::Wait(LATER_WAIT_MS) },
        ),
        _ => (Phase::Failed, Step { publish: None, action: Action::Abort }),
    }
}

/// The scheduler.
#[derive(Debug)]
pub struct Runner {
    phase: Phase,
}

impl View for Runner {
    type V = Phase;

    closed spec fn view(&self) -> Phase {
        self.phase
    }
}

impl Runner {
    /// A scheduler that has asked nothing of the device yet.
    pub fn new() -> (runner: Self)
        ensures
            runner@ == Phase::Fresh,
    {
        Runner { phase: Phase::Fresh }
    }

    /// The phase in which the scheduler stands.
    pub fn phase(&self) -> (phase: Phase)
        ensures
            phase == self@,
    {
        self.phase
    }

    /// Takes what came of the last operation and says what to do next.
    pub fn step(&mut self, event: Event) -> (step: Step)
        ensures
            final(self)@ == next(old(self)@, event).0,
            step == next(old(self)@, event).1,
    {
        let (phase, step) = match (self.phase, event) {
            (Phase::Finished, _) => (Phase::Finished, Step { publish: None, action: Action::Stop }),
            (Phase::Fresh, Event::Start) => (
                Phase::Announcing,
                Step { publish: None, action: Action::SendPinWatch(BTN1) },
            ),
            (Phase::Announcing, Event::Done) => (
                Phase::FirstDrain,
                Step { publish: None, action: Action::Drain },
            ),
            (Phase::FirstDrain, Event::Drained(bytes)) => (
                Phase::Idling { attempt: 1 },
                Step { publish: console_output(bytes), action: Action::Idle },
            ),
            (Phase::Idling { attempt }, Event::IdleHint(hint)) => if hint > 0 {
                (
                    Phase::CheckingDisplay { delay: hint as u64 },
                    Step { publish: None, action: Action::CheckDisplay },
                )
            } else if attempt < IDLE_ATTEMPTS {
                (
                    Phase::Idling { attempt: attempt + 1 },
                    Step { publish: None, action: Action::Idle },
                )
            } else {
                (
                    Phase::CheckingDisplay { delay: DEFAULT_DELAY_MS },
                    Step { publish: None, action: Action::CheckDisplay },
                )
            },
            (Phase::CheckingDisplay { delay }, Event::DisplayChanged(changed)) => if changed {
                (
                    Phase::FetchingScreen { delay },
                    Step { publish: None, action: Action::FetchScreen },
                )
            } else {
                (Phase::Draining { delay }, Step { publish: None, action: Action::Drain })
            },
            (Phase::FetchingScreen { delay }, Event::Frame(screen)) => (
                Phase::Draining { delay },
                Step { publish: Some(Output::Screen(screen)), action: Action::Drain },
            ),
            (Phase::Draining { delay }, Event::Drained(bytes)) => {
                let wait: u64 = if delay >= MIN_FIRST_WAIT_MS {
                    delay
                } else {
                    MIN_FIRST_WAIT_MS
                };
                (Phase::Waiting, Step { publish: console_output(bytes), action: Action::Wait(wait) })
            },
            (Phase::Waiting, Event::Timeout) => (
                Phase::Idling { attempt: 1 },
                Step { publish: None, action: Action::Idle },
            ),
            (Phase::Waiting, Event::Wake) => (
                Phase::Waiting,
                Step { publish: None, action: Action::Wait(LATER_WAIT_MS) },
            ),
            (Phase::Waiting, Event::Input(input)) => (
                Phase::Delivering,
                Step { publish: None, action: Action::Deliver(dispatch(input)) },
            ),
            (Phase::Waiting, Event::InputClosed) => (
                Phase::Finished,
                Step { publish: None, action: Action::Stop },
            ),
            (Phase::Delivering, Event::Done) => (
                Phase::Waiting,
                Step { publish: None, action: Action::Wait(LATER_WAIT_MS) },
            ),
            _ => (Phase::Failed, Step { publish: None, action: Action::Abort }),
        };
        self.phase = phase;
        step
    }
}

/// The scheduler run over `events` in order, from `phase`: the phase at the
/// end and the steps taken on the way.
pub open spec fn run(phase: Phase, events: Seq<Event>) -> (Phase, Seq<Step>)
    decreases events.len(),
{
    if events.len() == 0 {
        (phase, Seq::empty())
    } else {
        let before = run(phase, events.drop_last());
        let last = next(before.0, events.last());
        (last.0, before.1.push(last.1))
    }
}

/// The inputs among `events`, in the order in which they arrived.
pub open spec fn arrivals(events: Seq<Event>) -> Seq<Input>
    decreases events.len(),
{
    if events.len() == 0 {
        Seq::empty()
    } else {
        let before = arrivals(events.drop_last());
        match events.last() {
            Event::Input(input) => before.push(input),
            _ => before,
        }
    }
}

/// The device calls that `steps` ask for, in the order in which they are
/// asked for.
pub open spec fn deliveries(steps: Seq<Step>) -> Seq<DeviceCall>
    decreases steps.len(),
{
    if steps.len() == 0 {
        Seq::empty()
    } else {
        let before = deliveries(steps.drop_last());
        match steps.last().action {
            Action::Deliver(call) => before.push(call),
            _ => before,
        }
    }
}

/// Whether the session is still under way in `phase`.
pub open spec fn running(phase: Phase) -> bool {
    phase != Phase::Finished && phase != Phase::Failed
}

/// The events of a firmware that answers successive steps with `hints`.
pub open spec fn idle_events(hints: Seq<i32>) -> Seq<Event> {
    Seq::new(hints.len(), |i: int| Event::IdleHint(hints[i]))
}

/// Inputs reach the device in the order in which they arrived, whatever else
/// happens in between and however many arrive within one wait. The device
/// calls that the scheduler asks for are those that deliver the inputs, one
/// for one and in the same order; while the session is under way none is
/// left out, and after it has ended none is delivered any more.
pub proof fn lemma_delivery_order(phase: Phase, events: Seq<Event>)
    ensures
        deliveries(run(phase, events).1).len() <= arrivals(events).len(),
        forall|i: int|
            0 <= i < deliveries(run(phase, events).1).len() ==> #[trigger] deliveries(
                run(phase, events).1,
            )[i] == delivery(arrivals(events)[i]),
        running(run(phase, events).0) ==> deliveries(run(phase, events).1).len() == arrivals(
            events,
        ).len(),
    decreases events.len(),
{
    if events.len() > 0 {
        lemma_delivery_order(phase, events.drop_last());
        let before = run(phase, events.drop_last());
        let last = next(before.0, events.last());
        assert(before.1.push(last.1).drop_last() =~= before.1);
    }
}

/// Once the session has ended it stays ended: the scheduler asks for no
/// further operation on the device.
pub proof fn lemma_ended_stays_ended(phase: Phase, event: Event)
    requires
        !running(phase),
    ensures
        next(phase, event).0 == phase,
        next(phase, event).1.publish is None,
        next(phase, event).1.action is Stop || next(phase, event).1.action is Abort,
{
}

/// A device operation that fails aborts the session, in whatever phase it
/// was under way.
pub proof fn lemma_failure_aborts(phase: Phase)
    requires
        running(phase),
    ensures
        next(phase, Event::DeviceFailed).0 == Phase::Failed,
        next(phase, Event::DeviceFailed).1.action is Abort,
{
}

/// Whether output of the device is being harvested in `phase`.
pub open spec fn harvesting(phase: Phase) -> bool {
    phase is FirstDrain || phase is FetchingScreen || phase is Draining
}

/// Output is published only while it is harvested, and input is delivered
/// only from the wait for it; and from that wait no way leads back to the
/// harvest but through a step of the firmware. So what a cycle publishes
/// shows the device as it is after every input delivered before, and an
/// input is seen in the output of the next cycle at the earliest.
pub proof fn lemma_harvest_before_input(phase: Phase, event: Event)
    ensures
        next(phase, event).1.publish is Some ==> harvesting(phase),
        next(phase, event).1.action is Deliver ==> phase is Waiting,
        phase is Waiting || phase is Delivering ==> !harvesting(next(phase, event).0) && !(next(
            phase,
            event,
        ).0 is CheckingDisplay),
        harvesting(next(phase, event).0) && !harvesting(phase) ==> phase is CheckingDisplay
            || phase is Announcing,
        next(phase, event).0 is CheckingDisplay ==> phase is Idling,
{
}

proof fn lemma_idle_retries(hints: Seq<i32>)
    requires
        hints.len() < IDLE_ATTEMPTS,
        forall|i: int| 0 <= i < hints.len() ==> hints[i] <= 0,
    ensures
        run(Phase::Idling { attempt: 1 }, idle_events(hints)).0 == (Phase::Idling {
            attempt: (hints.len() + 1) as u8,
        }),
        run(Phase::Idling { attempt: 1 }, idle_events(hints)).1.len() == hints.len(),
        forall|i: int|
            0 <= i < hints.len() ==> (#[trigger] run(
                Phase::Idling { attempt: 1 },
                idle_events(hints),
            ).1[i]).action is Idle,
    decreases hints.len(),
{
    if hints.len() > 0 {
        assert(idle_events(hints).drop_last() =~= idle_events(hints.drop_last()));
        lemma_idle_retries(hints.drop_last());
    }
}

/// Stepping the firmware ends with the first step at which it names a delay,
/// and with the fifth step at the latest. Where the firmware answers its
/// steps with `hints`, all but the last of them without a delay, and the last
/// names one or is the fifth, the scheduler has the firmware stepped once
/// more after each but the last, then turns to the display, and goes by the
/// delay that was named, or by `DEFAULT_DELAY_MS` where none was.
pub proof fn lemma_idle_phase(hints: Seq<i32>)
    requires
        1 <= hints.len() <= IDLE_ATTEMPTS,
        forall|i: int| 0 <= i < hints.len() - 1 ==> hints[i] <= 0,
        hints.len() < IDLE_ATTEMPTS ==> hints.last() > 0,
    ensures
        run(Phase::Idling { attempt: 1 }, idle_events(hints)).0 == (Phase::CheckingDisplay {
            delay: if hints.last() > 0 {
                hints.last() as u64
            } else {
                DEFAULT_DELAY_MS
            },
        }),
        run(Phase::Idling { attempt: 1 }, idle_events(hints)).1.len() == hints.len(),
        forall|i: int|
            0 <= i < hints.len() - 1 ==> (#[trigger] run(
                Phase::Idling { attempt: 1 },
                idle_events(hints),
            ).1[i]).action is Idle,
        run(Phase::Idling { attempt: 1 }, idle_events(hints)).1.last().action is CheckDisplay,
{
    assert(idle_events(hints).drop_last() =~= idle_events(hints.drop_last()));
    lemma_idle_retries(hints.drop_last());
}

} // verus!
