use bangle_emu::event::{button_signal, console_output, dispatch, DeviceCall, Input, Output, BTN1};
use bangle_emu::runner::{Action, Event, Phase, Runner, Step};
use bangle_emu::screen::Screen;

fn quiet(action: Action) -> Step {
    Step { publish: None, action }
}

/// Brings a fresh runner to the first idle step of its first cycle.
fn started() -> Runner {
    let mut r = Runner::new();
    assert_eq!(r.step(Event::Start), quiet(Action::SendPinWatch(BTN1)));
    assert_eq!(r.step(Event::Done), quiet(Action::Drain));
    assert_eq!(r.step(Event::Drained(vec![])), quiet(Action::Idle));
    r
}

/// Brings a runner that is stepping the firmware to its wait for input.
fn to_waiting(r: &mut Runner, hint: i32) -> u64 {
    assert_eq!(r.step(Event::IdleHint(hint)), quiet(Action::CheckDisplay));
    assert_eq!(r.step(Event::DisplayChanged(false)), quiet(Action::Drain));
    match r.step(Event::Drained(vec![])) {
        Step { publish: None, action: Action::Wait(ms) } => ms,
        other => panic!("{other:?}"),
    }
}

#[test]
fn startup_announces_the_button_and_drains() {
    let mut r = Runner::new();
    assert_eq!(r.phase(), Phase::Fresh);
    assert_eq!(BTN1, 17);
    assert_eq!(r.step(Event::Start), quiet(Action::SendPinWatch(17)));
    assert_eq!(r.phase(), Phase::Announcing);
    assert_eq!(r.step(Event::Done), quiet(Action::Drain));
    assert_eq!(r.phase(), Phase::FirstDrain);
    assert_eq!(
        r.step(Event::Drained(b"hi".to_vec())),
        Step { publish: Some(Output::Console(b"hi".to_vec())), action: Action::Idle }
    );
    assert_eq!(r.phase(), Phase::Idling { attempt: 1 });
}

#[test]
fn idle_stops_at_the_first_positive_hint() {
    let mut r = started();
    assert_eq!(r.step(Event::IdleHint(0)), quiet(Action::Idle));
    assert_eq!(r.step(Event::IdleHint(-3)), quiet(Action::Idle));
    assert_eq!(r.phase(), Phase::Idling { attempt: 3 });
    assert_eq!(r.step(Event::IdleHint(25)), quiet(Action::CheckDisplay));
    assert_eq!(r.phase(), Phase::CheckingDisplay { delay: 25 });
}

#[test]
fn idle_gives_up_after_five_steps() {
    let mut r = started();
    for attempt in 1..5u8 {
        assert_eq!(r.phase(), Phase::Idling { attempt });
        assert_eq!(r.step(Event::IdleHint(0)), quiet(Action::Idle));
    }
    assert_eq!(r.phase(), Phase::Idling { attempt: 5 });
    assert_eq!(r.step(Event::IdleHint(0)), quiet(Action::CheckDisplay));
    assert_eq!(r.phase(), Phase::CheckingDisplay { delay: 1 });
    assert_eq!(r.step(Event::DisplayChanged(false)), quiet(Action::Drain));
    assert_eq!(r.step(Event::Drained(vec![])), quiet(Action::Wait(10)));
}

#[test]
fn positive_hint_on_the_fifth_step_counts() {
    let mut r = started();
    for _ in 0..4 {
        r.step(Event::IdleHint(0));
    }
    assert_eq!(r.step(Event::IdleHint(70)), quiet(Action::CheckDisplay));
    assert_eq!(r.phase(), Phase::CheckingDisplay { delay: 70 });
}

#[test]
fn first_wait_is_at_least_ten_ms() {
    assert_eq!(to_waiting(&mut started(), 1), 10);
    assert_eq!(to_waiting(&mut started(), 9), 10);
    assert_eq!(to_waiting(&mut started(), 10), 10);
    assert_eq!(to_waiting(&mut started(), 11), 11);
    assert_eq!(to_waiting(&mut started(), 250), 250);
    assert_eq!(to_waiting(&mut started(), i32::MAX), 2147483647);
}

#[test]
fn changed_display_is_published_before_the_console() {
    let mut r = started();
    assert_eq!(r.step(Event::IdleHint(5)), quiet(Action::CheckDisplay));
    assert_eq!(r.step(Event::DisplayChanged(true)), quiet(Action::FetchScreen));
    assert_eq!(r.phase(), Phase::FetchingScreen { delay: 5 });
    let screen = Box::new(Screen::default());
    assert_eq!(
        r.step(Event::Frame(screen.clone())),
        Step { publish: Some(Output::Screen(screen)), action: Action::Drain }
    );
    assert_eq!(
        r.step(Event::Drained(vec![1, 2, 3])),
        Step { publish: Some(Output::Console(vec![1, 2, 3])), action: Action::Wait(10) }
    );
    assert_eq!(r.phase(), Phase::Waiting);
}

#[test]
fn later_waits_last_one_ms() {
    let mut r = started();
    to_waiting(&mut r, 40);
    assert_eq!(r.step(Event::Wake), quiet(Action::Wait(1)));
    assert_eq!(r.phase(), Phase::Waiting);
    assert_eq!(
        r.step(Event::Input(Input::Button(true))),
        quiet(Action::Deliver(DeviceCall::PressButton(true)))
    );
    assert_eq!(r.phase(), Phase::Delivering);
    assert_eq!(r.step(Event::Done), quiet(Action::Wait(1)));
    assert_eq!(r.step(Event::Timeout), quiet(Action::Idle));
    assert_eq!(r.phase(), Phase::Idling { attempt: 1 });
}

#[test]
fn inputs_are_delivered_in_arrival_order() {
    let mut r = started();
    to_waiting(&mut r, 40);
    let inputs = vec![
        Input::Console(b"a".to_vec()),
        Input::Touch(1, 2, true),
        Input::Button(true),
        Input::Console(b"b".to_vec()),
        Input::Touch(3, 4, false),
        Input::Button(false),
    ];
    let mut delivered = vec![];
    for (i, input) in inputs.iter().enumerate() {
        if i == 2 {
            // a wake-up in between changes nothing
            assert_eq!(r.step(Event::Wake), quiet(Action::Wait(1)));
        }
        match r.step(Event::Input(input.clone())) {
            Step { publish: None, action: Action::Deliver(call) } => delivered.push(call),
            other => panic!("{other:?}"),
        }
        assert_eq!(r.step(Event::Done), quiet(Action::Wait(1)));
    }
    assert_eq!(
        delivered,
        vec![
            DeviceCall::PushString(b"a".to_vec()),
            DeviceCall::SendTouch(1, 2, true),
            DeviceCall::PressButton(true),
            DeviceCall::PushString(b"b".to_vec()),
            DeviceCall::SendTouch(3, 4, false),
            DeviceCall::PressButton(false),
        ]
    );
    assert_eq!(delivered, inputs.into_iter().map(dispatch).collect::<Vec<_>>());
}

#[test]
fn device_failure_aborts_in_every_phase() {
    let phases: Vec<Box<dyn Fn() -> Runner>> = vec![
        Box::new(Runner::new),
        Box::new(started),
        Box::new(|| {
            let mut r = started();
            to_waiting(&mut r, 3);
            r
        }),
        Box::new(|| {
            let mut r = started();
            to_waiting(&mut r, 3);
            r.step(Event::Input(Input::Button(true)));
            r
        }),
    ];
    for make in phases {
        let mut r = make();
        assert_eq!(r.step(Event::DeviceFailed), quiet(Action::Abort));
        assert_eq!(r.phase(), Phase::Failed);
        assert_eq!(r.step(Event::Input(Input::Button(true))), quiet(Action::Abort));
        assert_eq!(r.step(Event::Timeout), quiet(Action::Abort));
        assert_eq!(r.phase(), Phase::Failed);
    }
}

#[test]
fn closed_input_queue_ends_the_session() {
    let mut r = started();
    to_waiting(&mut r, 3);
    assert_eq!(r.step(Event::InputClosed), quiet(Action::Stop));
    assert_eq!(r.phase(), Phase::Finished);
    assert_eq!(r.step(Event::Timeout), quiet(Action::Stop));
    assert_eq!(r.step(Event::Input(Input::Button(true))), quiet(Action::Stop));
    assert_eq!(r.step(Event::DeviceFailed), quiet(Action::Stop));
    assert_eq!(r.phase(), Phase::Finished);
}

#[test]
fn event_out_of_turn_aborts() {
    let mut r = started();
    assert_eq!(r.step(Event::Timeout), quiet(Action::Abort));
    assert_eq!(r.phase(), Phase::Failed);
    let mut r = started();
    assert_eq!(r.step(Event::Input(Input::Touch(0, 0, true))), quiet(Action::Abort));
    let mut r = Runner::new();
    assert_eq!(r.step(Event::IdleHint(3)), quiet(Action::Abort));
}

#[test]
fn dispatch_by_variant() {
    assert_eq!(dispatch(Input::Console(vec![7, 8])), DeviceCall::PushString(vec![7, 8]));
    assert_eq!(dispatch(Input::Touch(9, 10, true)), DeviceCall::SendTouch(9, 10, true));
    assert_eq!(dispatch(Input::Button(false)), DeviceCall::PressButton(false));
}

#[test]
fn only_buttons_reach_the_watchdog() {
    assert_eq!(button_signal(&Input::Button(true)), Some(true));
    assert_eq!(button_signal(&Input::Button(false)), Some(false));
    assert_eq!(button_signal(&Input::Touch(0, 0, true)), None);
    assert_eq!(button_signal(&Input::Console(vec![1])), None);
}

#[test]
fn empty_console_output_is_not_published() {
    assert_eq!(console_output(vec![]), None);
    assert_eq!(console_output(vec![0]), Some(Output::Console(vec![0])));
}
