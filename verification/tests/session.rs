use bangle_emu::event::{Input, Output};
use bangle_emu::net::{NetAction, NetBridge, NetEvent};
use bangle_emu::screen::Screen;
use bangle_emu::session::{route_output, route_ui_input, Routed, UiRoute};
use bangle_emu::ui::{Key, MouseKind, UIInput, Ui, KEY_HOLD_MS};

fn console(text: &str) -> Option<UIInput> {
    Some(UIInput::EmuInput(Input::Console(text.as_bytes().to_vec())))
}

#[test]
fn arrow_keys_swipe() {
    let mut ui = Ui::new();
    assert_eq!(ui.key(Key::Left, 0), console("\x10Bangle.emit('swipe', -1, 0);\n"));
    assert_eq!(ui.key(Key::Right, 0), console("\x10Bangle.emit('swipe', 1, 0);\n"));
    assert_eq!(ui.key(Key::Up, 0), console("\x10Bangle.emit('swipe', 0, -1);\n"));
    assert_eq!(ui.key(Key::Down, 0), console("\x10Bangle.emit('swipe', 0, 1);\n"));
    assert_eq!(ui.next_deadline(), None);
    assert!(!ui.button_down());
}

#[test]
fn q_and_esc_quit() {
    let mut ui = Ui::new();
    assert_eq!(ui.key(Key::Char('q'), 5), Some(UIInput::Quit));
    assert_eq!(ui.key(Key::Esc, 5), Some(UIInput::Quit));
    assert_eq!(ui.key(Key::Char('Q'), 5), None);
    assert_eq!(ui.key(Key::Char('x'), 5), None);
    assert_eq!(ui.key(Key::Other, 5), None);
    assert_eq!(ui.next_deadline(), None);
}

#[test]
fn enter_holds_the_button_for_300_ms() {
    assert_eq!(KEY_HOLD_MS, 300);
    let mut ui = Ui::new();
    assert_eq!(ui.key(Key::Enter, 1000), Some(UIInput::EmuInput(Input::Button(true))));
    assert!(ui.button_down());
    assert_eq!(ui.next_deadline(), Some(1300));
    assert_eq!(ui.timeout(1299), None);
    assert_eq!(ui.timeout(1300), Some(UIInput::EmuInput(Input::Button(false))));
    assert!(!ui.button_down());
    assert_eq!(ui.next_deadline(), None);
    assert_eq!(ui.timeout(5000), None);
}

#[test]
fn key_repeat_keeps_the_button_down() {
    let mut ui = Ui::new();
    assert_eq!(ui.key(Key::Enter, 0), Some(UIInput::EmuInput(Input::Button(true))));
    let mut now = 0;
    while now < 2100 {
        now += 200;
        assert_eq!(ui.key(Key::Enter, now), None);
        let told = ui.timeout(now);
        if now == 1600 {
            assert_eq!(told, Some(UIInput::Reset));
        } else if now == 2000 {
            assert_eq!(told, Some(UIInput::Interrupt));
        } else {
            assert_eq!(told, None, "at {now}");
        }
    }
    assert_eq!(ui.next_deadline(), Some(2500));
    assert_eq!(ui.timeout(2500), Some(UIInput::EmuInput(Input::Button(false))));
    // the next press begins a new hold
    assert_eq!(ui.key(Key::Enter, 3000), Some(UIInput::EmuInput(Input::Button(true))));
    assert_eq!(ui.next_deadline(), Some(3300));
    assert_eq!(ui.key(Key::Enter, 3250), None);
    assert_eq!(ui.timeout(3300), None);
    assert_eq!(ui.next_deadline(), Some(3550));
}

#[test]
fn timers_fire_earliest_first() {
    let mut ui = Ui::new();
    ui.key(Key::Enter, 0);
    ui.key(Key::Enter, 1800);
    // reset at 1500, interrupt at 2000, release at 2100: all are due
    assert_eq!(ui.timeout(9000), Some(UIInput::Reset));
    assert_eq!(ui.timeout(9000), Some(UIInput::Interrupt));
    assert_eq!(ui.timeout(9000), Some(UIInput::EmuInput(Input::Button(false))));
    assert_eq!(ui.timeout(9000), None);
    // a release that is due before the reset disarms it
    let mut ui = Ui::new();
    ui.key(Key::Enter, 0);
    assert_eq!(ui.timeout(9000), Some(UIInput::EmuInput(Input::Button(false))));
    assert_eq!(ui.timeout(9000), None);
    // of a reset and a release due at the same time the reset comes first
    let mut ui = Ui::new();
    ui.key(Key::Enter, 0);
    ui.key(Key::Enter, 1200);
    assert_eq!(ui.timeout(1500), Some(UIInput::Reset));
    assert_eq!(ui.timeout(1500), Some(UIInput::EmuInput(Input::Button(false))));
}

#[test]
fn mouse_maps_to_the_display() {
    let mut ui = Ui::new();
    assert_eq!(ui.screen_origin(), (0, 0));
    ui.set_origin((13, 1));
    assert_eq!(ui.screen_origin(), (13, 1));
    let touch = |x, y, on| Some(UIInput::EmuInput(Input::Touch(x, y, on)));
    assert_eq!(ui.mouse(MouseKind::Down, 23, 11), touch(10, 21, true));
    assert_eq!(ui.mouse(MouseKind::Drag, 24, 11), touch(11, 21, true));
    assert_eq!(ui.mouse(MouseKind::Up, 24, 12), touch(11, 23, false));
    // off the display counts as on its edge
    assert_eq!(ui.mouse(MouseKind::Down, 5, 0), touch(0, 0, true));
    assert_eq!(ui.mouse(MouseKind::Down, 13, 1), touch(0, 1, true));
    assert_eq!(ui.mouse(MouseKind::Down, 188, 88), touch(175, 175, true));
    assert_eq!(ui.mouse(MouseKind::Down, 189, 89), touch(175, 175, true));
    assert_eq!(ui.mouse(MouseKind::Up, u16::MAX, u16::MAX), touch(175, 175, false));
    assert_eq!(ui.mouse(MouseKind::Moved, 23, 11), None);
    assert_eq!(ui.mouse(MouseKind::ScrollDown, 23, 11), None);
    assert_eq!(ui.mouse(MouseKind::ScrollUp, 23, 11), None);
}

#[test]
fn first_client_is_kept_and_others_are_refused() {
    let mut net = NetBridge::new();
    assert!(!net.connected());
    assert_eq!(net.step(NetEvent::Outgoing(vec![1])), NetAction::Discard);
    assert_eq!(net.step(NetEvent::Accepted), NetAction::Adopt);
    assert!(net.connected());
    assert_eq!(net.step(NetEvent::Accepted), NetAction::Refuse);
    assert!(net.connected());
    assert_eq!(net.step(NetEvent::Outgoing(vec![1, 2])), NetAction::Write(vec![1, 2]));
    assert_eq!(
        net.step(NetEvent::Read(b"ls\n".to_vec())),
        NetAction::Forward(Input::Console(b"ls\n".to_vec()))
    );
    assert!(net.connected());
}

#[test]
fn client_is_dropped_when_its_connection_ends() {
    let mut net = NetBridge::new();
    net.step(NetEvent::Accepted);
    assert_eq!(net.step(NetEvent::Read(vec![])), NetAction::Disconnect);
    assert!(!net.connected());
    assert_eq!(net.step(NetEvent::Accepted), NetAction::Adopt);
    assert_eq!(net.step(NetEvent::ReadFailed), NetAction::Disconnect);
    assert!(!net.connected());
    assert_eq!(net.step(NetEvent::Outgoing(vec![3])), NetAction::Discard);
}

#[test]
fn bridge_ends_on_quit_and_on_a_failed_accept() {
    let mut net = NetBridge::new();
    assert_eq!(net.step(NetEvent::Quit), NetAction::Stop);
    assert_eq!(net.step(NetEvent::AcceptFailed), NetAction::Abort);
    net.step(NetEvent::Accepted);
    assert_eq!(net.step(NetEvent::Quit), NetAction::Stop);
    assert!(net.connected());
}

#[test]
fn console_output_goes_to_terminal_and_network() {
    assert_eq!(
        route_output(Output::Console(b"ok".to_vec())),
        Routed { to_ui: Output::Console(b"ok".to_vec()), to_net: Some(b"ok".to_vec()) }
    );
    assert_eq!(
        route_output(Output::Console(vec![])),
        Routed { to_ui: Output::Console(vec![]), to_net: Some(vec![]) }
    );
    let screen = Box::new(Screen::default());
    assert_eq!(
        route_output(Output::Screen(screen.clone())),
        Routed { to_ui: Output::Screen(screen), to_net: None }
    );
}

#[test]
fn terminal_messages_are_routed() {
    assert_eq!(route_ui_input(UIInput::Quit), UiRoute::Quit);
    assert_eq!(
        route_ui_input(UIInput::EmuInput(Input::Touch(1, 2, true))),
        UiRoute::ToEmu(Input::Touch(1, 2, true))
    );
    assert_eq!(route_ui_input(UIInput::Reset), UiRoute::Ignore);
    assert_eq!(route_ui_input(UIInput::Interrupt), UiRoute::Ignore);
}
