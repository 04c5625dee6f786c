//! What the user does at the terminal, and what the emulated watch is told
//! of it.

use crate::event::{Input, InputView};
use crate::watchdog::{armable, due, INTERRUPT_HOLD_MS, RESET_HOLD_MS};
use vstd::prelude::*;
use vstd::string::{StrSliceExecFns, StringSliceAdditionalSpecFns};

verus! {

/// A key press holds the button down for this long, in milliseconds. The
/// terminal reports no key releases; it repeats a key that is held, and each
/// repeat holds the button for this long again.
pub const KEY_HOLD_MS: u64 = 300;

/// The highest coordinate on the display.
pub const MAX_COORDINATE: u16 = 175;

/// What the terminal sends to the session.
#[derive(Debug, PartialEq, Eq)]
pub enum UIInput {
    /// The user wants to leave.
    Quit,
    /// The button has been held long enough for a reset.
    Reset,
    /// The button has been held long enough for an interrupt.
    Interrupt,
    /// An input for the emulated watch.
    EmuInput(Input),
}

/// What a message of the terminal holds.
pub enum UIInputView {
    Quit,
    Reset,
    Interrupt,
    EmuInput(InputView),
}

impl View for UIInput {
    type V = UIInputView;

    open spec fn view(&self) -> UIInputView {
        match *self {
            UIInput::Quit => UIInputView::Quit,
            UIInput::Reset => UIInputView::Reset,
            UIInput::Interrupt => UIInputView::Interrupt,
            UIInput::EmuInput(input) => UIInputView::EmuInput(input@),
        }
    }
}

/// What an optional message holds.
pub open spec fn told_view(told: Option<UIInput>) -> Option<UIInputView> {
    match told {
        Some(message) => Some(message@),
        None => None,
    }
}

/// A key of the terminal, as far as the emulator tells keys apart.
#[derive(Clone, Copy, Debug, PartialEq, Eq, Structural)]
pub enum Key {
    Left,
    Right,
    Up,
    Down,
    Enter,
    Esc,
    Char(char),
    Other,
}

/// What the mouse did.
#[derive(Clone, Copy, Debug, PartialEq, Eq, Structural)]
pub enum MouseKind {
    Down,
    Up,
    Drag,
    Moved,
    ScrollDown,
    ScrollUp,
}

/// One of the three timers of the terminal.
#[derive(Clone, Copy, Debug, PartialEq, Eq, Structural)]
pub enum Timer {
    Reset,
    Interrupt,
    Button,
}

/// The armed timers, as times in milliseconds on the session's clock.
pub struct Timers {
    /// When the button is let go, unless the key repeats before.
    pub button: Option<u64>,
    /// When the button has been held long enough for a reset.
    pub reset: Option<u64>,
    /// When the button has been held long enough for an interrupt.
    pub interrupt: Option<u64>,
}

/// No timer armed: the button is up.
pub open spec fn at_rest() -> Timers {
    Timers { button: None, reset: None, interrupt: None }
}

/// The console input that makes the firmware see a swipe, for an arrow key;
/// none for any other key.
pub open spec fn swipe_command(key: Key) -> Option<Seq<u8>> {
    match key {
        Key::Left => Some("\x10Bangle.emit('swipe', -1, 0);\n".spec_bytes()),
        Key::Right => Some("\x10Bangle.emit('swipe', 1, 0);\n".spec_bytes()),
        Key::Up => Some("\x10Bangle.emit('swipe', 0, -1);\n".spec_bytes()),
        Key::Down => Some("\x10Bangle.emit('swipe', 0, 1);\n".spec_bytes()),
        _ => None,
    }
}

/// The timers after `key` was pressed at time `now`. Enter holds the button
/// down for `KEY_HOLD_MS` from now; where the button was up, the hold begins
/// now. No other key touches the timers.
pub open spec fn timers_after_key(t: Timers, key: Key, now: u64) -> Timers {
    if key == Key::Enter {
        Timers {
            button: Some((now + KEY_HOLD_MS) as u64),
            reset: if t.button is None {
                Some((now + RESET_HOLD_MS) as u64)
            } else {
                t.reset
            },
            interrupt: if t.button is None {
                Some((now + INTERRUPT_HOLD_MS) as u64)
            } else {
                t.interrupt
            },
        }
    } else {
        t
    }
}

/// What the session is told when `key` is pressed with the timers `t`: a
/// swipe for an arrow key, the button going down for Enter where the button
/// was up, the wish to leave for `q` and Esc, and else nothing.
pub open spec fn told_by_key(t: Timers, key: Key) -> Option<UIInputView> {
    if swipe_command(key) is Some {
        Some(UIInputView::EmuInput(InputView::Console(swipe_command(key)->0)))
    } else if key == Key::Enter && t.button is None {
        Some(UIInputView::EmuInput(InputView::Button(true)))
    } else if key == Key::Esc || key == Key::Char('q') {
        Some(UIInputView::Quit)
    } else {
        None
    }
}

/// What the session is told when the mouse does `kind` over the point `at` of
/// the display: a touch where a button went down or the mouse was dragged, a
/// release where a button went up, and else nothing.
pub open spec fn told_by_mouse(kind: MouseKind, at: (u8, u8)) -> Option<UIInputView> {
    match kind {
        MouseKind::Down | MouseKind::Drag => Some(
            UIInputView::EmuInput(InputView::Touch(at.0, at.1, true)),
        ),
        MouseKind::Up => Some(UIInputView::EmuInput(InputView::Touch(at.0, at.1, false))),
        _ => None,
    }
}

/// What the session is told when `timer` fires.
pub open spec fn told_by_timer(timer: Timer) -> UIInputView {
    match timer {
        Timer::Reset => UIInputView::Reset,
        Timer::Interrupt => UIInputView::Interrupt,
        Timer::Button => UIInputView::EmuInput(InputView::Button(false)),
    }
}

/// The timer that fires when the terminal looks at the clock at time `now`:
/// of those that have passed the earliest, and of two that are armed for the
/// same time the reset before the interrupt, and either before the button's
/// release.
pub open spec fn first_due(t: Timers, now: u64) -> Option<Timer> {
    let before = |a: Option<u64>, b: Option<u64>| !due(b, now) || a->0 <= b->0;
    if due(t.reset, now) && before(t.reset, t.interrupt) && before(t.reset, t.button) {
        Some(Timer::Reset)
    } else if due(t.interrupt, now) && before(t.interrupt, t.button) {
        Some(Timer::Interrupt)
    } else if due(t.button, now) {
        Some(Timer::Button)
    } else {
        None
    }
}

/// The timers after `timer` has fired: the button's release disarms all
/// three, each of the others itself alone.
pub open spec fn timers_after(t: Timers, timer: Timer) -> Timers {
    match timer {
        Timer::Reset => Timers { reset: None, ..t },
        Timer::Interrupt => Timers { interrupt: None, ..t },
        Timer::Button => at_rest(),
    }
}

/// The point of the display under the mouse, for a mouse in column `column`
/// and row `row` of the terminal and a display whose first pixel is drawn at
/// `origin`. A terminal row holds two rows of pixels. A mouse off the display
/// counts as on its nearest edge.
pub open spec fn pointer(origin: (u16, u16), column: u16, row: u16) -> (u8, u8) {
    let x = column - origin.0;
    let y = 2 * row - origin.1;
    (
        (if x < 0 { 0 } else if x > MAX_COORDINATE { MAX_COORDINATE as int } else { x }) as u8,
        (if y < 0 { 0 } else if y > MAX_COORDINATE { MAX_COORDINATE as int } else { y }) as u8,
    )
}

/// The state of the terminal: the timers, and where the display was last
/// drawn.
#[derive(Debug)]
pub struct Ui {
    button_deadline: Option<u64>,
    reset_deadline: Option<u64>,
    interrupt_deadline: Option<u64>,
    screen_ofs: (u16, u16),
}

impl View for Ui {
    type V = Timers;

    closed spec fn view(&self) -> Timers {
        Timers {
            button: self.button_deadline,
            reset: self.reset_deadline,
            interrupt: self.interrupt_deadline,
        }
    }
}

impl Ui {
    /// Where the first pixel of the display was last drawn.
    pub closed spec fn origin(&self) -> (u16, u16) {
        self.screen_ofs
    }

    /// A terminal with the button up and the display at the top left.
    pub fn new() -> (ui: Self)
        ensures
            ui@ == at_rest(),
            ui.origin() == (0u16, 0u16),
    {
        Ui {
            button_deadline: None,
            reset_deadline: None,
            interrupt_deadline: None,
            screen_ofs: (0, 0),
        }
    }

    /// Where the first pixel of the display was last drawn.
    pub fn screen_origin(&self) -> (origin: (u16, u16))
        ensures
            origin == self.origin(),
    {
        self.screen_ofs
    }

    /// Whether the button is held down.
    pub fn button_down(&self) -> (down: bool)
        ensures
            down == (self@.button is Some),
    {
        self.button_deadline.is_some()
    }

    /// Notes where the first pixel of the display was drawn.
    pub fn set_origin(&mut self, origin: (u16, u16))
        ensures
            final(self).origin() == origin,
            final(self)@ == old(self)@,
    {
        self.screen_ofs = origin;
    }

    /// Takes a key pressed at time `now` and returns what the session is to
    /// be told.
    pub fn key(&mut self, key: Key, now: u64) -> (told: Option<UIInput>)
        requires
            key == Key::Enter ==> armable(now),
        ensures
            final(self)@ == timers_after_key(old(self)@, key, now),
            final(self).origin() == old(self).origin(),
            told_view(told) == told_by_key(old(self)@, key),
    {
        match key {
            Key::Left => Some(
                UIInput::EmuInput(Input::Console("\x10Bangle.emit('swipe', -1, 0);\n".as_bytes_vec())),
            ),
            Key::Right => Some(
                UIInput::EmuInput(Input::Console("\x10Bangle.emit('swipe', 1, 0);\n".as_bytes_vec())),
            ),
            Key::Up => Some(
                UIInput::EmuInput(Input::Console("\x10Bangle.emit('swipe', 0, -1);\n".as_bytes_vec())),
            ),
            Key::Down => Some(
                UIInput::EmuInput(Input::Console("\x10Bangle.emit('swipe', 0, 1);\n".as_bytes_vec())),
            ),
            Key::Enter => {
                let was_up = self.button_deadline.is_none();
                if was_up {
                    self.reset_deadline = Some(now + RESET_HOLD_MS);
                    self.interrupt_deadline = Some(now + INTERRUPT_HOLD_MS);
                }
                self.button_deadline = Some(now + KEY_HOLD_MS);
                if was_up {
                    Some(UIInput::EmuInput(Input::Button(true)))
                } else {
                    None
                }
            },
            Key::Esc => Some(UIInput::Quit),
            Key::Char(c) => if c == 'q' {
                Some(UIInput::Quit)
            } else {
                None
            },
            Key::Other => None,
        }
    }

    /// Takes what the mouse did in column `column` and row `row` of the
    /// terminal and returns what the session is to be told.
    pub fn mouse(&self, kind: MouseKind, column: u16, row: u16) -> (told: Option<UIInput>)
        ensures
            told_view(told) == told_by_mouse(kind, pointer(self.origin(), column, row)),
    {
        let x: u16 = if column > self.screen_ofs.0 { column - self.screen_ofs.0 } else { 0 };
        let doubled: u32 = 2 * (row as u32);
        let y: u32 = if doubled > self.screen_ofs.1 as u32 {
            doubled - self.screen_ofs.1 as u32
        } else {
            0
        };
        let x: u8 = if x > MAX_COORDINATE { MAX_COORDINATE as u8 } else { x as u8 };
        let y: u8 = if y > MAX_COORDINATE as u32 { MAX_COORDINATE as u8 } else { y as u8 };
        match kind {
            MouseKind::Down => Some(UIInput::EmuInput(Input::Touch(x, y, true))),
            MouseKind::Up => Some(UIInput::EmuInput(Input::Touch(x, y, false))),
            MouseKind::Drag => Some(UIInput::EmuInput(Input::Touch(x, y, true))),
            MouseKind::Moved => None,
            MouseKind::ScrollDown => None,
            MouseKind::ScrollUp => None,
        }
    }

    /// Looks at the clock at time `now`, fires the timer that is due first,
    /// if any is due, and returns what the session is to be told: the
    /// button's release, or that it has been held long enough for a reset or
    /// an interrupt.
    pub fn timeout(&mut self, now: u64) -> (told: Option<UIInput>)
        ensures
            final(self).origin() == old(self).origin(),
            final(self)@ == match first_due(old(self)@, now) {
                Some(timer) => timers_after(old(self)@, timer),
                None => old(self)@,
            },
            told_view(told) == match first_due(old(self)@, now) {
                Some(timer) => Some(told_by_timer(timer)),
                None => None,
            },
    {
        let reset_due = match self.reset_deadline {
            Some(at) => at <= now,
            None => false,
        };
        let interrupt_due = match self.interrupt_deadline {
            Some(at) => at <= now,
            None => false,
        };
        let button_due = match self.button_deadline {
            Some(at) => at <= now,
            None => false,
        };
        if reset_due && (!interrupt_due || not_after(self.reset_deadline, self.interrupt_deadline))
            && (!button_due || not_after(self.reset_deadline, self.button_deadline)) {
            self.reset_deadline = None;
            Some(UIInput::Reset)
        } else if interrupt_due && (!button_due || not_after(
            self.interrupt_deadline,
            self.button_deadline,
        )) {
            self.interrupt_deadline = None;
            Some(UIInput::Interrupt)
        } else if button_due {
            self.button_deadline = None;
            self.reset_deadline = None;
            self.interrupt_deadline = None;
            Some(UIInput::EmuInput(Input::Button(false)))
        } else {
            None
        }
    }

    /// The time at which the next timer fires, if any is armed.
    pub fn next_deadline(&self) -> (next: Option<u64>)
        ensures
            next == earliest(earliest(self@.reset, self@.interrupt), self@.button),
    {
        sooner(sooner(self.reset_deadline, self.interrupt_deadline), self.button_deadline)
    }
}

/// The earlier of two deadlines, of which either may not be armed.
pub open spec fn earliest(a: Option<u64>, b: Option<u64>) -> Option<u64> {
    match (a, b) {
        (Some(x), Some(y)) => Some(if x <= y { x } else { y }),
        (Some(x), None) => Some(x),
        (None, _) => b,
    }
}

fn sooner(a: Option<u64>, b: Option<u64>) -> (first: Option<u64>)
    ensures
        first == earliest(a, b),
{
    match (a, b) {
        (Some(x), Some(y)) => Some(if x <= y { x } else { y }),
        (Some(x), None) => Some(x),
        (None, _) => b,
    }
}

fn not_after(a: Option<u64>, b: Option<u64>) -> (holds: bool)
    requires
        a is Some,
        b is Some,
    ensures
        holds == (a->0 <= b->0),
{
    match (a, b) {
        (Some(x), Some(y)) => x <= y,
        _ => false,
    }
}

} // verus!
