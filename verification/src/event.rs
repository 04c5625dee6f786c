//! What flows into the runner and out of it.

use crate::screen::Screen;
use vstd::prelude::*;

verus! {

/// The pin to which the watch's button is wired.
pub const BTN1: i32 = 17;

/// What the outside world sends to the emulated watch.
#[derive(Clone, Debug, PartialEq, Eq)]
pub enum Input {
    /// Bytes to inject as if typed on the console.
    Console(Vec<u8>),
    /// A pointer sample: column, row, and whether the screen is touched.
    Touch(u8, u8, bool),
    /// The button went down (`true`) or up.
    Button(bool),
}

/// What an input holds.
pub enum InputView {
    Console(Seq<u8>),
    Touch(u8, u8, bool),
    Button(bool),
}

impl View for Input {
    type V = InputView;

    open spec fn view(&self) -> InputView {
        match *self {
            Input::Console(bytes) => InputView::Console(bytes@),
            Input::Touch(x, y, on) => InputView::Touch(x, y, on),
            Input::Button(on) => InputView::Button(on),
        }
    }
}

/// What the emulated watch sends to the outside world.
#[derive(Debug, PartialEq, Eq)]
pub enum Output {
    /// Bytes that the firmware wrote to its console.
    Console(Vec<u8>),
    /// A snapshot of the display, taken after it changed.
    Screen(Box<Screen>),
}

/// An operation on the device that delivers one input to the firmware.
#[derive(Debug, PartialEq, Eq)]
pub enum DeviceCall {
    /// Push these bytes into the console's receive queue.
    PushString(Vec<u8>),
    /// Hand this pointer sample to the touch tracker and on to the firmware.
    SendTouch(u8, u8, bool),
    /// Press or release the button.
    PressButton(bool),
}

/// The device call that delivers `input`.
pub open spec fn delivery(input: Input) -> DeviceCall {
    match input {
        Input::Console(bytes) => DeviceCall::PushString(bytes),
        Input::Touch(x, y, on) => DeviceCall::SendTouch(x, y, on),
        Input::Button(on) => DeviceCall::PressButton(on),
    }
}

/// The device call that delivers `input`.
pub fn dispatch(input: Input) -> (call: DeviceCall)
    ensures
        call == delivery(input),
{
    match input {
        Input::Console(bytes) => DeviceCall::PushString(bytes),
        Input::Touch(x, y, on) => DeviceCall::SendTouch(x, y, on),
        Input::Button(on) => DeviceCall::PressButton(on),
    }
}

/// What the watchdog is to be told of `input`: a button transition, and
/// nothing of any other input.
pub fn button_signal(input: &Input) -> (signal: Option<bool>)
    ensures
        signal == match *input {
            Input::Button(on) => Some(on),
            _ => None::<bool>,
        },
{
    match input {
        Input::Button(on) => Some(*on),
        _ => None,
    }
}

/// The console output to publish for the bytes that the device handed over:
/// none where there are no bytes.
pub fn console_output(bytes: Vec<u8>) -> (output: Option<Output>)
    ensures
        output == published(bytes),
{
    if bytes.len() > 0 {
        Some(Output::Console(bytes))
    } else {
        None
    }
}

/// The console output to publish for the bytes that the device handed over.
pub open spec fn published(bytes: Vec<u8>) -> Option<Output> {
    if bytes@.len() > 0 {
        Some(Output::Console(bytes))
    } else {
        None
    }
}

} // verus!
