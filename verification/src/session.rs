//! The session: what goes from the runner, the network bridge and the
//! terminal to each of the others.

use crate::event::{Input, InputView, Output};
use crate::ui::{UIInput, UIInputView};
use vstd::prelude::*;

verus! {

/// Where an output of the emulated watch goes.
#[derive(Debug, PartialEq, Eq)]
pub struct Routed {
    /// To the terminal: the output itself.
    pub to_ui: Output,
    /// To the network bridge: a copy of the bytes, where the output is
    /// console output.
    pub to_net: Option<Vec<u8>>,
}

/// The console bytes that `output` holds, if it is console output.
pub open spec fn console_bytes(output: Output) -> Option<Seq<u8>> {
    match output {
        Output::Console(bytes) => Some(bytes@),
        Output::Screen(_) => None,
    }
}

/// What an optional run of bytes holds.
pub open spec fn bytes_view(bytes: Option<Vec<u8>>) -> Option<Seq<u8>> {
    match bytes {
        Some(bytes) => Some(bytes@),
        None => None,
    }
}

fn copy_of(bytes: &Vec<u8>) -> (copy: Vec<u8>)
    ensures
        copy@ == bytes@,
{
    let mut copy: Vec<u8> = Vec::new();
    let mut i: usize = 0;
    while i < bytes.len()
        invariant
            i <= bytes@.len(),
            copy@ == bytes@.subrange(0, i as int),
        decreases bytes@.len() - i,
    {
        copy.push(bytes[i]);
        i += 1;
    }
    copy
}

/// Sends an output of the emulated watch on its way: every output to the
/// terminal, console output to the network as well.
pub fn route_output(output: Output) -> (routed: Routed)
    ensures
        routed.to_ui == output,
        bytes_view(routed.to_net) == console_bytes(output),
{
    let to_net = match &output {
        Output::Console(bytes) => Some(copy_of(bytes)),
        Output::Screen(_) => None,
    };
    Routed { to_ui: output, to_net }
}

/// What the session does with a message of the terminal.
#[derive(Debug, PartialEq, Eq)]
pub enum UiRoute {
    /// The session ends.
    Quit,
    /// The input goes to the emulated watch.
    ToEmu(Input),
    /// Nothing: the runner's own watchdog times the button.
    Ignore,
}

/// What a route holds.
pub enum UiRouteView {
    Quit,
    ToEmu(InputView),
    Ignore,
}

impl View for UiRoute {
    type V = UiRouteView;

    open spec fn view(&self) -> UiRouteView {
        match *self {
            UiRoute::Quit => UiRouteView::Quit,
            UiRoute::ToEmu(input) => UiRouteView::ToEmu(input@),
            UiRoute::Ignore => UiRouteView::Ignore,
        }
    }
}

/// What the session does with the message `message` of the terminal.
pub open spec fn ui_route(message: UIInputView) -> UiRouteView {
    match message {
        UIInputView::Quit => UiRouteView::Quit,
        UIInputView::EmuInput(input) => UiRouteView::ToEmu(input),
        UIInputView::Reset => UiRouteView::Ignore,
        UIInputView::Interrupt => UiRouteView::Ignore,
    }
}

/// Sends a message of the terminal on its way.
pub fn route_ui_input(message: UIInput) -> (route: UiRoute)
    ensures
        route@ == ui_route(message@),
{
    match message {
        UIInput::Quit => UiRoute::Quit,
        UIInput::EmuInput(input) => UiRoute::ToEmu(input),
        UIInput::Reset => UiRoute::Ignore,
        UIInput::Interrupt => UiRoute::Ignore,
    }
}

} // verus!
