//! The network bridge: one TCP client at a time may talk to the watch's
//! console.

use crate::event::{Input, InputView};
use vstd::prelude::*;

verus! {

/// What happened on the network, or to the bridge.
#[derive(Debug, PartialEq, Eq)]
pub enum NetEvent {
    /// The session is ending.
    Quit,
    /// A client has connected.
    Accepted,
    /// Taking a connection failed.
    AcceptFailed,
    /// The watch has written these bytes to its console.
    Outgoing(Vec<u8>),
    /// The client has sent these bytes; none where it has closed the
    /// connection.
    Read(Vec<u8>),
    /// Reading from the client failed.
    ReadFailed,
}

/// What the bridge is to do.
#[derive(Debug, PartialEq, Eq)]
pub enum NetAction {
    /// End, in good order.
    Stop,
    /// End, and report the failure.
    Abort,
    /// Keep the new connection as the client.
    Adopt,
    /// Drop the new connection: there is a client already.
    Refuse,
    /// Send these bytes to the client.
    Write(Vec<u8>),
    /// Nothing.
    Discard,
    /// Hand this input to the emulated watch.
    Forward(Input),
    /// Drop the client's connection.
    Disconnect,
}

/// What an action of the bridge holds.
pub enum NetActionView {
    Stop,
    Abort,
    Adopt,
    Refuse,
    Write(Seq<u8>),
    Discard,
    Forward(InputView),
    Disconnect,
}

impl View for NetAction {
    type V = NetActionView;

    open spec fn view(&self) -> NetActionView {
        match *self {
            NetAction::Stop => NetActionView::Stop,
            NetAction::Abort => NetActionView::Abort,
            NetAction::Adopt => NetActionView::Adopt,
            NetAction::Refuse => NetActionView::Refuse,
            NetAction::Write(bytes) => NetActionView::Write(bytes@),
            NetAction::Discard => NetActionView::Discard,
            NetAction::Forward(input) => NetActionView::Forward(input@),
            NetAction::Disconnect => NetActionView::Disconnect,
        }
    }
}

/// The bridge's transition: whether there is a client afterwards, and what
/// the bridge is to do, when `event` comes with or without a client
/// connected. The first client to connect is kept until its connection ends
/// or fails; while it is kept, further clients are refused. Console output
/// goes to the client, if there is one; what the client sends goes to the
/// watch's console.
pub open spec fn net_next(connected: bool, event: NetEvent) -> (bool, NetActionView) {
    match event {
        NetEvent::Quit => (connected, NetActionView::Stop),
        NetEvent::AcceptFailed => (connected, NetActionView::Abort),
        NetEvent::Accepted => if connected {
            (true, NetActionView::Refuse)
        } else {
            (true, NetActionView::Adopt)
        },
        NetEvent::Outgoing(bytes) => if connected {
            (true, NetActionView::Write(bytes@))
        } else {
            (false, NetActionView::Discard)
        },
        NetEvent::Read(bytes) => if bytes@.len() == 0 {
            (false, NetActionView::Disconnect)
        } else {
            (connected, NetActionView::Forward(InputView::Console(bytes@)))
        },
        NetEvent::ReadFailed => (false, NetActionView::Disconnect),
    }
}

/// The state of the bridge.
#[derive(Debug)]
pub struct NetBridge {
    connected: bool,
}

impl View for NetBridge {
    type V = bool;

    closed spec fn view(&self) -> bool {
        self.connected
    }
}

impl NetBridge {
    /// A bridge without a client.
    pub fn new() -> (bridge: Self)
        ensures
            !bridge@,
    {
        NetBridge { connected: false }
    }

    /// Whether a client is connected.
    pub fn connected(&self) -> (connected: bool)
        ensures
            connected == self@,
    {
        self.connected
    }

    /// Takes what happened and says what to do.
    pub fn step(&mut self, event: NetEvent) -> (action: NetAction)
        ensures
            final(self)@ == net_next(old(self)@, event).0,
            action@ == net_next(old(self)@, event).1,
    {
        match event {
            NetEvent::Quit => NetAction::Stop,
            NetEvent::AcceptFailed => NetAction::Abort,
            NetEvent::Accepted => if self.connected {
                NetAction::Refuse
            } else {
                self.connected = true;
                NetAction::Adopt
            },
            NetEvent::Outgoing(bytes) => if self.connected {
                NetAction::Write(bytes)
            } else {
                NetAction::Discard
            },
            NetEvent::Read(bytes) => if bytes.len() == 0 {
                self.connected = false;
                NetAction::Disconnect
            } else {
                NetAction::Forward(Input::Console(bytes))
            },
            NetEvent::ReadFailed => {
                self.connected = false;
                NetAction::Disconnect
            },
        }
    }
}

} // verus!
