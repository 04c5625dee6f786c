//! The two request flags that the watchdog raises and the device consumes.

use vstd::prelude::*;

verus! {

/// A request flag: raised by one party, consumed by another in one
/// test-and-clear step, so that a request raised between a test and a clear
/// cannot be lost.
#[derive(Debug, PartialEq, Eq)]
pub struct Flag {
    raised: bool,
}

impl View for Flag {
    type V = bool;

    closed spec fn view(&self) -> bool {
        self.raised
    }
}

impl Flag {
    /// A flag that is not raised.
    pub fn new() -> (flag: Self)
        ensures
            !flag@,
    {
        Flag { raised: false }
    }

    /// Raises the flag.
    pub fn set(&mut self)
        ensures
            final(self)@,
    {
        self.raised = true;
    }

    /// Whether the flag is raised.
    pub fn get(&self) -> (raised: bool)
        ensures
            raised == self@,
    {
        self.raised
    }

    /// Consumes the request: says whether the flag was raised, and lowers it.
    pub fn take(&mut self) -> (was_raised: bool)
        ensures
            was_raised == old(self)@,
            !final(self)@,
    {
        let was = self.raised;
        self.raised = false;
        was
    }
}

/// What the two flags hold.
pub struct FlagState {
    pub reset: bool,
    pub interrupt: bool,
}

/// The flags of one emulation session.
#[derive(Debug, PartialEq, Eq)]
pub struct Flags {
    /// A soft reset of the firmware is asked for.
    pub reset: Flag,
    /// An interrupt of the running program is asked for.
    pub interrupt: Flag,
}

impl View for Flags {
    type V = FlagState;

    open spec fn view(&self) -> FlagState {
        FlagState { reset: self.reset@, interrupt: self.interrupt@ }
    }
}

impl Flags {
    /// Two flags, neither raised.
    pub fn new() -> (flags: Self)
        ensures
            flags@ == (FlagState { reset: false, interrupt: false }),
    {
        Flags { reset: Flag::new(), interrupt: Flag::new() }
    }
}

} // verus!
