//! The hardware boundary: three primitive calls, addressed by raw numbers.
//!
//! A [`HalTrace`] stands where the board's register-level routines would be
//! called. Each primitive appends one [`HalCall`] to it and does nothing
//! else: no argument is checked or changed on the way.

use vstd::prelude::*;

verus! {

/// One primitive call into the hardware, with the raw arguments it carries.
#[derive(Clone, Copy, Debug, PartialEq, Eq, Structural)]
pub enum HalCall {
    /// Configure the electrical mode of a pin: pin number, mode code.
    SetPinMode(i16, u8),
    /// Drive a pin to a logic level: pin number, level code.
    WritePin(i16, u8),
    /// Block for a duration in milliseconds.
    BusyWait(u32),
}

/// The ordered record of the hardware calls issued so far.
pub struct HalTrace {
    calls: Vec<HalCall>,
}

impl View for HalTrace {
    type V = Seq<HalCall>;

    /// The calls issued, oldest first.
    closed spec fn view(&self) -> Seq<HalCall> {
        self.calls@
    }
}

impl HalTrace {
    /// A trace on which nothing has been issued yet.
    pub fn new() -> (trace: HalTrace)
        ensures
            trace@ == Seq::<HalCall>::empty(),
    {
        HalTrace { calls: Vec::new() }
    }

    /// The calls issued so far, oldest first.
    pub fn calls(&self) -> (calls: &Vec<HalCall>)
        ensures
            calls@ == self@,
    {
        &self.calls
    }

    /// Issues a pin-mode call with exactly the numbers given.
    pub fn set_pin_mode(&mut self, pin: i16, mode: u8)
        ensures
            final(self)@ == old(self)@.push(HalCall::SetPinMode(pin, mode)),
    {
        self.calls.push(HalCall::SetPinMode(pin, mode));
    }

    /// Issues a pin-write call with exactly the numbers given.
    pub fn write_pin(&mut self, pin: i16, level: u8)
        ensures
            final(self)@ == old(self)@.push(HalCall::WritePin(pin, level)),
    {
        self.calls.push(HalCall::WritePin(pin, level));
    }

    /// Issues a blocking wait of the given number of milliseconds.
    pub fn busy_wait(&mut self, milliseconds: u32)
        ensures
            final(self)@ == old(self)@.push(HalCall::BusyWait(milliseconds)),
    {
        self.calls.push(HalCall::BusyWait(milliseconds));
    }
}

} // verus!
