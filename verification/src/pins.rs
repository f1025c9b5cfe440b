//! Typed operations on pins.
//!
//! Callers name a pin, a mode or a level symbolically; these operations turn
//! each into its wire value and issue the matching primitive call, so that an
//! arbitrary integer can never stand where a pin or a mode is meant.

use vstd::prelude::*;
use crate::encoding::{LogicLevel, PinIdentity, PinMode};
use crate::hal::{HalCall, HalTrace};

verus! {

/// Configures `pin` as `mode`: issues one pin-mode call carrying the two
/// encodings, and nothing else.
pub fn configure_pin(hal: &mut HalTrace, pin: PinIdentity, mode: PinMode)
    ensures
        final(hal)@ == old(hal)@.push(HalCall::SetPinMode(pin.code(), mode.code())),
{
    hal.set_pin_mode(pin.code(), mode.code());
}

/// Drives `pin` to `level`: issues one pin-write call carrying the two
/// encodings, and nothing else.
pub fn write_pin(hal: &mut HalTrace, pin: PinIdentity, level: LogicLevel)
    ensures
        final(hal)@ == old(hal)@.push(HalCall::WritePin(pin.code(), level.code())),
{
    hal.write_pin(pin.code(), level.code());
}

/// Blocks for `milliseconds`: issues one wait of that duration, and nothing
/// else.
pub fn delay(hal: &mut HalTrace, milliseconds: u32)
    ensures
        final(hal)@ == old(hal)@.push(HalCall::BusyWait(milliseconds)),
{
    hal.busy_wait(milliseconds);
}

} // verus!
