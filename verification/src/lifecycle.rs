//! The two lifecycle callbacks.
//!
//! The runtime calls [`setup`] once at boot and then [`loopy`] again and
//! again. Neither takes an input or keeps anything between calls: what each
//! issues is a fixed sequence, whatever was issued before.

use vstd::prelude::*;
use crate::encoding::{LogicLevel, PinIdentity, PinMode};
use crate::hal::{HalCall, HalTrace};
use crate::pins::{configure_pin, delay, write_pin};

verus! {

/// The pin that blinks.
pub const BLINK_PIN: PinIdentity = PinIdentity::D7;

/// How long the pin stays at each level, in milliseconds.
pub const HALF_PERIOD_MS: u32 = 500;

/// What one blink cycle issues: on, wait, off, wait.
pub open spec fn blink_cycle() -> Seq<HalCall> {
    seq![
        HalCall::WritePin(BLINK_PIN.code(), LogicLevel::HIGH.code()),
        HalCall::BusyWait(HALF_PERIOD_MS),
        HalCall::WritePin(BLINK_PIN.code(), LogicLevel::LOW.code()),
        HalCall::BusyWait(HALF_PERIOD_MS),
    ]
}

/// Boot: configures the blink pin as an output. Exactly one call is issued.
pub fn setup(hal: &mut HalTrace)
    ensures
        final(hal)@ == old(hal)@.push(
            HalCall::SetPinMode(BLINK_PIN.code(), PinMode::OUTPUT.code()),
        ),
{
    configure_pin(hal, BLINK_PIN, PinMode::OUTPUT);
}

/// One blink cycle: exactly the four calls of [`blink_cycle`], in order,
/// after whatever was issued before. This is one step of [`after_loops`].
pub fn loopy(hal: &mut HalTrace)
    ensures
        final(hal)@ == old(hal)@ + blink_cycle(),
        final(hal)@ == after_loops(old(hal)@, 1),
{
    proof {
        reveal_with_fuel(after_loops, 2);
    }
    write_pin(hal, BLINK_PIN, LogicLevel::HIGH);
    delay(hal, HALF_PERIOD_MS);
    write_pin(hal, BLINK_PIN, LogicLevel::LOW);
    delay(hal, HALF_PERIOD_MS);
}

/// What a trace holds after `n` further calls of [`loopy`], if it held
/// `start` before the first of them.
pub open spec fn after_loops(start: Seq<HalCall>, n: nat) -> Seq<HalCall>
    decreases n,
{
    if n == 0 {
        start
    } else {
        after_loops(start, (n - 1) as nat) + blink_cycle()
    }
}

/// The four calls that the `k`-th of those calls of [`loopy`] added to
/// `trace`, counting from 0, where `prior` calls had been issued before the
/// first.
pub open spec fn repetition(trace: Seq<HalCall>, prior: nat, k: nat) -> Seq<HalCall> {
    trace.subrange((prior + 4 * k) as int, (prior + 4 * k + 4) as int)
}

/// Calling [`loopy`] `n` times leaves what was issued before untouched and
/// adds `n` repetitions of the blink cycle, each the same four calls in the
/// same order, whatever `n` is and whatever came before.
pub proof fn lemma_loops_repeat_cycle(start: Seq<HalCall>, n: nat)
    ensures
        after_loops(start, n).len() == start.len() + 4 * n,
        after_loops(start, n).subrange(0, start.len() as int) == start,
        forall|k: nat|
            k < n ==> #[trigger] repetition(after_loops(start, n), start.len(), k)
                == blink_cycle(),
    decreases n,
{
    if n > 0 {
        let before = after_loops(start, (n - 1) as nat);
        let after = after_loops(start, n);
        lemma_loops_repeat_cycle(start, (n - 1) as nat);
        assert forall|k: nat| k < n implies #[trigger] repetition(after, start.len(), k)
            == blink_cycle() by {
            if k < n - 1 {
                assert(repetition(after, start.len(), k) == repetition(before, start.len(), k));
            }
        }
    }
}

} // verus!
