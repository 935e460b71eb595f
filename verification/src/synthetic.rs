//! Synthetic wheel ticks: what an injected tick holds, and the diagnostic
//! cap on how many injections are requested between two resets.

use vstd::prelude::*;
use crate::constants::{DIAG_INJECTION_LIMIT, MOUSE_INPUT, ONE_EVENT, WHEEL_DOWN, WHEEL_MOVE, WHEEL_TICK_UNIT, WHEEL_UP};

verus! {

/// The `mouseData` field for a wheel movement of `direction` ticks: the
/// signed movement `direction * WHEEL_TICK_UNIT`, stored in two's
/// complement.
pub open spec fn wheel_data_of(direction: int) -> int {
    if direction >= 0 {
        direction * WHEEL_TICK_UNIT
    } else {
        0x1_0000_0000 + direction * WHEEL_TICK_UNIT
    }
}

/// The `mouseData` of a synthetic wheel movement of `direction` ticks.
pub fn wheel_mouse_data(direction: i32) -> (mouse_data: u32)
    requires
        -17895697 <= direction <= 17895697,
    ensures
        mouse_data as int == wheel_data_of(direction as int),
{
    let movement: i32 = direction * WHEEL_TICK_UNIT;
    let mouse_data = movement as u32;
    assert(mouse_data as int == (if movement >= 0 { movement as int } else { 0x1_0000_0000 + movement }))
        by (bit_vector)
        requires
            mouse_data == movement as u32,
    ;
    mouse_data
}

/// The fields of a synthetic mouse input that the injector sends.
#[derive(Clone, Copy, Debug, PartialEq, Eq, Structural)]
pub struct WheelInput {
    /// `INPUT.type`.
    pub kind: u32,
    /// `MOUSEINPUT.mouseData`.
    pub mouse_data: u32,
    /// `MOUSEINPUT.dwFlags`.
    pub flags: u32,
}

/// The input that injects one tick in `direction`, or `None` when
/// `direction` is neither up nor down (nothing is injected then).
pub fn synthetic_input(direction: i32) -> (input: Option<WheelInput>)
    ensures
        (direction == WHEEL_UP || direction == WHEEL_DOWN) <==> input is Some,
        input matches Some(i) ==> i.kind == MOUSE_INPUT && i.flags == WHEEL_MOVE
            && i.mouse_data as int == wheel_data_of(direction as int),
        direction == 1 ==> input == Some(WheelInput { kind: 0, mouse_data: 120, flags: 0x0800 }),
        direction == -1 ==> input == Some(
            WheelInput { kind: 0, mouse_data: 0xFFFF_FF88, flags: 0x0800 },
        ),
{
    if direction != WHEEL_UP && direction != WHEEL_DOWN {
        return None;
    }
    Some(WheelInput { kind: MOUSE_INPUT, mouse_data: wheel_mouse_data(direction), flags: WHEEL_MOVE })
}

/// Whether an injection inserted exactly the one event it was asked for.
pub fn injection_succeeded(sent: u32) -> (ok: bool)
    ensures
        ok == (sent == ONE_EVENT),
{
    sent == ONE_EVENT
}

/// Injections requested since the last reset.
#[derive(Clone, Copy, Debug)]
pub struct InjectionLimiter {
    pub injections_since_reset: i32,
}

/// Number of admitted requests among `k` requests made with `count`
/// injections already counted.
pub open spec fn admissions(count: int, k: nat) -> nat
    decreases k,
{
    if k == 0 {
        0
    } else if count < DIAG_INJECTION_LIMIT {
        1 + admissions(count + 1, (k - 1) as nat)
    } else {
        admissions(count, (k - 1) as nat)
    }
}

impl InjectionLimiter {
    /// The count never passes the cap.
    pub open spec fn wf(self) -> bool {
        0 <= self.injections_since_reset <= DIAG_INJECTION_LIMIT
    }

    /// A limiter with nothing counted.
    pub fn new() -> (l: InjectionLimiter)
        ensures
            l.wf(),
            l.injections_since_reset == 0,
    {
        InjectionLimiter { injections_since_reset: 0 }
    }

    /// Counts a request for an injection: admitted (and counted) while fewer
    /// than `DIAG_INJECTION_LIMIT` were counted since the last reset,
    /// refused (and not counted) once the cap is reached.
    pub fn enqueue(&mut self) -> (admitted: bool)
        requires
            old(self).wf(),
        ensures
            final(self).wf(),
            admitted == (old(self).injections_since_reset < DIAG_INJECTION_LIMIT),
            final(self).injections_since_reset == if admitted {
                old(self).injections_since_reset + 1
            } else {
                old(self).injections_since_reset as int
            },
    {
        let n = self.injections_since_reset;
        if n >= DIAG_INJECTION_LIMIT {
            return false;
        }
        self.injections_since_reset = n + 1;
        true
    }

    /// Starts counting again, after a change of the streak's direction.
    pub fn reset(&mut self)
        ensures
            final(self).injections_since_reset == 0,
    {
        self.injections_since_reset = 0;
    }
}

/// Between two resets at most `DIAG_INJECTION_LIMIT` requests are admitted:
/// of `k` requests after a reset, exactly the first `DIAG_INJECTION_LIMIT`
/// (or all, if fewer) go through.
pub proof fn lemma_admissions_capped(count: int, k: nat)
    requires
        0 <= count <= DIAG_INJECTION_LIMIT,
    ensures
        admissions(count, k) == if k <= DIAG_INJECTION_LIMIT - count {
            k as int
        } else {
            DIAG_INJECTION_LIMIT - count
        },
    decreases k,
{
    if k > 0 {
        if count < DIAG_INJECTION_LIMIT {
            lemma_admissions_capped(count + 1, (k - 1) as nat);
        } else {
            lemma_admissions_capped(count, (k - 1) as nat);
        }
    }
}

/// Stops the injector. There is nothing to release: the injector thread
/// only waits on its channel and ends with the program.
pub fn shutdown_injector() {
}

} // verus!
