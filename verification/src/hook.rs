//! What the low-level mouse hook hands the filter, and what the filter
//! answers for one event.

use vstd::prelude::*;
use crate::constants::{SELF_INJECTED, WHEEL_DOWN, WHEEL_EVENT, WHEEL_UP};

verus! {

/// One call of the low-level mouse hook, as plain values: the hook code, the
/// message in `wParam`, and the `flags` and `mouseData` fields of the event.
#[derive(Clone, Copy, Debug)]
pub struct MouseEvent {
    pub code: i32,
    pub wparam: usize,
    pub flags: u32,
    pub mouse_data: u32,
}

/// What the hook does with an event.
#[derive(Clone, Copy, Debug, PartialEq, Eq, Structural)]
pub enum HookResponse {
    /// Hand the event on to the next hook.
    PassThrough,
    /// Swallow the event.
    Block,
    /// Swallow the event and have one synthetic tick injected in the given direction.
    BlockAndInject(i32),
}

/// Signed wheel delta: the high word of `mouseData`, read as an `i16`.
pub open spec fn wheel_delta(mouse_data: u32) -> int {
    let high = mouse_data / 65536;
    if high < 32768 {
        high as int
    } else {
        high - 65536
    }
}

/// Direction of a wheel event: up for a positive delta, down otherwise.
pub open spec fn direction_of(mouse_data: u32) -> i32 {
    if wheel_delta(mouse_data) > 0 {
        WHEEL_UP
    } else {
        WHEEL_DOWN
    }
}

/// The event carries the injected bit, so it came from our own injection.
pub open spec fn is_self_injected(event: MouseEvent) -> bool {
    event.flags % 2 == 1
}

/// A wheel event that the filter must judge: a valid hook code, the wheel
/// message, and not injected by us.
pub open spec fn is_physical_wheel(event: MouseEvent) -> bool {
    &&& event.code >= 0
    &&& event.wparam == WHEEL_EVENT
    &&& !is_self_injected(event)
}

/// A wheel event that that the phase machines judge: a valid hook code, the wheel
/// message in the low 32 bits of `wParam`, and not injected by us.
pub open spec fn is_judged_wheel(event: MouseEvent) -> bool {
    &&& event.code >= 0
    &&& event.wparam as u32 == WHEEL_EVENT as u32
    &&& !is_self_injected(event)
}

/// Direction of a wheel event from its `mouseData`.
pub fn wheel_direction(mouse_data: u32) -> (direction: i32)
    ensures
        direction == direction_of(mouse_data),
        (1 <= mouse_data / 65536 <= 0x7FFF) ==> direction == 1,
        !(1 <= mouse_data / 65536 <= 0x7FFF) ==> direction == -1,
{
    let positive = ((mouse_data >> 16u32) as i16) > 0;
    assert(positive == (0 < mouse_data / 65536 && mouse_data / 65536 < 32768)) by (bit_vector)
        requires
            positive == (((mouse_data >> 16u32) as i16) > 0),
    ;
    if positive {
        return WHEEL_UP;
    }
    WHEEL_DOWN
}

/// Whether the injected bit is set in `flags`.
pub fn injected_flag(flags: u32) -> (injected: bool)
    ensures
        injected == (flags % 2 == 1),
{
    let injected = flags & SELF_INJECTED != 0;
    assert(injected == (flags % 2 == 1)) by (bit_vector)
        requires
            injected == (flags & 1u32 != 0),
    ;
    injected
}

/// Whether the filter must judge `event` (see [`is_physical_wheel`]).
pub fn physical_wheel(event: &MouseEvent) -> (judged: bool)
    ensures
        judged == is_physical_wheel(*event),
        judged <==> (event.code >= 0 && event.wparam == 0x020A && event.flags % 2 == 0),
{
    if event.code < 0 || event.wparam != WHEEL_EVENT {
        return false;
    }
    !injected_flag(event.flags)
}

/// Whether a phase machine judges `event` (see [`is_judged_wheel`]).
pub fn judged_wheel(event: &MouseEvent) -> (judged: bool)
    ensures
        judged == is_judged_wheel(*event),
        judged <==> (event.code >= 0 && event.wparam as u32 == 0x020A && event.flags % 2 == 0),
{
    if event.code < 0 || event.wparam as u32 != WHEEL_EVENT as u32 {
        return false;
    }
    !injected_flag(event.flags)
}

/// The direction of a wheel event is up exactly when the high word of
/// `mouseData`, read as a signed 16-bit delta, is positive (`1 ..= 0x7FFF`);
/// a zero or negative delta is down. Direction is always up or down.
pub proof fn lemma_direction_is_sign_of_delta(mouse_data: u32)
    ensures
        direction_of(mouse_data) == 1 <==> (1 <= mouse_data / 65536 <= 0x7FFF),
        direction_of(mouse_data) == -1 <==> !(1 <= mouse_data / 65536 <= 0x7FFF),
{
}

/// Only vertical wheel messages (WM_MOUSEWHEEL, `0x020A`) that we did not
/// inject ourselves and that come with a valid hook code are judged by the
/// filter; a horizontal wheel tick (WM_MOUSEHWHEEL), any other message, an
/// injected event or a negative code is not.
pub proof fn lemma_only_physical_vertical_wheel_judged(event: MouseEvent)
    ensures
        is_physical_wheel(event) ==> event.wparam == 0x020A,
        is_physical_wheel(event) ==> event.code >= 0,
        is_physical_wheel(event) ==> event.flags % 2 == 0,
        (event.code >= 0 && event.wparam == 0x020A && event.flags % 2 == 0) ==> is_physical_wheel(
            event,
        ),
        is_judged_wheel(event) ==> event.wparam as u32 == 0x020A,
        is_judged_wheel(event) ==> event.code >= 0 && event.flags % 2 == 0,
        (event.code >= 0 && event.wparam as u32 == 0x020A && event.flags % 2 == 0)
            ==> is_judged_wheel(event),
{
}

} // verus!
