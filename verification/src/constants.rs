//! Wheel, hook and tuning constants.

use vstd::prelude::*;

verus! {

/// Direction of a tick that scrolls up (positive wheel delta).
pub const WHEEL_UP: i32 = 1;

/// Direction of a tick that scrolls down (zero or negative wheel delta).
pub const WHEEL_DOWN: i32 = -1;

/// One wheel "click" (WHEEL_DELTA).
pub const WHEEL_TICK_UNIT: i32 = 120;

/// Bit of the low-level hook flags that marks an event as injected (LLMHF_INJECTED).
pub const SELF_INJECTED: u32 = 0x1;

/// Low-level mouse hook identifier (WH_MOUSE_LL).
pub const MOUSE_HOOK: i32 = 14;

/// Hook `wParam` of a wheel event (WM_MOUSEWHEEL).
pub const WHEEL_EVENT: usize = 0x020A;

/// Hook return value that stops the event from reaching the next hook.
pub const BLOCK: isize = 1;

/// Console control handler result: the event was handled here.
pub const HANDLED: i32 = 1;

/// Console control handler result: let the default handler run.
pub const NOT_HANDLED: i32 = 0;

/// Message that ends the message pump (WM_QUIT).
pub const QUIT_MESSAGE: u32 = 0x0012;

/// Console control event: Ctrl+C.
pub const CTRL_C_EVENT: u32 = 0;

/// Console control event: Ctrl+Break.
pub const CTRL_BREAK_EVENT: u32 = 1;

/// Console control event: the console window is being closed.
pub const CTRL_CLOSE_EVENT: u32 = 2;

/// `INPUT.type` of a mouse input (INPUT_MOUSE).
pub const MOUSE_INPUT: u32 = 0;

/// `MOUSEINPUT.dwFlags` of a wheel movement (MOUSEEVENTF_WHEEL).
pub const WHEEL_MOVE: u32 = 0x0800;

/// Number of events that one successful injection inserts.
pub const ONE_EVENT: u32 = 1;

/// Streak that is blocked silently before compensation starts (default of `SilencioInicial`).
pub const SILENCE_TICKS: i32 = 3;

/// Streak at which the direction counts as confirmed (default of `TechoKickback`).
pub const TRUST_TICKS: i32 = 7;

/// Streak that starts the watch phase of the phase machines.
pub const WATCH_THRESHOLD: i32 = 3;

/// Streak at which the phase machines consider a direction confirmed.
pub const KICKBACK_CEILING: i32 = 7;

/// Count of compensated ticks that ends the compensation phase.
pub const COMPENSATION_TARGET: i32 = KICKBACK_CEILING;

/// Clean ticks that must pass after a cut before watching starts again.
pub const BLOCK_NEW_ATTEMPT: i32 = 2;

/// Diagnostic cap on the injections requested between two resets.
pub const DIAG_INJECTION_LIMIT: i32 = 3;

} // verus!
