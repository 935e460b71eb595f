//! Decisions around the console and the message pump.

use vstd::prelude::*;
use crate::constants::{CTRL_BREAK_EVENT, CTRL_CLOSE_EVENT, CTRL_C_EVENT, HANDLED, NOT_HANDLED};

verus! {

/// The console events that shut the filter down cleanly: Ctrl+C, Ctrl+Break
/// and closing the console window.
pub open spec fn is_quit_event(ctrl_type: u32) -> bool {
    ctrl_type == CTRL_C_EVENT || ctrl_type == CTRL_BREAK_EVENT || ctrl_type == CTRL_CLOSE_EVENT
}

/// What the console control handler answers for `ctrl_type`: `HANDLED`
/// for the events that end the filter (the caller then asks the message
/// pump to quit), `NOT_HANDLED` for the others.
pub fn console_ctrl_response(ctrl_type: u32) -> (result: i32)
    ensures
        is_quit_event(ctrl_type) ==> result == HANDLED,
        !is_quit_event(ctrl_type) ==> result == NOT_HANDLED,
{
    if ctrl_type == CTRL_C_EVENT || ctrl_type == CTRL_BREAK_EVENT || ctrl_type == CTRL_CLOSE_EVENT {
        HANDLED
    } else {
        NOT_HANDLED
    }
}

/// Whether the message pump goes on after `GetMessageW` returned `ret`:
/// `0` is the quit message and `-1` an error, both end the pump.
pub fn keep_pumping(ret: i32) -> (go_on: bool)
    ensures
        go_on == (ret > 0),
{
    ret > 0
}

} // verus!
