//! A four-stage compensator on top of the streak.
//!
//! Silence blocks the first ticks; once the streak reaches the watch
//! threshold every tick is blocked and compensated; a reversal while
//! watching starts over; once the streak reaches the ceiling the compensator
//! keeps injecting regardless of the streak, and after the compensation
//! target it lets every tick through for good.

use vstd::prelude::*;
use crate::constants::{COMPENSATION_TARGET, KICKBACK_CEILING, WATCH_THRESHOLD};
use crate::hook::{direction_of, is_judged_wheel, judged_wheel, wheel_direction, HookResponse, MouseEvent};
use crate::streak::{next_streak, StreakState};

verus! {

/// Stages of the compensator.
#[derive(Clone, Copy, Debug, PartialEq, Eq, Structural)]
pub enum Stage {
    /// Initial silence: block without injecting.
    Silence,
    /// Watching: block and inject one for one.
    Vigilance,
    /// Confirmed: block and inject until the target is reached.
    Compensating,
    /// Normal flow: every tick passes.
    Normal,
}

/// Streak, stage and the number of synthetic ticks of the current attempt.
#[derive(Clone, Copy, Debug)]
pub struct CompensatorState {
    pub streak: StreakState,
    pub stage: Stage,
    pub compensation_count: i32,
}

/// Stage after a compensated tick that brought the count to `count`, for a
/// streak of `streak`.
pub open spec fn stage_after_injection(count: int, streak: int, watching: bool) -> Stage {
    if count >= COMPENSATION_TARGET {
        Stage::Normal
    } else if watching && streak >= KICKBACK_CEILING {
        Stage::Compensating
    } else if watching {
        Stage::Vigilance
    } else {
        Stage::Compensating
    }
}

/// One hook call: the new state and the answer.
pub open spec fn compensator_step(c: CompensatorState, event: MouseEvent) -> (
    CompensatorState,
    HookResponse,
) {
    if !is_judged_wheel(event) {
        (c, HookResponse::PassThrough)
    } else {
        let direction = direction_of(event.mouse_data);
        let streak = next_streak(c.streak.last_direction, c.streak.count, direction);
        let counted = StreakState { last_direction: direction, count: streak as i32 };
        match c.stage {
            Stage::Normal => (CompensatorState { streak: counted, ..c }, HookResponse::PassThrough),
            Stage::Compensating => {
                let n = c.compensation_count + 1;
                (
                    CompensatorState {
                        streak: counted,
                        stage: stage_after_injection(n, streak, false),
                        compensation_count: n as i32,
                    },
                    HookResponse::BlockAndInject(direction),
                )
            },
            _ => if streak == 1 && c.stage == Stage::Vigilance {
                (
                    CompensatorState { streak: counted, stage: Stage::Silence, compensation_count: 0 },
                    HookResponse::Block,
                )
            } else if streak < WATCH_THRESHOLD {
                (CompensatorState { streak: counted, ..c }, HookResponse::Block)
            } else {
                let base = if c.stage == Stage::Silence {
                    0
                } else {
                    c.compensation_count as int
                };
                (
                    CompensatorState {
                        streak: counted,
                        stage: stage_after_injection(base + 1, streak, true),
                        compensation_count: (base + 1) as i32,
                    },
                    HookResponse::BlockAndInject(direction),
                )
            },
        }
    }
}

impl CompensatorState {
    /// The compensation count never passes the target, and stays below it
    /// until the compensator is in Normal.
    pub open spec fn wf(self) -> bool {
        &&& 0 <= self.compensation_count <= COMPENSATION_TARGET
        &&& self.stage != Stage::Normal ==> self.compensation_count < COMPENSATION_TARGET
    }

    /// The state before any tick.
    pub fn new() -> (c: CompensatorState)
        ensures
            c.wf(),
            c == compensator_start(),
            c.stage == Stage::Silence,
            c.compensation_count == 0,
            c.streak.last_direction == 0,
            c.streak.count == 0,
    {
        CompensatorState { streak: StreakState::new(), stage: Stage::Silence, compensation_count: 0 }
    }

    /// Judges one call of the low-level mouse hook (see [`compensator_step`]).
    pub fn mouse_wheel_hook_callback(&mut self, event: MouseEvent) -> (response: HookResponse)
        requires
            old(self).wf(),
            is_judged_wheel(event) ==> old(self).streak.count < i32::MAX,
        ensures
            final(self).wf(),
            (*final(self), response) == compensator_step(*old(self), event),
            (event.code < 0 || event.wparam as u32 != 0x020A || event.flags % 2 == 1) ==> (
            response == HookResponse::PassThrough && *final(self) == *old(self)),
    {
        if !judged_wheel(&event) {
            return HookResponse::PassThrough;
        }
        let direction = wheel_direction(event.mouse_data);
        let streak = self.streak.streak_manager(direction);

        if self.stage == Stage::Normal {
            return HookResponse::PassThrough;
        }
        if self.stage == Stage::Compensating {
            let count = self.compensation_count + 1;
            self.compensation_count = count;
            if count >= COMPENSATION_TARGET {
                self.stage = Stage::Normal;
            }
            return HookResponse::BlockAndInject(direction);
        }
        // A reversal while watching starts over.
        if streak == 1 && self.stage == Stage::Vigilance {
            self.stage = Stage::Silence;
            self.compensation_count = 0;
            return HookResponse::Block;
        }
        if self.stage == Stage::Silence && streak >= WATCH_THRESHOLD {
            self.stage = Stage::Vigilance;
            self.compensation_count = 0;
        }
        if streak < WATCH_THRESHOLD {
            return HookResponse::Block;
        }
        let count = self.compensation_count + 1;
        self.compensation_count = count;
        if streak >= KICKBACK_CEILING && self.stage == Stage::Vigilance {
            self.stage = Stage::Compensating;
        }
        if count >= COMPENSATION_TARGET {
            self.stage = Stage::Normal;
        }
        HookResponse::BlockAndInject(direction)
    }
}

/// Normal is final: from it every judged tick passes and the compensator
/// stays in Normal, whatever the direction.
pub proof fn lemma_normal_is_final(c: CompensatorState, event: MouseEvent)
    requires
        c.stage == Stage::Normal,
    ensures
        compensator_step(c, event).0.stage == Stage::Normal,
        compensator_step(c, event).1 == HookResponse::PassThrough,
{
}

/// A reversal while watching is blocked without compensation and sends the
/// compensator back to silence with a fresh count.
pub proof fn lemma_reversal_restarts(c: CompensatorState, event: MouseEvent)
    requires
        c.stage == Stage::Vigilance,
        is_judged_wheel(event),
        direction_of(event.mouse_data) != c.streak.last_direction,
    ensures
        compensator_step(c, event).1 == HookResponse::Block,
        compensator_step(c, event).0.stage == Stage::Silence,
        compensator_step(c, event).0.compensation_count == 0,
{
}

/// The state before any tick.
pub open spec fn compensator_start() -> CompensatorState {
    CompensatorState {
        streak: StreakState { last_direction: 0, count: 0 },
        stage: Stage::Silence,
        compensation_count: 0,
    }
}

/// The state and the answers after a sequence of hook calls, in order.
pub open spec fn compensator_run(c: CompensatorState, events: Seq<MouseEvent>) -> (
    CompensatorState,
    Seq<HookResponse>,
)
    decreases events.len(),
{
    if events.len() == 0 {
        (c, Seq::empty())
    } else {
        let before = compensator_run(c, events.drop_last());
        let step = compensator_step(before.0, events.last());
        (step.0, before.1.push(step.1))
    }
}

/// The compensator after the first `k` ticks (`k >= 1`), all in
/// `direction`: two ticks of silence, then one compensated tick each until
/// the count reaches the target, then Normal.
pub open spec fn compensator_after(k: int, direction: i32) -> CompensatorState {
    CompensatorState {
        streak: StreakState { last_direction: direction, count: k as i32 },
        stage: if k < WATCH_THRESHOLD {
            Stage::Silence
        } else if k < KICKBACK_CEILING {
            Stage::Vigilance
        } else if k < COMPENSATION_TARGET + WATCH_THRESHOLD - 1 {
            Stage::Compensating
        } else {
            Stage::Normal
        },
        compensation_count: (if k < WATCH_THRESHOLD {
            0
        } else if k < COMPENSATION_TARGET + WATCH_THRESHOLD - 1 {
            k - WATCH_THRESHOLD + 1
        } else {
            COMPENSATION_TARGET as int
        }) as i32,
    }
}

/// The answer to the `k`-th tick (`k >= 1`) of a scroll in `direction`
/// from the start: blocked for the first two, blocked with one synthetic
/// tick for the third to the ninth (seven in all), passed after that.
pub open spec fn compensator_answer(k: int, direction: i32) -> HookResponse {
    if k < WATCH_THRESHOLD {
        HookResponse::Block
    } else if k < COMPENSATION_TARGET + WATCH_THRESHOLD {
        HookResponse::BlockAndInject(direction)
    } else {
        HookResponse::PassThrough
    }
}

/// Every event of `events` is a judged wheel tick in `direction`.
pub open spec fn all_judged_ticks_in(events: Seq<MouseEvent>, direction: i32) -> bool {
    forall|i: int|
        0 <= i < events.len() ==> #[trigger] is_judged_wheel(events[i]) && direction_of(
            events[i].mouse_data,
        ) == direction
}

proof fn lemma_compensator_tick(k: int, direction: i32, event: MouseEvent)
    requires
        1 <= k < i32::MAX,
        is_judged_wheel(event),
        direction_of(event.mouse_data) == direction,
    ensures
        compensator_step(
            if k == 1 {
                compensator_start()
            } else {
                compensator_after(k - 1, direction)
            },
            event,
        ) == (compensator_after(k, direction), compensator_answer(k, direction)),
{
}

/// A scroll from the start, tick by tick: the `k`-th tick of a run in one
/// direction is blocked for `k <= 2`, blocked with exactly one synthetic
/// tick for `3 <= k <= 9`, and passed for `k >= 10`; the state after it is
/// [`compensator_after`], Normal from the ninth tick on.
pub proof fn lemma_compensator_run_from_start(events: Seq<MouseEvent>, direction: i32)
    requires
        all_judged_ticks_in(events, direction),
        events.len() < i32::MAX,
    ensures
        compensator_run(compensator_start(), events).1.len() == events.len(),
        events.len() >= 1 ==> compensator_run(compensator_start(), events).0 == compensator_after(
            events.len() as int,
            direction,
        ),
        forall|i: int|
            0 <= i < events.len() ==> #[trigger] compensator_run(compensator_start(), events).1[i]
                == compensator_answer(i + 1, direction),
    decreases events.len(),
{
    if events.len() > 0 {
        let prefix = events.drop_last();
        assert(all_judged_ticks_in(prefix, direction)) by {
            assert forall|i: int| 0 <= i < prefix.len() implies #[trigger] is_judged_wheel(
                prefix[i],
            ) && direction_of(prefix[i].mouse_data) == direction by {
                assert(prefix[i] == events[i]);
                assert(is_judged_wheel(events[i]));
            }
        }
        lemma_compensator_run_from_start(prefix, direction);
        assert(is_judged_wheel(events[events.len() - 1]));
        lemma_compensator_tick(events.len() as int, direction, events.last());
    }
}

/// Once Normal, every later event is passed on, whatever its direction or
/// kind, and the compensator stays Normal.
pub proof fn lemma_normal_forwards_everything(c: CompensatorState, events: Seq<MouseEvent>)
    requires
        c.stage == Stage::Normal,
    ensures
        compensator_run(c, events).0.stage == Stage::Normal,
        compensator_run(c, events).1.len() == events.len(),
        forall|i: int|
            0 <= i < events.len() ==> #[trigger] compensator_run(c, events).1[i]
                == HookResponse::PassThrough,
    decreases events.len(),
{
    if events.len() > 0 {
        lemma_normal_forwards_everything(c, events.drop_last());
    }
}

/// In every stage, an event that is not a judged wheel tick (our own
/// injected tick in particular) is passed on and leaves the compensator
/// exactly as it was.
pub proof fn lemma_compensator_passes_other_events(c: CompensatorState, event: MouseEvent)
    requires
        event.code < 0 || event.wparam as u32 != 0x020A || event.flags % 2 == 1,
    ensures
        compensator_step(c, event) == (c, HookResponse::PassThrough),
{
}

} // verus!
