//! A phase machine on top of the streak.
//!
//! Silence blocks the first ticks of a streak; Vigilance blocks and
//! compensates each tick while the streak grows towards the ceiling; a
//! direction change during Vigilance or Compensating cuts the attempt and
//! waits for a few clean ticks (BlockNewAttempt); Compensating goes on
//! injecting until the compensation target is reached; Normal lets every
//! tick through until the direction changes.

use vstd::prelude::*;
use crate::constants::{
    BLOCK_NEW_ATTEMPT, COMPENSATION_TARGET, KICKBACK_CEILING, WATCH_THRESHOLD,
};
use crate::hook::{direction_of, is_judged_wheel, judged_wheel, wheel_direction, HookResponse, MouseEvent};
use crate::streak::{next_streak, StreakState};

verus! {

/// Phases of the machine.
#[derive(Clone, Copy, Debug, PartialEq, Eq, Structural)]
pub enum Phase {
    /// Initial silence: block without injecting.
    Silence,
    /// Watch: inject one for one, see whether the streak reaches the ceiling.
    Vigilance,
    /// After a cut: wait for clean ticks before arming again.
    BlockNewAttempt,
    /// Confirmed: keep injecting until the target.
    Compensating,
    /// Normal flow: everything passes.
    Normal,
}

/// What the hook does with a tick.
#[derive(Clone, Copy, Debug, PartialEq, Eq, Structural)]
pub enum Action {
    /// Let the tick through.
    Pass,
    /// Block the tick without injecting.
    Block,
    /// Block the tick and queue a synthetic one.
    BlockAndCompensate,
}

/// The machine's transition table: new phase, new second counter and action.
pub open spec fn transition(
    phase: Phase,
    streak: int,
    compensation_count: int,
    block_attempt_count: int,
) -> (Phase, int, Action) {
    if streak == 1 && (phase == Phase::Vigilance || phase == Phase::Compensating) {
        (Phase::BlockNewAttempt, 0, Action::Block)
    } else if streak == 1 && (phase == Phase::Silence || phase == Phase::Normal) {
        (Phase::Silence, 0, Action::Block)
    } else {
        match phase {
            Phase::Silence => if streak < WATCH_THRESHOLD {
                (Phase::Silence, 0, Action::Block)
            } else {
                (Phase::Vigilance, 0, Action::BlockAndCompensate)
            },
            Phase::Vigilance => if streak < KICKBACK_CEILING {
                (Phase::Vigilance, 0, Action::BlockAndCompensate)
            } else {
                (Phase::Compensating, 0, Action::BlockAndCompensate)
            },
            Phase::BlockNewAttempt => if block_attempt_count + 1 < BLOCK_NEW_ATTEMPT {
                (Phase::BlockNewAttempt, block_attempt_count + 1, Action::Block)
            } else {
                (Phase::Vigilance, 0, Action::BlockAndCompensate)
            },
            Phase::Compensating => if compensation_count + 1 < COMPENSATION_TARGET {
                (Phase::Compensating, compensation_count + 1, Action::BlockAndCompensate)
            } else {
                (Phase::Normal, 0, Action::Pass)
            },
            Phase::Normal => (Phase::Normal, 0, Action::Pass),
        }
    }
}

/// Decides the new phase, the new block-attempt counter and the action for
/// a tick with streak `streak` (see [`transition`]).
pub fn decide_action(
    phase: Phase,
    streak: i32,
    compensation_count: i32,
    block_attempt_count: i32,
) -> (result: (Phase, i32, Action))
    requires
        phase == Phase::BlockNewAttempt ==> block_attempt_count < i32::MAX,
        phase == Phase::Compensating && streak != 1 ==> compensation_count < i32::MAX,
    ensures
        (result.0, result.1 as int, result.2) == transition(
            phase,
            streak as int,
            compensation_count as int,
            block_attempt_count as int,
        ),
{
    if streak == 1 {
        // A direction change cuts whatever is in progress.
        match phase {
            Phase::Vigilance | Phase::Compensating => {
                return (Phase::BlockNewAttempt, 0, Action::Block);
            },
            Phase::Silence | Phase::Normal => {
                return (Phase::Silence, 0, Action::Block);
            },
            Phase::BlockNewAttempt => {},
        }
    }
    match phase {
        Phase::Silence => {
            if streak < WATCH_THRESHOLD {
                (Phase::Silence, 0, Action::Block)
            } else {
                (Phase::Vigilance, 0, Action::BlockAndCompensate)
            }
        },
        Phase::Vigilance => {
            if streak < KICKBACK_CEILING {
                (Phase::Vigilance, 0, Action::BlockAndCompensate)
            } else {
                (Phase::Compensating, 0, Action::BlockAndCompensate)
            }
        },
        Phase::BlockNewAttempt => {
            let new_count = block_attempt_count + 1;
            if new_count < BLOCK_NEW_ATTEMPT {
                (Phase::BlockNewAttempt, new_count, Action::Block)
            } else {
                (Phase::Vigilance, 0, Action::BlockAndCompensate)
            }
        },
        Phase::Compensating => {
            let new_comp = compensation_count + 1;
            if new_comp < COMPENSATION_TARGET {
                (Phase::Compensating, new_comp, Action::BlockAndCompensate)
            } else {
                (Phase::Normal, 0, Action::Pass)
            }
        },
        Phase::Normal => (Phase::Normal, 0, Action::Pass),
    }
}

/// The machine's initial phase and counters (phase, compensation count,
/// block-attempt count).
pub fn reset_machine() -> (initial: (Phase, i32, i32))
    ensures
        initial == (Phase::Silence, 0i32, 0i32),
{
    (Phase::Silence, 0, 0)
}

/// The whole filter state of the machine: streak, phase and both counters.
#[derive(Clone, Copy, Debug)]
pub struct MachineState {
    pub streak: StreakState,
    pub phase: Phase,
    pub compensation_count: i32,
    pub block_attempt_count: i32,
}

/// One hook call: the new state and the answer.
pub open spec fn machine_step(m: MachineState, event: MouseEvent) -> (MachineState, HookResponse) {
    if !is_judged_wheel(event) {
        (m, HookResponse::PassThrough)
    } else {
        let direction = direction_of(event.mouse_data);
        let streak = next_streak(m.streak.last_direction, m.streak.count, direction);
        let t = transition(
            m.phase,
            streak,
            m.compensation_count as int,
            m.block_attempt_count as int,
        );
        let compensation = if t.2 == Action::BlockAndCompensate {
            if t.0 == Phase::Compensating || m.phase == Phase::Compensating {
                m.compensation_count + 1
            } else {
                0
            }
        } else {
            m.compensation_count as int
        };
        let next = MachineState {
            streak: StreakState { last_direction: direction, count: streak as i32 },
            phase: t.0,
            compensation_count: compensation as i32,
            block_attempt_count: t.1 as i32,
        };
        let response = match t.2 {
            Action::Pass => HookResponse::PassThrough,
            Action::Block => HookResponse::Block,
            Action::BlockAndCompensate => HookResponse::BlockAndInject(direction),
        };
        (next, response)
    }
}

impl MachineState {
    /// The counters stay small: at most one short of the compensation
    /// target, and no compensation is counted while watching.
    pub open spec fn wf(self) -> bool {
        &&& 0 <= self.compensation_count < COMPENSATION_TARGET
        &&& 0 <= self.block_attempt_count < COMPENSATION_TARGET
        &&& self.phase == Phase::Vigilance ==> self.compensation_count == 0
    }

    /// The state before any tick.
    pub fn new() -> (m: MachineState)
        ensures
            m.wf(),
            m == machine_start(),
            m.phase == Phase::Silence,
            m.compensation_count == 0,
            m.block_attempt_count == 0,
            m.streak.last_direction == 0,
            m.streak.count == 0,
    {
        let (phase, compensation_count, block_attempt_count) = reset_machine();
        MachineState {
            streak: StreakState::new(),
            phase,
            compensation_count,
            block_attempt_count,
        }
    }

    /// Judges one call of the low-level mouse hook: non-wheel and injected
    /// events pass untouched; a wheel tick updates the streak, runs the
    /// transition table and, when it compensates, counts the compensation
    /// while the machine is (or becomes) Compensating and restarts the count
    /// otherwise.
    pub fn mouse_wheel_hook_callback(&mut self, event: MouseEvent) -> (response: HookResponse)
        requires
            old(self).wf(),
            is_judged_wheel(event) ==> old(self).streak.count < i32::MAX,
        ensures
            final(self).wf(),
            (*final(self), response) == machine_step(*old(self), event),
            (event.code < 0 || event.wparam as u32 != 0x020A || event.flags % 2 == 1) ==> (
            response == HookResponse::PassThrough && *final(self) == *old(self)),
    {
        if !judged_wheel(&event) {
            return HookResponse::PassThrough;
        }
        let direction = wheel_direction(event.mouse_data);
        let streak = self.streak.streak_manager(direction);
        let phase = self.phase;
        let (new_phase, new_block_attempt, action) = decide_action(
            phase,
            streak,
            self.compensation_count,
            self.block_attempt_count,
        );
        self.phase = new_phase;
        self.block_attempt_count = new_block_attempt;
        match action {
            Action::Pass => HookResponse::PassThrough,
            Action::Block => HookResponse::Block,
            Action::BlockAndCompensate => {
                if new_phase == Phase::Compensating || phase == Phase::Compensating {
                    self.compensation_count = self.compensation_count + 1;
                } else {
                    self.compensation_count = 0;
                }
                HookResponse::BlockAndInject(direction)
            },
        }
    }
}

/// A direction change (streak back to `1`) cuts whatever is in progress:
/// the cutting tick is blocked without compensation, and a cut during
/// watching or compensating moves to the waiting phase.
pub proof fn lemma_cut_blocks(phase: Phase, compensation_count: int, block_attempt_count: int)
    requires
        phase != Phase::BlockNewAttempt,
    ensures
        transition(phase, 1, compensation_count, block_attempt_count).2 == Action::Block,
        (phase == Phase::Vigilance || phase == Phase::Compensating) ==> transition(
            phase,
            1,
            compensation_count,
            block_attempt_count,
        ).0 == Phase::BlockNewAttempt,
{
}

/// Ticks pass exactly when the machine is in (or reaches) the Normal phase.
pub proof fn lemma_pass_only_in_normal(
    phase: Phase,
    streak: int,
    compensation_count: int,
    block_attempt_count: int,
)
    ensures
        (transition(phase, streak, compensation_count, block_attempt_count).2 == Action::Pass)
            <==> (transition(phase, streak, compensation_count, block_attempt_count).0
            == Phase::Normal),
{
}

/// After a cut the machine waits for exactly `BLOCK_NEW_ATTEMPT` ticks,
/// whatever their streak: the first is blocked, the second starts watching
/// again with a compensated tick.
pub proof fn lemma_cut_waits(first: int, second: int, compensation_count: int)
    ensures
        ({
            let t1 = transition(Phase::BlockNewAttempt, first, compensation_count, 0);
            &&& t1 == (Phase::BlockNewAttempt, 1int, Action::Block)
            &&& transition(t1.0, second, compensation_count, t1.1) == (
                Phase::Vigilance,
                0int,
                Action::BlockAndCompensate,
            )
        }),
{
}

/// The state before any tick.
pub open spec fn machine_start() -> MachineState {
    MachineState {
        streak: StreakState { last_direction: 0, count: 0 },
        phase: Phase::Silence,
        compensation_count: 0,
        block_attempt_count: 0,
    }
}

/// The state and the answers after a sequence of hook calls, in order.
pub open spec fn machine_run(m: MachineState, events: Seq<MouseEvent>) -> (
    MachineState,
    Seq<HookResponse>,
)
    decreases events.len(),
{
    if events.len() == 0 {
        (m, Seq::empty())
    } else {
        let before = machine_run(m, events.drop_last());
        let step = machine_step(before.0, events.last());
        (step.0, before.1.push(step.1))
    }
}

/// Every event of `events` is a judged wheel tick in `direction`.
pub open spec fn all_judged_in(events: Seq<MouseEvent>, direction: i32) -> bool {
    forall|i: int|
        0 <= i < events.len() ==> #[trigger] is_judged_wheel(events[i]) && direction_of(
            events[i].mouse_data,
        ) == direction
}

/// The machine after the first `k` ticks (`k >= 1`), all in `direction`:
/// two ticks of silence, watching up to the ceiling, compensating up to the
/// target, then normal flow.
pub open spec fn machine_after(k: int, direction: i32) -> MachineState {
    MachineState {
        streak: StreakState { last_direction: direction, count: k as i32 },
        phase: if k < WATCH_THRESHOLD {
            Phase::Silence
        } else if k < KICKBACK_CEILING {
            Phase::Vigilance
        } else if k < KICKBACK_CEILING + COMPENSATION_TARGET - 1 {
            Phase::Compensating
        } else {
            Phase::Normal
        },
        compensation_count: (if k < KICKBACK_CEILING {
            0
        } else if k < KICKBACK_CEILING + COMPENSATION_TARGET - 1 {
            k - KICKBACK_CEILING + 1
        } else {
            COMPENSATION_TARGET - 1
        }) as i32,
        block_attempt_count: (if KICKBACK_CEILING < k < KICKBACK_CEILING + COMPENSATION_TARGET
            - 1 {
            k - KICKBACK_CEILING + 1
        } else {
            0
        }) as i32,
    }
}

/// The answer to the `k`-th tick (`k >= 1`) of a scroll in `direction`
/// from the start: blocked for the first two, blocked and compensated for
/// the third to the twelfth, passed after that.
pub open spec fn machine_answer(k: int, direction: i32) -> HookResponse {
    if k < WATCH_THRESHOLD {
        HookResponse::Block
    } else if k < KICKBACK_CEILING + COMPENSATION_TARGET - 1 {
        HookResponse::BlockAndInject(direction)
    } else {
        HookResponse::PassThrough
    }
}

proof fn lemma_machine_tick(k: int, direction: i32, event: MouseEvent)
    requires
        1 <= k < i32::MAX,
        is_judged_wheel(event),
        direction_of(event.mouse_data) == direction,
    ensures
        machine_step(
            if k == 1 {
                machine_start()
            } else {
                machine_after(k - 1, direction)
            },
            event,
        ) == (machine_after(k, direction), machine_answer(k, direction)),
{
}

/// A scroll from the start, tick by tick: the `k`-th tick of a run in one
/// direction is blocked for `k <= 2`, blocked and compensated once for
/// `3 <= k <= 12`, and passed for `k >= 13`; the state after it is
/// [`machine_after`].
pub proof fn lemma_machine_run_from_start(events: Seq<MouseEvent>, direction: i32)
    requires
        all_judged_in(events, direction),
        events.len() < i32::MAX,
    ensures
        machine_run(machine_start(), events).1.len() == events.len(),
        events.len() >= 1 ==> machine_run(machine_start(), events).0 == machine_after(
            events.len() as int,
            direction,
        ),
        forall|i: int|
            0 <= i < events.len() ==> #[trigger] machine_run(machine_start(), events).1[i]
                == machine_answer(i + 1, direction),
    decreases events.len(),
{
    if events.len() > 0 {
        let prefix = events.drop_last();
        assert(all_judged_in(prefix, direction)) by {
            assert forall|i: int| 0 <= i < prefix.len() implies #[trigger] is_judged_wheel(
                prefix[i],
            ) && direction_of(prefix[i].mouse_data) == direction by {
                assert(prefix[i] == events[i]);
                assert(is_judged_wheel(events[i]));
            }
        }
        lemma_machine_run_from_start(prefix, direction);
        assert(is_judged_wheel(events[events.len() - 1]));
        lemma_machine_tick(events.len() as int, direction, events.last());
    }
}

/// A reversal after a scroll from the start is blocked without
/// compensation, and so is the next tick in the new direction: the run is
/// discarded and the cut is not compensated.
pub proof fn lemma_machine_reversal_blocked(
    events: Seq<MouseEvent>,
    direction: i32,
    first: MouseEvent,
    second: MouseEvent,
)
    requires
        events.len() >= 1,
        events.len() < i32::MAX,
        all_judged_in(events, direction),
        is_judged_wheel(first),
        is_judged_wheel(second),
        direction_of(first.mouse_data) != direction,
        direction_of(second.mouse_data) == direction_of(first.mouse_data),
    ensures
        ({
            let cut = machine_step(machine_run(machine_start(), events).0, first);
            &&& cut.1 == HookResponse::Block
            &&& machine_step(cut.0, second).1 == HookResponse::Block
        }),
{
    lemma_machine_run_from_start(events, direction);
}

/// In every phase, an event that is not a judged wheel tick (our own
/// injected tick in particular) is passed on and leaves the machine exactly
/// as it was.
pub proof fn lemma_machine_passes_other_events(m: MachineState, event: MouseEvent)
    requires
        event.code < 0 || event.wparam as u32 != 0x020A || event.flags % 2 == 1,
    ensures
        machine_step(m, event) == (m, HookResponse::PassThrough),
{
}

/// In silence, the answer depends on the streak alone, not on the counters
/// left over from an earlier scroll: below the watch threshold the tick is
/// blocked, from it on watching starts with a compensated tick.
pub proof fn lemma_silence_depends_only_on_streak(
    streak: int,
    compensation_a: int,
    block_a: int,
    compensation_b: int,
    block_b: int,
)
    ensures
        transition(Phase::Silence, streak, compensation_a, block_a) == transition(
            Phase::Silence,
            streak,
            compensation_b,
            block_b,
        ),
        streak < 3 ==> transition(Phase::Silence, streak, compensation_a, block_a) == (
            Phase::Silence,
            0int,
            Action::Block,
        ),
        streak >= 3 ==> transition(Phase::Silence, streak, compensation_a, block_a) == (
            Phase::Vigilance,
            0int,
            Action::BlockAndCompensate,
        ),
{
}

proof fn lemma_reversal_prefix(m: MachineState, events: Seq<MouseEvent>, direction: i32)
    requires
        m.wf(),
        m.phase != Phase::BlockNewAttempt,
        direction != m.streak.last_direction,
        all_judged_in(events, direction),
        events.len() < i32::MAX,
    ensures
        machine_run(m, events).1.len() == events.len(),
        forall|i: int|
            0 <= i < events.len() ==> #[trigger] machine_run(m, events).1[i] == machine_answer(
                i + 1,
                direction,
            ),
        events.len() == 1 ==> {
            let st = machine_run(m, events).0;
            &&& st.streak == (StreakState { last_direction: direction, count: 1 })
            &&& st.block_attempt_count == 0
            &&& (st.phase == Phase::Silence || st.phase == Phase::BlockNewAttempt)
            &&& 0 <= st.compensation_count < COMPENSATION_TARGET
        },
        events.len() == 2 ==> {
            let st = machine_run(m, events).0;
            &&& st.streak == (StreakState { last_direction: direction, count: 2 })
            &&& ((st.phase == Phase::Silence && st.block_attempt_count == 0) || (st.phase
                == Phase::BlockNewAttempt && st.block_attempt_count == 1))
            &&& 0 <= st.compensation_count < COMPENSATION_TARGET
        },
        events.len() >= 3 ==> machine_run(m, events).0 == machine_after(
            events.len() as int,
            direction,
        ),
    decreases events.len(),
{
    if events.len() > 0 {
        let prefix = events.drop_last();
        assert(all_judged_in(prefix, direction)) by {
            assert forall|i: int| 0 <= i < prefix.len() implies #[trigger] is_judged_wheel(
                prefix[i],
            ) && direction_of(prefix[i].mouse_data) == direction by {
                assert(prefix[i] == events[i]);
                assert(is_judged_wheel(events[i]));
            }
        }
        lemma_reversal_prefix(m, prefix, direction);
        assert(is_judged_wheel(events[events.len() - 1]));
        if events.len() >= 4 {
            lemma_machine_tick(events.len() as int, direction, events.last());
        }
    }
}

/// A run in a new direction after any reachable state that is not waiting
/// after a cut (in particular after a reversal from normal flow) is judged
/// exactly like a scroll from the start, whatever counters the earlier
/// scroll left behind: the first two ticks are blocked, the third to the
/// twelfth are blocked and compensated in the new direction, and from the
/// thirteenth on the ticks pass. From the third tick on the machine is in
/// the same state as after a scroll of that length from the start.
pub proof fn lemma_machine_run_after_reversal(
    m: MachineState,
    events: Seq<MouseEvent>,
    direction: i32,
)
    requires
        m.wf(),
        m.phase != Phase::BlockNewAttempt,
        direction != m.streak.last_direction,
        all_judged_in(events, direction),
        events.len() < i32::MAX,
    ensures
        machine_run(m, events).1.len() == events.len(),
        forall|i: int|
            0 <= i < events.len() ==> #[trigger] machine_run(m, events).1[i] == (if i < 2 {
                HookResponse::Block
            } else if i < 12 {
                HookResponse::BlockAndInject(direction)
            } else {
                HookResponse::PassThrough
            }),
        events.len() >= 3 ==> machine_run(m, events).0 == machine_after(
            events.len() as int,
            direction,
        ),
        events.len() >= 13 ==> machine_run(m, events).0.phase == Phase::Normal,
{
    lemma_reversal_prefix(m, events, direction);
}

} // verus!
