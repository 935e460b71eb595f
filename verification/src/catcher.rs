//! The wheel filter: every physical wheel tick is judged by the streak it
//! belongs to.
//!
//! | streak                       | what happens                                  |
//! |------------------------------|-----------------------------------------------|
//! | `1 ..= silence`              | the tick is blocked silently                  |
//! | `silence + 1 ..= ceiling`    | the tick is blocked and a synthetic one sent  |
//! | `> ceiling`                  | the tick passes: the direction is confirmed   |
//!
//! `silence` and `ceiling` are the configured `SilencioInicial` and
//! `TechoKickback`.

use vstd::prelude::*;
use crate::hook::{
    direction_of, is_physical_wheel, physical_wheel, wheel_direction, HookResponse, MouseEvent,
};
use crate::streak::StreakState;

verus! {

/// What the filter does with a tick of a given streak.
#[derive(Clone, Copy, Debug, PartialEq, Eq, Structural)]
pub enum Action {
    /// Let the tick through.
    Pass,
    /// Block the tick without injecting anything.
    Block,
    /// Block the tick and inject a synthetic one in its direction.
    BlockAndInject,
}

/// The filter's table: see the module documentation.
pub open spec fn action_for(streak: int, silence: int, ceiling: int) -> Action {
    if streak <= silence {
        Action::Block
    } else if streak <= ceiling {
        Action::BlockAndInject
    } else {
        Action::Pass
    }
}

/// The hook's answer for an action on a tick in `direction`.
pub open spec fn response_for(action: Action, direction: i32) -> HookResponse {
    match action {
        Action::Pass => HookResponse::PassThrough,
        Action::Block => HookResponse::Block,
        Action::BlockAndInject => HookResponse::BlockAndInject(direction),
    }
}

/// The streak above which no further tick changes the outcome: the larger
/// of the two thresholds, kept below `i32::MAX` so that the counter never
/// overflows.
pub open spec fn streak_cap(silence: i32, ceiling: i32) -> i32 {
    let larger = if silence > ceiling { silence } else { ceiling };
    if larger == i32::MAX {
        (larger - 1) as i32
    } else {
        larger
    }
}

/// One hook call: the new streak state and the answer.
pub open spec fn catcher_step(
    state: StreakState,
    event: MouseEvent,
    silence: i32,
    ceiling: i32,
) -> (StreakState, HookResponse) {
    if !is_physical_wheel(event) {
        (state, HookResponse::PassThrough)
    } else {
        let direction = direction_of(event.mouse_data);
        let next = state.after_capped(direction, streak_cap(silence, ceiling));
        (next, response_for(action_for(next.count as int, silence as int, ceiling as int), direction))
    }
}

/// Decides what to do with a tick of streak `streak` (see [`action_for`]).
pub fn decide(streak: i32, silence: i32, ceiling: i32) -> (action: Action)
    ensures
        action == action_for(streak as int, silence as int, ceiling as int),
        streak <= silence ==> action == Action::Block,
        silence < streak <= ceiling ==> action == Action::BlockAndInject,
        (streak > silence && streak > ceiling) ==> action == Action::Pass,
{
    if streak <= silence {
        return Action::Block;
    }
    if streak <= ceiling {
        return Action::BlockAndInject;
    }
    Action::Pass
}

/// The cap handed to the streak counter (see [`streak_cap`]).
pub fn cap_for(silence: i32, ceiling: i32) -> (cap: i32)
    ensures
        cap == streak_cap(silence, ceiling),
        cap < i32::MAX,
{
    let larger = if silence > ceiling {
        silence
    } else {
        ceiling
    };
    if larger == i32::MAX {
        larger - 1
    } else {
        larger
    }
}

/// Judges one call of the low-level mouse hook. Events that are not wheel
/// events, or that we injected ourselves, pass untouched and leave the
/// streak as it was; every other tick updates the streak and gets the
/// answer of the table, a compensated tick carrying its own direction.
pub fn mouse_wheel_catcher_hook(
    state: &mut StreakState,
    event: MouseEvent,
    silence: i32,
    ceiling: i32,
) -> (response: HookResponse)
    ensures
        (*final(state), response) == catcher_step(*old(state), event, silence, ceiling),
        (event.code < 0 || event.wparam != 0x020A || event.flags % 2 == 1) ==> (response
            == HookResponse::PassThrough && *final(state) == *old(state)),
{
    if !physical_wheel(&event) {
        return HookResponse::PassThrough;
    }
    let direction = wheel_direction(event.mouse_data);
    let streak = state.update_streak(direction, cap_for(silence, ceiling));
    match decide(streak, silence, ceiling) {
        Action::Pass => HookResponse::PassThrough,
        Action::BlockAndInject => HookResponse::BlockAndInject(direction),
        Action::Block => HookResponse::Block,
    }
}

/// The state and the answers after a sequence of hook calls, in order.
pub open spec fn catcher_run(
    state: StreakState,
    events: Seq<MouseEvent>,
    silence: i32,
    ceiling: i32,
) -> (StreakState, Seq<HookResponse>)
    decreases events.len(),
{
    if events.len() == 0 {
        (state, Seq::empty())
    } else {
        let before = catcher_run(state, events.drop_last(), silence, ceiling);
        let step = catcher_step(before.0, events.last(), silence, ceiling);
        (step.0, before.1.push(step.1))
    }
}

/// Every event of `events` is a physical wheel tick in `direction`.
pub open spec fn all_ticks_in(events: Seq<MouseEvent>, direction: i32) -> bool {
    forall|i: int|
        0 <= i < events.len() ==> #[trigger] is_physical_wheel(events[i]) && direction_of(
            events[i].mouse_data,
        ) == direction
}

/// The streak of the `n`-th tick (counting from `1`) of a run in one
/// direction that began with a reversal, under the cap `cap`.
pub open spec fn run_streak(n: int, cap: int) -> int {
    let top = if cap + 1 >= 1 {
        cap + 1
    } else {
        1
    };
    if n <= top {
        n
    } else {
        top
    }
}

proof fn lemma_reversal_run(
    state: StreakState,
    events: Seq<MouseEvent>,
    direction: i32,
    silence: i32,
    ceiling: i32,
)
    requires
        direction != state.last_direction,
        all_ticks_in(events, direction),
    ensures
        catcher_run(state, events, silence, ceiling).1.len() == events.len(),
        events.len() > 0 ==> catcher_run(state, events, silence, ceiling).0.last_direction
            == direction,
        events.len() > 0 ==> catcher_run(state, events, silence, ceiling).0.count == run_streak(
            events.len() as int,
            streak_cap(silence, ceiling) as int,
        ),
        forall|i: int|
            0 <= i < events.len() ==> #[trigger] catcher_run(state, events, silence, ceiling).1[i]
                == response_for(
                action_for(
                    run_streak(i + 1, streak_cap(silence, ceiling) as int),
                    silence as int,
                    ceiling as int,
                ),
                direction,
            ),
    decreases events.len(),
{
    if events.len() > 0 {
        let prefix = events.drop_last();
        assert(all_ticks_in(prefix, direction)) by {
            assert forall|i: int| 0 <= i < prefix.len() implies #[trigger] is_physical_wheel(
                prefix[i],
            ) && direction_of(prefix[i].mouse_data) == direction by {
                assert(prefix[i] == events[i]);
                assert(is_physical_wheel(events[i]));
            }
        }
        lemma_reversal_run(state, prefix, direction, silence, ceiling);
        assert(is_physical_wheel(events[events.len() - 1]));
    }
}

/// The whole answer to a run of ticks in a new direction: the `i`-th tick
/// (from `0`) has the streak `run_streak(i + 1, cap)` and gets the answer of
/// the table for that streak. So the run is blocked for its first `silence`
/// ticks, then blocked and compensated one for one up to `ceiling`, and
/// passes after that.
pub proof fn lemma_run_after_reversal(
    state: StreakState,
    events: Seq<MouseEvent>,
    direction: i32,
    silence: i32,
    ceiling: i32,
)
    requires
        direction != state.last_direction,
        all_ticks_in(events, direction),
    ensures
        catcher_run(state, events, silence, ceiling).1.len() == events.len(),
        forall|i: int|
            0 <= i < events.len() ==> #[trigger] catcher_run(state, events, silence, ceiling).1[i]
                == response_for(
                action_for(
                    run_streak(i + 1, streak_cap(silence, ceiling) as int),
                    silence as int,
                    ceiling as int,
                ),
                direction,
            ),
{
    lemma_reversal_run(state, events, direction, silence, ceiling);
}

/// A run of at most `silence` ticks in a new direction never reaches the
/// screen: each of them is blocked, and none is compensated. This is what
/// keeps a short kickback burst invisible.
pub proof fn lemma_reversal_burst_blocked(
    state: StreakState,
    events: Seq<MouseEvent>,
    direction: i32,
    silence: i32,
    ceiling: i32,
)
    requires
        direction != state.last_direction,
        all_ticks_in(events, direction),
        events.len() <= silence,
    ensures
        catcher_run(state, events, silence, ceiling).1.len() == events.len(),
        forall|i: int|
            0 <= i < events.len() ==> #[trigger] catcher_run(state, events, silence, ceiling).1[i]
                == HookResponse::Block,
{
    lemma_reversal_run(state, events, direction, silence, ceiling);
    assert forall|i: int| 0 <= i < events.len() implies #[trigger] catcher_run(
        state,
        events,
        silence,
        ceiling,
    ).1[i] == HookResponse::Block by {
        assert(run_streak(i + 1, streak_cap(silence, ceiling) as int) <= i + 1);
    }
}

/// Once a streak is longer than both thresholds, the direction stays
/// confirmed: every further tick in that direction passes, and the streak
/// state no longer changes.
pub proof fn lemma_confirmed_direction_passes(
    state: StreakState,
    events: Seq<MouseEvent>,
    silence: i32,
    ceiling: i32,
)
    requires
        state.count > silence,
        state.count > ceiling,
        all_ticks_in(events, state.last_direction),
    ensures
        catcher_run(state, events, silence, ceiling).0 == state,
        catcher_run(state, events, silence, ceiling).1.len() == events.len(),
        forall|i: int|
            0 <= i < events.len() ==> #[trigger] catcher_run(state, events, silence, ceiling).1[i]
                == HookResponse::PassThrough,
    decreases events.len(),
{
    if events.len() > 0 {
        let prefix = events.drop_last();
        assert(all_ticks_in(prefix, state.last_direction)) by {
            assert forall|i: int| 0 <= i < prefix.len() implies #[trigger] is_physical_wheel(
                prefix[i],
            ) && direction_of(prefix[i].mouse_data) == state.last_direction by {
                assert(prefix[i] == events[i]);
                assert(is_physical_wheel(events[i]));
            }
        }
        lemma_confirmed_direction_passes(state, prefix, silence, ceiling);
        assert(is_physical_wheel(events[events.len() - 1]));
    }
}

/// With `ceiling <= silence` (for instance `TechoKickback = 0`) the filter
/// never injects: a tick is either blocked or passed.
pub proof fn lemma_no_room_no_injection(
    state: StreakState,
    event: MouseEvent,
    silence: i32,
    ceiling: i32,
)
    requires
        ceiling <= silence,
    ensures
        !(catcher_step(state, event, silence, ceiling).1 is BlockAndInject),
{
}

/// The state seen from the other direction: the last direction negated.
pub open spec fn mirrored(state: StreakState) -> StreakState {
    StreakState { last_direction: (-state.last_direction) as i32, count: state.count }
}

/// No direction gets a free pass: counting a tick in the opposite direction
/// from the mirrored state gives the mirrored result, with the same streak,
/// hence the same action.
pub proof fn lemma_direction_blind(state: StreakState, direction: i32, cap: i32)
    requires
        direction != i32::MIN,
        state.last_direction != i32::MIN,
    ensures
        mirrored(state).after_capped((-direction) as i32, cap) == mirrored(
            state.after_capped(direction, cap),
        ),
{
}

/// The README's table, over every streak and both thresholds: a streak up
/// to `silence` is blocked, one above `silence` and up to `ceiling` is
/// blocked and compensated, one above both passes; and the answer to a
/// physical tick is the table's answer for the streak the tick brings, with
/// a compensated tick injected in the tick's own direction.
pub proof fn lemma_table(
    state: StreakState,
    event: MouseEvent,
    streak: int,
    silence: i32,
    ceiling: i32,
)
    ensures
        (action_for(streak, silence as int, ceiling as int) == Action::Block) <==> streak
            <= silence,
        (action_for(streak, silence as int, ceiling as int) == Action::BlockAndInject) <==> (
        silence < streak <= ceiling),
        (action_for(streak, silence as int, ceiling as int) == Action::Pass) <==> (streak
            > silence && streak > ceiling),
        is_physical_wheel(event) ==> {
            let next = catcher_step(state, event, silence, ceiling);
            &&& next.0.last_direction == direction_of(event.mouse_data)
            &&& next.0.count <= silence ==> next.1 == HookResponse::Block
            &&& silence < next.0.count <= ceiling ==> next.1 == HookResponse::BlockAndInject(
                direction_of(event.mouse_data),
            )
            &&& (next.0.count > silence && next.0.count > ceiling) ==> next.1
                == HookResponse::PassThrough
        },
{
}

/// Whatever the streak and the thresholds, an event that is not a
/// physical vertical wheel tick (our own injected tick, another message such
/// as a horizontal wheel tick, or a negative hook code) is passed on and
/// leaves the streak exactly as it was.
pub proof fn lemma_catcher_passes_other_events(
    state: StreakState,
    event: MouseEvent,
    silence: i32,
    ceiling: i32,
)
    requires
        event.code < 0 || event.wparam != 0x020A || event.flags % 2 == 1,
    ensures
        catcher_step(state, event, silence, ceiling) == (state, HookResponse::PassThrough),
{
}

} // verus!
