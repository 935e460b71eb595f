//! The streak: how many consecutive wheel ticks went in the same direction.
//!
//! No direction is favoured: a tick is compared with the tick before it only.

use vstd::prelude::*;
use crate::constants::TRUST_TICKS;

verus! {

/// Last direction seen and the length of the current run in that direction.
#[derive(Clone, Copy, Debug, PartialEq, Eq, Structural)]
pub struct StreakState {
    /// Last direction seen (`0` before the first tick).
    pub last_direction: i32,
    /// Ticks in a row in `last_direction` (`0` before the first tick).
    pub count: i32,
}

/// Streak after one more tick in `direction`, counted without any cap.
pub open spec fn next_streak(last_direction: i32, count: i32, direction: i32) -> int {
    if direction == last_direction {
        count + 1
    } else {
        1
    }
}

/// Streak after one more tick in `direction`, where a run that is already
/// longer than `cap` stops growing.
pub open spec fn capped_streak(last_direction: i32, count: i32, direction: i32, cap: i32) -> i32 {
    if direction != last_direction {
        1
    } else if count > cap {
        count
    } else {
        (count + 1) as i32
    }
}

/// Length of the final run of equal values in `ds`: the largest `r` with
/// `ds[len - r] == ... == ds[len - 1]` (`0` for an empty sequence).
pub open spec fn final_run(ds: Seq<i32>) -> nat
    decreases ds.len(),
{
    if ds.len() == 0 {
        0
    } else if ds.len() == 1 {
        1
    } else if ds[ds.len() - 1] == ds[ds.len() - 2] {
        final_run(ds.drop_last()) + 1
    } else {
        1
    }
}

/// No prefix of `ds` ends in a run as long as `i32::MAX`.
pub open spec fn runs_fit(ds: Seq<i32>) -> bool {
    forall|j: int| 1 <= j <= ds.len() ==> #[trigger] final_run(ds.take(j)) < i32::MAX
}

impl StreakState {
    /// Spec view of [`StreakState::streak_manager`].
    pub open spec fn after(self, direction: i32) -> StreakState {
        StreakState {
            last_direction: direction,
            count: next_streak(self.last_direction, self.count, direction) as i32,
        }
    }

    /// The state after [`StreakState::streak_manager`] calls in the
    /// directions `ds`, in order.
    pub open spec fn after_all(self, ds: Seq<i32>) -> StreakState
        decreases ds.len(),
    {
        if ds.len() == 0 {
            self
        } else {
            self.after_all(ds.drop_last()).after(ds.last())
        }
    }

    /// The state after [`StreakState::update_streak`] calls with `cap` in the
    /// directions `ds`, in order.
    pub open spec fn after_all_capped(self, ds: Seq<i32>, cap: i32) -> StreakState
        decreases ds.len(),
    {
        if ds.len() == 0 {
            self
        } else {
            self.after_all_capped(ds.drop_last(), cap).after_capped(ds.last(), cap)
        }
    }

    /// The state before any tick.
    pub fn new() -> (s: StreakState)
        ensures
            s.last_direction == 0,
            s.count == 0,
    {
        StreakState { last_direction: 0, count: 0 }
    }

    /// Spec view of [`StreakState::update_streak`].
    pub open spec fn after_capped(self, direction: i32, cap: i32) -> StreakState {
        StreakState {
            last_direction: direction,
            count: capped_streak(self.last_direction, self.count, direction, cap),
        }
    }

    /// Counts one tick in `scroll_direction` and returns the new streak: one
    /// more than before when the direction repeats, `1` when it changes.
    pub fn streak_manager(&mut self, scroll_direction: i32) -> (streak: i32)
        requires
            scroll_direction == old(self).last_direction ==> old(self).count < i32::MAX,
        ensures
            streak == next_streak(old(self).last_direction, old(self).count, scroll_direction),
            final(self).last_direction == scroll_direction,
            final(self).count == streak,
            *final(self) == old(self).after(scroll_direction),
    {
        if scroll_direction == self.last_direction {
            let count = self.count + 1;
            self.count = count;
            count
        } else {
            self.last_direction = scroll_direction;
            self.count = 1;
            1
        }
    }

    /// Forgets the last direction and the streak.
    pub fn reset_streak(&mut self)
        ensures
            final(self).last_direction == 0,
            final(self).count == 0,
    {
        self.last_direction = 0;
        self.count = 0;
    }

    /// Counts one tick in `direction` like [`StreakState::streak_manager`],
    /// but a streak that is already above `cap` stays where it is, so the
    /// counter cannot grow without bound.
    pub fn update_streak(&mut self, direction: i32, cap: i32) -> (streak: i32)
        requires
            cap < i32::MAX,
        ensures
            streak == capped_streak(old(self).last_direction, old(self).count, direction, cap),
            *final(self) == old(self).after_capped(direction, cap),
    {
        if direction != self.last_direction {
            self.last_direction = direction;
            self.count = 1;
            return 1;
        }
        let n = self.count;
        if n > cap {
            return n;
        }
        self.count = n + 1;
        n + 1
    }
}

/// The streak counter measures runs: after the calls
/// `streak_manager(d_1), ..., streak_manager(d_k)` made from the state
/// before any tick (or from a reset), the stored count, which is what the
/// last call returned, is the length of the final run of equal directions,
/// whatever the directions are (`0` included), as long as no run reaches
/// `i32::MAX`. Each call meets the counter's `requires` along the way.
pub proof fn lemma_streak_is_final_run(ds: Seq<i32>)
    requires
        ds.len() >= 1,
        runs_fit(ds),
    ensures
        (StreakState { last_direction: 0, count: 0 }).after_all(ds) == (StreakState {
            last_direction: ds.last(),
            count: final_run(ds) as i32,
        }),
        forall|j: int|
            0 <= j < ds.len() ==> (ds[j] == (StreakState { last_direction: 0, count: 0 }).after_all(
                ds.take(j),
            ).last_direction ==> #[trigger] (StreakState { last_direction: 0, count: 0 }).after_all(
                ds.take(j),
            ).count < i32::MAX),
    decreases ds.len(),
{
    let start = StreakState { last_direction: 0, count: 0 };
    assert(ds.take(ds.len() as int) =~= ds);
    let prefix = ds.drop_last();
    assert(start.after_all(ds) == start.after_all(prefix).after(ds.last()));
    if ds.len() == 1 {
        assert(start.after_all(prefix) == start);
    }
    if ds.len() > 1 {
        assert(prefix.last() == ds[ds.len() - 2]);
        assert(runs_fit(prefix)) by {
            assert forall|j: int| 1 <= j <= prefix.len() implies #[trigger] final_run(prefix.take(j))
                < i32::MAX by {
                assert(prefix.take(j) =~= ds.take(j));
            }
        }
        lemma_streak_is_final_run(prefix);
        assert forall|j: int| 0 <= j < ds.len() && ds[j] == start.after_all(
            ds.take(j),
        ).last_direction implies #[trigger] start.after_all(ds.take(j)).count < i32::MAX by {
            if j < prefix.len() {
                assert(ds.take(j) =~= prefix.take(j));
            } else {
                assert(ds.take(j) =~= prefix);
                assert(prefix.take(prefix.len() as int) =~= prefix);
            }
        }
    } else {
        assert forall|j: int| 0 <= j < ds.len() && ds[j] == start.after_all(
            ds.take(j),
        ).last_direction implies #[trigger] start.after_all(ds.take(j)).count < i32::MAX by {
            assert(ds.take(j).len() == 0);
        }
    }
}

/// The capped streak counter counts runs up to `cap + 1` and then stays
/// there: after the calls `update_streak(d_1, cap), ..., update_streak(d_k,
/// cap)` made from the state before any tick, the stored count (what the
/// last call returned) is `min(r, cap + 1)`, `r` being the length of the
/// final run of equal directions. So the count is always between `1` and
/// `cap + 1` and cannot overflow, however long the scroll.
pub proof fn lemma_capped_streak_is_final_run(ds: Seq<i32>, cap: i32)
    requires
        ds.len() >= 1,
        0 <= cap < i32::MAX,
    ensures
        (StreakState { last_direction: 0, count: 0 }).after_all_capped(ds, cap) == (StreakState {
            last_direction: ds.last(),
            count: (if final_run(ds) <= cap + 1 {
                final_run(ds) as int
            } else {
                cap + 1
            }) as i32,
        }),
        1 <= (StreakState { last_direction: 0, count: 0 }).after_all_capped(ds, cap).count <= cap
            + 1,
    decreases ds.len(),
{
    let start = StreakState { last_direction: 0, count: 0 };
    let prefix = ds.drop_last();
    assert(start.after_all_capped(ds, cap) == start.after_all_capped(prefix, cap).after_capped(
        ds.last(),
        cap,
    ));
    if ds.len() == 1 {
        assert(start.after_all_capped(prefix, cap) == start);
    } else {
        assert(prefix.last() == ds[ds.len() - 2]);
        lemma_capped_streak_is_final_run(prefix, cap);
    }
}

/// With the default cap `TRUST_TICKS`, the streak counts up to `8` and then
/// stays there: the `k`-th call returns the final run length capped at `8`.
pub proof fn lemma_default_cap_bound(ds: Seq<i32>)
    requires
        ds.len() >= 1,
    ensures
        (StreakState { last_direction: 0, count: 0 }).after_all_capped(ds, TRUST_TICKS).count == (
        if final_run(ds) <= 8 {
            final_run(ds) as int
        } else {
            8
        }),
        1 <= (StreakState { last_direction: 0, count: 0 }).after_all_capped(ds, TRUST_TICKS).count
            <= 8,
{
    lemma_capped_streak_is_final_run(ds, TRUST_TICKS);
}

} // verus!
