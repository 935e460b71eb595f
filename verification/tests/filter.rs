use kickback_fix::catcher::{cap_for, decide, mouse_wheel_catcher_hook, Action};
use kickback_fix::constants::{SILENCE_TICKS, TRUST_TICKS, WHEEL_DOWN, WHEEL_EVENT, WHEEL_UP};
use kickback_fix::hook::{injected_flag, physical_wheel, wheel_direction, HookResponse, MouseEvent};
use kickback_fix::streak::StreakState;

const UP_DATA: u32 = 0x0078_0000; // delta +120
const DOWN_DATA: u32 = 0xFF88_0000; // delta -120

fn wheel(mouse_data: u32) -> MouseEvent {
    MouseEvent { code: 0, wparam: WHEEL_EVENT, flags: 0, mouse_data }
}

#[test]
fn streak_counts_same_direction_and_restarts_on_change() {
    let mut s = StreakState::new();
    assert_eq!(s.streak_manager(1), 1);
    assert_eq!(s.streak_manager(1), 2);
    assert_eq!(s.streak_manager(1), 3);
    assert_eq!(s.streak_manager(-1), 1);
    assert_eq!(s.streak_manager(-1), 2);
    assert_eq!(s.last_direction, -1);
    s.reset_streak();
    assert_eq!((s.last_direction, s.count), (0, 0));
    assert_eq!(s.streak_manager(-1), 1);
}

#[test]
fn update_streak_stops_growing_above_the_cap() {
    let mut s = StreakState::new();
    let got: Vec<i32> = (0..10).map(|_| s.update_streak(1, 7)).collect();
    assert_eq!(got, vec![1, 2, 3, 4, 5, 6, 7, 8, 8, 8]);
    assert_eq!(s.update_streak(-1, 7), 1);
}

#[test]
fn wheel_direction_reads_the_signed_high_word() {
    assert_eq!(wheel_direction(UP_DATA), WHEEL_UP);
    assert_eq!(wheel_direction(DOWN_DATA), WHEEL_DOWN);
    assert_eq!(wheel_direction(0), WHEEL_DOWN);
    assert_eq!(wheel_direction(0x7FFF_0000), WHEEL_UP);
    assert_eq!(wheel_direction(0x8000_0000), WHEEL_DOWN);
    assert_eq!(wheel_direction(0x0001_FFFF), WHEEL_UP);
    assert_eq!(wheel_direction(0x0000_FFFF), WHEEL_DOWN);
}

#[test]
fn injected_and_foreign_events_are_not_judged() {
    assert!(physical_wheel(&wheel(UP_DATA)));
    assert!(!physical_wheel(&MouseEvent { code: -1, ..wheel(UP_DATA) }));
    assert!(!physical_wheel(&MouseEvent { wparam: 0x0200, ..wheel(UP_DATA) }));
    assert!(!physical_wheel(&MouseEvent { flags: 0x3, ..wheel(UP_DATA) }));
    assert!(physical_wheel(&MouseEvent { flags: 0x2, ..wheel(UP_DATA) }));
    assert!(injected_flag(1));
    assert!(!injected_flag(0x10));
}

#[test]
fn decide_follows_the_table_at_its_edges() {
    assert_eq!(decide(1, SILENCE_TICKS, TRUST_TICKS), Action::Block);
    assert_eq!(decide(3, SILENCE_TICKS, TRUST_TICKS), Action::Block);
    assert_eq!(decide(4, SILENCE_TICKS, TRUST_TICKS), Action::BlockAndInject);
    assert_eq!(decide(7, SILENCE_TICKS, TRUST_TICKS), Action::BlockAndInject);
    assert_eq!(decide(8, SILENCE_TICKS, TRUST_TICKS), Action::Pass);
    // No silence: compensation starts with the first tick.
    assert_eq!(decide(1, 0, 7), Action::BlockAndInject);
    // No room between the thresholds: never compensates.
    for streak in 1..20 {
        assert_ne!(decide(streak, 3, 0), Action::BlockAndInject);
    }
    assert_eq!(decide(4, 3, 0), Action::Pass);
}

#[test]
fn cap_is_the_larger_threshold_below_max() {
    assert_eq!(cap_for(3, 7), 7);
    assert_eq!(cap_for(10, 7), 10);
    assert_eq!(cap_for(0, i32::MAX), i32::MAX - 1);
}

#[test]
fn a_long_scroll_goes_silent_then_compensated_then_through() {
    let mut s = StreakState::new();
    let got: Vec<HookResponse> =
        (0..10).map(|_| mouse_wheel_catcher_hook(&mut s, wheel(UP_DATA), 3, 7)).collect();
    let b = HookResponse::Block;
    let i = HookResponse::BlockAndInject(WHEEL_UP);
    let p = HookResponse::PassThrough;
    assert_eq!(got, vec![b, b, b, i, i, i, i, p, p, p]);
}

#[test]
fn injected_event_passes_without_touching_the_streak() {
    let mut s = StreakState::new();
    mouse_wheel_catcher_hook(&mut s, wheel(UP_DATA), 3, 7);
    let before = s;
    let injected = MouseEvent { flags: 1, ..wheel(DOWN_DATA) };
    assert_eq!(mouse_wheel_catcher_hook(&mut s, injected, 3, 7), HookResponse::PassThrough);
    let other = MouseEvent { wparam: 0x0201, ..wheel(DOWN_DATA) };
    assert_eq!(mouse_wheel_catcher_hook(&mut s, other, 3, 7), HookResponse::PassThrough);
    assert_eq!(s, before);
}

#[test]
fn a_kickback_burst_after_a_confirmed_scroll_is_blocked() {
    let mut s = StreakState::new();
    for _ in 0..12 {
        mouse_wheel_catcher_hook(&mut s, wheel(DOWN_DATA), 3, 7);
    }
    assert_eq!(mouse_wheel_catcher_hook(&mut s, wheel(DOWN_DATA), 3, 7), HookResponse::PassThrough);
    for _ in 0..3 {
        assert_eq!(mouse_wheel_catcher_hook(&mut s, wheel(UP_DATA), 3, 7), HookResponse::Block);
    }
    // Back to the real direction: the streak restarts at 1.
    assert_eq!(mouse_wheel_catcher_hook(&mut s, wheel(DOWN_DATA), 3, 7), HookResponse::Block);
    assert_eq!(s.count, 1);
}

#[test]
fn a_confirmed_direction_keeps_passing() {
    let mut s = StreakState { last_direction: WHEEL_UP, count: 8 };
    for _ in 0..50 {
        assert_eq!(mouse_wheel_catcher_hook(&mut s, wheel(UP_DATA), 3, 7), HookResponse::PassThrough);
    }
    assert_eq!(s, StreakState { last_direction: WHEEL_UP, count: 8 });
}

#[test]
fn directions_are_treated_alike() {
    let mut up = StreakState::new();
    let mut down = StreakState::new();
    for _ in 0..9 {
        let a = mouse_wheel_catcher_hook(&mut up, wheel(UP_DATA), 3, 7);
        let b = mouse_wheel_catcher_hook(&mut down, wheel(DOWN_DATA), 3, 7);
        match (a, b) {
            (HookResponse::BlockAndInject(x), HookResponse::BlockAndInject(y)) => assert_eq!(x, -y),
            (x, y) => assert_eq!(x, y),
        }
    }
}

#[test]
fn ceiling_zero_never_injects() {
    let mut s = StreakState::new();
    let got: Vec<HookResponse> =
        (0..6).map(|_| mouse_wheel_catcher_hook(&mut s, wheel(UP_DATA), 3, 0)).collect();
    let b = HookResponse::Block;
    let p = HookResponse::PassThrough;
    assert_eq!(got, vec![b, b, b, p, p, p]);
}

#[test]
fn large_silence_still_lets_a_long_scroll_pass() {
    let mut s = StreakState::new();
    let mut last = HookResponse::Block;
    for n in 1..=11 {
        last = mouse_wheel_catcher_hook(&mut s, wheel(UP_DATA), 10, 7);
        if n <= 10 {
            assert_eq!(last, HookResponse::Block);
        }
    }
    assert_eq!(last, HookResponse::PassThrough);
}

#[test]
fn a_run_after_a_reversal_follows_the_table_tick_by_tick() {
    let mut s = StreakState { last_direction: WHEEL_UP, count: 30 };
    let got: Vec<HookResponse> =
        (0..8).map(|_| mouse_wheel_catcher_hook(&mut s, wheel(DOWN_DATA), 2, 5)).collect();
    let b = HookResponse::Block;
    let i = HookResponse::BlockAndInject(WHEEL_DOWN);
    let p = HookResponse::PassThrough;
    assert_eq!(got, vec![b, b, i, i, i, p, p, p]);
    assert_eq!(s, StreakState { last_direction: WHEEL_DOWN, count: 6 });
}

#[test]
fn streak_manager_returns_the_final_run_length() {
    let mut s = StreakState::new();
    let ds = [0, 0, 1, 1, 1, -1, 0, 0];
    let got: Vec<i32> = ds.iter().map(|d| s.streak_manager(*d)).collect();
    assert_eq!(got, vec![1, 2, 1, 2, 3, 1, 1, 2]);
    s.reset_streak();
    assert_eq!(s.streak_manager(5), 1);
}

#[test]
fn update_streak_with_the_default_cap_stops_at_eight() {
    let mut s = StreakState::new();
    let got: Vec<i32> = (0..20).map(|_| s.update_streak(-1, TRUST_TICKS)).collect();
    assert!(got.iter().all(|c| (1..=8).contains(c)));
    assert_eq!(got[19], 8);
    assert_eq!(s.update_streak(1, TRUST_TICKS), 1);
}
