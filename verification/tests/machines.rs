use kickback_fix::compensator::{CompensatorState, Stage};
use kickback_fix::constants::{WHEEL_DOWN, WHEEL_EVENT, WHEEL_UP};
use kickback_fix::hook::{HookResponse, MouseEvent};
use kickback_fix::machine::{decide_action, reset_machine, Action, MachineState, Phase};

const UP_DATA: u32 = 0x0078_0000;
const DOWN_DATA: u32 = 0xFF88_0000;

fn wheel(mouse_data: u32) -> MouseEvent {
    MouseEvent { code: 0, wparam: WHEEL_EVENT, flags: 0, mouse_data }
}

#[test]
fn reset_machine_starts_silent() {
    assert_eq!(reset_machine(), (Phase::Silence, 0, 0));
}

#[test]
fn decide_action_covers_every_phase() {
    assert_eq!(decide_action(Phase::Vigilance, 1, 0, 0), (Phase::BlockNewAttempt, 0, Action::Block));
    assert_eq!(decide_action(Phase::Compensating, 1, 4, 0), (Phase::BlockNewAttempt, 0, Action::Block));
    assert_eq!(decide_action(Phase::Silence, 1, 0, 0), (Phase::Silence, 0, Action::Block));
    assert_eq!(decide_action(Phase::Normal, 1, 0, 0), (Phase::Silence, 0, Action::Block));
    assert_eq!(decide_action(Phase::Silence, 2, 0, 0), (Phase::Silence, 0, Action::Block));
    assert_eq!(decide_action(Phase::Silence, 3, 0, 0), (Phase::Vigilance, 0, Action::BlockAndCompensate));
    assert_eq!(decide_action(Phase::Vigilance, 6, 0, 0), (Phase::Vigilance, 0, Action::BlockAndCompensate));
    assert_eq!(decide_action(Phase::Vigilance, 7, 0, 0), (Phase::Compensating, 0, Action::BlockAndCompensate));
    assert_eq!(decide_action(Phase::BlockNewAttempt, 1, 0, 0), (Phase::BlockNewAttempt, 1, Action::Block));
    assert_eq!(decide_action(Phase::BlockNewAttempt, 5, 0, 1), (Phase::Vigilance, 0, Action::BlockAndCompensate));
    assert_eq!(decide_action(Phase::Compensating, 9, 5, 0), (Phase::Compensating, 6, Action::BlockAndCompensate));
    assert_eq!(decide_action(Phase::Compensating, 9, 6, 0), (Phase::Normal, 0, Action::Pass));
    assert_eq!(decide_action(Phase::Normal, 40, 0, 0), (Phase::Normal, 0, Action::Pass));
}

#[test]
fn machine_runs_a_scroll_through_every_phase() {
    let mut m = MachineState::new();
    let b = HookResponse::Block;
    let i = HookResponse::BlockAndInject(WHEEL_UP);
    let p = HookResponse::PassThrough;
    let got: Vec<HookResponse> = (0..16).map(|_| m.mouse_wheel_hook_callback(wheel(UP_DATA))).collect();
    // streak 1, 2: silence; 3..6 watch; 7 confirms; 8..12 compensate; then normal.
    assert_eq!(got, vec![b, b, i, i, i, i, i, i, i, i, i, i, p, p, p, p]);
    assert_eq!(m.phase, Phase::Normal);
    // A reversal in normal flow goes back to silence.
    assert_eq!(m.mouse_wheel_hook_callback(wheel(DOWN_DATA)), b);
    assert_eq!(m.phase, Phase::Silence);
}

#[test]
fn machine_cut_waits_before_watching_again() {
    let mut m = MachineState::new();
    for _ in 0..4 {
        m.mouse_wheel_hook_callback(wheel(UP_DATA));
    }
    assert_eq!(m.phase, Phase::Vigilance);
    assert_eq!(m.mouse_wheel_hook_callback(wheel(DOWN_DATA)), HookResponse::Block);
    assert_eq!(m.phase, Phase::BlockNewAttempt);
    assert_eq!(m.mouse_wheel_hook_callback(wheel(DOWN_DATA)), HookResponse::Block);
    assert_eq!(
        m.mouse_wheel_hook_callback(wheel(DOWN_DATA)),
        HookResponse::BlockAndInject(WHEEL_DOWN)
    );
    assert_eq!(m.phase, Phase::Vigilance);
}

#[test]
fn machine_lets_injected_ticks_through() {
    let mut m = MachineState::new();
    m.mouse_wheel_hook_callback(wheel(UP_DATA));
    let injected = MouseEvent { flags: 1, ..wheel(UP_DATA) };
    assert_eq!(m.mouse_wheel_hook_callback(injected), HookResponse::PassThrough);
    assert_eq!(m.streak.count, 1);
    // Only the low 32 bits of wParam name the message.
    let wide = MouseEvent { wparam: (1usize << 32) | WHEEL_EVENT, ..wheel(UP_DATA) };
    if usize::BITS == 64 {
        assert_eq!(m.mouse_wheel_hook_callback(wide), HookResponse::Block);
        assert_eq!(m.streak.count, 2);
    }
}

#[test]
fn compensator_reaches_normal_and_stays() {
    let mut c = CompensatorState::new();
    let b = HookResponse::Block;
    let i = HookResponse::BlockAndInject(WHEEL_UP);
    let p = HookResponse::PassThrough;
    let got: Vec<HookResponse> = (0..12).map(|_| c.mouse_wheel_hook_callback(wheel(UP_DATA))).collect();
    assert_eq!(got, vec![b, b, i, i, i, i, i, i, i, p, p, p]);
    assert_eq!(c.stage, Stage::Normal);
    assert_eq!(c.compensation_count, 7);
    // Normal is final, even after a reversal.
    assert_eq!(c.mouse_wheel_hook_callback(wheel(DOWN_DATA)), p);
    assert_eq!(c.stage, Stage::Normal);
}

#[test]
fn compensator_restarts_on_reversal_while_watching() {
    let mut c = CompensatorState::new();
    for _ in 0..4 {
        c.mouse_wheel_hook_callback(wheel(DOWN_DATA));
    }
    assert_eq!(c.stage, Stage::Vigilance);
    assert_eq!(c.compensation_count, 2);
    assert_eq!(c.mouse_wheel_hook_callback(wheel(UP_DATA)), HookResponse::Block);
    assert_eq!(c.stage, Stage::Silence);
    assert_eq!(c.compensation_count, 0);
}

#[test]
fn machine_reversal_after_any_run_is_blocked_twice() {
    for m in 1..20 {
        let mut machine = MachineState::new();
        for _ in 0..m {
            machine.mouse_wheel_hook_callback(wheel(UP_DATA));
        }
        assert_eq!(machine.mouse_wheel_hook_callback(wheel(DOWN_DATA)), HookResponse::Block);
        assert_eq!(machine.mouse_wheel_hook_callback(wheel(DOWN_DATA)), HookResponse::Block);
    }
}

#[test]
fn compensator_forwards_everything_once_normal() {
    let mut c = CompensatorState::new();
    for _ in 0..9 {
        c.mouse_wheel_hook_callback(wheel(DOWN_DATA));
    }
    assert_eq!(c.stage, Stage::Normal);
    for k in 0..10 {
        let data = if k % 3 == 0 { UP_DATA } else { DOWN_DATA };
        assert_eq!(c.mouse_wheel_hook_callback(wheel(data)), HookResponse::PassThrough);
    }
}
