use kickback_fix::config::{load_values, ConfigFile, ConfigStore, ReloadWatch, DEFAULT_TOML};
use kickback_fix::console::{console_ctrl_response, keep_pumping};
use kickback_fix::constants::{HANDLED, MOUSE_INPUT, NOT_HANDLED, WHEEL_MOVE};
use kickback_fix::synthetic::{
    injection_succeeded, shutdown_injector, synthetic_input, wheel_mouse_data, InjectionLimiter,
    WheelInput,
};

#[test]
fn wheel_mouse_data_is_the_twos_complement_movement() {
    assert_eq!(wheel_mouse_data(1), 120);
    assert_eq!(wheel_mouse_data(-1), 4294967176);
    assert_eq!(wheel_mouse_data(0), 0);
    assert_eq!(wheel_mouse_data(3), 360);
}

#[test]
fn synthetic_input_only_for_up_or_down() {
    assert_eq!(
        synthetic_input(1),
        Some(WheelInput { kind: MOUSE_INPUT, mouse_data: 120, flags: WHEEL_MOVE })
    );
    assert_eq!(
        synthetic_input(-1),
        Some(WheelInput { kind: MOUSE_INPUT, mouse_data: 0xFFFF_FF88, flags: WHEEL_MOVE })
    );
    assert_eq!(synthetic_input(0), None);
    assert_eq!(synthetic_input(2), None);
    assert!(injection_succeeded(1));
    assert!(!injection_succeeded(0));
    shutdown_injector();
}

#[test]
fn limiter_admits_three_until_reset() {
    let mut l = InjectionLimiter::new();
    let got: Vec<bool> = (0..5).map(|_| l.enqueue()).collect();
    assert_eq!(got, vec![true, true, true, false, false]);
    l.reset();
    assert!(l.enqueue());
}

#[test]
fn load_values_falls_back_and_clamps() {
    assert_eq!(
        load_values(None),
        ConfigFile { filtro: false, silencio_inicial: 0, techo_kickback: 0 }
    );
    assert_eq!(
        load_values(Some(ConfigFile { filtro: true, silencio_inicial: -4, techo_kickback: 1000 })),
        ConfigFile { filtro: true, silencio_inicial: 0, techo_kickback: 1000 }
    );
    assert_eq!(ConfigFile::default(), ConfigFile { filtro: false, silencio_inicial: 0, techo_kickback: 0 });
}

#[test]
fn store_starts_on_and_reload_can_switch_it_off() {
    let mut store = ConfigStore::new();
    assert!(store.filtro());
    assert_eq!((store.silencio_inicial(), store.techo_kickback()), (3, 7));
    store.init(Some(ConfigFile { filtro: true, silencio_inicial: 5, techo_kickback: -1 }));
    assert_eq!((store.silencio_inicial(), store.techo_kickback()), (5, 0));
    assert!(!store.reload(Some(ConfigFile { filtro: false, silencio_inicial: 2, techo_kickback: 9 })));
    assert!(!store.filtro());
    assert_eq!(store.techo_kickback(), 9);
    store.state_set(&ConfigFile { filtro: true, silencio_inicial: 1, techo_kickback: 2 });
    assert_eq!((store.filtro(), store.silencio_inicial(), store.techo_kickback()), (true, 1, 2));
}

#[test]
fn default_file_keeps_the_filter_off() {
    let table: toml::Table = DEFAULT_TOML.parse().unwrap();
    assert_eq!(table.get("Filtro").and_then(|v| v.as_bool()), Some(false));
    assert_eq!(table.get("SilencioInicial").and_then(|v| v.as_integer()), Some(3));
    assert_eq!(table.get("TechoKickback").and_then(|v| v.as_integer()), Some(7));
}

#[test]
fn reload_watch_reports_changes_only() {
    let mut w = ReloadWatch::new(Some(10));
    assert!(!w.observe(Some(10)));
    assert!(w.observe(Some(11)));
    assert!(!w.observe(Some(11)));
    assert!(w.observe(None));
    assert!(!w.observe(None));
    assert!(w.observe(Some(-5)));
}

#[test]
fn console_handles_quit_events_only() {
    assert_eq!(console_ctrl_response(0), HANDLED);
    assert_eq!(console_ctrl_response(1), HANDLED);
    assert_eq!(console_ctrl_response(2), HANDLED);
    assert_eq!(console_ctrl_response(5), NOT_HANDLED);
    assert!(keep_pumping(1));
    assert!(!keep_pumping(0));
    assert!(!keep_pumping(-1));
}
