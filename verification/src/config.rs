//! The configuration: `Filtro`, `SilencioInicial` and `TechoKickback`, as
//! read from `config.toml`, and the shared values that the filter reads.

use vstd::prelude::*;
use crate::constants::{SILENCE_TICKS, TRUST_TICKS};

verus! {

/// Text written to `config.toml` when the file does not exist. The filter
/// starts switched off: it only runs once the user sets `Filtro = true`.
pub const DEFAULT_TOML: &'static str = "# Kickback_Fix — configuración
# Edita este archivo y guarda; los cambios se aplican solos, sin reiniciar el programa.

Filtro = false                 # true = filtro activado, false = lo apaga (el programa se cierra solo al detectar el cambio)
SilencioInicial = 3            # ticks bloqueados en silencio antes de empezar a compensar (0 = sin silencio)
TechoKickback = 7              # racha total a la que la dirección se da por confirmada (0 = sin compensación por inyección)
";

/// The three values of `config.toml`.
#[derive(Clone, Copy, Debug, PartialEq, Eq, Structural)]
pub struct ConfigFile {
    /// `Filtro`: whether the filter runs.
    pub filtro: bool,
    /// `SilencioInicial`: ticks blocked silently before compensating.
    pub silencio_inicial: i32,
    /// `TechoKickback`: streak at which a direction counts as confirmed.
    pub techo_kickback: i32,
}

impl Default for ConfigFile {
    /// The values used when the file cannot be read as a configuration.
    fn default() -> (cfg: ConfigFile)
        ensures
            cfg == (ConfigFile { filtro: false, silencio_inicial: 0, techo_kickback: 0 }),
    {
        ConfigFile { filtro: false, silencio_inicial: 0, techo_kickback: 0 }
    }
}

/// A threshold as the filter uses it: negative values count as `0`, there
/// is no upper limit.
pub open spec fn clamped(value: i32) -> i32 {
    if value < 0 {
        0
    } else {
        value
    }
}

/// The configuration that a parse result gives: the defaults when the text
/// was not a valid configuration, both thresholds raised to at least `0`.
pub open spec fn settled(parsed: Option<ConfigFile>) -> ConfigFile {
    match parsed {
        Some(cfg) => ConfigFile {
            filtro: cfg.filtro,
            silencio_inicial: clamped(cfg.silencio_inicial),
            techo_kickback: clamped(cfg.techo_kickback),
        },
        None => ConfigFile { filtro: false, silencio_inicial: 0, techo_kickback: 0 },
    }
}

fn at_least_zero(value: i32) -> (v: i32)
    ensures
        v == clamped(value),
{
    if value < 0 {
        0
    } else {
        value
    }
}

/// Turns the result of parsing `config.toml` (`None` when the text is not a
/// valid configuration) into the values the filter uses (see [`settled`]).
pub fn load_values(parsed: Option<ConfigFile>) -> (cfg: ConfigFile)
    ensures
        cfg == settled(parsed),
        cfg.silencio_inicial >= 0,
        cfg.techo_kickback >= 0,
        parsed matches Some(p) ==> cfg.filtro == p.filtro,
        parsed matches Some(p) ==> cfg.silencio_inicial == (if p.silencio_inicial < 0 {
            0
        } else {
            p.silencio_inicial
        }),
        parsed matches Some(p) ==> cfg.techo_kickback == (if p.techo_kickback < 0 {
            0
        } else {
            p.techo_kickback
        }),
        parsed is None ==> !cfg.filtro && cfg.silencio_inicial == 0 && cfg.techo_kickback == 0,
{
    let mut cfg = match parsed {
        Some(cfg) => cfg,
        None => ConfigFile::default(),
    };
    cfg.silencio_inicial = at_least_zero(cfg.silencio_inicial);
    cfg.techo_kickback = at_least_zero(cfg.techo_kickback);
    cfg
}

/// The configuration values the running filter reads.
#[derive(Clone, Copy, Debug)]
pub struct ConfigStore {
    filtro: bool,
    silencio_inicial: i32,
    techo_kickback: i32,
}

impl ConfigStore {
    /// The stored thresholds are never below `0`.
    #[verifier::type_invariant]
    spec fn thresholds_not_negative(self) -> bool {
        self.silencio_inicial >= 0 && self.techo_kickback >= 0
    }

    /// Spec view: the stored values.
    pub closed spec fn values(self) -> ConfigFile {
        ConfigFile {
            filtro: self.filtro,
            silencio_inicial: self.silencio_inicial,
            techo_kickback: self.techo_kickback,
        }
    }

    /// The values before any file was read: filter on, the default thresholds.
    pub fn new() -> (store: ConfigStore)
        ensures
            store.values() == (ConfigFile {
                filtro: true,
                silencio_inicial: SILENCE_TICKS,
                techo_kickback: TRUST_TICKS,
            }),
    {
        ConfigStore { filtro: true, silencio_inicial: SILENCE_TICKS, techo_kickback: TRUST_TICKS }
    }

    /// Stores freshly read values; the thresholds must already be settled
    /// (see [`load_values`]).
    pub fn state_set(&mut self, cfg: &ConfigFile)
        requires
            cfg.silencio_inicial >= 0,
            cfg.techo_kickback >= 0,
        ensures
            final(self).values() == *cfg,
    {
        *self = ConfigStore {
            filtro: cfg.filtro,
            silencio_inicial: cfg.silencio_inicial,
            techo_kickback: cfg.techo_kickback,
        };
    }

    /// Stores the values of a parse of `config.toml` (see [`load_values`]).
    pub fn init(&mut self, parsed: Option<ConfigFile>)
        ensures
            final(self).values() == settled(parsed),
    {
        let cfg = load_values(parsed);
        self.state_set(&cfg);
    }

    /// Takes the values of a fresh read of `config.toml` while the filter
    /// runs; returns whether the filter keeps running, which it does only
    /// while `Filtro` is on.
    pub fn reload(&mut self, parsed: Option<ConfigFile>) -> (keep_running: bool)
        ensures
            final(self).values() == settled(parsed),
            keep_running == settled(parsed).filtro,
            parsed matches Some(p) ==> keep_running == p.filtro,
            parsed is None ==> !keep_running,
    {
        self.init(parsed);
        self.filtro
    }

    /// `Filtro`.
    pub fn filtro(&self) -> (on: bool)
        ensures
            on == self.values().filtro,
    {
        self.filtro
    }

    /// `SilencioInicial`.
    pub fn silencio_inicial(&self) -> (ticks: i32)
        ensures
            ticks == self.values().silencio_inicial,
            ticks >= 0,
    {
        proof {
            use_type_invariant(self);
        }
        self.silencio_inicial
    }

    /// `TechoKickback`.
    pub fn techo_kickback(&self) -> (ticks: i32)
        ensures
            ticks == self.values().techo_kickback,
            ticks >= 0,
    {
        proof {
            use_type_invariant(self);
        }
        self.techo_kickback
    }
}

/// Remembers the modification time of `config.toml` seen last, so that the
/// file is read again only when it changed.
#[derive(Clone, Copy, Debug)]
pub struct ReloadWatch {
    /// Modification time in nanoseconds from the Unix epoch, `None` when the
    /// file or its time could not be read.
    pub last_modified: Option<i128>,
}

impl ReloadWatch {
    /// Starts from the time seen when the watch begins.
    pub fn new(modified: Option<i128>) -> (w: ReloadWatch)
        ensures
            w.last_modified == modified,
    {
        ReloadWatch { last_modified: modified }
    }

    /// Takes the time seen now; returns whether it differs from the one seen
    /// before (then the file must be read again) and remembers it.
    pub fn observe(&mut self, modified: Option<i128>) -> (changed: bool)
        ensures
            changed == (modified != old(self).last_modified),
            final(self).last_modified == modified,
    {
        let changed = match (modified, self.last_modified) {
            (Some(now), Some(before)) => now != before,
            (None, None) => false,
            _ => true,
        };
        self.last_modified = modified;
        changed
    }
}

/// Loading keeps `Filtro` exactly as it was read, whatever the thresholds
/// (`TechoKickback = 0` only stops compensation, it does not switch the
/// filter off); a threshold that is at least `0` is kept as read, a negative
/// one becomes `0`; an unreadable file gives the filter off and both
/// thresholds `0`.
pub proof fn lemma_loading_keeps_what_was_read(cfg: ConfigFile)
    ensures
        settled(Some(cfg)).filtro == cfg.filtro,
        cfg.silencio_inicial >= 0 ==> settled(Some(cfg)).silencio_inicial == cfg.silencio_inicial,
        cfg.silencio_inicial < 0 ==> settled(Some(cfg)).silencio_inicial == 0,
        cfg.techo_kickback >= 0 ==> settled(Some(cfg)).techo_kickback == cfg.techo_kickback,
        cfg.techo_kickback < 0 ==> settled(Some(cfg)).techo_kickback == 0,
        settled(None) == (ConfigFile { filtro: false, silencio_inicial: 0, techo_kickback: 0 }),
{
}

} // verus!
