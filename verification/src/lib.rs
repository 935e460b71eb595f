//! Software mitigation for mouse-wheel "kickback": phantom ticks that an
//! encoder emits in the opposite direction of a real scroll.
//!
//! The library holds every decision of the filter as verified code: how the
//! streak of same-direction ticks is counted, what a tick of a given streak
//! does (block, block and compensate with a synthetic tick, or pass), the
//! phase machines built on top of the streak, the configuration values and
//! the small decisions around the message loop. The operating-system hook,
//! the injector thread and file access live outside the library and hand it
//! plain values.

pub mod constants;
pub mod streak;
pub mod hook;
pub mod catcher;
pub mod machine;
pub mod compensator;
pub mod synthetic;
pub mod config;
pub mod console;
