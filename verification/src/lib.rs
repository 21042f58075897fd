//! Commodoro: a work/break interval timer for the desktop.
//!
//! At the centre is the [`timer`]: it counts a phase down second by second,
//! moves from work to a break and from a break to rest, and makes every so
//! many breaks a long one. It owns no clock and calls nobody: the host asks
//! for a tick once a second, and every operation hands back the
//! notifications that the host is to pass on. [`model`] says what each
//! operation does, over plain integers; [`laws`] holds what follows for whole
//! runs of the timer.
//!
//! Around the timer stand the rules of the application's other parts, each
//! free of input and output: the texts and keys of the break [`overlay`],
//! what the [`tray_icon`] shows, the words of the desktop-bus interface
//! ([`dbus`]), what the [`input_monitor`] takes for a sign of the user, and
//! where the settings are kept ([`config`]).

pub mod config;
pub mod dbus;
pub mod input_monitor;
pub mod laws;
pub mod model;
pub mod overlay;
pub mod state;
pub mod text;
pub mod timer;
pub mod tray_icon;

pub use state::{TimerEvent, TimerState};
pub use timer::Timer;
