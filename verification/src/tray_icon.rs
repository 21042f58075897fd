//! What the tray icon shows: its label, and how much of the phase has gone
//! by. Drawing it is the host's part.

use vstd::prelude::*;
use crate::model::{clock_minutes, clock_seconds, in_i32};
use crate::state::{TimerState, is_running};

verus! {

/// What is written in the middle of the icon.
#[derive(Debug, Clone, Copy, PartialEq, Eq, Structural)]
pub enum IconLabel {
    /// A dot: the timer is at rest.
    Dot,
    /// Two bars: the timer is paused.
    Bars,
    /// The minutes left, rounded.
    Minutes(i32),
}

/// The state of a tray icon.
pub struct TrayIconView {
    /// The length of the icon's side, in pixels.
    pub size: int,
    pub state: TimerState,
    pub remaining_seconds: int,
    pub total_seconds: int,
    pub tooltip: Seq<char>,
}

/// A tray icon.
pub struct TrayIcon {
    size: i32,
    state: TimerState,
    remaining_seconds: i32,
    total_seconds: i32,
    tooltip_text: String,
}

impl View for TrayIcon {
    type V = TrayIconView;

    closed spec fn view(&self) -> TrayIconView {
        TrayIconView {
            size: self.size as int,
            state: self.state,
            remaining_seconds: self.remaining_seconds as int,
            total_seconds: self.total_seconds as int,
            tooltip: self.tooltip_text@,
        }
    }
}

/// Seconds as minutes, rounded to the nearest minute, half a minute upward.
pub open spec fn rounded_minutes(seconds: int) -> int {
    if clock_seconds(seconds) >= 30 {
        clock_minutes(seconds) + 1
    } else {
        clock_minutes(seconds)
    }
}

impl TrayIconView {
    /// What is written in the middle of the icon.
    pub open spec fn label(self) -> IconLabel {
        match self.state {
            TimerState::Idle => IconLabel::Dot,
            TimerState::Paused => IconLabel::Bars,
            _ => IconLabel::Minutes(rounded_minutes(self.remaining_seconds) as i32),
        }
    }

    /// The share of the phase that has gone by, as the seconds gone by and
    /// the seconds of the whole phase; nothing of one where the phase has
    /// no length.
    pub open spec fn progress(self) -> (int, int) {
        if self.total_seconds <= 0 {
            (0, 1)
        } else {
            (self.total_seconds - self.remaining_seconds, self.total_seconds)
        }
    }

    /// Whether an arc for the time gone by is drawn round the icon: in a
    /// running phase of some length of which some time has gone by.
    pub open spec fn shows_progress(self) -> bool {
        is_running(self.state) && self.total_seconds > 0 && self.progress().0 > 0
    }
}

impl TrayIcon {
    /// An icon of 64 pixels for a timer at rest.
    pub fn new() -> (icon: TrayIcon)
        ensures
            icon@ == (TrayIconView {
                size: 64,
                state: TimerState::Idle,
                remaining_seconds: 0,
                total_seconds: 0,
                tooltip: "Commodoro Timer"@,
            }),
    {
        TrayIcon {
            size: 64,
            state: TimerState::Idle,
            remaining_seconds: 0,
            total_seconds: 0,
            tooltip_text: "Commodoro Timer".to_owned(),
        }
    }

    /// The length of the icon's side, in pixels.
    pub fn size(&self) -> (size: i32)
        ensures
            size == self@.size,
    {
        self.size
    }

    /// The phase that the icon shows.
    pub fn state(&self) -> (state: TimerState)
        ensures
            state == self@.state,
    {
        self.state
    }

    /// The text shown when the pointer rests on the icon.
    pub fn tooltip(&self) -> (text: &str)
        ensures
            text@ == self@.tooltip,
    {
        self.tooltip_text.as_str()
    }

    /// The minutes left, rounded to the nearest minute, half a minute upward.
    pub fn get_rounded_minutes(&self) -> (minutes: i32)
        ensures
            minutes == rounded_minutes(self@.remaining_seconds),
    {
        let minutes: i32 = self.remaining_seconds / 60;
        let seconds: i32 = self.remaining_seconds % 60;
        if seconds >= 30 {
            minutes + 1
        } else {
            minutes
        }
    }

    /// What is written in the middle of the icon.
    pub fn label(&self) -> (label: IconLabel)
        ensures
            label == self@.label(),
    {
        match self.state {
            TimerState::Idle => IconLabel::Dot,
            TimerState::Paused => IconLabel::Bars,
            _ => IconLabel::Minutes(self.get_rounded_minutes()),
        }
    }

    /// Whether the seconds gone by fit an `i32`, as [`TrayIcon::get_progress`]
    /// needs them to.
    pub fn elapsed_fits(&self) -> (fits: bool)
        ensures
            fits == in_i32(self@.total_seconds - self@.remaining_seconds),
    {
        self.total_seconds.checked_sub(self.remaining_seconds).is_some()
    }

    /// The share of the phase that has gone by, as the seconds gone by and
    /// the seconds of the whole phase.
    ///
    /// Where the phase has a length, the seconds gone by must fit an `i32`.
    pub fn get_progress(&self) -> (share: (i32, i32))
        requires
            self@.total_seconds > 0 ==> in_i32(self@.total_seconds - self@.remaining_seconds),
        ensures
            share.0 == self@.progress().0,
            share.1 == self@.progress().1,
            share.1 > 0,
    {
        if self.total_seconds <= 0 {
            return (0, 1);
        }
        (self.total_seconds - self.remaining_seconds, self.total_seconds)
    }

    /// Whether an arc for the time gone by is drawn round the icon.
    pub fn shows_progress(&self) -> (shown: bool)
        ensures
            shown == self@.shows_progress(),
    {
        self.state != TimerState::Idle && self.state != TimerState::Paused
            && self.total_seconds > 0 && self.remaining_seconds < self.total_seconds
    }
}

/// A new icon; see [`TrayIcon::new`].
pub fn tray_icon_new() -> (icon: TrayIcon)
    ensures
        icon@ == (TrayIconView {
            size: 64,
            state: TimerState::Idle,
            remaining_seconds: 0,
            total_seconds: 0,
            tooltip: "Commodoro Timer"@,
        }),
{
    TrayIcon::new()
}

/// Gives the icon the phase and the countdown to show.
pub fn tray_icon_update(
    icon: &mut TrayIcon,
    state: TimerState,
    remaining_seconds: i32,
    total_seconds: i32,
)
    ensures
        final(icon)@ == (TrayIconView {
            state,
            remaining_seconds: remaining_seconds as int,
            total_seconds: total_seconds as int,
            ..old(icon)@
        }),
{
    icon.state = state;
    icon.remaining_seconds = remaining_seconds;
    icon.total_seconds = total_seconds;
}

/// Sets the text shown when the pointer rests on the icon.
pub fn tray_icon_set_tooltip(icon: &mut TrayIcon, tooltip: &str)
    ensures
        final(icon)@ == (TrayIconView { tooltip: tooltip@, ..old(icon)@ }),
{
    icon.tooltip_text = tooltip.to_owned();
}

/// Whether the icon sits in a system tray. It never does: the icon is only
/// drawn, and shown by other means.
pub fn tray_icon_is_embedded(icon: &TrayIcon) -> (embedded: bool)
    ensures
        !embedded,
{
    false
}

} // verus!
