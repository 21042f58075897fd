//! Watching for signs that the user is at the machine: what the monitor
//! remembers between calls, which input events count as activity, and which
//! device nodes are worth watching. Reading the devices is the host's part.

use vstd::prelude::*;
use crate::text::begins_with;

verus! {

/// What a monitor knows once a callback has been set.
#[derive(Debug, Clone, Copy, PartialEq, Eq, Structural)]
pub struct MonitorState {
    /// Whether there is a callback to call on activity.
    pub has_callback: bool,
    /// Whether the monitor is watching.
    pub is_active: bool,
}

/// The kind of an input event.
#[derive(Debug, Clone, Copy, PartialEq, Eq, Structural)]
pub enum InputEventKind {
    /// A key or button.
    Key,
    /// Relative movement, as of a mouse.
    Relative,
    /// An absolute position, as of a touchpad or touchscreen.
    Absolute,
    /// Anything else.
    Other,
}

/// A monitor of user input. It holds nothing until a callback is set, and
/// can only be started after that.
pub struct InputMonitor {
    state: Option<MonitorState>,
}

impl View for InputMonitor {
    type V = Option<MonitorState>;

    closed spec fn view(&self) -> Option<MonitorState> {
        self.state
    }
}

/// Whether an input event of the given kind and value shows that the user is
/// there: a key going down, a movement of more than 2 units either way, or
/// any absolute position.
pub open spec fn shows_activity(kind: InputEventKind, value: int) -> bool {
    match kind {
        InputEventKind::Key => value == 1,
        InputEventKind::Relative => value > 2 || value < -2,
        InputEventKind::Absolute => true,
        InputEventKind::Other => false,
    }
}

impl InputMonitor {
    /// A monitor that holds nothing yet.
    pub fn new() -> (monitor: InputMonitor)
        ensures
            monitor@ is None,
    {
        InputMonitor { state: None }
    }

    /// Sets or clears the callback. Whether the monitor is watching stays as
    /// it was; a monitor that held nothing yet is not watching.
    pub fn set_callback(&mut self, has_callback: bool)
        ensures
            final(self)@ == Some(
                MonitorState {
                    has_callback,
                    is_active: old(self)@ matches Some(state) && state.is_active,
                },
            ),
    {
        let is_active = match self.state {
            Some(state) => state.is_active,
            None => false,
        };
        self.state = Some(MonitorState { has_callback, is_active });
    }

    /// Asks the monitor to watch. The answer says whether the host is to
    /// begin watching now: it is where the monitor holds a callback setting
    /// and was not watching already. A monitor that holds nothing stays as
    /// it is.
    pub fn start(&mut self) -> (begin: bool)
        ensures
            begin == (old(self)@ matches Some(state) && !state.is_active),
            final(self)@ == match old(self)@ {
                Some(state) => Some(MonitorState { is_active: true, ..state }),
                None => None,
            },
    {
        match self.state {
            Some(state) => {
                if state.is_active {
                    false
                } else {
                    self.state = Some(
                        MonitorState { has_callback: state.has_callback, is_active: true },
                    );
                    true
                }
            },
            None => false,
        }
    }

    /// Tells the monitor to stop watching. A monitor that holds nothing
    /// stays as it is.
    pub fn stop(&mut self)
        ensures
            final(self)@ == match old(self)@ {
                Some(state) => Some(MonitorState { is_active: false, ..state }),
                None => None,
            },
    {
        match self.state {
            Some(state) => {
                self.state = Some(
                    MonitorState { has_callback: state.has_callback, is_active: false },
                );
            },
            None => {},
        }
    }

    /// Whether the monitor is watching.
    pub fn is_active(&self) -> (active: bool)
        ensures
            active == (self@ matches Some(state) && state.is_active),
    {
        match self.state {
            Some(state) => state.is_active,
            None => false,
        }
    }

    /// Whether a callback was ever set or cleared, so that the monitor
    /// holds something.
    pub fn is_set_up(&self) -> (set_up: bool)
        ensures
            set_up == (self@ is Some),
    {
        self.state.is_some()
    }

    /// Whether there is a callback to call when activity is seen.
    pub fn has_callback(&self) -> (present: bool)
        ensures
            present == (self@ matches Some(state) && state.has_callback),
    {
        match self.state {
            Some(state) => state.has_callback,
            None => false,
        }
    }
}

/// Whether an input event shows that the user is there.
///
/// The value of a relative movement must not be `i32::MIN`, whose size has
/// no `i32`.
pub fn is_user_activity_event(kind: InputEventKind, value: i32) -> (active: bool)
    requires
        kind == InputEventKind::Relative ==> value > i32::MIN,
    ensures
        active == shows_activity(kind, value as int),
{
    match kind {
        InputEventKind::Key => value == 1,
        InputEventKind::Relative => {
            let size: i32 = if value < 0 {
                -value
            } else {
                value
            };
            size > 2
        },
        InputEventKind::Absolute => true,
        InputEventKind::Other => false,
    }
}

/// Whether a file name under the input device directory names an event
/// device: it begins with `event`.
pub fn is_event_node(filename: &str) -> (event_node: bool)
    ensures
        event_node == "event"@.is_prefix_of(filename@),
{
    begins_with(filename, "event")
}

/// Whether a device is worth watching: it reports keys, relative movement
/// or absolute positions.
pub fn is_input_device(
    reports_keys: bool,
    reports_relative: bool,
    reports_absolute: bool,
) -> (watch: bool)
    ensures
        watch == (reports_keys || reports_relative || reports_absolute),
{
    reports_keys || reports_relative || reports_absolute
}

} // verus!
