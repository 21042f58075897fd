//! The rules of the desktop-bus interface: which method a command line word
//! stands for, what the outcome of sending a command amounts to, and what
//! the service does for each method it is called with. Talking to the bus is
//! the host's part.

use vstd::prelude::*;
use crate::text::{contains_text, occurs_in, same_text};

verus! {

/// The name under which the running application owns the bus.
pub const DBUS_SERVICE_NAME: &'static str = "org.dl.commodoro";

/// The path of the object that takes the commands.
pub const DBUS_OBJECT_PATH: &'static str = "/org/dl/commodoro";

/// The interface that the commands belong to.
pub const DBUS_INTERFACE_NAME: &'static str = "org.dl.commodoro.Timer";

/// How sending a command ended.
#[derive(Debug, Clone, Copy, PartialEq, Eq, Structural)]
pub enum DBusCommandResult {
    /// The running application took the command.
    Success,
    /// The command could not be sent, or was refused.
    Error,
    /// No application is running, and none is to be started.
    NotRunning,
    /// No application is running; the caller is to start one.
    StartNeeded,
}

/// The number by which hosts outside Rust know a result.
pub open spec fn result_code(result: DBusCommandResult) -> int {
    match result {
        DBusCommandResult::Success => 0,
        DBusCommandResult::Error => 1,
        DBusCommandResult::NotRunning => 2,
        DBusCommandResult::StartNeeded => 3,
    }
}

impl DBusCommandResult {
    /// The result's number.
    pub fn code(self) -> (c: u32)
        ensures
            c == result_code(self),
    {
        match self {
            DBusCommandResult::Success => 0,
            DBusCommandResult::Error => 1,
            DBusCommandResult::NotRunning => 2,
            DBusCommandResult::StartNeeded => 3,
        }
    }
}

/// The bus method that a command word stands for, if it is a command.
pub open spec fn method_for_command(command: Seq<char>) -> Option<Seq<char>> {
    if command == "toggle_timer"@ {
        Some("ToggleTimer"@)
    } else if command == "reset_timer"@ {
        Some("ResetTimer"@)
    } else if command == "toggle_break"@ {
        Some("ToggleBreak"@)
    } else if command == "show_hide"@ {
        Some("ShowHide"@)
    } else {
        None
    }
}

/// The bus method that a command word stands for; `None` for a word that is
/// no command.
pub fn dbus_parse_command(command: &str) -> (method: Option<&'static str>)
    ensures
        match method {
            Some(name) => method_for_command(command@) == Some(name@),
            None => method_for_command(command@) is None,
        },
{
    if same_text(command, "toggle_timer") {
        Some("ToggleTimer")
    } else if same_text(command, "reset_timer") {
        Some("ResetTimer")
    } else if same_text(command, "toggle_break") {
        Some("ToggleBreak")
    } else if same_text(command, "show_hide") {
        Some("ShowHide")
    } else {
        None
    }
}

/// What the outcome of a method call amounts to. `failure` is `None` where
/// the call went through, and the text of the error where it did not. An
/// error that names an unknown service means that no application is
/// running; whether one is to be started is the caller's choice.
pub open spec fn send_result(failure: Option<Seq<char>>, auto_start: bool) -> DBusCommandResult {
    match failure {
        None => DBusCommandResult::Success,
        Some(text) => {
            if occurs_in(text, "org.freedesktop.DBus.Error.ServiceUnknown"@) {
                if auto_start {
                    DBusCommandResult::StartNeeded
                } else {
                    DBusCommandResult::NotRunning
                }
            } else {
                DBusCommandResult::Error
            }
        },
    }
}

/// The text of a call's failure as a sequence of characters, if it failed.
pub open spec fn failure_text(failure: Option<&str>) -> Option<Seq<char>> {
    match failure {
        Some(text) => Some(text@),
        None => None,
    }
}

/// What the outcome of a method call amounts to; see [`send_result`].
/// `auto_start` is taken as set where it is not zero.
pub fn dbus_command_result(failure: Option<&str>, auto_start: i32) -> (result: DBusCommandResult)
    ensures
        result == send_result(failure_text(failure), auto_start != 0),
{
    match failure {
        None => DBusCommandResult::Success,
        Some(text) => {
            if contains_text(text, "org.freedesktop.DBus.Error.ServiceUnknown") {
                if auto_start != 0 {
                    DBusCommandResult::StartNeeded
                } else {
                    DBusCommandResult::NotRunning
                }
            } else {
                DBusCommandResult::Error
            }
        },
    }
}

/// What the service is asked to do by a method call.
#[derive(Debug, Clone, Copy, PartialEq, Eq, Structural)]
pub enum ServiceAction {
    /// Start the timer, or pause it: what the start button does.
    ToggleTimer,
    /// Reset the timer: what the reset button does.
    ResetTimer,
    /// End the current phase at once.
    ToggleBreak,
    /// Hide the window if it shows, show it if it does not.
    ShowHide,
    /// Answer with the name of the timer's phase.
    GetState,
    /// Answer that there is no such method.
    UnknownMethod,
}

/// What a method of the given name asks for.
pub open spec fn action_for_method(method_name: Seq<char>) -> ServiceAction {
    if method_name == "ToggleTimer"@ {
        ServiceAction::ToggleTimer
    } else if method_name == "ResetTimer"@ {
        ServiceAction::ResetTimer
    } else if method_name == "ToggleBreak"@ {
        ServiceAction::ToggleBreak
    } else if method_name == "ShowHide"@ {
        ServiceAction::ShowHide
    } else if method_name == "GetState"@ {
        ServiceAction::GetState
    } else {
        ServiceAction::UnknownMethod
    }
}

/// What a method of the given name asks for.
pub fn service_action(method_name: &str) -> (action: ServiceAction)
    ensures
        action == action_for_method(method_name@),
{
    if same_text(method_name, "ToggleTimer") {
        ServiceAction::ToggleTimer
    } else if same_text(method_name, "ResetTimer") {
        ServiceAction::ResetTimer
    } else if same_text(method_name, "ToggleBreak") {
        ServiceAction::ToggleBreak
    } else if same_text(method_name, "ShowHide") {
        ServiceAction::ShowHide
    } else if same_text(method_name, "GetState") {
        ServiceAction::GetState
    } else {
        ServiceAction::UnknownMethod
    }
}

/// The name under which the service reports the phase with the given number.
pub open spec fn state_label(code: int) -> Seq<char> {
    if code == 0 {
        "IDLE"@
    } else if code == 1 {
        "WORK"@
    } else if code == 2 {
        "SHORT_BREAK"@
    } else if code == 3 {
        "LONG_BREAK"@
    } else if code == 4 {
        "PAUSED"@
    } else {
        "UNKNOWN"@
    }
}

/// The name under which the service reports the phase with the given number.
pub fn state_name(code: u32) -> (name: &'static str)
    ensures
        name@ == state_label(code as int),
{
    if code == 0 {
        "IDLE"
    } else if code == 1 {
        "WORK"
    } else if code == 2 {
        "SHORT_BREAK"
    } else if code == 3 {
        "LONG_BREAK"
    } else if code == 4 {
        "PAUSED"
    } else {
        "UNKNOWN"
    }
}

} // verus!
