//! The texts and keys of the break overlay: what it says for each kind of
//! break, how it labels its pause button, and which key asks for what.
//! Showing the windows is the host's part.

use vstd::prelude::*;
use crate::text::same_text;

verus! {

/// The key symbol of the escape key.
pub const KEY_ESCAPE: u32 = 0xff1b;

/// The line of encouragement under the countdown, by the title of the break.
pub open spec fn message_for(break_type: Seq<char>) -> Seq<char> {
    if break_type == "Short Break"@ {
        "Take a quick breather"@
    } else if break_type == "Long Break"@ {
        "Time for a longer rest"@
    } else if break_type == "Paused"@ {
        "Break timer paused"@
    } else {
        "Take a moment to relax"@
    }
}

/// The line of encouragement under the countdown, by the title of the break.
pub fn get_motivational_message(break_type: &str) -> (message: &'static str)
    ensures
        message@ == message_for(break_type@),
{
    if same_text(break_type, "Short Break") {
        "Take a quick breather"
    } else if same_text(break_type, "Long Break") {
        "Time for a longer rest"
    } else if same_text(break_type, "Paused") {
        "Break timer paused"
    } else {
        "Take a moment to relax"
    }
}

/// The style class that colours the title, by the title of the break; none
/// for a title that is not one of the three.
pub open spec fn title_class_for(break_type: Seq<char>) -> Option<Seq<char>> {
    if break_type == "Short Break"@ {
        Some("break-title-short"@)
    } else if break_type == "Long Break"@ {
        Some("break-title-long"@)
    } else if break_type == "Paused"@ {
        Some("break-title-paused"@)
    } else {
        None
    }
}

/// The style class that colours the title, by the title of the break.
pub fn title_class(break_type: &str) -> (class: Option<&'static str>)
    ensures
        match class {
            Some(name) => title_class_for(break_type@) == Some(name@),
            None => title_class_for(break_type@) is None,
        },
{
    if same_text(break_type, "Short Break") {
        Some("break-title-short")
    } else if same_text(break_type, "Long Break") {
        Some("break-title-long")
    } else if same_text(break_type, "Paused") {
        Some("break-title-paused")
    } else {
        None
    }
}

/// What the pause button shows for a label: `Pause` and `Resume` get their
/// key added, any other label is shown as it is.
pub open spec fn button_text_for(label: Seq<char>) -> Seq<char> {
    if label == "Pause"@ {
        "Pause (P)"@
    } else if label == "Resume"@ {
        "Resume (R)"@
    } else {
        label
    }
}

/// What the pause button shows for a label.
pub fn pause_button_label<'a>(label: &'a str) -> (text: &'a str)
    ensures
        text@ == button_text_for(label@),
{
    if same_text(label, "Pause") {
        "Pause (P)"
    } else if same_text(label, "Resume") {
        "Resume (R)"
    } else {
        label
    }
}

/// What a key asks of the main overlay, by its key symbol: escape dismisses,
/// `s` skips the break, `e` extends it, `p` and `r` pause or resume; capital
/// letters count as small ones. Any other key asks for nothing.
pub open spec fn action_for_key(keyval: int) -> Option<Seq<char>> {
    if keyval == 0xff1b {
        Some("dismiss"@)
    } else if keyval == 0x73 || keyval == 0x53 {
        Some("skip_break"@)
    } else if keyval == 0x65 || keyval == 0x45 {
        Some("extend_break"@)
    } else if keyval == 0x70 || keyval == 0x50 || keyval == 0x72 || keyval == 0x52 {
        Some("pause"@)
    } else {
        None
    }
}

/// What a key asks of the main overlay, by its key symbol.
pub fn key_action(keyval: u32) -> (action: Option<&'static str>)
    ensures
        match action {
            Some(name) => action_for_key(keyval as int) == Some(name@),
            None => action_for_key(keyval as int) is None,
        },
{
    if keyval == KEY_ESCAPE {
        Some("dismiss")
    } else if keyval == 0x73 || keyval == 0x53 {
        Some("skip_break")
    } else if keyval == 0x65 || keyval == 0x45 {
        Some("extend_break")
    } else if keyval == 0x70 || keyval == 0x50 || keyval == 0x72 || keyval == 0x52 {
        Some("pause")
    } else {
        None
    }
}

/// What a key asks of an overlay on another monitor: escape dismisses, no
/// other key does anything.
pub fn secondary_key_action(keyval: u32) -> (action: Option<&'static str>)
    ensures
        match action {
            Some(name) => keyval == 0xff1b && name@ == "dismiss"@,
            None => keyval != 0xff1b,
        },
{
    if keyval == KEY_ESCAPE {
        Some("dismiss")
    } else {
        None
    }
}

} // verus!
