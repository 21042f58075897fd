use commodoro::config::{
    config_get_config_dir, config_new, default_idle_timeout, fix_decimal_commas,
};
use commodoro::dbus::{
    dbus_command_result, dbus_parse_command, service_action, state_name, DBusCommandResult,
    ServiceAction, DBUS_INTERFACE_NAME, DBUS_OBJECT_PATH, DBUS_SERVICE_NAME,
};
use commodoro::input_monitor::{
    is_event_node, is_input_device, is_user_activity_event, InputEventKind, InputMonitor,
};
use commodoro::overlay::{
    get_motivational_message, key_action, pause_button_label, secondary_key_action, title_class,
};
use commodoro::state::TimerState;
use commodoro::text::{begins_with, contains_text, replace_text, same_text};
use commodoro::tray_icon::{
    tray_icon_is_embedded, tray_icon_new, tray_icon_set_tooltip, tray_icon_update, IconLabel,
};

#[test]
fn text_comparisons() {
    assert!(same_text("", ""));
    assert!(same_text("pause", "pause"));
    assert!(!same_text("pause", "Pause"));
    assert!(!same_text("pause", "pauses"));
    assert!(same_text("zwölf", "zwölf"));
    assert!(!same_text("zwölf", "zwolf"));
    assert!(begins_with("event12", "event"));
    assert!(begins_with("event", "event"));
    assert!(begins_with("anything", ""));
    assert!(!begins_with("even", "event"));
    assert!(!begins_with("mouse0", "event"));
    assert!(contains_text("abcabd", "abd"));
    assert!(contains_text("abc", ""));
    assert!(contains_text("abc", "abc"));
    assert!(contains_text("abc", "c"));
    assert!(!contains_text("abc", "abcd"));
    assert!(!contains_text("abc", "ac"));
}

#[test]
fn text_replacement() {
    assert_eq!(replace_text("aaa", "aa", "b"), "ba");
    assert_eq!(replace_text("abcabc", "bc", "x"), "axax");
    assert_eq!(replace_text("abc", "d", "x"), "abc");
    assert_eq!(replace_text("", "d", "x"), "");
    assert_eq!(replace_text("ab", "abc", "x"), "ab");
    assert_eq!(replace_text("grün grün", "ü", "ue"), "gruen gruen");
    assert_eq!(replace_text("aaaa", "a", ""), "");
}

#[test]
fn command_words_map_to_methods() {
    assert_eq!(dbus_parse_command("toggle_timer"), Some("ToggleTimer"));
    assert_eq!(dbus_parse_command("reset_timer"), Some("ResetTimer"));
    assert_eq!(dbus_parse_command("toggle_break"), Some("ToggleBreak"));
    assert_eq!(dbus_parse_command("show_hide"), Some("ShowHide"));
    assert_eq!(dbus_parse_command(""), None);
    assert_eq!(dbus_parse_command("Toggle_Timer"), None);
    assert_eq!(dbus_parse_command("toggle_timer "), None);
    assert_eq!(dbus_parse_command("get_state"), None);
}

#[test]
fn send_outcomes() {
    let unknown = "org.freedesktop.DBus.Error.ServiceUnknown: The name org.dl.commodoro was not provided by any .service files";
    assert_eq!(dbus_command_result(None, 0), DBusCommandResult::Success);
    assert_eq!(dbus_command_result(None, 1), DBusCommandResult::Success);
    assert_eq!(dbus_command_result(Some(unknown), 1), DBusCommandResult::StartNeeded);
    assert_eq!(dbus_command_result(Some(unknown), -3), DBusCommandResult::StartNeeded);
    assert_eq!(dbus_command_result(Some(unknown), 0), DBusCommandResult::NotRunning);
    assert_eq!(
        dbus_command_result(Some("org.freedesktop.DBus.Error.UnknownMethod: no"), 1),
        DBusCommandResult::Error
    );
    assert_eq!(dbus_command_result(Some(""), 0), DBusCommandResult::Error);
    assert_eq!(
        dbus_command_result(Some("org.freedesktop.DBus.Error.ServiceUnknow"), 0),
        DBusCommandResult::Error
    );
}

#[test]
fn result_codes() {
    assert_eq!(DBusCommandResult::Success.code(), 0);
    assert_eq!(DBusCommandResult::Error.code(), 1);
    assert_eq!(DBusCommandResult::NotRunning.code(), 2);
    assert_eq!(DBusCommandResult::StartNeeded.code(), 3);
}

#[test]
fn bus_names() {
    assert_eq!(DBUS_SERVICE_NAME, "org.dl.commodoro");
    assert_eq!(DBUS_OBJECT_PATH, "/org/dl/commodoro");
    assert_eq!(DBUS_INTERFACE_NAME, "org.dl.commodoro.Timer");
}

#[test]
fn service_methods() {
    assert_eq!(service_action("ToggleTimer"), ServiceAction::ToggleTimer);
    assert_eq!(service_action("ResetTimer"), ServiceAction::ResetTimer);
    assert_eq!(service_action("ToggleBreak"), ServiceAction::ToggleBreak);
    assert_eq!(service_action("ShowHide"), ServiceAction::ShowHide);
    assert_eq!(service_action("GetState"), ServiceAction::GetState);
    assert_eq!(service_action("getstate"), ServiceAction::UnknownMethod);
    assert_eq!(service_action(""), ServiceAction::UnknownMethod);
}

#[test]
fn phase_names_on_the_bus() {
    assert_eq!(state_name(TimerState::Idle.code()), "IDLE");
    assert_eq!(state_name(TimerState::Work.code()), "WORK");
    assert_eq!(state_name(TimerState::ShortBreak.code()), "SHORT_BREAK");
    assert_eq!(state_name(TimerState::LongBreak.code()), "LONG_BREAK");
    assert_eq!(state_name(TimerState::Paused.code()), "PAUSED");
    assert_eq!(state_name(5), "UNKNOWN");
    assert_eq!(state_name(u32::MAX), "UNKNOWN");
}

#[test]
fn monitor_needs_a_callback_setting_to_start() {
    let mut monitor = InputMonitor::new();
    assert!(!monitor.is_active());
    assert!(!monitor.has_callback());
    assert!(!monitor.is_set_up());
    assert!(!monitor.start());
    assert!(!monitor.is_set_up());
    assert!(!monitor.is_active());
    monitor.stop();
    assert!(!monitor.is_active());
}

#[test]
fn monitor_starts_once_and_stops() {
    let mut monitor = InputMonitor::new();
    monitor.set_callback(true);
    assert!(monitor.has_callback());
    assert!(!monitor.is_active());
    assert!(monitor.start());
    assert!(monitor.is_active());
    assert!(!monitor.start());
    assert!(monitor.is_active());
    monitor.set_callback(false);
    assert!(monitor.is_set_up());
    assert!(monitor.is_active());
    assert!(!monitor.has_callback());
    monitor.stop();
    assert!(!monitor.is_active());
    assert!(monitor.start());
    assert!(monitor.is_active());
}

#[test]
fn which_events_show_activity() {
    assert!(is_user_activity_event(InputEventKind::Key, 1));
    assert!(!is_user_activity_event(InputEventKind::Key, 0));
    assert!(!is_user_activity_event(InputEventKind::Key, 2));
    assert!(is_user_activity_event(InputEventKind::Relative, 3));
    assert!(is_user_activity_event(InputEventKind::Relative, -3));
    assert!(!is_user_activity_event(InputEventKind::Relative, 2));
    assert!(!is_user_activity_event(InputEventKind::Relative, -2));
    assert!(!is_user_activity_event(InputEventKind::Relative, 0));
    assert!(is_user_activity_event(InputEventKind::Relative, i32::MAX));
    assert!(is_user_activity_event(InputEventKind::Relative, i32::MIN + 1));
    assert!(is_user_activity_event(InputEventKind::Absolute, 0));
    assert!(is_user_activity_event(InputEventKind::Absolute, i32::MIN));
    assert!(!is_user_activity_event(InputEventKind::Other, 1));
}

#[test]
fn which_devices_are_watched() {
    assert!(is_event_node("event0"));
    assert!(is_event_node("event"));
    assert!(!is_event_node("mouse0"));
    assert!(!is_event_node("mice"));
    assert!(!is_event_node("by-id"));
    assert!(!is_event_node("Event3"));
    assert!(is_input_device(true, false, false));
    assert!(is_input_device(false, true, false));
    assert!(is_input_device(false, false, true));
    assert!(!is_input_device(false, false, false));
}

#[test]
fn idle_timeout_default() {
    assert_eq!(default_idle_timeout(), 2);
}

#[test]
fn config_paths() {
    let config = config_new(1, Some(b"/home/ada".to_vec()));
    assert!(config.is_persistent());
    assert_eq!(config_get_config_dir(&config), Some(&b"/home/ada/.config/commodoro".to_vec()));
    assert_eq!(config.config_file(), Some(&b"/home/ada/.config/commodoro/config.json".to_vec()));

    let config = config_new(7, Some(b"/home/ada/".to_vec()));
    assert_eq!(config_get_config_dir(&config), Some(&b"/home/ada/.config/commodoro".to_vec()));

    let config = config_new(1, Some(Vec::new()));
    assert_eq!(config_get_config_dir(&config), Some(&b".config/commodoro".to_vec()));
    assert_eq!(config.config_file(), Some(&b".config/commodoro/config.json".to_vec()));

    let config = config_new(1, Some(b"/".to_vec()));
    assert_eq!(config.config_file(), Some(&b"/.config/commodoro/config.json".to_vec()));

    let config = config_new(1, Some(vec![0x2f, 0xff, 0xfe]));
    let mut expected = vec![0x2f, 0xff, 0xfe];
    expected.extend_from_slice(b"/.config/commodoro");
    assert_eq!(config_get_config_dir(&config), Some(&expected));
}

#[test]
fn config_paths_agree_with_std() {
    for home in ["/home/ada", "/home/ada/", "", "/", "relative/dir", "/a//"] {
        let config = config_new(1, Some(home.as_bytes().to_vec()));
        let dir = std::path::PathBuf::from(home).join(".config").join("commodoro");
        let file = dir.join("config.json");
        assert_eq!(
            config_get_config_dir(&config).map(|b| b.as_slice()),
            Some(dir.to_str().unwrap().as_bytes())
        );
        assert_eq!(
            config.config_file().map(|b| b.as_slice()),
            Some(file.to_str().unwrap().as_bytes())
        );
    }
}

#[test]
fn config_without_disk_or_home() {
    let config = config_new(0, Some(b"/home/ada".to_vec()));
    assert!(!config.is_persistent());
    assert_eq!(config_get_config_dir(&config), None);
    assert_eq!(config.config_file(), None);
    let config = config_new(1, None);
    assert!(config.is_persistent());
    assert_eq!(config_get_config_dir(&config), None);
    assert_eq!(config.config_file(), None);
    let config = config_new(0, None);
    assert!(!config.is_persistent());
    assert_eq!(config.config_file(), None);
}

#[test]
fn decimal_commas_are_mended() {
    assert_eq!(
        fix_decimal_commas("{\n  \"sound_volume\": 0,7,\n  \"enable_sounds\": true\n}"),
        "{\n  \"sound_volume\": 0.7,\n  \"enable_sounds\": true\n}"
    );
    assert_eq!(fix_decimal_commas("\"a\": 0,\"b\": 0,5"), "\"a\": 0.\"b\": 0.5");
    assert_eq!(fix_decimal_commas("\"a\": 1,5"), "\"a\": 1,5");
    assert_eq!(fix_decimal_commas("\"a\":0,5"), "\"a\":0,5");
    assert_eq!(fix_decimal_commas(""), "");
    let text = "{\"work_duration\": 25, \"sound_volume\": 0.7}";
    assert_eq!(fix_decimal_commas(text), text);
    for text in ["\"x\": 0,\": 0,", "\": 0\": 0,,", "ü\": 0,9ü"] {
        assert_eq!(fix_decimal_commas(text), text.replace("\": 0,", "\": 0."));
    }
}

#[test]
fn overlay_messages() {
    assert_eq!(get_motivational_message("Short Break"), "Take a quick breather");
    assert_eq!(get_motivational_message("Long Break"), "Time for a longer rest");
    assert_eq!(get_motivational_message("Paused"), "Break timer paused");
    assert_eq!(get_motivational_message("Break"), "Take a moment to relax");
    assert_eq!(get_motivational_message(""), "Take a moment to relax");
    assert_eq!(title_class("Short Break"), Some("break-title-short"));
    assert_eq!(title_class("Long Break"), Some("break-title-long"));
    assert_eq!(title_class("Paused"), Some("break-title-paused"));
    assert_eq!(title_class("Break"), None);
}

#[test]
fn overlay_pause_button() {
    assert_eq!(pause_button_label("Pause"), "Pause (P)");
    assert_eq!(pause_button_label("Resume"), "Resume (R)");
    assert_eq!(pause_button_label("Weiter"), "Weiter");
    assert_eq!(pause_button_label(""), "");
}

#[test]
fn overlay_keys() {
    assert_eq!(key_action(0xff1b), Some("dismiss"));
    assert_eq!(key_action('s' as u32), Some("skip_break"));
    assert_eq!(key_action('S' as u32), Some("skip_break"));
    assert_eq!(key_action('e' as u32), Some("extend_break"));
    assert_eq!(key_action('E' as u32), Some("extend_break"));
    assert_eq!(key_action('p' as u32), Some("pause"));
    assert_eq!(key_action('P' as u32), Some("pause"));
    assert_eq!(key_action('r' as u32), Some("pause"));
    assert_eq!(key_action('R' as u32), Some("pause"));
    assert_eq!(key_action('q' as u32), None);
    assert_eq!(key_action(0), None);
    assert_eq!(secondary_key_action(0xff1b), Some("dismiss"));
    assert_eq!(secondary_key_action('s' as u32), None);
}

#[test]
fn tray_icon_starts_at_rest() {
    let icon = tray_icon_new();
    assert_eq!(icon.size(), 64);
    assert_eq!(icon.state(), TimerState::Idle);
    assert_eq!(icon.tooltip(), "Commodoro Timer");
    assert_eq!(icon.label(), IconLabel::Dot);
    assert_eq!(icon.get_progress(), (0, 1));
    assert!(!icon.shows_progress());
    assert!(!tray_icon_is_embedded(&icon));
}

#[test]
fn tray_icon_rounds_minutes() {
    let mut icon = tray_icon_new();
    tray_icon_update(&mut icon, TimerState::Work, 1500, 1500);
    assert_eq!(icon.get_rounded_minutes(), 25);
    assert_eq!(icon.label(), IconLabel::Minutes(25));
    tray_icon_update(&mut icon, TimerState::Work, 1470, 1500);
    assert_eq!(icon.get_rounded_minutes(), 25);
    tray_icon_update(&mut icon, TimerState::Work, 1469, 1500);
    assert_eq!(icon.get_rounded_minutes(), 24);
    tray_icon_update(&mut icon, TimerState::ShortBreak, 29, 300);
    assert_eq!(icon.label(), IconLabel::Minutes(0));
    tray_icon_update(&mut icon, TimerState::LongBreak, 30, 900);
    assert_eq!(icon.label(), IconLabel::Minutes(1));
    tray_icon_update(&mut icon, TimerState::LongBreak, -45, 900);
    assert_eq!(icon.get_rounded_minutes(), 0);
    tray_icon_update(&mut icon, TimerState::Paused, 30, 900);
    assert_eq!(icon.label(), IconLabel::Bars);
    tray_icon_update(&mut icon, TimerState::Idle, 30, 900);
    assert_eq!(icon.label(), IconLabel::Dot);
}

#[test]
fn tray_icon_progress() {
    let mut icon = tray_icon_new();
    tray_icon_update(&mut icon, TimerState::Work, 1500, 1500);
    assert_eq!(icon.get_progress(), (0, 1500));
    assert!(!icon.shows_progress());
    tray_icon_update(&mut icon, TimerState::Work, 1000, 1500);
    assert_eq!(icon.get_progress(), (500, 1500));
    assert!(icon.shows_progress());
    tray_icon_update(&mut icon, TimerState::Paused, 1000, 1500);
    assert!(!icon.shows_progress());
    tray_icon_update(&mut icon, TimerState::Idle, 1000, 1500);
    assert!(!icon.shows_progress());
    tray_icon_update(&mut icon, TimerState::ShortBreak, 10, 0);
    assert_eq!(icon.get_progress(), (0, 1));
    assert!(!icon.shows_progress());
    tray_icon_update(&mut icon, TimerState::ShortBreak, 400, 300);
    assert_eq!(icon.get_progress(), (-100, 300));
    assert!(!icon.shows_progress());
}

#[test]
fn tray_icon_tooltip() {
    let mut icon = tray_icon_new();
    tray_icon_set_tooltip(&mut icon, "Work 24:59");
    assert_eq!(icon.tooltip(), "Work 24:59");
    assert_eq!(icon.size(), 64);
    assert_eq!(icon.state(), TimerState::Idle);
}

#[test]
fn tray_icon_elapsed_seconds_fit() {
    let mut icon = tray_icon_new();
    assert!(icon.elapsed_fits());
    tray_icon_update(&mut icon, TimerState::Work, -1, i32::MAX);
    assert!(!icon.elapsed_fits());
    assert!(icon.shows_progress());
    tray_icon_update(&mut icon, TimerState::Work, 0, i32::MAX);
    assert!(icon.elapsed_fits());
    assert_eq!(icon.get_progress(), (i32::MAX, i32::MAX));
    tray_icon_update(&mut icon, TimerState::Work, i32::MAX, i32::MIN);
    assert!(!icon.elapsed_fits());
    assert_eq!(icon.get_progress(), (0, 1));
    assert!(!icon.shows_progress());
}

#[test]
fn mended_settings_file_parses() {
    let written = "{\n  \"work_duration\": 25,\n  \"sound_volume\": 0,7,\n  \"sound_type\": \"chimes\"\n}";
    assert!(serde_json::from_str::<serde_json::Value>(written).is_err());
    let fixed = fix_decimal_commas(written);
    let value: serde_json::Value = serde_json::from_str(&fixed).unwrap();
    assert_eq!(value["sound_volume"].as_f64(), Some(0.7));
    assert_eq!(value["work_duration"].as_i64(), Some(25));
    assert_eq!(value["sound_type"].as_str(), Some("chimes"));
}

fn kind_of(event: &evdev::InputEvent) -> InputEventKind {
    match event.event_type() {
        evdev::EventType::KEY => InputEventKind::Key,
        evdev::EventType::RELATIVE => InputEventKind::Relative,
        evdev::EventType::ABSOLUTE => InputEventKind::Absolute,
        _ => InputEventKind::Other,
    }
}

#[test]
fn device_events_that_show_activity() {
    let cases = [
        (evdev::EventType::KEY, 1, true),
        (evdev::EventType::KEY, 0, false),
        (evdev::EventType::KEY, 2, false),
        (evdev::EventType::RELATIVE, 5, true),
        (evdev::EventType::RELATIVE, -5, true),
        (evdev::EventType::RELATIVE, 1, false),
        (evdev::EventType::ABSOLUTE, 0, true),
        (evdev::EventType::SYNCHRONIZATION, 1, false),
        (evdev::EventType::MISC, 1, false),
    ];
    for (event_type, value, expected) in cases {
        let event = evdev::InputEvent::new(event_type, 0, value);
        assert_eq!(is_user_activity_event(kind_of(&event), event.value()), expected);
    }
}
