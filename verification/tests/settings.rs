use whirlwin::config::Config;
use whirlwin::core_process::{manage_core, shortcut_slot, CoreCommand, CoreProcess};
use whirlwin::events::{hook_reaction, refresh_messages, win_event_proc, HookReaction};
use whirlwin::window_manager::WindowManagerMessage;

#[test]
fn default_config_has_ten_empty_programs_and_six_keybinds() {
    let c = Config::new();
    assert_eq!(c.programs, vec![String::new(); 10]);
    let names: Vec<&str> = c.keybinds.iter().map(|(n, _)| n.as_str()).collect();
    assert_eq!(names, vec!["left", "right", "down", "next", "prev", "above"]);
    assert!(c.keybinds.iter().all(|(_, v)| *v == 0));
}

#[test]
fn parsed_config_is_kept_and_missing_one_defaults() {
    let mut parsed = Config::new();
    parsed.programs[2] = "c.exe".to_string();
    let c = Config::from_parsed(Some(parsed));
    assert_eq!(c.programs[2], "c.exe");
    let d = Config::from_parsed(None);
    assert_eq!(d.programs, vec![String::new(); 10]);
    assert_eq!(d.keybinds.len(), 6);
}

#[test]
fn foreground_changes_are_passed_on_outside_hotkey_mode() {
    assert!(win_event_proc(3, false));
    assert!(!win_event_proc(3, true));
    assert!(!win_event_proc(4, false));
}

#[test]
fn hook_thread_reacts_to_its_messages() {
    assert_eq!(hook_reaction(0x0401), HookReaction::Refresh);
    assert_eq!(hook_reaction(0x0402), HookReaction::Stop);
    assert_eq!(hook_reaction(0x0312), HookReaction::Pass);
    assert_eq!(
        refresh_messages(),
        vec![WindowManagerMessage::ClearWindows, WindowManagerMessage::SetCurrent, WindowManagerMessage::SetWindows]
    );
}

#[test]
fn manage_core_toggles_the_background_program() {
    let mut core = CoreProcess::new();
    let (cmd, label) = manage_core(&mut core);
    assert_eq!(cmd, CoreCommand::Spawn);
    assert_eq!(label, "End Program");
    assert_eq!(core, CoreProcess { running: true, child: true });
    let (cmd, label) = manage_core(&mut core);
    assert_eq!(cmd, CoreCommand::Kill);
    assert_eq!(label, "Start program");
    assert_eq!(core, CoreProcess { running: false, child: false });
}

#[test]
fn start_and_stop_respect_the_child() {
    let mut core = CoreProcess { running: false, child: true };
    assert_eq!(core.start(), CoreCommand::AlreadyRunning);
    assert_eq!(core.stop(), CoreCommand::Kill);
    assert_eq!(core.stop(), CoreCommand::Nothing);
    assert!(!core.child);
}

#[test]
fn shortcut_slots_are_decimal_numbers() {
    assert_eq!(shortcut_slot("3"), Some(3));
    assert_eq!(shortcut_slot("+4"), Some(4));
    assert_eq!(shortcut_slot("007"), Some(7));
    assert_eq!(shortcut_slot("-1"), None);
    assert_eq!(shortcut_slot(""), None);
    assert_eq!(shortcut_slot("+"), None);
    assert_eq!(shortcut_slot(" 3"), None);
    assert_eq!(shortcut_slot("abc"), None);
    assert_eq!(shortcut_slot("99999999999999999999999"), None);
}
