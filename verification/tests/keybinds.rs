use whirlwin::config::Config;
use whirlwin::keybinds::{
    handle_hotkey, hotkey_bindings, hotkey_result, leader_binding, released_hotkey_ids, HotkeyAction,
    HotkeyBinding,
};
use whirlwin::window_manager::{Direction, WindowManagerMessage};

fn config_with(programs: &[&str]) -> Config {
    let mut c = Config::new();
    c.programs = programs.iter().map(|p| p.to_string()).collect();
    c
}

#[test]
fn leader_is_shift_enter_without_repeat() {
    assert_eq!(leader_binding(), HotkeyBinding { id: 0, modifiers: 4 | 0x4000, key: 0x0D });
}

#[test]
fn leader_press_starts_hotkey_mode() {
    let c = Config::new();
    let action = handle_hotkey(0, false, &c);
    assert_eq!(action, HotkeyAction::RegisterHotkeys);
    assert!(!action.releases_hotkeys());
    assert_eq!(hotkey_result(&action, None), Ok(true));
}

#[test]
fn other_keys_outside_hotkey_mode_are_ignored() {
    let c = Config::new();
    for id in [1, 2, 6, 9, 10, 19, 42] {
        let action = handle_hotkey(id, false, &c);
        assert_eq!(action, HotkeyAction::Ignore);
        assert!(action.releases_hotkeys());
        assert_eq!(hotkey_result(&action, None), Ok(false));
    }
}

#[test]
fn hotkey_mode_keys_send_window_messages() {
    let c = Config::new();
    let cases = [
        (2, WindowManagerMessage::SwitchToDirection(Direction::Left)),
        (3, WindowManagerMessage::SwitchToDirection(Direction::Right)),
        (4, WindowManagerMessage::SwitchToDirection(Direction::Above)),
        (5, WindowManagerMessage::SwitchToDirection(Direction::Below)),
        (6, WindowManagerMessage::SwitchToNext),
        (8, WindowManagerMessage::CloseWindow),
        (9, WindowManagerMessage::SwitchToPrevious),
    ];
    for (id, message) in cases {
        let action = handle_hotkey(id, true, &c);
        assert_eq!(action, HotkeyAction::Send(message));
        assert!(action.releases_hotkeys());
        assert_eq!(hotkey_result(&action, None), Ok(false));
    }
}

#[test]
fn unknown_keys_in_hotkey_mode_end_it() {
    let c = Config::new();
    for id in [0, 7, 20, -1] {
        let action = handle_hotkey(id, true, &c);
        assert_eq!(action, HotkeyAction::Ignore);
        assert_eq!(hotkey_result(&action, None), Ok(false));
    }
}

#[test]
fn escape_exits_with_an_error() {
    let c = Config::new();
    let action = handle_hotkey(1, true, &c);
    assert_eq!(action, HotkeyAction::Exit);
    assert!(action.releases_hotkeys());
    assert_eq!(hotkey_result(&action, None), Err("User hit ESC.".to_string()));
    assert_eq!(
        hotkey_result(&action, Some("sending on a closed channel".to_string())),
        Err("Failed to send message: sending on a closed channel".to_string())
    );
}

#[test]
fn shortcuts_launch_configured_programs() {
    let c = config_with(&["a.exe", "", "c.exe", "", "", "", "", "", "", "j.exe"]);
    assert_eq!(handle_hotkey(10, true, &c), HotkeyAction::Launch("a.exe".to_string()));
    assert_eq!(handle_hotkey(11, true, &c), HotkeyAction::Launch(String::new()));
    assert_eq!(handle_hotkey(12, true, &c), HotkeyAction::Launch("c.exe".to_string()));
    assert_eq!(handle_hotkey(19, true, &c), HotkeyAction::Launch("j.exe".to_string()));
}

fn mode_bindings() -> Vec<HotkeyBinding> {
    vec![
        HotkeyBinding { id: 1, modifiers: 0, key: 0x1B },
        HotkeyBinding { id: 2, modifiers: 0, key: 0x48 },
        HotkeyBinding { id: 3, modifiers: 0, key: 0x4C },
        HotkeyBinding { id: 5, modifiers: 0, key: 0x4B },
        HotkeyBinding { id: 4, modifiers: 0, key: 0x4A },
        HotkeyBinding { id: 6, modifiers: 0, key: 0x4E },
        HotkeyBinding { id: 8, modifiers: 0, key: 0x44 },
        HotkeyBinding { id: 9, modifiers: 0, key: 0x50 },
    ]
}

#[test]
fn default_configuration_registers_only_mode_keys() {
    assert_eq!(hotkey_bindings(&Config::new()), mode_bindings());
}

#[test]
fn configured_programs_get_digit_shortcuts() {
    let c = config_with(&["a.exe", "", "c.exe"]);
    let mut expected = vec![
        HotkeyBinding { id: 10, modifiers: 0, key: 0x31 },
        HotkeyBinding { id: 12, modifiers: 0, key: 0x33 },
    ];
    expected.extend(mode_bindings());
    assert_eq!(hotkey_bindings(&c), expected);
}

#[test]
fn released_ids_cover_mode_and_shortcuts() {
    let mut expected = vec![1, 2, 3, 4, 5, 6, 8, 9, 9];
    expected.extend(10..20);
    assert_eq!(released_hotkey_ids(), expected);
}

#[test]
fn every_registered_hotkey_is_handled_and_released() {
    let c = config_with(&["a", "b", "c", "d", "e", "f", "g", "h", "i", "j"]);
    let released = released_hotkey_ids();
    for b in hotkey_bindings(&c) {
        assert_ne!(handle_hotkey(b.id, true, &c), HotkeyAction::Ignore);
        assert!(released.contains(&b.id));
    }
}

#[test]
fn documented_keys_do_what_the_readme_says() {
    let c = Config::new();
    let by_key = |key: u32| {
        let b = hotkey_bindings(&c).into_iter().find(|b| b.key == key).unwrap();
        handle_hotkey(b.id, true, &c)
    };
    assert_eq!(by_key(0x48), HotkeyAction::Send(WindowManagerMessage::SwitchToDirection(Direction::Left)));
    assert_eq!(by_key(0x4C), HotkeyAction::Send(WindowManagerMessage::SwitchToDirection(Direction::Right)));
    assert_eq!(by_key(0x4A), HotkeyAction::Send(WindowManagerMessage::SwitchToDirection(Direction::Above)));
    assert_eq!(by_key(0x4B), HotkeyAction::Send(WindowManagerMessage::SwitchToDirection(Direction::Below)));
    assert_eq!(by_key(0x4E), HotkeyAction::Send(WindowManagerMessage::SwitchToNext));
    assert_eq!(by_key(0x44), HotkeyAction::Send(WindowManagerMessage::CloseWindow));
    assert_eq!(by_key(0x50), HotkeyAction::Send(WindowManagerMessage::SwitchToPrevious));
    assert_eq!(by_key(0x1B), HotkeyAction::Exit);
}

#[test]
fn registered_ids_are_distinct() {
    let c = config_with(&["a", "b", "", "d"]);
    let ids: Vec<i32> = hotkey_bindings(&c).iter().map(|b| b.id).collect();
    for (i, a) in ids.iter().enumerate() {
        assert_ne!(*a, 0);
        for b in &ids[i + 1..] {
            assert_ne!(a, b);
        }
    }
}

#[test]
fn actions_name_the_message_to_send() {
    let c = Config::new();
    assert_eq!(handle_hotkey(1, true, &c).message_to_send(), Some(WindowManagerMessage::EndListener));
    assert_eq!(handle_hotkey(6, true, &c).message_to_send(), Some(WindowManagerMessage::SwitchToNext));
    assert_eq!(handle_hotkey(0, false, &c).message_to_send(), None);
    assert_eq!(handle_hotkey(42, true, &c).message_to_send(), None);
    assert_eq!(handle_hotkey(10, true, &c).message_to_send(), None);
}

#[test]
fn send_failures_matter_only_on_exit() {
    let c = Config::new();
    let send = handle_hotkey(2, true, &c);
    assert_eq!(hotkey_result(&send, Some("closed".to_string())), Ok(false));
}
