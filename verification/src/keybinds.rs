use vstd::prelude::*;

use crate::config::Config;
use crate::window_manager::{Direction, WindowManagerMessage};

verus! {

// Hotkey identifiers.
pub const LEADER: i32 = 0;
pub const EXIT: i32 = 1;
pub const SWITCH_LEFT: i32 = 2;
pub const SWITCH_RIGHT: i32 = 3;
pub const SWITCH_ABOVE: i32 = 4;
pub const SWITCH_BELOW: i32 = 5;
pub const SWITCH_NEXT: i32 = 6;
pub const CLOSE_WINDOW: i32 = 8;
pub const SWITCH_PREVIOUS: i32 = 9;
/// The identifier of the first program shortcut; shortcut `k` (from 0) has `SHORTCUT_1 + k`.
pub const SHORTCUT_1: i32 = 10;
/// The identifier of the last program shortcut that is handled.
pub const SHORTCUT_10: i32 = 19;

// Virtual key codes.
pub const KEY_H: u32 = 0x48;
pub const KEY_L: u32 = 0x4C;
pub const KEY_J: u32 = 0x4A;
pub const KEY_K: u32 = 0x4B;
pub const KEY_N: u32 = 0x4E;
pub const KEY_D: u32 = 0x44;
pub const KEY_P: u32 = 0x50;
pub const ESC: u32 = 0x1B;
pub const ENTER: u32 = 0x0D;
pub const KEY_1: u32 = 0x31;

// Hotkey modifiers.
pub const NO_MODIFIERS: u32 = 0;
/// Shift (0x4) together with no-repeat (0x4000).
pub const SHIFT_NOREPEAT: u32 = 0x4004;

/// The largest number of program entries whose shortcut identifiers and keys
/// can be numbered: beyond it an identifier would not fit an `i32`.
pub const MAX_PROGRAMS: usize = 0x7fff_0000;

/// A hotkey to register: its identifier, its modifiers and its key.
#[derive(Clone, Copy, Debug, PartialEq, Eq, Structural)]
pub struct HotkeyBinding {
    pub id: i32,
    pub modifiers: u32,
    pub key: u32,
}

/// What a hotkey asks for.
#[derive(Clone, Debug, PartialEq, Eq)]
pub enum HotkeyAction {
    /// The leader was pressed: register the hotkeys of hotkey mode.
    RegisterHotkeys,
    /// Tell the window manager to stop (`EndListener`), then stop listening.
    Exit,
    /// Hand the message to the window manager.
    Send(WindowManagerMessage),
    /// Start the program at this path and wait for it.
    Launch(String),
    /// Nothing to do.
    Ignore,
}

/// The leader hotkey: Shift and Enter, without repeat.
pub open spec fn leader_spec() -> HotkeyBinding {
    HotkeyBinding { id: LEADER, modifiers: SHIFT_NOREPEAT, key: ENTER }
}

/// The shortcut hotkeys of the programs configured: entry `i`, where its path
/// is not empty, gets identifier `SHORTCUT_1 + i` and the key `'1' + i`.
pub open spec fn program_bindings(programs: Seq<String>) -> Seq<HotkeyBinding>
    decreases programs.len(),
{
    if programs.len() == 0 {
        Seq::empty()
    } else {
        let i = programs.len() - 1;
        let before = program_bindings(programs.drop_last());
        if programs[i]@.len() != 0 {
            before.push(HotkeyBinding { id: (SHORTCUT_1 + i) as i32, modifiers: NO_MODIFIERS, key: (KEY_1 + i) as u32 })
        } else {
            before
        }
    }
}

/// The hotkeys of hotkey mode other than the program shortcuts, in the order
/// they are registered.
pub open spec fn mode_bindings() -> Seq<HotkeyBinding> {
    seq![
        HotkeyBinding { id: EXIT, modifiers: NO_MODIFIERS, key: ESC },
        HotkeyBinding { id: SWITCH_LEFT, modifiers: NO_MODIFIERS, key: KEY_H },
        HotkeyBinding { id: SWITCH_RIGHT, modifiers: NO_MODIFIERS, key: KEY_L },
        HotkeyBinding { id: SWITCH_BELOW, modifiers: NO_MODIFIERS, key: KEY_K },
        HotkeyBinding { id: SWITCH_ABOVE, modifiers: NO_MODIFIERS, key: KEY_J },
        HotkeyBinding { id: SWITCH_NEXT, modifiers: NO_MODIFIERS, key: KEY_N },
        HotkeyBinding { id: CLOSE_WINDOW, modifiers: NO_MODIFIERS, key: KEY_D },
        HotkeyBinding { id: SWITCH_PREVIOUS, modifiers: NO_MODIFIERS, key: KEY_P },
    ]
}

/// All hotkeys registered when hotkey mode starts.
pub open spec fn bindings_spec(programs: Seq<String>) -> Seq<HotkeyBinding> {
    program_bindings(programs) + mode_bindings()
}

/// The identifiers released when hotkey mode ends: those of hotkey mode, then
/// the ten program shortcuts.
pub open spec fn released_ids_spec() -> Seq<i32> {
    seq![
        EXIT, SWITCH_LEFT, SWITCH_RIGHT, SWITCH_ABOVE, SWITCH_BELOW, SWITCH_NEXT, CLOSE_WINDOW,
        SWITCH_PREVIOUS, SWITCH_PREVIOUS,
    ] + Seq::new(10, |k: int| (SHORTCUT_1 + k) as i32)
}

/// What hotkey `id` asks for, with or without the leader pressed before it.
pub open spec fn hotkey_action(id: i32, leader_pressed: bool, programs: Seq<String>) -> HotkeyAction {
    if !leader_pressed {
        if id == LEADER { HotkeyAction::RegisterHotkeys } else { HotkeyAction::Ignore }
    } else if id == EXIT {
        HotkeyAction::Exit
    } else if id == SWITCH_LEFT {
        HotkeyAction::Send(WindowManagerMessage::SwitchToDirection(Direction::Left))
    } else if id == SWITCH_RIGHT {
        HotkeyAction::Send(WindowManagerMessage::SwitchToDirection(Direction::Right))
    } else if id == SWITCH_ABOVE {
        HotkeyAction::Send(WindowManagerMessage::SwitchToDirection(Direction::Above))
    } else if id == SWITCH_BELOW {
        HotkeyAction::Send(WindowManagerMessage::SwitchToDirection(Direction::Below))
    } else if id == SWITCH_NEXT {
        HotkeyAction::Send(WindowManagerMessage::SwitchToNext)
    } else if id == CLOSE_WINDOW {
        HotkeyAction::Send(WindowManagerMessage::CloseWindow)
    } else if id == SWITCH_PREVIOUS {
        HotkeyAction::Send(WindowManagerMessage::SwitchToPrevious)
    } else if SHORTCUT_1 <= id <= SHORTCUT_10 {
        HotkeyAction::Launch(programs[id - SHORTCUT_1])
    } else {
        HotkeyAction::Ignore
    }
}

/// Whether the hotkeys of hotkey mode are released after the action: after
/// every action but the start of hotkey mode.
pub open spec fn releases_spec(action: HotkeyAction) -> bool {
    !(action is RegisterHotkeys)
}

/// The message the window manager is sent for an action: `EndListener` on
/// exit, the message itself on a send, none otherwise.
pub open spec fn message_spec(action: HotkeyAction) -> Option<WindowManagerMessage> {
    match action {
        HotkeyAction::Exit => Some(WindowManagerMessage::EndListener),
        HotkeyAction::Send(m) => Some(m),
        _ => None,
    }
}

/// The text of the error that ends listening after an exit: why the stop
/// could not be sent, where it could not, else that the user pressed Escape.
pub open spec fn exit_error(send_failure: Option<Seq<char>>) -> Seq<char> {
    match send_failure {
        Some(e) => "Failed to send message: "@ + e,
        None => "User hit ESC."@,
    }
}

/// The leader hotkey.
pub fn leader_binding() -> (b: HotkeyBinding)
    ensures
        b == leader_spec(),
{
    HotkeyBinding { id: LEADER, modifiers: SHIFT_NOREPEAT, key: ENTER }
}

/// The hotkeys to register when hotkey mode starts.
pub fn hotkey_bindings(config: &Config) -> (res: Vec<HotkeyBinding>)
    requires
        config.programs@.len() <= MAX_PROGRAMS,
    ensures
        res@ == bindings_spec(config.programs@),
{
    let mut res: Vec<HotkeyBinding> = Vec::new();
    let mut i: usize = 0;
    while i < config.programs.len()
        invariant
            i <= config.programs@.len() <= MAX_PROGRAMS,
            res@ == program_bindings(config.programs@.take(i as int)),
        decreases config.programs@.len() - i,
    {
        assert(config.programs@.take(i + 1).drop_last() =~= config.programs@.take(i as int));
        if !config.programs[i].as_str().is_empty() {
            res.push(HotkeyBinding { id: i as i32 + SHORTCUT_1, modifiers: NO_MODIFIERS, key: i as u32 + KEY_1 });
        }
        i = i + 1;
    }
    assert(config.programs@.take(i as int) =~= config.programs@);
    res.push(HotkeyBinding { id: EXIT, modifiers: NO_MODIFIERS, key: ESC });
    res.push(HotkeyBinding { id: SWITCH_LEFT, modifiers: NO_MODIFIERS, key: KEY_H });
    res.push(HotkeyBinding { id: SWITCH_RIGHT, modifiers: NO_MODIFIERS, key: KEY_L });
    res.push(HotkeyBinding { id: SWITCH_BELOW, modifiers: NO_MODIFIERS, key: KEY_K });
    res.push(HotkeyBinding { id: SWITCH_ABOVE, modifiers: NO_MODIFIERS, key: KEY_J });
    res.push(HotkeyBinding { id: SWITCH_NEXT, modifiers: NO_MODIFIERS, key: KEY_N });
    res.push(HotkeyBinding { id: CLOSE_WINDOW, modifiers: NO_MODIFIERS, key: KEY_D });
    res.push(HotkeyBinding { id: SWITCH_PREVIOUS, modifiers: NO_MODIFIERS, key: KEY_P });
    assert(res@ =~= bindings_spec(config.programs@));
    res
}

/// The hotkey identifiers to release when hotkey mode ends.
pub fn released_hotkey_ids() -> (ids: Vec<i32>)
    ensures
        ids@ == released_ids_spec(),
{
    let mut ids: Vec<i32> = Vec::new();
    ids.push(EXIT);
    ids.push(SWITCH_LEFT);
    ids.push(SWITCH_RIGHT);
    ids.push(SWITCH_ABOVE);
    ids.push(SWITCH_BELOW);
    ids.push(SWITCH_NEXT);
    ids.push(CLOSE_WINDOW);
    ids.push(SWITCH_PREVIOUS);
    ids.push(SWITCH_PREVIOUS);
    let mut k: i32 = 0;
    while k < 10
        invariant
            0 <= k <= 10,
            ids@ == released_ids_spec().take(9 + k),
        decreases 10 - k,
    {
        ids.push(SHORTCUT_1 + k);
        assert(released_ids_spec().take(9 + k + 1) =~= released_ids_spec().take(9 + k).push((SHORTCUT_1 + k) as i32));
        k = k + 1;
    }
    assert(released_ids_spec().take(19) =~= released_ids_spec());
    ids
}

/// Decides what hotkey `wparam` asks for, given whether the leader was
/// pressed before it and the configured programs.
pub fn handle_hotkey(wparam: i32, leader_pressed: bool, config: &Config) -> (action: HotkeyAction)
    requires
        leader_pressed && SHORTCUT_1 <= wparam <= SHORTCUT_10 ==> wparam - SHORTCUT_1 < config.programs@.len(),
    ensures
        action == hotkey_action(wparam, leader_pressed, config.programs@),
{
    if !leader_pressed {
        if wparam == LEADER {
            return HotkeyAction::RegisterHotkeys;
        }
        return HotkeyAction::Ignore;
    }
    if wparam == EXIT {
        HotkeyAction::Exit
    } else if wparam == SWITCH_LEFT {
        HotkeyAction::Send(WindowManagerMessage::SwitchToDirection(Direction::Left))
    } else if wparam == SWITCH_RIGHT {
        HotkeyAction::Send(WindowManagerMessage::SwitchToDirection(Direction::Right))
    } else if wparam == SWITCH_ABOVE {
        HotkeyAction::Send(WindowManagerMessage::SwitchToDirection(Direction::Above))
    } else if wparam == SWITCH_BELOW {
        HotkeyAction::Send(WindowManagerMessage::SwitchToDirection(Direction::Below))
    } else if wparam == SWITCH_NEXT {
        HotkeyAction::Send(WindowManagerMessage::SwitchToNext)
    } else if wparam == CLOSE_WINDOW {
        HotkeyAction::Send(WindowManagerMessage::CloseWindow)
    } else if wparam == SWITCH_PREVIOUS {
        HotkeyAction::Send(WindowManagerMessage::SwitchToPrevious)
    } else if SHORTCUT_1 <= wparam && wparam <= SHORTCUT_10 {
        let index = (wparam - SHORTCUT_1) as usize;
        HotkeyAction::Launch(config.programs[index].clone())
    } else {
        HotkeyAction::Ignore
    }
}

impl HotkeyAction {
    /// The message the window manager is to be sent for this action, where there is one.
    pub fn message_to_send(&self) -> (m: Option<WindowManagerMessage>)
        ensures
            m == message_spec(*self),
    {
        match self {
            HotkeyAction::Exit => Some(WindowManagerMessage::EndListener),
            HotkeyAction::Send(message) => Some(*message),
            _ => None,
        }
    }

    /// Whether the hotkeys of hotkey mode are to be released after this action.
    pub fn releases_hotkeys(&self) -> (res: bool)
        ensures
            res == releases_spec(*self),
    {
        match self {
            HotkeyAction::RegisterHotkeys => false,
            _ => true,
        }
    }
}

/// What handling a hotkey returns, once its action is done: whether the
/// leader is now pressed, or, after an exit, the error that ends listening.
/// `send_failure` is why the action's message could not be sent, where it
/// could not; only an exit reports it.
pub fn hotkey_result(action: &HotkeyAction, send_failure: Option<String>) -> (res: Result<bool, String>)
    ensures
        match action {
            HotkeyAction::RegisterHotkeys => res == Ok::<bool, String>(true),
            HotkeyAction::Exit => res matches Err(e) && e@ == exit_error(
                match send_failure { Some(f) => Some(f@), None => None },
            ),
            _ => res == Ok::<bool, String>(false),
        },
{
    match action {
        HotkeyAction::RegisterHotkeys => Ok(true),
        HotkeyAction::Exit => {
            match send_failure {
                Some(failure) => {
                    let mut text = "Failed to send message: ".to_string();
                    text.append(failure.as_str());
                    Err(text)
                },
                None => Err("User hit ESC.".to_string()),
            }
        },
        _ => Ok(false),
    }
}

} // verus!
