use vstd::prelude::*;

use crate::window_manager::WindowManagerMessage;

verus! {

/// The system event raised when the foreground window changes.
pub const EVENT_SYSTEM_FOREGROUND: u32 = 0x0003;
/// The message that carries a registered hotkey.
pub const WM_HOTKEY: u32 = 0x0312;
/// The thread message that tells the hook thread the foreground window changed.
pub const NEW_FOREGROUND_SET: u32 = 0x0401;
/// The thread message that tells the hook thread to stop.
pub const EXIT_PROGRAM: u32 = 0x0402;

/// What the hook thread does with a thread message.
#[derive(Clone, Copy, Debug, PartialEq, Eq, Structural)]
pub enum HookReaction {
    /// Have the window manager read the windows again (`refresh_messages`).
    Refresh,
    /// Stop the hook thread.
    Stop,
    /// Nothing beyond dispatching the message.
    Pass,
}

/// The messages that make the window manager read the windows again: forget
/// what it knew, take the foreground window as current, enumerate.
pub open spec fn refresh_spec() -> Seq<WindowManagerMessage> {
    seq![WindowManagerMessage::ClearWindows, WindowManagerMessage::SetCurrent, WindowManagerMessage::SetWindows]
}

/// Whether a system event is passed on to the hook thread: a change of the
/// foreground window, while the leader is not pressed.
pub fn win_event_proc(event: u32, leader_pressed: bool) -> (post: bool)
    ensures
        post == (event == EVENT_SYSTEM_FOREGROUND && !leader_pressed),
{
    event == EVENT_SYSTEM_FOREGROUND && !leader_pressed
}

/// What the hook thread does with the thread message `message`.
pub fn hook_reaction(message: u32) -> (r: HookReaction)
    ensures
        r == (if message == NEW_FOREGROUND_SET {
            HookReaction::Refresh
        } else if message == EXIT_PROGRAM {
            HookReaction::Stop
        } else {
            HookReaction::Pass
        }),
{
    if message == NEW_FOREGROUND_SET {
        HookReaction::Refresh
    } else if message == EXIT_PROGRAM {
        HookReaction::Stop
    } else {
        HookReaction::Pass
    }
}

/// The messages sent to the window manager when the foreground window changed.
pub fn refresh_messages() -> (msgs: Vec<WindowManagerMessage>)
    ensures
        msgs@ == refresh_spec(),
{
    let mut msgs: Vec<WindowManagerMessage> = Vec::new();
    msgs.push(WindowManagerMessage::ClearWindows);
    msgs.push(WindowManagerMessage::SetCurrent);
    msgs.push(WindowManagerMessage::SetWindows);
    assert(msgs@ =~= refresh_spec());
    msgs
}

} // verus!
