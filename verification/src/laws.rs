//! Properties of the library that span several of its operations.

use vstd::prelude::*;

use crate::config::PROGRAM_SLOTS;
use crate::keybinds::{
    bindings_spec, hotkey_action, leader_spec, mode_bindings, program_bindings, released_ids_spec, releases_spec,
    HotkeyAction, HotkeyBinding, CLOSE_WINDOW, ESC, EXIT, KEY_1, KEY_D, KEY_H, KEY_J, KEY_K, KEY_L, KEY_N, KEY_P,
    LEADER, MAX_PROGRAMS, NO_MODIFIERS, SHORTCUT_1, SWITCH_ABOVE, SWITCH_BELOW, SWITCH_LEFT,
    SWITCH_NEXT, SWITCH_RIGHT,
};
use crate::window::{as_foreground, Window};
use crate::geometry::inset;
use crate::keybinds::message_spec;
use crate::window_manager::{Direction, WindowCandidate, WindowCommand, WindowManagerMessage, WindowManagerView};

verus! {

/// Each neighbour lies on its side of the current window, and the next
/// window is on the current window's monitor.
pub open spec fn placement_sound(v: WindowManagerView) -> bool {
    &&& (v.left matches Some(w) ==> v.lies(Direction::Left, w))
    &&& (v.right matches Some(w) ==> v.lies(Direction::Right, w))
    &&& (v.above matches Some(w) ==> v.lies(Direction::Above, w))
    &&& (v.below matches Some(w) ==> v.lies(Direction::Below, w))
    &&& (v.next matches Some(w) ==> w.monitor == v.current.monitor)
}

/// The two states differ at most in the count.
pub open spec fn same_but_count(a: WindowManagerView, b: WindowManagerView) -> bool {
    a == (WindowManagerView { count: a.count, ..b })
}

/// Every message keeps the manager well formed: the current window is the
/// foreground window with order 0, the history's bottom names its oldest
/// window, and no title is blacklisted twice.
pub proof fn lemma_message_preserves_well_formed(v: WindowManagerView, m: WindowManagerMessage)
    requires
        v.well_formed(),
    ensures
        v.after_message(m).0.well_formed(),
{
}

/// Enumerating windows never touches the current window, the history or the
/// blacklist, and counts at most one per window enumerated.
pub proof fn lemma_enumeration_keeps_current_and_history(v: WindowManagerView, cs: Seq<WindowCandidate>)
    ensures
        v.after_candidates(cs).current == v.current,
        v.after_candidates(cs).stack == v.stack,
        v.after_candidates(cs).stack_bottom == v.stack_bottom,
        v.after_candidates(cs).blacklist == v.blacklist,
        v.count <= v.after_candidates(cs).count <= v.count + cs.len(),
    decreases cs.len(),
{
    if cs.len() > 0 {
        lemma_enumeration_keeps_current_and_history(v, cs.drop_last());
    }
}

/// Enumerating windows keeps the history's bottom naming its oldest window.
pub proof fn lemma_enumeration_preserves_well_formed(v: WindowManagerView, cs: Seq<WindowCandidate>)
    requires
        v.well_formed(),
    ensures
        v.after_candidates(cs).well_formed(),
{
    lemma_enumeration_keeps_current_and_history(v, cs);
}

/// An offered window never replaces a neighbour or next window already
/// known; at most one place is filled, and the window placed there lies on
/// that side of the current window (or, as next, on its monitor).
pub proof fn lemma_set_window_fills_one_free_place(v: WindowManagerView, w: Window)
    ensures
        ({
            let a = v.with_window(w);
            &&& a.current == v.current
            &&& a.stack == v.stack
            &&& a.stack_bottom == v.stack_bottom
            &&& a.count == v.count
            &&& (v.left is Some ==> a.left == v.left)
            &&& (v.right is Some ==> a.right == v.right)
            &&& (v.above is Some ==> a.above == v.above)
            &&& (v.below is Some ==> a.below == v.below)
            &&& (v.next is Some ==> a.next == v.next)
            &&& (a.left != v.left ==> a.left == Some(w) && v.lies(Direction::Left, w))
            &&& (a.right != v.right ==> a.right == Some(w) && v.lies(Direction::Right, w))
            &&& (a.above != v.above ==> a.above == Some(w) && v.lies(Direction::Above, w))
            &&& (a.below != v.below ==> a.below == Some(w) && v.lies(Direction::Below, w))
            &&& (a.next != v.next ==> a.next == Some(w) && w.monitor == v.current.monitor)
            &&& (a == v || a == (WindowManagerView { left: Some(w), ..v }) || a == (WindowManagerView { right: Some(w), ..v })
                || a == (WindowManagerView { above: Some(w), ..v }) || a == (WindowManagerView { below: Some(w), ..v })
                || a == (WindowManagerView { next: Some(w), ..v }))
        }),
{
}

/// A window whose title is blacklisted, and the current window itself, are
/// never taken as a neighbour or as the next window.
pub proof fn lemma_unmanaged_windows_are_skipped(v: WindowManagerView, c: WindowCandidate)
    requires
        c.hwnd == v.current.hwnd || (c.title matches Some(t) && v.blacklist.contains(t@)),
    ensures
        same_but_count(v.after_candidate(c), v),
{
}

/// After the neighbours are forgotten, enumeration places every window on
/// its proper side: the placement stays sound through any enumeration.
pub proof fn lemma_enumeration_places_soundly(v: WindowManagerView, cs: Seq<WindowCandidate>)
    requires
        placement_sound(v),
    ensures
        placement_sound(v.after_candidates(cs)),
    decreases cs.len(),
{
    if cs.len() > 0 {
        lemma_enumeration_places_soundly(v, cs.drop_last());
        lemma_enumeration_keeps_current_and_history(v, cs.drop_last());
    }
}

/// A cleared state, and the state after a switch to a neighbour, have a sound
/// placement, whatever the current window.
pub proof fn lemma_fresh_placement_is_sound(v: WindowManagerView, w: Window, d: Direction)
    ensures
        placement_sound(v.cleared()),
        placement_sound(WindowManagerView { current: w, ..v.cleared() }),
        placement_sound(v.after_direction(d).0) || v.slot(d) is None,
{
}

/// Going back undoes going forward: after a switch to the next window and any
/// enumeration, a switch to the previous window makes the window left current
/// again and the window gone to (now with the foreground's order 0) the next
/// one again; the history is as it was, unless it started afresh because the
/// next window was its bottom.
pub proof fn lemma_previous_undoes_next(v: WindowManagerView, cs: Seq<WindowCandidate>)
    requires
        v.well_formed(),
        v.next is Some,
    ensures
        ({
            let w = v.next.unwrap();
            let forward = v.after_next().0.after_candidates(cs);
            let back = forward.after_previous().0;
            &&& back.current == v.current
            &&& back.next == Some(as_foreground(w))
            &&& back.stack == (if v.stack_bottom == Some(w.hwnd) { Seq::<Window>::empty() } else { v.stack })
        }),
{
    let w = v.next.unwrap();
    let f0 = v.after_next().0;
    lemma_enumeration_keeps_current_and_history(f0, cs);
    let base = if v.stack_bottom == Some(w.hwnd) { Seq::<Window>::empty() } else { v.stack };
    assert(f0.stack == base.push(v.current));
    assert(f0.stack.drop_last() =~= base);
}

/// What the key of a registered hotkey is documented to do in hotkey mode:
/// H, L, J and K move left, right, up and down, N goes to the next window,
/// D closes the current one, P goes back, Escape exits, and the digit keys
/// from 1 start the configured programs in order.
pub open spec fn documented_action(key: u32, programs: Seq<String>) -> HotkeyAction {
    if key == ESC {
        HotkeyAction::Exit
    } else if key == KEY_H {
        HotkeyAction::Send(WindowManagerMessage::SwitchToDirection(Direction::Left))
    } else if key == KEY_L {
        HotkeyAction::Send(WindowManagerMessage::SwitchToDirection(Direction::Right))
    } else if key == KEY_J {
        HotkeyAction::Send(WindowManagerMessage::SwitchToDirection(Direction::Above))
    } else if key == KEY_K {
        HotkeyAction::Send(WindowManagerMessage::SwitchToDirection(Direction::Below))
    } else if key == KEY_N {
        HotkeyAction::Send(WindowManagerMessage::SwitchToNext)
    } else if key == KEY_D {
        HotkeyAction::Send(WindowManagerMessage::CloseWindow)
    } else if key == KEY_P {
        HotkeyAction::Send(WindowManagerMessage::SwitchToPrevious)
    } else if KEY_1 <= key < KEY_1 + programs.len() {
        HotkeyAction::Launch(programs[key - KEY_1])
    } else {
        HotkeyAction::Ignore
    }
}

/// Program shortcuts are numbered by their entry: identifier and key are
/// offset by the same entry index, which is in range, and the identifiers rise.
proof fn lemma_program_bindings_shape(programs: Seq<String>)
    requires
        programs.len() <= MAX_PROGRAMS,
    ensures
        ({
            let pb = program_bindings(programs);
            &&& forall|j: int| 0 <= j < pb.len() ==> {
                &&& 0 <= #[trigger] pb[j].id - SHORTCUT_1 < programs.len()
                &&& pb[j].key - KEY_1 == pb[j].id - SHORTCUT_1
                &&& pb[j].modifiers == NO_MODIFIERS
            }
            &&& forall|j: int, k: int| 0 <= j < k < pb.len() ==> #[trigger] pb[j].id < #[trigger] pb[k].id
        }),
    decreases programs.len(),
{
    if programs.len() > 0 {
        let before = programs.drop_last();
        lemma_program_bindings_shape(before);
        let i = programs.len() - 1;
        let pb0 = program_bindings(before);
        if programs[i]@.len() != 0 {
            let b = HotkeyBinding { id: (SHORTCUT_1 + i) as i32, modifiers: NO_MODIFIERS, key: (KEY_1 + i) as u32 };
            let pb = pb0.push(b);
            assert(program_bindings(programs) == pb);
            assert(b.id == SHORTCUT_1 + i);
            assert(b.key == KEY_1 + i);
            assert forall|j: int| 0 <= j < pb.len() implies {
                &&& 0 <= #[trigger] pb[j].id - SHORTCUT_1 < programs.len()
                &&& pb[j].key - KEY_1 == pb[j].id - SHORTCUT_1
                &&& pb[j].modifiers == NO_MODIFIERS
            } by {
                if j < pb0.len() {
                    assert(pb[j] == pb0[j]);
                }
            }
            assert forall|j: int, k: int| 0 <= j < k < pb.len() implies #[trigger] pb[j].id < #[trigger] pb[k].id by {
                assert(pb[j] == pb0[j]);
                if k < pb0.len() {
                    assert(pb[k] == pb0[k]);
                } else {
                    assert(0 <= pb0[j].id - SHORTCUT_1 < before.len());
                }
            }
        }
    }
}

/// Every hotkey registered for hotkey mode does what its key is documented to
/// do, and none is ignored. Holds where at most ten programs are configured:
/// the shortcuts of later entries are registered but never handled.
pub proof fn lemma_registered_hotkeys_do_what_is_documented(programs: Seq<String>)
    requires
        programs.len() <= PROGRAM_SLOTS,
    ensures
        forall|i: int| 0 <= i < bindings_spec(programs).len() ==> {
            let b = #[trigger] bindings_spec(programs)[i];
            &&& hotkey_action(b.id, true, programs) == documented_action(b.key, programs)
            &&& documented_action(b.key, programs) != HotkeyAction::Ignore
        },
{
    lemma_program_bindings_shape(programs);
    let pb = program_bindings(programs);
    assert forall|i: int| 0 <= i < bindings_spec(programs).len() implies {
        let b = #[trigger] bindings_spec(programs)[i];
        &&& hotkey_action(b.id, true, programs) == documented_action(b.key, programs)
        &&& documented_action(b.key, programs) != HotkeyAction::Ignore
    } by {
        if i < pb.len() {
            assert(bindings_spec(programs)[i] == pb[i]);
            assert(0 <= pb[i].id - SHORTCUT_1 < programs.len());
        } else {
            assert(bindings_spec(programs)[i] == mode_bindings()[i - pb.len()]);
        }
    }
}

/// Leaving hotkey mode releases every hotkey that entering it registered.
/// Holds where at most ten programs are configured: the shortcut of an
/// eleventh entry is registered and never released.
pub proof fn lemma_release_covers_registration(programs: Seq<String>)
    requires
        programs.len() <= PROGRAM_SLOTS,
    ensures
        forall|i: int| 0 <= i < bindings_spec(programs).len()
            ==> released_ids_spec().contains(#[trigger] bindings_spec(programs)[i].id),
{
    lemma_program_bindings_shape(programs);
    let pb = program_bindings(programs);
    let r = released_ids_spec();
    assert forall|i: int| 0 <= i < bindings_spec(programs).len()
        implies r.contains(#[trigger] bindings_spec(programs)[i].id) by {
        if i < pb.len() {
            assert(bindings_spec(programs)[i] == pb[i]);
            let k = pb[i].id - SHORTCUT_1;
            assert(r[9 + k] == pb[i].id);
        } else {
            let b = mode_bindings()[i - pb.len()];
            assert(bindings_spec(programs)[i] == b);
            if b.id == EXIT { assert(r[0] == b.id); }
            else if b.id == SWITCH_LEFT { assert(r[1] == b.id); }
            else if b.id == SWITCH_RIGHT { assert(r[2] == b.id); }
            else if b.id == SWITCH_ABOVE { assert(r[3] == b.id); }
            else if b.id == SWITCH_BELOW { assert(r[4] == b.id); }
            else if b.id == SWITCH_NEXT { assert(r[5] == b.id); }
            else if b.id == CLOSE_WINDOW { assert(r[6] == b.id); }
            else { assert(r[7] == b.id); }
        }
    }
}

/// No two hotkeys registered for hotkey mode share an identifier, and none
/// is the leader's.
pub proof fn lemma_registered_ids_distinct(programs: Seq<String>)
    requires
        programs.len() <= MAX_PROGRAMS,
    ensures
        forall|i: int, j: int| 0 <= i < j < bindings_spec(programs).len()
            ==> #[trigger] bindings_spec(programs)[i].id != #[trigger] bindings_spec(programs)[j].id,
        forall|i: int| 0 <= i < bindings_spec(programs).len() ==> #[trigger] bindings_spec(programs)[i].id != LEADER,
{
    lemma_program_bindings_shape(programs);
    let pb = program_bindings(programs);
    let bs = bindings_spec(programs);
    assert forall|i: int| 0 <= i < bs.len() implies #[trigger] bs[i].id >= 1 && (i < pb.len() ==> bs[i].id >= SHORTCUT_1)
        && (i >= pb.len() ==> bs[i].id < SHORTCUT_1) by {
        if i < pb.len() {
            assert(bs[i] == pb[i]);
            assert(0 <= pb[i].id - SHORTCUT_1);
        } else {
            assert(bs[i] == mode_bindings()[i - pb.len()]);
        }
    }
    assert forall|i: int, j: int| 0 <= i < j < bs.len() implies #[trigger] bs[i].id != #[trigger] bs[j].id by {
        if j < pb.len() {
            assert(bs[i] == pb[i] && bs[j] == pb[j]);
            assert(pb[i].id < pb[j].id);
        } else if i >= pb.len() {
            assert(bs[i] == mode_bindings()[i - pb.len()]);
            assert(bs[j] == mode_bindings()[j - pb.len()]);
        }
    }
}

/// The leader starts hotkey mode and no other key does; in hotkey mode every
/// key ends it, releasing its hotkeys: each leader press is good for one command.
pub proof fn lemma_one_command_per_leader_press(id: i32, programs: Seq<String>)
    ensures
        hotkey_action(LEADER, false, programs) == HotkeyAction::RegisterHotkeys,
        id != LEADER ==> hotkey_action(id, false, programs) == HotkeyAction::Ignore,
        hotkey_action(id, true, programs) != HotkeyAction::RegisterHotkeys,
        releases_spec(hotkey_action(id, true, programs)),
{
}

/// What a change of foreground window leads to: after the manager forgets
/// what it knew, takes the new foreground window as current and enumerates
/// the windows, every neighbour lies on its side of the new current window
/// and the next window is on its monitor; the history is empty.
pub proof fn lemma_refresh_places_soundly(v: WindowManagerView, foreground: Window, cs: Seq<WindowCandidate>)
    requires
        v.well_formed(),
    ensures
        ({
            let cleared = v.after_message(WindowManagerMessage::ClearWindows).0;
            let refreshed = WindowManagerView { current: as_foreground(foreground), ..cleared }.after_candidates(cs);
            &&& placement_sound(refreshed)
            &&& refreshed.current == as_foreground(foreground)
            &&& refreshed.stack.len() == 0
            &&& refreshed.well_formed()
        }),
{
    let start = WindowManagerView { current: as_foreground(foreground), ..v.cleared() };
    lemma_fresh_placement_is_sound(v, as_foreground(foreground), Direction::Left);
    lemma_enumeration_places_soundly(start, cs);
    lemma_enumeration_keeps_current_and_history(start, cs);
}

/// Switching forward to an existing next window brings exactly that window to
/// the foreground first, whatever the history: the first command focuses the
/// next window, which is the new current window; then the window left is sent
/// to the bottom and becomes the most recent window of the history, and the
/// windows are enumerated again. Without a next window, only the enumeration
/// happens and nothing changes.
pub proof fn lemma_next_focuses_the_next_window(v: WindowManagerView)
    ensures
        ({
            let (a, cmds) = v.after_next();
            match v.next {
                Some(w) => {
                    &&& cmds.len() == 3
                    &&& cmds[0] == WindowCommand::Focus(w.hwnd)
                    &&& a.current.hwnd == w.hwnd
                    &&& cmds[0] == WindowCommand::Focus(a.current.hwnd)
                    &&& cmds[1] == WindowCommand::SendToBottom(v.current.hwnd)
                    &&& cmds[2] == WindowCommand::Enumerate
                    &&& a.stack.len() > 0
                    &&& a.stack.last() == v.current
                    &&& a.next is None
                },
                None => {
                    &&& cmds == seq![WindowCommand::Enumerate]
                    &&& a == v
                },
            }
        }),
{
}

/// Going back with a non-empty history issues exactly one command: focus the
/// window that becomes current, which is the most recently left window (the
/// last of the history); the window left becomes next and the history loses
/// its last window. With an empty history nothing happens.
pub proof fn lemma_previous_focuses_the_last_window_left(v: WindowManagerView)
    ensures
        ({
            let (a, cmds) = v.after_previous();
            if v.stack.len() > 0 {
                &&& cmds == seq![WindowCommand::Focus(a.current.hwnd)]
                &&& a.current.hwnd == v.stack[v.stack.len() - 1].hwnd
                &&& a.current.rect == v.stack[v.stack.len() - 1].rect
                &&& a.next == Some(v.current)
                &&& a.stack == v.stack.subrange(0, v.stack.len() - 1)
            } else {
                &&& cmds.len() == 0
                &&& a == v
            }
        }),
{
}

/// For every direction, switching to an existing neighbour focuses that
/// neighbour first and then enumerates the windows again; the neighbour
/// becomes current and every other neighbour, the next window and the
/// history are forgotten. Without a neighbour in that direction nothing happens.
pub proof fn lemma_direction_focuses_the_neighbour(v: WindowManagerView, d: Direction)
    ensures
        ({
            let (a, cmds) = v.after_direction(d);
            let w = match d {
                Direction::Left => v.left,
                Direction::Right => v.right,
                Direction::Below => v.below,
                Direction::Above => v.above,
            };
            match w {
                Some(w) => {
                    &&& cmds == seq![WindowCommand::Focus(w.hwnd), WindowCommand::Enumerate]
                    &&& a.current.hwnd == w.hwnd
                    &&& a.current.rect == w.rect
                    &&& a.left is None && a.right is None && a.above is None && a.below is None
                    &&& a.next is None
                    &&& a.stack.len() == 0
                },
                None => {
                    &&& cmds.len() == 0
                    &&& a == v
                },
            }
        }),
{
}

/// Closing asks the system to close the current window; where a next window
/// exists it becomes current and the windows are enumerated again.
pub proof fn lemma_close_closes_the_current_window(v: WindowManagerView)
    ensures
        ({
            let (a, cmds) = v.after_close();
            &&& cmds.len() > 0
            &&& cmds[0] == WindowCommand::Close(v.current.hwnd)
            &&& match v.next {
                Some(w) => cmds.len() == 2 && cmds[1] == WindowCommand::Enumerate && a.current.hwnd == w.hwnd,
                None => cmds.len() == 1 && a == v,
            }
        }),
{
}

/// A counted window that is neither hidden (show state 0) nor minimized
/// (show state 2), whatever else its show state (normal, maximized, shown
/// without activation, ...), and whose title is not blacklisted, is offered:
/// the count rises by one and the window, with its border taken off and the
/// new count as its order, is placed as `set_window` places it.
pub proof fn lemma_shown_titled_windows_are_offered(v: WindowManagerView, c: WindowCandidate)
    requires
        c.text_length > 0,
        c.visible,
        c.hwnd != v.current.hwnd,
        c.show_cmd != 0,
        c.show_cmd != 2,
        c.title matches Some(t) && !v.blacklist.contains(t@),
    ensures
        v.after_candidate(c) == (WindowManagerView { count: v.count + 1, ..v }).with_window(
            Window {
                hwnd: c.hwnd,
                rect: inset(c.frame, c.border),
                show_cmd: c.show_cmd,
                order: (v.count + 1) as i32,
                monitor: c.monitor,
            },
        ),
{
}

/// A counted window that is hidden (show state 0), minimized (show state 2)
/// or untitled is counted but never placed.
pub proof fn lemma_hidden_minimized_untitled_windows_are_not_offered(v: WindowManagerView, c: WindowCandidate)
    requires
        c.text_length > 0,
        c.visible,
        c.hwnd != v.current.hwnd,
        c.show_cmd == 0 || c.show_cmd == 2 || c.title is None,
    ensures
        v.after_candidate(c) == (WindowManagerView { count: v.count + 1, ..v }),
{
}

/// The message sent for an action that sends a message is that message
/// itself, an exit sends the stop message, and no other action sends anything.
pub proof fn lemma_send_sends_its_own_message(m: WindowManagerMessage)
    ensures
        message_spec(HotkeyAction::Send(m)) == Some(m),
        message_spec(HotkeyAction::Exit) == Some(WindowManagerMessage::EndListener),
        message_spec(HotkeyAction::RegisterHotkeys) is None,
        message_spec(HotkeyAction::Ignore) is None,
        forall|p: String| message_spec(HotkeyAction::Launch(p)) is None,
{
}

/// In hotkey mode, each registered key sends the window manager the message
/// its documentation names: H left, L right, J above, K below, N next,
/// D close, P previous, Escape the stop message; the program keys send none.
pub proof fn lemma_registered_keys_send_documented_messages(programs: Seq<String>)
    requires
        programs.len() <= PROGRAM_SLOTS,
    ensures
        forall|i: int| 0 <= i < bindings_spec(programs).len() ==> {
            let b = #[trigger] bindings_spec(programs)[i];
            message_spec(hotkey_action(b.id, true, programs)) == (
                if b.key == KEY_H { Some(WindowManagerMessage::SwitchToDirection(Direction::Left)) }
                else if b.key == KEY_L { Some(WindowManagerMessage::SwitchToDirection(Direction::Right)) }
                else if b.key == KEY_J { Some(WindowManagerMessage::SwitchToDirection(Direction::Above)) }
                else if b.key == KEY_K { Some(WindowManagerMessage::SwitchToDirection(Direction::Below)) }
                else if b.key == KEY_N { Some(WindowManagerMessage::SwitchToNext) }
                else if b.key == KEY_D { Some(WindowManagerMessage::CloseWindow) }
                else if b.key == KEY_P { Some(WindowManagerMessage::SwitchToPrevious) }
                else if b.key == ESC { Some(WindowManagerMessage::EndListener) }
                else { None::<WindowManagerMessage> }
            )
        },
{
    lemma_registered_hotkeys_do_what_is_documented(programs);
}

/// An offered window takes the first free place it qualifies for, in the
/// order left, right, above, below, next: left where it ends at or before the
/// current window's left edge, right where it starts at or after its right
/// edge, above where it ends at or before its top, below where it starts at or
/// after its bottom, next where it is on the same monitor; where it
/// qualifies for no free place, nothing changes.
pub proof fn lemma_set_window_takes_first_free_place(v: WindowManagerView, w: Window)
    ensures
        ({
            let a = v.with_window(w);
            let to_left = v.left is None && w.rect.right <= v.current.rect.left;
            let to_right = v.right is None && w.rect.left >= v.current.rect.right;
            let to_above = v.above is None && w.rect.bottom <= v.current.rect.top;
            let to_below = v.below is None && w.rect.top >= v.current.rect.bottom;
            let to_next = v.next is None && w.monitor == v.current.monitor;
            &&& to_left ==> a == (WindowManagerView { left: Some(w), ..v })
            &&& !to_left && to_right ==> a == (WindowManagerView { right: Some(w), ..v })
            &&& !to_left && !to_right && to_above ==> a == (WindowManagerView { above: Some(w), ..v })
            &&& !to_left && !to_right && !to_above && to_below ==> a == (WindowManagerView { below: Some(w), ..v })
            &&& !to_left && !to_right && !to_above && !to_below && to_next ==> a == (WindowManagerView { next: Some(w), ..v })
            &&& !to_left && !to_right && !to_above && !to_below && !to_next ==> a == v
        }),
{
}

/// Every program entry with a non-empty path gets its shortcut: identifier
/// `10 + i`, no modifiers, the key `'1' + i`.
proof fn lemma_program_bindings_cover(programs: Seq<String>, i: int)
    requires
        programs.len() <= MAX_PROGRAMS,
        0 <= i < programs.len(),
        programs[i]@.len() != 0,
    ensures
        program_bindings(programs).contains(
            HotkeyBinding { id: (SHORTCUT_1 + i) as i32, modifiers: NO_MODIFIERS, key: (KEY_1 + i) as u32 },
        ),
    decreases programs.len(),
{
    let last = programs.len() - 1;
    let before = programs.drop_last();
    let b = HotkeyBinding { id: (SHORTCUT_1 + i) as i32, modifiers: NO_MODIFIERS, key: (KEY_1 + i) as u32 };
    if i < last {
        lemma_program_bindings_cover(before, i);
        let pb0 = program_bindings(before);
        let k = choose|k: int| 0 <= k < pb0.len() && pb0[k] == b;
        if programs[last]@.len() != 0 {
            assert(program_bindings(programs)[k] == b);
        } else {
            assert(program_bindings(programs)[k] == b);
        }
    } else {
        let pb = program_bindings(programs);
        assert(pb[pb.len() - 1] == b);
    }
}

/// Some hotkey in `bs` is `key` without modifiers.
pub open spec fn registers_key(bs: Seq<HotkeyBinding>, key: u32) -> bool {
    exists|j: int| 0 <= j < bs.len() && #[trigger] bs[j].key == key && bs[j].modifiers == 0
}

/// Entering hotkey mode registers every documented key without modifiers
/// (Escape, H, L, J, K, N, D and P) and, for each configured program with a
/// non-empty path, the digit key `'1' + i` under identifier `10 + i`. The
/// leader is Shift and Enter without repeat, and pressing it starts hotkey mode.
pub proof fn lemma_documented_keys_are_registered(programs: Seq<String>)
    requires
        programs.len() <= MAX_PROGRAMS,
    ensures
        registers_key(bindings_spec(programs), ESC),
        registers_key(bindings_spec(programs), KEY_H),
        registers_key(bindings_spec(programs), KEY_L),
        registers_key(bindings_spec(programs), KEY_J),
        registers_key(bindings_spec(programs), KEY_K),
        registers_key(bindings_spec(programs), KEY_N),
        registers_key(bindings_spec(programs), KEY_D),
        registers_key(bindings_spec(programs), KEY_P),
        forall|i: int| 0 <= i < programs.len() && (#[trigger] programs[i])@.len() != 0
            ==> bindings_spec(programs).contains(HotkeyBinding { id: (10 + i) as i32, modifiers: 0, key: (0x31 + i) as u32 }),
        leader_spec().id == LEADER && leader_spec().modifiers == 0x4004 && leader_spec().key == 0x0D,
        hotkey_action(leader_spec().id, false, programs) == HotkeyAction::RegisterHotkeys,
{
    let pb = program_bindings(programs);
    let bs = bindings_spec(programs);
    let mb = mode_bindings();
    let off = pb.len() as int;
    assert(bs[off + 0] == mb[0]);
    assert(mb[0].key == ESC);
    assert(bs[off + 0].key == ESC);
    assert(registers_key(bs, ESC));
    assert(bs[off + 1] == mb[1]);
    assert(bs[off + 1].key == KEY_H && registers_key(bs, KEY_H));
    assert(bs[off + 2] == mb[2]);
    assert(bs[off + 2].key == KEY_L && registers_key(bs, KEY_L));
    assert(bs[off + 3] == mb[3]);
    assert(bs[off + 3].key == KEY_K && registers_key(bs, KEY_K));
    assert(bs[off + 4] == mb[4]);
    assert(bs[off + 4].key == KEY_J && registers_key(bs, KEY_J));
    assert(bs[off + 5] == mb[5]);
    assert(bs[off + 5].key == KEY_N && registers_key(bs, KEY_N));
    assert(bs[off + 6] == mb[6]);
    assert(bs[off + 6].key == KEY_D && registers_key(bs, KEY_D));
    assert(bs[off + 7] == mb[7]);
    assert(bs[off + 7].key == KEY_P && registers_key(bs, KEY_P));
    assert forall|i: int| 0 <= i < programs.len() && (#[trigger] programs[i])@.len() != 0
        implies bs.contains(HotkeyBinding { id: (10 + i) as i32, modifiers: 0, key: (0x31 + i) as u32 }) by {
        lemma_program_bindings_cover(programs, i);
        let b = HotkeyBinding { id: (10 + i) as i32, modifiers: 0, key: (0x31 + i) as u32 };
        let k = choose|k: int| 0 <= k < pb.len() && pb[k] == b;
        assert(bs[k] == b);
    }
}

} // verus!
