use whirlwin::geometry::Rect;
use whirlwin::window::Window;
use whirlwin::window_manager::{Direction, WindowCandidate, WindowCommand, WindowManager, WindowManagerMessage};

fn win(hwnd: isize, left: i32, top: i32, right: i32, bottom: i32, monitor: isize) -> Window {
    Window { hwnd, rect: Rect { right, left, top, bottom }, show_cmd: 1, order: 0, monitor }
}

fn current() -> Window {
    win(1, 100, 100, 200, 200, 9)
}

fn manager() -> WindowManager {
    WindowManager::new(current())
}

fn candidate(hwnd: isize, left: i32, top: i32, right: i32, bottom: i32, title: &str) -> WindowCandidate {
    WindowCandidate {
        hwnd,
        text_length: title.len() as i32,
        visible: true,
        frame: Rect { right, left, top, bottom },
        border: 0,
        show_cmd: 1,
        monitor: 9,
        title: Some(title.to_string()),
    }
}

#[test]
fn new_manager_knows_only_the_current_window() {
    let wm = manager();
    assert_eq!(wm.current(), current());
    assert_eq!(wm.count(), 0);
    for d in [Direction::Left, Direction::Right, Direction::Above, Direction::Below] {
        assert_eq!(wm.neighbour(d), None);
    }
    assert_eq!(wm.next_window(), None);
    assert!(wm.history().is_empty());
    assert_eq!(wm.stack_bottom(), None);
    assert_eq!(
        *wm.blacklist(),
        vec!["Windows Input Experience".to_string(), "Program Manager".to_string(), "Settings".to_string()]
    );
}

#[test]
fn set_window_places_each_side() {
    let mut wm = manager();
    let l = win(2, 0, 100, 90, 200, 9);
    let r = win(3, 210, 100, 300, 200, 9);
    let a = win(4, 100, 0, 200, 90, 9);
    let b = win(5, 100, 210, 200, 300, 9);
    let n = win(6, 120, 120, 180, 180, 9);
    wm.set_window(l);
    wm.set_window(r);
    wm.set_window(a);
    wm.set_window(b);
    wm.set_window(n);
    assert_eq!(wm.neighbour(Direction::Left), Some(l));
    assert_eq!(wm.neighbour(Direction::Right), Some(r));
    assert_eq!(wm.neighbour(Direction::Above), Some(a));
    assert_eq!(wm.neighbour(Direction::Below), Some(b));
    assert_eq!(wm.next_window(), Some(n));
}

#[test]
fn set_window_never_replaces_a_known_neighbour() {
    let mut wm = manager();
    let first = win(2, 0, 100, 90, 200, 9);
    let second = win(3, 0, 100, 50, 200, 9);
    wm.set_window(first);
    wm.set_window(second);
    assert_eq!(wm.neighbour(Direction::Left), Some(first));
    // the second left window is overlapping nothing else, so it becomes next
    assert_eq!(wm.next_window(), Some(second));
}

#[test]
fn set_window_on_another_monitor_is_not_next() {
    let mut wm = manager();
    let other = win(2, 120, 120, 180, 180, 3);
    wm.set_window(other);
    assert_eq!(wm.next_window(), None);
}

#[test]
fn set_window_prefers_left_over_above() {
    let mut wm = manager();
    let corner = win(2, 0, 0, 90, 90, 9);
    wm.set_window(corner);
    assert_eq!(wm.neighbour(Direction::Left), Some(corner));
    assert_eq!(wm.neighbour(Direction::Above), None);
}

#[test]
fn clear_windows_forgets_neighbours_and_history() {
    let mut wm = manager();
    wm.set_window(win(6, 120, 120, 180, 180, 9));
    wm.switch_to_next();
    wm.set_window(win(2, 0, 100, 90, 200, 9));
    wm.clear_windows();
    assert_eq!(wm.neighbour(Direction::Left), None);
    assert_eq!(wm.next_window(), None);
    assert!(wm.history().is_empty());
    assert_eq!(wm.stack_bottom(), None);
    assert_eq!(wm.current().hwnd, 6);
}

#[test]
fn switch_to_direction_focuses_the_neighbour() {
    let mut wm = manager();
    let r = win(3, 210, 100, 300, 200, 9);
    wm.set_window(r);
    wm.set_window(win(6, 120, 120, 180, 180, 9));
    let cmds = wm.switch_to_direction(Direction::Right);
    assert_eq!(cmds, vec![WindowCommand::Focus(3), WindowCommand::Enumerate]);
    assert_eq!(wm.current(), r);
    assert_eq!(wm.next_window(), None);
    assert_eq!(wm.neighbour(Direction::Right), None);
}

#[test]
fn switch_to_empty_direction_does_nothing() {
    let mut wm = manager();
    let cmds = wm.switch_to_direction(Direction::Below);
    assert!(cmds.is_empty());
    assert_eq!(wm.current(), current());
}

#[test]
fn close_window_moves_to_next() {
    let mut wm = manager();
    let n = win(6, 120, 120, 180, 180, 9);
    wm.set_window(n);
    let cmds = wm.close_window();
    assert_eq!(cmds, vec![WindowCommand::Close(1), WindowCommand::Enumerate]);
    assert_eq!(wm.current(), n);
}

#[test]
fn close_window_without_next_only_closes() {
    let mut wm = manager();
    let cmds = wm.close_window();
    assert_eq!(cmds, vec![WindowCommand::Close(1)]);
    assert_eq!(wm.current(), current());
}

#[test]
fn switch_to_next_keeps_history() {
    let mut wm = manager();
    let n = win(6, 120, 120, 180, 180, 9);
    wm.set_window(n);
    let cmds = wm.switch_to_next();
    assert_eq!(cmds, vec![WindowCommand::Focus(6), WindowCommand::SendToBottom(1), WindowCommand::Enumerate]);
    assert_eq!(wm.current(), n);
    assert_eq!(wm.history(), &vec![current()]);
    assert_eq!(wm.stack_bottom(), Some(1));
    assert_eq!(wm.next_window(), None);
}

#[test]
fn switch_to_next_without_next_only_enumerates() {
    let mut wm = manager();
    assert_eq!(wm.switch_to_next(), vec![WindowCommand::Enumerate]);
    assert_eq!(wm.current(), current());
    assert!(wm.history().is_empty());
}

#[test]
fn switch_to_previous_undoes_switch_to_next() {
    let mut wm = manager();
    let n = win(6, 120, 120, 180, 180, 9);
    wm.set_window(n);
    wm.switch_to_next();
    // an enumeration in between fills the next place again
    wm.set_window(win(7, 110, 110, 190, 190, 9));
    let cmds = wm.switch_to_previous();
    assert_eq!(cmds, vec![WindowCommand::Focus(1)]);
    assert_eq!(wm.current(), current());
    assert_eq!(wm.next_window(), Some(n));
    assert!(wm.history().is_empty());
}

#[test]
fn switch_to_previous_without_history_does_nothing() {
    let mut wm = manager();
    assert!(wm.switch_to_previous().is_empty());
    assert_eq!(wm.current(), current());
}

#[test]
fn history_starts_afresh_when_cycle_returns_to_its_bottom() {
    let mut wm = manager();
    let a = win(6, 120, 120, 180, 180, 9);
    wm.set_window(a);
    wm.switch_to_next(); // current a, history [start]
    wm.set_window(current()); // the first window comes round again
    wm.switch_to_next(); // back to start: history restarts with a
    assert_eq!(wm.current(), current());
    assert_eq!(wm.history(), &vec![a]);
    assert_eq!(wm.stack_bottom(), Some(6));
}

#[test]
fn enum_windows_proc_counts_and_places() {
    let mut wm = manager();
    assert!(wm.enum_windows_proc(&candidate(2, 0, 100, 90, 200, "Editor")));
    assert_eq!(wm.count(), 1);
    let l = wm.neighbour(Direction::Left).unwrap();
    assert_eq!(l.hwnd, 2);
    assert_eq!(l.order, 1);
}

#[test]
fn enum_windows_proc_skips_the_current_window() {
    let mut wm = manager();
    assert!(wm.enum_windows_proc(&candidate(1, 0, 100, 90, 200, "Self")));
    assert_eq!(wm.count(), 0);
    assert_eq!(wm.neighbour(Direction::Left), None);
}

#[test]
fn enum_windows_proc_skips_windows_without_text_or_hidden() {
    let mut wm = manager();
    let mut no_text = candidate(2, 0, 100, 90, 200, "x");
    no_text.text_length = 0;
    let mut invisible = candidate(3, 0, 100, 90, 200, "x");
    invisible.visible = false;
    wm.enum_windows_proc(&no_text);
    wm.enum_windows_proc(&invisible);
    assert_eq!(wm.count(), 0);
    assert_eq!(wm.neighbour(Direction::Left), None);
}

#[test]
fn enum_windows_proc_counts_but_skips_minimized_and_blacklisted() {
    let mut wm = manager();
    let mut minimized = candidate(2, 0, 100, 90, 200, "Mail");
    minimized.show_cmd = 2;
    let mut hidden = candidate(3, 0, 100, 90, 200, "Mail");
    hidden.show_cmd = 0;
    let listed = candidate(4, 0, 100, 90, 200, "Program Manager");
    let mut untitled = candidate(5, 0, 100, 90, 200, "x");
    untitled.title = None;
    for c in [&minimized, &hidden, &listed, &untitled] {
        assert!(wm.enum_windows_proc(c));
    }
    assert_eq!(wm.count(), 4);
    assert_eq!(wm.neighbour(Direction::Left), None);
    assert_eq!(wm.next_window(), None);
}

#[test]
fn enum_windows_proc_uses_the_inner_rectangle() {
    let mut wm = manager();
    // the frame touches the current window, but without its border it lies to the left
    let mut c = candidate(2, 0, 100, 104, 200, "Editor");
    c.border = 4;
    wm.enum_windows_proc(&c);
    assert_eq!(wm.neighbour(Direction::Left).unwrap().rect.right, 100);
}

#[test]
fn set_windows_takes_candidates_in_order() {
    let mut wm = manager();
    let cs = vec![
        candidate(2, 0, 100, 90, 200, "A"),
        candidate(3, 0, 100, 80, 200, "B"),
        candidate(4, 210, 100, 300, 200, "C"),
    ];
    wm.set_windows(&cs);
    assert_eq!(wm.count(), 3);
    assert_eq!(wm.neighbour(Direction::Left).unwrap().hwnd, 2);
    assert_eq!(wm.next_window().unwrap().hwnd, 3);
    assert_eq!(wm.neighbour(Direction::Right).unwrap().hwnd, 4);
    assert_eq!(wm.neighbour(Direction::Right).unwrap().order, 3);
}

#[test]
fn handle_message_dispatches() {
    let mut wm = manager();
    assert_eq!(wm.handle_message(WindowManagerMessage::SetWindows), vec![WindowCommand::Enumerate]);
    assert_eq!(wm.handle_message(WindowManagerMessage::SetCurrent), vec![WindowCommand::ReadForeground]);
    assert_eq!(wm.handle_message(WindowManagerMessage::EndListener), vec![WindowCommand::Stop]);
    assert_eq!(wm.handle_message(WindowManagerMessage::CloseWindow), vec![WindowCommand::Close(1)]);
    assert!(wm.handle_message(WindowManagerMessage::SwitchToPrevious).is_empty());
    assert_eq!(wm.handle_message(WindowManagerMessage::SwitchToNext), vec![WindowCommand::Enumerate]);
    wm.set_window(win(2, 0, 100, 90, 200, 9));
    assert!(wm.handle_message(WindowManagerMessage::ClearWindows).is_empty());
    assert_eq!(wm.neighbour(Direction::Left), None);
    wm.set_window(win(2, 0, 100, 90, 200, 9));
    assert_eq!(
        wm.handle_message(WindowManagerMessage::SwitchToDirection(Direction::Left)),
        vec![WindowCommand::Focus(2), WindowCommand::Enumerate]
    );
}

#[test]
fn set_current_changes_only_the_current_window() {
    let mut wm = manager();
    let l = win(2, 0, 100, 90, 200, 9);
    wm.set_window(l);
    let f = win(8, 0, 0, 10, 10, 1);
    wm.set_current(f);
    assert_eq!(wm.current(), f);
    assert_eq!(wm.neighbour(Direction::Left), Some(l));
}

#[test]
fn refresh_after_foreground_change_places_soundly() {
    let mut wm = manager();
    wm.set_window(win(2, 0, 100, 90, 200, 9));
    wm.clear_windows();
    let f = win(3, 500, 500, 600, 600, 9);
    wm.set_current(f);
    wm.set_windows(&vec![candidate(2, 0, 100, 90, 200, "A"), candidate(1, 100, 100, 200, 200, "B")]);
    let l = wm.neighbour(Direction::Left).unwrap();
    assert!(l.rect.right <= f.rect.left);
    assert_eq!(wm.neighbour(Direction::Above).unwrap().hwnd, 1);
}

#[test]
fn switched_to_window_becomes_foreground_with_order_zero() {
    let mut wm = manager();
    wm.set_windows(&vec![candidate(2, 0, 100, 90, 200, "A"), candidate(3, 120, 120, 180, 180, "B")]);
    assert_eq!(wm.neighbour(Direction::Left).unwrap().order, 1);
    assert_eq!(wm.next_window().unwrap().order, 2);
    wm.switch_to_direction(Direction::Left);
    assert_eq!(wm.current().hwnd, 2);
    assert_eq!(wm.current().order, 0);
    wm.set_windows(&vec![candidate(3, 10, 110, 80, 190, "B")]);
    assert_eq!(wm.next_window().unwrap().hwnd, 3);
    wm.switch_to_next();
    assert_eq!(wm.current().hwnd, 3);
    assert_eq!(wm.current().order, 0);
    wm.switch_to_previous();
    assert_eq!(wm.current().hwnd, 2);
    assert_eq!(wm.current().order, 0);
    assert_eq!(wm.next_window().unwrap().order, 0);
}

#[test]
fn set_current_and_close_make_the_window_order_zero() {
    let mut wm = manager();
    let mut f = win(8, 0, 0, 10, 10, 9);
    f.order = 5;
    wm.set_current(f);
    assert_eq!(wm.current().order, 0);
    let mut n = win(6, 2, 2, 8, 8, 9);
    n.order = 4;
    wm.set_window(n);
    wm.close_window();
    assert_eq!(wm.current().hwnd, 6);
    assert_eq!(wm.current().order, 0);
}

#[test]
fn counts_and_needs_title_follow_the_enumeration_rules() {
    let wm = manager();
    let c = candidate(2, 0, 100, 90, 200, "A");
    assert!(wm.counts(&c));
    assert!(wm.needs_title(&c));
    let mut minimized = c.clone();
    minimized.show_cmd = 2;
    assert!(wm.counts(&minimized));
    assert!(!wm.needs_title(&minimized));
    let own = candidate(1, 0, 100, 90, 200, "A");
    assert!(!wm.counts(&own));
}
