use whirlwin::geometry::Rect;
use whirlwin::window::Window;

fn frame(left: i32, top: i32, right: i32, bottom: i32) -> Rect {
    Rect { right, left, top, bottom }
}

#[test]
fn set_rect_removes_the_border_on_every_side() {
    let r = Window::set_rect(frame(10, 20, 110, 220), 4);
    assert_eq!(r, Rect { right: 106, left: 14, top: 24, bottom: 216 });
}

#[test]
fn set_rect_without_border_keeps_the_frame() {
    let f = frame(-50, -40, 30, 20);
    assert_eq!(Window::set_rect(f, 0), f);
}

#[test]
fn new_window_keeps_handle_order_and_monitor() {
    let w = Window::new(77, 3, frame(0, 0, 200, 100), 8, 1, 5);
    assert_eq!(w.hwnd, 77);
    assert_eq!(w.order, 3);
    assert_eq!(w.monitor, 5);
    assert_eq!(w.show_cmd, 1);
    assert_eq!(w.rect, Rect { right: 192, left: 8, top: 8, bottom: 92 });
}

fn utf16(s: &str) -> Vec<u16> {
    s.encode_utf16().collect()
}

#[test]
fn get_title_trims_trailing_nuls() {
    let mut buffer = utf16("Notepad");
    buffer.push(0);
    buffer.push(0);
    assert_eq!(Window::get_title(7, &buffer, 7), Some("Notepad".to_string()));
}

#[test]
fn get_title_without_text_is_none() {
    let buffer = vec![0u16; 1];
    assert_eq!(Window::get_title(0, &buffer, 0), None);
}

#[test]
fn get_title_when_nothing_copied_is_none() {
    let buffer = utf16("abc");
    assert_eq!(Window::get_title(3, &buffer, 0), None);
}

#[test]
fn get_title_decodes_surrogate_pairs() {
    let mut buffer = utf16("a\u{1F600}b");
    buffer.push(0);
    assert_eq!(buffer.len(), 5);
    assert_eq!(Window::get_title(4, &buffer, 4), Some("a\u{1F600}b".to_string()));
}

#[test]
fn get_title_keeps_inner_nuls() {
    let buffer = vec![0x41u16, 0, 0x42, 0, 0];
    assert_eq!(Window::get_title(3, &buffer, 3), Some("A\u{0}B".to_string()));
}
