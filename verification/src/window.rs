use vstd::prelude::*;

use crate::geometry::{inset, inset_fits, Rect};

verus! {

/// What the window manager knows of a top-level window: its handle, its
/// rectangle without the border, how it is shown, its place in the order of
/// enumeration (the foreground window has order 0) and its monitor.
#[derive(Clone, Copy, Debug, PartialEq, Eq, Structural)]
pub struct Window {
    pub hwnd: isize,
    pub rect: Rect,
    pub show_cmd: u32,
    pub order: i32,
    pub monitor: isize,
}

/// `w` as the foreground window, which has order 0.
pub open spec fn as_foreground(w: Window) -> Window {
    Window { order: 0, ..w }
}

/// `u` is a UTF-16 surrogate code unit.
pub open spec fn is_surrogate(u: u16) -> bool {
    0xD800 <= u <= 0xDFFF
}

/// The characters that the UTF-16 code units `units` encode, or `None` where
/// they hold an unpaired surrogate.
pub open spec fn decode_utf16(units: Seq<u16>) -> Option<Seq<char>>
    decreases units.len(),
{
    if units.len() == 0 {
        Some(Seq::empty())
    } else if !is_surrogate(units[0]) {
        match decode_utf16(units.drop_first()) {
            Some(rest) => Some(seq![units[0] as char] + rest),
            None => None,
        }
    } else if units[0] <= 0xDBFF && units.len() >= 2 && 0xDC00 <= units[1] <= 0xDFFF {
        let code = 0x10000 + (units[0] - 0xD800) * 0x400 + (units[1] - 0xDC00);
        match decode_utf16(units.subrange(2, units.len() as int)) {
            Some(rest) => Some(seq![code as char] + rest),
            None => None,
        }
    } else {
        None
    }
}

/// `s` without the NUL characters at its end.
pub open spec fn trim_trailing_nul(s: Seq<char>) -> Seq<char>
    decreases s.len(),
{
    if s.len() > 0 && s.last() == '\0' {
        trim_trailing_nul(s.drop_last())
    } else {
        s
    }
}

/// The title held in a buffer of UTF-16 code units that the system filled.
pub open spec fn title_of(buffer: Seq<u16>) -> Seq<char> {
    trim_trailing_nul(decode_utf16(buffer).unwrap())
}

/// Calls `String::from_utf16`, which decodes the UTF-16 code units and fails
/// on any invalid data (an unpaired surrogate). The contract claims that it
/// decodes exactly as `decode_utf16` does and fails exactly where that gives `None`.
#[verifier::external_body]
fn string_from_utf16(units: &[u16]) -> (res: Option<String>)
    ensures
        match res {
            Some(s) => decode_utf16(units@) == Some(s@),
            None => decode_utf16(units@) is None,
        },
{
    String::from_utf16(units).ok()
}

/// `s` without the NUL characters at its end.
fn trim_end_nul(s: &str) -> (res: &str)
    ensures
        res@ == trim_trailing_nul(s@),
{
    let mut n = s.unicode_len();
    assert(s@.subrange(0, n as int) =~= s@);
    while n > 0 && s.get_char(n - 1) == '\0'
        invariant
            n <= s@.len(),
            trim_trailing_nul(s@.subrange(0, n as int)) == trim_trailing_nul(s@),
        decreases n,
    {
        assert(s@.subrange(0, n as int).drop_last() =~= s@.subrange(0, n - 1));
        n = n - 1;
    }
    s.substring_char(0, n)
}

impl Window {
    /// A window seen by the manager: its rectangle is the outer frame with the
    /// border taken off.
    pub fn new(hwnd: isize, order: i32, frame: Rect, border: u32, show_cmd: u32, monitor: isize) -> (w: Window)
        requires
            inset_fits(frame, border),
        ensures
            w == (Window { hwnd, rect: inset(frame, border), show_cmd, order, monitor }),
    {
        Window { hwnd, rect: Self::set_rect(frame, border), show_cmd, order, monitor }
    }

    /// This window as the foreground window: order 0, all else kept.
    pub fn to_foreground(&self) -> (f: Window)
        ensures
            f == as_foreground(*self),
    {
        Window { hwnd: self.hwnd, rect: self.rect, show_cmd: self.show_cmd, order: 0, monitor: self.monitor }
    }

    /// The rectangle of a window without its border: each side of the outer
    /// frame moves inwards by the border width.
    pub fn set_rect(frame: Rect, border: u32) -> (r: Rect)
        requires
            inset_fits(frame, border),
        ensures
            r == inset(frame, border),
    {
        let b = border as i32;
        Rect {
            right: frame.right - b,
            left: frame.left + b,
            top: frame.top + b,
            bottom: frame.bottom - b,
        }
    }

    /// A window's title, from what the system reported: the length of its
    /// text, the buffer it copied the text into, and the number of units it
    /// copied. A window whose text is empty, or whose text could not be
    /// copied, has no title; otherwise the title is the decoded buffer without
    /// its trailing NULs.
    pub fn get_title(text_length: i32, buffer: &[u16], copied: i32) -> (res: Option<String>)
        requires
            text_length != 0 && copied != 0 ==> decode_utf16(buffer@) is Some,
        ensures
            text_length == 0 || copied == 0 ==> res is None,
            text_length != 0 && copied != 0 ==> (res matches Some(t) && t@ == title_of(buffer@)),
    {
        if text_length == 0 {
            return None;
        }
        if copied == 0 {
            return None;
        }
        match string_from_utf16(buffer) {
            Some(decoded) => {
                let trimmed = trim_end_nul(decoded.as_str());
                Some(trimmed.to_owned())
            },
            None => None,
        }
    }
}

} // verus!
