use vstd::prelude::*;

verus! {

/// A window's rectangle in screen coordinates.
#[derive(Clone, Copy, Debug, PartialEq, Eq, Structural)]
pub struct Rect {
    pub right: i32,
    pub left: i32,
    pub top: i32,
    pub bottom: i32,
}

/// Whether removing a border of `border` pixels (read as a signed width, as
/// the window information reports it) from every side of `frame` stays in range.
pub open spec fn inset_fits(frame: Rect, border: u32) -> bool {
    let b = border as i32;
    &&& i32::MIN <= frame.right - b <= i32::MAX
    &&& i32::MIN <= frame.left + b <= i32::MAX
    &&& i32::MIN <= frame.top + b <= i32::MAX
    &&& i32::MIN <= frame.bottom - b <= i32::MAX
}

/// `frame` with `border` taken off every side.
pub open spec fn inset(frame: Rect, border: u32) -> Rect {
    let b = border as i32;
    Rect {
        right: (frame.right - b) as i32,
        left: (frame.left + b) as i32,
        top: (frame.top + b) as i32,
        bottom: (frame.bottom - b) as i32,
    }
}

} // verus!
