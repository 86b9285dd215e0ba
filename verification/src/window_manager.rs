use vstd::prelude::*;

use crate::geometry::{inset, inset_fits, Rect};
use crate::window::{as_foreground, Window};

verus! {

/// A direction in which the manager keeps a neighbour of the current window.
#[derive(Clone, Copy, Debug, PartialEq, Eq, Structural)]
pub enum Direction {
    Left,
    Right,
    Below,
    Above,
}

/// A request to the window manager.
#[derive(Clone, Copy, Debug, PartialEq, Eq, Structural)]
pub enum WindowManagerMessage {
    ClearWindows,
    SetWindows,
    CloseWindow,
    SwitchToNext,
    SwitchToPrevious,
    SwitchToDirection(Direction),
    EndListener,
    SetCurrent,
}

/// What the manager asks of the system after it has decided, in order.
#[derive(Clone, Copy, Debug, PartialEq, Eq, Structural)]
pub enum WindowCommand {
    /// Bring the window with this handle to the foreground.
    Focus(isize),
    /// Move the window with this handle to the bottom of the z-order.
    SendToBottom(isize),
    /// Ask the window with this handle to close.
    Close(isize),
    /// Enumerate the top-level windows and hand them to `set_windows`.
    Enumerate,
    /// Read the foreground window and hand it to `set_current`.
    ReadForeground,
    /// Stop taking messages.
    Stop,
}

/// A top-level window as the enumeration reports it, before the manager
/// decides whether to keep it: the length of its text, whether it is
/// visible, its outer frame and border width, how it is shown, its monitor
/// and its title, where it has one.
#[derive(Clone, Debug, PartialEq, Eq)]
pub struct WindowCandidate {
    pub hwnd: isize,
    pub text_length: i32,
    pub visible: bool,
    pub frame: Rect,
    pub border: u32,
    pub show_cmd: u32,
    pub monitor: isize,
    pub title: Option<String>,
}

/// `show_cmd` values of windows that are hidden (0) or shown minimized (2).
pub const SW_HIDE: u32 = 0;
pub const SW_SHOWMINIMIZED: u32 = 2;

/// The manager's state: the current window, its neighbour in each direction,
/// the window to switch to next, the windows visited before (oldest first),
/// the handle of the window at the bottom of that history, the number of
/// windows counted so far and the titles it never manages.
pub struct WindowManagerView {
    pub current: Window,
    pub left: Option<Window>,
    pub right: Option<Window>,
    pub below: Option<Window>,
    pub above: Option<Window>,
    pub next: Option<Window>,
    pub stack: Seq<Window>,
    pub stack_bottom: Option<isize>,
    pub count: int,
    pub blacklist: Seq<Seq<char>>,
}

/// Whether `title` is one of the titles in `list`.
pub open spec fn title_listed(list: Seq<Seq<char>>, title: Seq<char>) -> bool {
    list.contains(title)
}

impl WindowManagerView {
    /// The current window is the foreground window (order 0), the bottom
    /// of the history names its oldest window, and no title is blacklisted twice.
    pub open spec fn well_formed(self) -> bool {
        &&& self.current.order == 0
        &&& (self.stack.len() > 0 ==> self.stack_bottom == Some(self.stack[0].hwnd))
        &&& self.blacklist.no_duplicates()
    }

    /// The neighbour kept in direction `d`.
    pub open spec fn slot(self, d: Direction) -> Option<Window> {
        match d {
            Direction::Left => self.left,
            Direction::Right => self.right,
            Direction::Below => self.below,
            Direction::Above => self.above,
        }
    }

    /// `w` is wholly on the given side of the current window.
    pub open spec fn lies(self, d: Direction, w: Window) -> bool {
        match d {
            Direction::Left => w.rect.right <= self.current.rect.left,
            Direction::Right => w.rect.left >= self.current.rect.right,
            Direction::Above => w.rect.bottom <= self.current.rect.top,
            Direction::Below => w.rect.top >= self.current.rect.bottom,
        }
    }

    /// The state after `w` is offered: it fills the first free place among
    /// left, right, above, below (where it lies on that side) and next (where
    /// it is on the current window's monitor); otherwise nothing changes.
    pub open spec fn with_window(self, w: Window) -> Self {
        if self.left is None && self.lies(Direction::Left, w) {
            WindowManagerView { left: Some(w), ..self }
        } else if self.right is None && self.lies(Direction::Right, w) {
            WindowManagerView { right: Some(w), ..self }
        } else if self.above is None && self.lies(Direction::Above, w) {
            WindowManagerView { above: Some(w), ..self }
        } else if self.below is None && self.lies(Direction::Below, w) {
            WindowManagerView { below: Some(w), ..self }
        } else if self.next is None && w.monitor == self.current.monitor {
            WindowManagerView { next: Some(w), ..self }
        } else {
            self
        }
    }

    /// The state with no neighbours, no next window and no history.
    pub open spec fn cleared(self) -> Self {
        WindowManagerView {
            left: None,
            right: None,
            below: None,
            above: None,
            next: None,
            stack: Seq::empty(),
            stack_bottom: None,
            ..self
        }
    }

    /// The candidate is counted: it has text, is visible and is not the current window.
    pub open spec fn counts(self, c: WindowCandidate) -> bool {
        c.text_length > 0 && c.visible && c.hwnd != self.current.hwnd
    }

    /// A counted candidate is offered where it is neither hidden nor
    /// minimized and has a title that is not on the blacklist.
    pub open spec fn offers(self, c: WindowCandidate) -> bool {
        &&& c.show_cmd != SW_HIDE
        &&& c.show_cmd != SW_SHOWMINIMIZED
        &&& c.title matches Some(t) && !title_listed(self.blacklist, t@)
    }

    /// The window that a counted candidate becomes.
    pub open spec fn candidate_window(self, c: WindowCandidate) -> Window {
        Window {
            hwnd: c.hwnd,
            rect: inset(c.frame, c.border),
            show_cmd: c.show_cmd,
            order: (self.count + 1) as i32,
            monitor: c.monitor,
        }
    }

    /// The state after one enumerated window.
    pub open spec fn after_candidate(self, c: WindowCandidate) -> Self {
        if self.counts(c) {
            let counted = WindowManagerView { count: self.count + 1, ..self };
            if self.offers(c) {
                counted.with_window(self.candidate_window(c))
            } else {
                counted
            }
        } else {
            self
        }
    }

    /// The state after the enumerated windows, in the order given.
    pub open spec fn after_candidates(self, cs: Seq<WindowCandidate>) -> Self
        decreases cs.len(),
    {
        if cs.len() == 0 {
            self
        } else {
            self.after_candidates(cs.drop_last()).after_candidate(cs.last())
        }
    }

    /// A candidate that is counted and is neither hidden nor minimized: the
    /// one whose title decides whether it is offered.
    pub open spec fn needs_title(self, c: WindowCandidate) -> bool {
        self.counts(c) && c.show_cmd != SW_HIDE && c.show_cmd != SW_SHOWMINIMIZED
    }

    /// How many of the candidates are counted.
    pub open spec fn counted_len(self, cs: Seq<WindowCandidate>) -> int
        decreases cs.len(),
    {
        if cs.len() == 0 {
            0
        } else {
            self.counted_len(cs.drop_last()) + if self.counts(cs.last()) { 1int } else { 0int }
        }
    }

    /// Switching to the neighbour in direction `d`: where there is one it
    /// becomes current, everything else is forgotten, and the system is asked
    /// to focus it and then to enumerate the windows again.
    pub open spec fn after_direction(self, d: Direction) -> (Self, Seq<WindowCommand>) {
        match self.slot(d) {
            Some(w) => (
                WindowManagerView { current: as_foreground(w), ..self.cleared() },
                seq![WindowCommand::Focus(w.hwnd), WindowCommand::Enumerate],
            ),
            None => (self, Seq::empty()),
        }
    }

    /// Closing the current window: the system is asked to close it; where
    /// there is a next window it becomes current and the windows are
    /// enumerated again.
    pub open spec fn after_close(self) -> (Self, Seq<WindowCommand>) {
        let close = seq![WindowCommand::Close(self.current.hwnd)];
        match self.next {
            Some(w) => (WindowManagerView { current: as_foreground(w), ..self }, close.push(WindowCommand::Enumerate)),
            None => (self, close),
        }
    }

    /// Going back: the most recent window of the history becomes current and
    /// the window left becomes the next one.
    pub open spec fn after_previous(self) -> (Self, Seq<WindowCommand>) {
        if self.stack.len() > 0 {
            let w = self.stack.last();
            (
                WindowManagerView {
                    current: as_foreground(w),
                    next: Some(self.current),
                    stack: self.stack.drop_last(),
                    ..self
                },
                seq![WindowCommand::Focus(w.hwnd)],
            )
        } else {
            (self, Seq::empty())
        }
    }

    /// Going forward: the next window becomes current and the window left
    /// joins the history, which starts afresh when the next window is the one
    /// at its bottom. The window left is sent to the bottom of the z-order,
    /// and the windows are enumerated again in any case.
    pub open spec fn after_next(self) -> (Self, Seq<WindowCommand>) {
        match self.next {
            Some(w) => {
                let base = if self.stack_bottom == Some(w.hwnd) { Seq::empty() } else { self.stack };
                let bottom = if base.len() == 0 { Some(self.current.hwnd) } else { self.stack_bottom };
                (
                    WindowManagerView {
                        current: as_foreground(w),
                        next: None,
                        stack: base.push(self.current),
                        stack_bottom: bottom,
                        ..self
                    },
                    seq![
                        WindowCommand::Focus(w.hwnd),
                        WindowCommand::SendToBottom(self.current.hwnd),
                        WindowCommand::Enumerate,
                    ],
                )
            },
            None => (self, seq![WindowCommand::Enumerate]),
        }
    }

    /// The state and the commands after one message.
    pub open spec fn after_message(self, m: WindowManagerMessage) -> (Self, Seq<WindowCommand>) {
        match m {
            WindowManagerMessage::ClearWindows => (self.cleared(), Seq::empty()),
            WindowManagerMessage::SetWindows => (self, seq![WindowCommand::Enumerate]),
            WindowManagerMessage::CloseWindow => self.after_close(),
            WindowManagerMessage::SwitchToNext => self.after_next(),
            WindowManagerMessage::SwitchToPrevious => self.after_previous(),
            WindowManagerMessage::SwitchToDirection(d) => self.after_direction(d),
            WindowManagerMessage::EndListener => (self, seq![WindowCommand::Stop]),
            WindowManagerMessage::SetCurrent => (self, seq![WindowCommand::ReadForeground]),
        }
    }
}

/// The candidates counted in a prefix are no more than those counted in all.
proof fn lemma_counted_len_prefix(v: WindowManagerView, cs: Seq<WindowCandidate>, k: int)
    requires
        0 <= k <= cs.len(),
    ensures
        v.counted_len(cs.take(k)) <= v.counted_len(cs),
    decreases cs.len(),
{
    if k < cs.len() {
        assert(cs.drop_last().take(k) =~= cs.take(k));
        lemma_counted_len_prefix(v, cs.drop_last(), k);
    } else {
        assert(cs.take(k) =~= cs);
    }
}

/// The window manager.
pub struct WindowManager {
    current: Window,
    left: Option<Window>,
    right: Option<Window>,
    below: Option<Window>,
    above: Option<Window>,
    next: Option<Window>,
    window_stack: Vec<Window>,
    stack_bottom: Option<isize>,
    count: i32,
    blacklist: Vec<String>,
}

impl View for WindowManager {
    type V = WindowManagerView;

    closed spec fn view(&self) -> WindowManagerView {
        WindowManagerView {
            current: self.current,
            left: self.left,
            right: self.right,
            below: self.below,
            above: self.above,
            next: self.next,
            stack: self.window_stack@,
            stack_bottom: self.stack_bottom,
            count: self.count as int,
            blacklist: self.blacklist@.map_values(|t: String| t@),
        }
    }
}

impl WindowManager {
    /// A manager whose current window is `current`, with nothing else known,
    /// that never manages the input-experience host, the desktop's program
    /// manager or the settings window.
    pub fn new(current: Window) -> (wm: WindowManager)
        ensures
            wm@.well_formed(),
            wm@ == (WindowManagerView {
                current: as_foreground(current),
                left: None,
                right: None,
                below: None,
                above: None,
                next: None,
                stack: Seq::empty(),
                stack_bottom: None,
                count: 0,
                blacklist: seq![
                    "Windows Input Experience"@,
                    "Program Manager"@,
                    "Settings"@,
                ],
            }),
    {
        let mut names: Vec<String> = Vec::new();
        names.push("Windows Input Experience".to_string());
        names.push("Program Manager".to_string());
        names.push("Settings".to_string());
        let wm = WindowManager {
            current: current.to_foreground(),
            left: None,
            right: None,
            below: None,
            above: None,
            next: None,
            window_stack: Vec::new(),
            stack_bottom: None,
            count: 0,
            blacklist: names,
        };
        proof {
            let names = seq!["Windows Input Experience"@, "Program Manager"@, "Settings"@];
            assert(wm@.blacklist =~= names);
            reveal_strlit("Windows Input Experience");
            reveal_strlit("Program Manager");
            reveal_strlit("Settings");
            assert(names[0].len() != names[1].len());
            assert(names[0].len() != names[2].len());
            assert(names[1].len() != names[2].len());
            assert(names.no_duplicates());
        }
        wm
    }

    /// Makes `window`, read as the foreground window, the current window with
    /// order 0; nothing else changes.
    pub fn set_current(&mut self, window: Window)
        requires
            old(self)@.well_formed(),
        ensures
            final(self)@ == (WindowManagerView { current: as_foreground(window), ..old(self)@ }),
            final(self)@.well_formed(),
    {
        self.current = window.to_foreground();
    }

    /// Offers `window` as a neighbour: it fills the first free place among
    /// left, right, above, below and next whose condition it meets.
    pub fn set_window(&mut self, window: Window)
        requires
            old(self)@.well_formed(),
        ensures
            final(self)@ == old(self)@.with_window(window),
            final(self)@.well_formed(),
    {
        if self.left.is_none() && window.rect.right <= self.current.rect.left {
            self.left = Some(window);
        } else if self.right.is_none() && window.rect.left >= self.current.rect.right {
            self.right = Some(window);
        } else if self.above.is_none() && window.rect.bottom <= self.current.rect.top {
            self.above = Some(window);
        } else if self.below.is_none() && window.rect.top >= self.current.rect.bottom {
            self.below = Some(window);
        } else if self.next.is_none() && window.monitor == self.current.monitor {
            self.next = Some(window);
        }
    }

    /// Forgets the neighbours, the next window and the history.
    pub fn clear_windows(&mut self)
        requires
            old(self)@.well_formed(),
        ensures
            final(self)@ == old(self)@.cleared(),
            final(self)@.well_formed(),
    {
        self.left = None;
        self.right = None;
        self.above = None;
        self.below = None;
        self.next = None;
        self.window_stack.clear();
        self.stack_bottom = None;
    }

    /// Whether `title` is on the blacklist.
    fn is_blacklisted(&self, title: &String) -> (res: bool)
        ensures
            res == title_listed(self@.blacklist, title@),
    {
        let mut i: usize = 0;
        while i < self.blacklist.len()
            invariant
                i <= self.blacklist.len(),
                forall|j: int| 0 <= j < i ==> self.blacklist@[j]@ != title@,
            decreases self.blacklist.len() - i,
        {
            if self.blacklist[i] == *title {
                assert(self@.blacklist[i as int] == title@);
                return true;
            }
            i = i + 1;
        }
        assert(!self@.blacklist.contains(title@)) by {
            if self@.blacklist.contains(title@) {
                let j = choose|j: int| 0 <= j < self@.blacklist.len() && self@.blacklist[j] == title@;
                assert(self.blacklist@[j]@ == title@);
            }
        }
        false
    }
}

impl WindowManager {
    /// Switches to the neighbour in direction `direction`, where there is one.
    pub fn switch_to_direction(&mut self, direction: Direction) -> (cmds: Vec<WindowCommand>)
        requires
            old(self)@.well_formed(),
        ensures
            (final(self)@, cmds@) == old(self)@.after_direction(direction),
            final(self)@.well_formed(),
    {
        let taken = match direction {
            Direction::Left => self.left.take(),
            Direction::Right => self.right.take(),
            Direction::Below => self.below.take(),
            Direction::Above => self.above.take(),
        };
        let mut cmds: Vec<WindowCommand> = Vec::new();
        match taken {
            Some(window) => {
                cmds.push(WindowCommand::Focus(window.hwnd));
                self.clear_windows();
                self.current = window.to_foreground();
                cmds.push(WindowCommand::Enumerate);
            },
            None => {},
        }
        cmds
    }

    /// Closes the current window; the next window, where there is one,
    /// becomes current.
    pub fn close_window(&mut self) -> (cmds: Vec<WindowCommand>)
        requires
            old(self)@.well_formed(),
        ensures
            (final(self)@, cmds@) == old(self)@.after_close(),
            final(self)@.well_formed(),
    {
        let mut cmds: Vec<WindowCommand> = Vec::new();
        cmds.push(WindowCommand::Close(self.current.hwnd));
        match self.next {
            Some(window) => {
                self.current = window.to_foreground();
                cmds.push(WindowCommand::Enumerate);
            },
            None => {},
        }
        cmds
    }

    /// Goes back to the most recently left window, where there is one.
    pub fn switch_to_previous(&mut self) -> (cmds: Vec<WindowCommand>)
        requires
            old(self)@.well_formed(),
        ensures
            (final(self)@, cmds@) == old(self)@.after_previous(),
            final(self)@.well_formed(),
    {
        let mut cmds: Vec<WindowCommand> = Vec::new();
        match self.window_stack.pop() {
            Some(window) => {
                self.next = Some(self.current);
                self.current = window.to_foreground();
                cmds.push(WindowCommand::Focus(window.hwnd));
            },
            None => {},
        }
        cmds
    }

    /// Goes forward to the next window, where there is one, keeping the
    /// window left in the history; the windows are enumerated again in any case.
    pub fn switch_to_next(&mut self) -> (cmds: Vec<WindowCommand>)
        requires
            old(self)@.well_formed(),
        ensures
            (final(self)@, cmds@) == old(self)@.after_next(),
            final(self)@.well_formed(),
    {
        let mut cmds: Vec<WindowCommand> = Vec::new();
        match self.next.take() {
            Some(window) => {
                cmds.push(WindowCommand::Focus(window.hwnd));
                cmds.push(WindowCommand::SendToBottom(self.current.hwnd));
                match self.stack_bottom {
                    Some(hwnd) => {
                        if hwnd == window.hwnd {
                            self.window_stack.clear();
                        }
                    },
                    None => {},
                }
                if self.window_stack.is_empty() {
                    let left_behind = self.current;
                    self.stack_bottom = Some(left_behind.hwnd);
                    self.window_stack.push(left_behind);
                } else {
                    self.window_stack.push(self.current);
                }
                self.current = window.to_foreground();
            },
            None => {},
        }
        cmds.push(WindowCommand::Enumerate);
        cmds
    }

    /// Takes one enumerated window: a window with text that is visible and is
    /// not the current one is counted, and it is offered as a neighbour where
    /// it is neither hidden nor minimized and its title is not blacklisted.
    /// Always asks for the enumeration to go on.
    pub fn enum_windows_proc(&mut self, candidate: &WindowCandidate) -> (go_on: bool)
        requires
            old(self)@.well_formed(),
            old(self)@.counts(*candidate) ==> {
                &&& old(self)@.count < i32::MAX
                &&& inset_fits(candidate.frame, candidate.border)
            },
        ensures
            final(self)@ == old(self)@.after_candidate(*candidate),
            final(self)@.well_formed(),
            go_on,
    {
        if candidate.text_length > 0 && candidate.visible && candidate.hwnd != self.current.hwnd {
            self.count = self.count + 1;
            let window = Window::new(
                candidate.hwnd,
                self.count,
                candidate.frame,
                candidate.border,
                candidate.show_cmd,
                candidate.monitor,
            );
            if candidate.show_cmd != SW_HIDE && candidate.show_cmd != SW_SHOWMINIMIZED {
                match &candidate.title {
                    Some(title) => {
                        if !self.is_blacklisted(title) {
                            self.set_window(window);
                        }
                    },
                    None => {},
                }
            }
        }
        true
    }
}

impl WindowManager {
    /// Takes the enumerated top-level windows, in the order of enumeration.
    pub fn set_windows(&mut self, candidates: &Vec<WindowCandidate>)
        requires
            old(self)@.well_formed(),
            old(self)@.count + old(self)@.counted_len(candidates@) <= i32::MAX,
            forall|i: int|
                0 <= i < candidates@.len() && #[trigger] old(self)@.counts(candidates@[i])
                    ==> inset_fits(candidates@[i].frame, candidates@[i].border),
        ensures
            final(self)@ == old(self)@.after_candidates(candidates@),
            final(self)@.well_formed(),
    {
        let ghost start = self@;
        let mut i: usize = 0;
        while i < candidates.len()
            invariant
                i <= candidates@.len(),
                self@ == start.after_candidates(candidates@.take(i as int)),
                self@.well_formed(),
                self@.current == start.current,
                self@.count == start.count + start.counted_len(candidates@.take(i as int)),
                start.count + start.counted_len(candidates@) <= i32::MAX,
                forall|k: int|
                    0 <= k < candidates@.len() && #[trigger] start.counts(candidates@[k])
                        ==> inset_fits(candidates@[k].frame, candidates@[k].border),
            decreases candidates@.len() - i,
        {
            assert(self@.counts(candidates@[i as int]) == start.counts(candidates@[i as int]));
            assert(candidates@.take(i + 1).drop_last() =~= candidates@.take(i as int));
            proof {
                lemma_counted_len_prefix(start, candidates@, i + 1);
            }
            self.enum_windows_proc(&candidates[i]);
            i = i + 1;
        }
        assert(candidates@.take(i as int) =~= candidates@);
    }

    /// Whether the candidate is counted: it has text, is visible and is not
    /// the current window.
    pub fn counts(&self, candidate: &WindowCandidate) -> (res: bool)
        ensures
            res == self@.counts(*candidate),
    {
        candidate.text_length > 0 && candidate.visible && candidate.hwnd != self.current.hwnd
    }

    /// Whether the candidate's title decides if it is offered: it is counted
    /// and is neither hidden nor minimized.
    pub fn needs_title(&self, candidate: &WindowCandidate) -> (res: bool)
        ensures
            res == self@.needs_title(*candidate),
    {
        self.counts(candidate) && candidate.show_cmd != SW_HIDE && candidate.show_cmd != SW_SHOWMINIMIZED
    }

    /// The current window.
    pub fn current(&self) -> (w: Window)
        ensures
            w == self@.current,
    {
        self.current
    }

    /// The number of windows counted so far.
    pub fn count(&self) -> (n: i32)
        ensures
            n == self@.count,
    {
        self.count
    }

    /// The titles never managed.
    pub fn blacklist(&self) -> (b: &Vec<String>)
        ensures
            b@.map_values(|t: String| t@) == self@.blacklist,
    {
        &self.blacklist
    }

    /// Decides what one message asks: the state changes it makes and what the
    /// system is to do next.
    pub fn handle_message(&mut self, message: WindowManagerMessage) -> (cmds: Vec<WindowCommand>)
        requires
            old(self)@.well_formed(),
        ensures
            (final(self)@, cmds@) == old(self)@.after_message(message),
            final(self)@.well_formed(),
    {
        match message {
            WindowManagerMessage::ClearWindows => {
                self.clear_windows();
                Vec::new()
            },
            WindowManagerMessage::SetWindows => {
                let mut cmds: Vec<WindowCommand> = Vec::new();
                cmds.push(WindowCommand::Enumerate);
                cmds
            },
            WindowManagerMessage::CloseWindow => self.close_window(),
            WindowManagerMessage::SwitchToNext => self.switch_to_next(),
            WindowManagerMessage::SwitchToPrevious => self.switch_to_previous(),
            WindowManagerMessage::SwitchToDirection(direction) => self.switch_to_direction(direction),
            WindowManagerMessage::EndListener => {
                let mut cmds: Vec<WindowCommand> = Vec::new();
                cmds.push(WindowCommand::Stop);
                cmds
            },
            WindowManagerMessage::SetCurrent => {
                let mut cmds: Vec<WindowCommand> = Vec::new();
                cmds.push(WindowCommand::ReadForeground);
                cmds
            },
        }
    }
}

impl WindowManager {
    /// The neighbour kept in direction `direction`.
    pub fn neighbour(&self, direction: Direction) -> (w: Option<Window>)
        ensures
            w == self@.slot(direction),
    {
        match direction {
            Direction::Left => self.left,
            Direction::Right => self.right,
            Direction::Below => self.below,
            Direction::Above => self.above,
        }
    }

    /// The window to switch to next.
    pub fn next_window(&self) -> (w: Option<Window>)
        ensures
            w == self@.next,
    {
        self.next
    }

    /// The windows left before, oldest first.
    pub fn history(&self) -> (h: &Vec<Window>)
        ensures
            h@ == self@.stack,
    {
        &self.window_stack
    }

    /// The handle of the window at the bottom of the history.
    pub fn stack_bottom(&self) -> (b: Option<isize>)
        ensures
            b == self@.stack_bottom,
    {
        self.stack_bottom
    }
}

} // verus!
