use vstd::prelude::*;

verus! {

/// What the settings application asks of the system for the background program.
#[derive(Clone, Copy, Debug, PartialEq, Eq, Structural)]
pub enum CoreCommand {
    /// Start the background program and keep its child process.
    Spawn,
    /// Kill the child process kept.
    Kill,
    /// Report that the background program already runs.
    AlreadyRunning,
    /// Nothing to do.
    Nothing,
}

/// The settings application's view of the background program: whether the
/// user has it running, and whether a child process is kept.
#[derive(Clone, Copy, Debug, PartialEq, Eq, Structural)]
pub struct CoreProcess {
    pub running: bool,
    pub child: bool,
}

/// The label of the button after a toggle that stopped the program.
pub open spec fn start_label() -> Seq<char> {
    "Start program"@
}

/// The label of the button after a toggle that started the program.
pub open spec fn end_label() -> Seq<char> {
    "End Program"@
}

impl CoreProcess {
    /// Not running, no child process.
    pub fn new() -> (p: CoreProcess)
        ensures
            p == (CoreProcess { running: false, child: false }),
    {
        CoreProcess { running: false, child: false }
    }

    /// Starts the program unless a child process is kept already.
    pub fn start(&mut self) -> (cmd: CoreCommand)
        ensures
            final(self).running == old(self).running,
            final(self).child,
            cmd == (if old(self).child { CoreCommand::AlreadyRunning } else { CoreCommand::Spawn }),
    {
        if !self.child {
            self.child = true;
            CoreCommand::Spawn
        } else {
            CoreCommand::AlreadyRunning
        }
    }

    /// Kills the child process kept, where there is one.
    pub fn stop(&mut self) -> (cmd: CoreCommand)
        ensures
            final(self).running == old(self).running,
            !final(self).child,
            cmd == (if old(self).child { CoreCommand::Kill } else { CoreCommand::Nothing }),
    {
        if self.child {
            self.child = false;
            CoreCommand::Kill
        } else {
            CoreCommand::Nothing
        }
    }
}

/// Toggles the background program: stops it where the user has it running,
/// starts it otherwise, and returns what to do and the button's new label.
/// Where running and keeping a child went together, they still do.
pub fn manage_core(core: &mut CoreProcess) -> (res: (CoreCommand, String))
    ensures
        final(core).running == !old(core).running,
        final(core).child == !old(core).running,
        old(core).running ==> res.0 == (if old(core).child { CoreCommand::Kill } else { CoreCommand::Nothing })
            && res.1@ == start_label(),
        !old(core).running ==> res.0 == (if old(core).child { CoreCommand::AlreadyRunning } else { CoreCommand::Spawn })
            && res.1@ == end_label(),
        old(core).running == old(core).child ==> final(core).running == final(core).child,
{
    if core.running {
        let cmd = core.stop();
        core.running = false;
        (cmd, "Start program".to_string())
    } else {
        let cmd = core.start();
        core.running = true;
        (cmd, "End Program".to_string())
    }
}

/// Whether `c` is an ASCII decimal digit.
pub open spec fn is_digit(c: char) -> bool {
    '0' <= c <= '9'
}

/// The number that the decimal digits `s` write.
pub open spec fn digits_value(s: Seq<char>) -> int
    decreases s.len(),
{
    if s.len() == 0 {
        0
    } else {
        digits_value(s.drop_last()) * 10 + (s.last() as int - '0' as int)
    }
}

/// `s` without a leading `+`.
pub open spec fn unsigned_digits(s: Seq<char>) -> Seq<char> {
    if s.len() > 0 && s[0] == '+' { s.drop_first() } else { s }
}

/// The unsigned number `s` writes: an optional `+` followed by one or more
/// decimal digits and nothing else, with a value that fits a `usize`.
pub open spec fn parse_usize(s: Seq<char>) -> Option<usize> {
    let digits = unsigned_digits(s);
    if digits.len() > 0 && (forall|i: int| 0 <= i < digits.len() ==> is_digit(#[trigger] digits[i]))
        && digits_value(digits) <= usize::MAX {
        Some(digits_value(digits) as usize)
    } else {
        None
    }
}

/// The value of decimal digits is never negative.
proof fn lemma_digits_value_nonneg(t: Seq<char>)
    requires
        forall|i: int| 0 <= i < t.len() ==> is_digit(#[trigger] t[i]),
    ensures
        digits_value(t) >= 0,
    decreases t.len(),
{
    if t.len() > 0 {
        lemma_digits_value_nonneg(t.drop_last());
    }
}

/// More decimal digits never write a smaller number.
proof fn lemma_digits_value_prefix(t: Seq<char>, j: int)
    requires
        0 <= j <= t.len(),
        forall|i: int| 0 <= i < t.len() ==> is_digit(#[trigger] t[i]),
    ensures
        digits_value(t.subrange(0, j)) <= digits_value(t),
    decreases t.len(),
{
    if j < t.len() {
        let u = t.drop_last();
        assert(u.subrange(0, j) =~= t.subrange(0, j));
        lemma_digits_value_prefix(u, j);
        lemma_digits_value_nonneg(u);
    } else {
        assert(t.subrange(0, j) =~= t);
    }
}

/// The program slot a shortcut identifier names, where it is a number: an
/// optional `+` and decimal digits whose value fits a `usize`.
pub fn shortcut_slot(s: &str) -> (slot: Option<usize>)
    ensures
        slot == parse_usize(s@),
{
    let len = s.unicode_len();
    let mut start: usize = 0;
    if len > 0 && s.get_char(0) == '+' {
        start = 1;
    }
    let ghost digits = s@.subrange(start as int, len as int);
    assert(digits =~= unsigned_digits(s@));
    if start >= len {
        return None;
    }
    let mut value: usize = 0;
    let mut i: usize = start;
    while i < len
        invariant
            len == s@.len(),
            start < len,
            start <= i <= len,
            digits == s@.subrange(start as int, len as int),
            digits == unsigned_digits(s@),
            forall|k: int| start <= k < i ==> is_digit(#[trigger] s@[k]),
            value == digits_value(s@.subrange(start as int, i as int)),
        decreases len - i,
    {
        let c = s.get_char(i);
        let code = c as u32;
        assert(digits[i - start] == c);
        if code < 0x30 || code > 0x39 {
            assert(!is_digit(c));
            assert(!is_digit(digits[i - start]));
            assert(!(forall|k: int| 0 <= k < digits.len() ==> is_digit(#[trigger] digits[k])));
            assert(parse_usize(s@) is None);
            return None;
        }
        assert(is_digit(c));
        let d = (code - 0x30) as usize;
        let ghost next = s@.subrange(start as int, i + 1);
        assert(next.drop_last() =~= s@.subrange(start as int, i as int));
        assert(digits_value(next) == value * 10 + d);
        if value > (usize::MAX - d) / 10 {
            assert(value * 10 + d > usize::MAX) by (nonlinear_arith)
                requires
                    value > (usize::MAX - d) / 10,
                    d <= 9,
            ;
            proof {
                if forall|k: int| 0 <= k < digits.len() ==> is_digit(#[trigger] digits[k]) {
                    assert(digits.subrange(0, i + 1 - start) =~= next);
                    lemma_digits_value_prefix(digits, i + 1 - start);
                    assert(digits_value(digits) > usize::MAX);
                }
                assert(parse_usize(s@) is None);
            }
            return None;
        }
        assert(value * 10 + d <= usize::MAX) by (nonlinear_arith)
            requires
                value <= (usize::MAX - d) / 10,
                d <= 9,
        ;
        value = value * 10 + d;
        i = i + 1;
    }
    assert(s@.subrange(start as int, i as int) =~= digits);
    assert forall|k: int| 0 <= k < digits.len() implies is_digit(#[trigger] digits[k]) by {
        assert(digits[k] == s@[start + k]);
    }
    Some(value)
}

} // verus!
