//! Terminal mode bookkeeping: which modes are active, which effect a request
//! needs, what must be undone on drop, and the text of a rendered frame.

use vstd::prelude::*;
use crate::text::push_char;

verus! {

/// An operation requested of the terminal.
#[derive(Debug, Clone, Copy, PartialEq, Eq, Structural)]
pub enum TerminalRequest {
    /// Enter raw mode.
    EnterRawMode,
    /// Leave raw mode.
    ExitRawMode,
    /// Switch to the alternate screen buffer.
    EnterAltScreen,
    /// Switch back from the alternate screen buffer.
    ExitAltScreen,
    /// Enable mouse capture.
    EnableMouse,
    /// Enable mouse reporting of cell motion.
    EnableMouseCellMotion,
    /// Enable mouse reporting of all motion.
    EnableMouseAllMotion,
    /// Disable mouse capture.
    DisableMouse,
    /// Enable focus change reporting.
    EnableFocusReporting,
    /// Disable focus change reporting.
    DisableFocusReporting,
    /// Enable bracketed paste.
    EnableBracketedPaste,
    /// Disable bracketed paste.
    DisableBracketedPaste,
    /// Show the cursor.
    ShowCursor,
    /// Hide the cursor.
    HideCursor,
    /// Clear the screen.
    Clear,
}

/// An effect to perform on the real terminal.
#[derive(Debug, Clone, Copy, PartialEq, Eq, Structural)]
pub enum TerminalOp {
    /// Turn raw mode on.
    EnableRawMode,
    /// Turn raw mode off.
    DisableRawMode,
    /// Enter the alternate screen, clear it and flush.
    EnterAlternateScreen,
    /// Leave the alternate screen and flush.
    LeaveAlternateScreen,
    /// Enable mouse capture.
    EnableMouseCapture,
    /// Disable mouse capture.
    DisableMouseCapture,
    /// Enable focus change events.
    EnableFocusChange,
    /// Disable focus change events.
    DisableFocusChange,
    /// Enable bracketed paste.
    EnableBracketedPaste,
    /// Disable bracketed paste.
    DisableBracketedPaste,
    /// Show the cursor.
    ShowCursor,
    /// Hide the cursor.
    HideCursor,
    /// Clear the whole screen.
    ClearAll,
}

/// The modes a terminal is in.
#[derive(Debug, Clone, Copy, PartialEq, Eq, Structural)]
pub struct TerminalState {
    /// Raw mode is on.
    pub raw_mode: bool,
    /// The alternate screen is active.
    pub alt_screen: bool,
    /// Mouse capture is on.
    pub mouse_enabled: bool,
    /// Focus reporting is on.
    pub focus_reporting: bool,
    /// The cursor is visible.
    pub cursor_visible: bool,
}

/// The modes of a terminal that has not been touched: all off, cursor visible.
pub open spec fn initial_terminal_state() -> TerminalState {
    TerminalState {
        raw_mode: false,
        alt_screen: false,
        mouse_enabled: false,
        focus_reporting: false,
        cursor_visible: true,
    }
}

/// Whether a request only switches a mode, so that asking twice is asking once.
pub open spec fn is_mode_request(req: TerminalRequest) -> bool {
    !(req is EnableBracketedPaste || req is DisableBracketedPaste || req is Clear)
}

impl TerminalState {
    /// The effect that `req` needs in this state: none when the mode it asks
    /// for is already on (or off); bracketed paste and clearing are always
    /// performed.
    pub open spec fn spec_effect(self, req: TerminalRequest) -> Option<TerminalOp> {
        match req {
            TerminalRequest::EnterRawMode => if !self.raw_mode { Some(TerminalOp::EnableRawMode) } else { None },
            TerminalRequest::ExitRawMode => if self.raw_mode { Some(TerminalOp::DisableRawMode) } else { None },
            TerminalRequest::EnterAltScreen => if !self.alt_screen {
                Some(TerminalOp::EnterAlternateScreen)
            } else {
                None
            },
            TerminalRequest::ExitAltScreen => if self.alt_screen {
                Some(TerminalOp::LeaveAlternateScreen)
            } else {
                None
            },
            TerminalRequest::EnableMouse
            | TerminalRequest::EnableMouseCellMotion
            | TerminalRequest::EnableMouseAllMotion => if !self.mouse_enabled {
                Some(TerminalOp::EnableMouseCapture)
            } else {
                None
            },
            TerminalRequest::DisableMouse => if self.mouse_enabled {
                Some(TerminalOp::DisableMouseCapture)
            } else {
                None
            },
            TerminalRequest::EnableFocusReporting => if !self.focus_reporting {
                Some(TerminalOp::EnableFocusChange)
            } else {
                None
            },
            TerminalRequest::DisableFocusReporting => if self.focus_reporting {
                Some(TerminalOp::DisableFocusChange)
            } else {
                None
            },
            TerminalRequest::EnableBracketedPaste => Some(TerminalOp::EnableBracketedPaste),
            TerminalRequest::DisableBracketedPaste => Some(TerminalOp::DisableBracketedPaste),
            TerminalRequest::ShowCursor => if !self.cursor_visible { Some(TerminalOp::ShowCursor) } else { None },
            TerminalRequest::HideCursor => if self.cursor_visible { Some(TerminalOp::HideCursor) } else { None },
            TerminalRequest::Clear => Some(TerminalOp::ClearAll),
        }
    }

    /// The modes after `req` has been carried out.
    pub open spec fn spec_after(self, req: TerminalRequest) -> TerminalState {
        match req {
            TerminalRequest::EnterRawMode => TerminalState { raw_mode: true, ..self },
            TerminalRequest::ExitRawMode => TerminalState { raw_mode: false, ..self },
            TerminalRequest::EnterAltScreen => TerminalState { alt_screen: true, ..self },
            TerminalRequest::ExitAltScreen => TerminalState { alt_screen: false, ..self },
            TerminalRequest::EnableMouse
            | TerminalRequest::EnableMouseCellMotion
            | TerminalRequest::EnableMouseAllMotion => TerminalState { mouse_enabled: true, ..self },
            TerminalRequest::DisableMouse => TerminalState { mouse_enabled: false, ..self },
            TerminalRequest::EnableFocusReporting => TerminalState { focus_reporting: true, ..self },
            TerminalRequest::DisableFocusReporting => TerminalState { focus_reporting: false, ..self },
            TerminalRequest::ShowCursor => TerminalState { cursor_visible: true, ..self },
            TerminalRequest::HideCursor => TerminalState { cursor_visible: false, ..self },
            _ => self,
        }
    }

    /// A terminal that has not been touched.
    pub fn new() -> (s: Self)
        ensures
            s == initial_terminal_state(),
    {
        TerminalState {
            raw_mode: false,
            alt_screen: false,
            mouse_enabled: false,
            focus_reporting: false,
            cursor_visible: true,
        }
    }

    /// The effect that `req` needs now, if any.
    pub fn effect(&self, req: TerminalRequest) -> (op: Option<TerminalOp>)
        ensures
            op == self.spec_effect(req),
    {
        match req {
            TerminalRequest::EnterRawMode => if !self.raw_mode { Some(TerminalOp::EnableRawMode) } else { None },
            TerminalRequest::ExitRawMode => if self.raw_mode { Some(TerminalOp::DisableRawMode) } else { None },
            TerminalRequest::EnterAltScreen => if !self.alt_screen {
                Some(TerminalOp::EnterAlternateScreen)
            } else {
                None
            },
            TerminalRequest::ExitAltScreen => if self.alt_screen {
                Some(TerminalOp::LeaveAlternateScreen)
            } else {
                None
            },
            TerminalRequest::EnableMouse
            | TerminalRequest::EnableMouseCellMotion
            | TerminalRequest::EnableMouseAllMotion => if !self.mouse_enabled {
                Some(TerminalOp::EnableMouseCapture)
            } else {
                None
            },
            TerminalRequest::DisableMouse => if self.mouse_enabled {
                Some(TerminalOp::DisableMouseCapture)
            } else {
                None
            },
            TerminalRequest::EnableFocusReporting => if !self.focus_reporting {
                Some(TerminalOp::EnableFocusChange)
            } else {
                None
            },
            TerminalRequest::DisableFocusReporting => if self.focus_reporting {
                Some(TerminalOp::DisableFocusChange)
            } else {
                None
            },
            TerminalRequest::EnableBracketedPaste => Some(TerminalOp::EnableBracketedPaste),
            TerminalRequest::DisableBracketedPaste => Some(TerminalOp::DisableBracketedPaste),
            TerminalRequest::ShowCursor => if !self.cursor_visible { Some(TerminalOp::ShowCursor) } else { None },
            TerminalRequest::HideCursor => if self.cursor_visible { Some(TerminalOp::HideCursor) } else { None },
            TerminalRequest::Clear => Some(TerminalOp::ClearAll),
        }
    }

    /// Records that `req` has been carried out (its effect, if any, succeeded).
    pub fn record(&mut self, req: TerminalRequest)
        ensures
            *final(self) == old(self).spec_after(req),
    {
        match req {
            TerminalRequest::EnterRawMode => self.raw_mode = true,
            TerminalRequest::ExitRawMode => self.raw_mode = false,
            TerminalRequest::EnterAltScreen => self.alt_screen = true,
            TerminalRequest::ExitAltScreen => self.alt_screen = false,
            TerminalRequest::EnableMouse
            | TerminalRequest::EnableMouseCellMotion
            | TerminalRequest::EnableMouseAllMotion => self.mouse_enabled = true,
            TerminalRequest::DisableMouse => self.mouse_enabled = false,
            TerminalRequest::EnableFocusReporting => self.focus_reporting = true,
            TerminalRequest::DisableFocusReporting => self.focus_reporting = false,
            TerminalRequest::ShowCursor => self.cursor_visible = true,
            TerminalRequest::HideCursor => self.cursor_visible = false,
            _ => {},
        }
    }
}

/// The requests that put a terminal back in order, in the order it is done
/// when a terminal is dropped: show the cursor, disable the mouse and focus
/// reporting, leave the alternate screen, leave raw mode.
pub open spec fn restore_requests() -> Seq<TerminalRequest> {
    seq![
        TerminalRequest::ShowCursor,
        TerminalRequest::DisableMouse,
        TerminalRequest::DisableFocusReporting,
        TerminalRequest::ExitAltScreen,
        TerminalRequest::ExitRawMode,
    ]
}

/// The effects needed by `reqs` carried out one after the other from `s`.
pub open spec fn effects_of(s: TerminalState, reqs: Seq<TerminalRequest>) -> Seq<TerminalOp>
    decreases reqs.len(),
{
    if reqs.len() == 0 {
        Seq::empty()
    } else {
        let rest = effects_of(s.spec_after(reqs[0]), reqs.drop_first());
        match s.spec_effect(reqs[0]) {
            Some(op) => seq![op] + rest,
            None => rest,
        }
    }
}

/// The modes after `reqs` have been carried out one after the other from `s`.
pub open spec fn state_after(s: TerminalState, reqs: Seq<TerminalRequest>) -> TerminalState
    decreases reqs.len(),
{
    if reqs.len() == 0 {
        s
    } else {
        state_after(s.spec_after(reqs[0]), reqs.drop_first())
    }
}

impl TerminalState {
    /// The effects that put the terminal back in order when it is dropped:
    /// those of [`restore_requests`] that this state needs.
    pub fn drop_ops(&self) -> (ops: Vec<TerminalOp>)
        ensures
            ops@ == effects_of(*self, restore_requests()),
    {
        let mut ops: Vec<TerminalOp> = Vec::new();
        if !self.cursor_visible {
            ops.push(TerminalOp::ShowCursor);
        }
        if self.mouse_enabled {
            ops.push(TerminalOp::DisableMouseCapture);
        }
        if self.focus_reporting {
            ops.push(TerminalOp::DisableFocusChange);
        }
        if self.alt_screen {
            ops.push(TerminalOp::LeaveAlternateScreen);
        }
        if self.raw_mode {
            ops.push(TerminalOp::DisableRawMode);
        }
        proof {
            let r = restore_requests();
            let s0 = *self;
            let s1 = s0.spec_after(r[0]);
            let s2 = s1.spec_after(r[1]);
            let s3 = s2.spec_after(r[2]);
            let s4 = s3.spec_after(r[3]);
            let s5 = s4.spec_after(r[4]);
            assert(r.drop_first().drop_first().drop_first().drop_first().drop_first() =~= Seq::<TerminalRequest>::empty());
            assert(effects_of(s5, Seq::<TerminalRequest>::empty()) =~= Seq::<TerminalOp>::empty());
            reveal_with_fuel(effects_of, 6);
            assert(ops@ =~= effects_of(*self, restore_requests()));
        }
        ops
    }
}

/// Whether `off` switches off the mode that `on` switches on.
pub open spec fn undoes(off: TerminalRequest, on: TerminalRequest) -> bool {
    match on {
        TerminalRequest::EnterRawMode => off == TerminalRequest::ExitRawMode,
        TerminalRequest::EnterAltScreen => off == TerminalRequest::ExitAltScreen,
        TerminalRequest::EnableMouse
        | TerminalRequest::EnableMouseCellMotion
        | TerminalRequest::EnableMouseAllMotion => off == TerminalRequest::DisableMouse,
        TerminalRequest::EnableFocusReporting => off == TerminalRequest::DisableFocusReporting,
        TerminalRequest::HideCursor => off == TerminalRequest::ShowCursor,
        _ => false,
    }
}

/// Asking for a mode twice is asking once: once a mode request has been
/// carried out, the same request needs no effect and changes nothing.
pub proof fn law_mode_request_idempotent(s: TerminalState, req: TerminalRequest)
    requires
        is_mode_request(req),
    ensures
        s.spec_after(req).spec_effect(req) is None,
        s.spec_after(req).spec_after(req) == s.spec_after(req),
{
}

/// A request that needs no effect leaves the modes as they were.
pub proof fn law_no_effect_no_change(s: TerminalState, req: TerminalRequest)
    requires
        s.spec_effect(req) is None,
    ensures
        s.spec_after(req) == s,
{
}

/// Switching a mode on when it was off and then switching it off again gives
/// back the modes the terminal started with.
pub proof fn law_on_then_off(s: TerminalState, on: TerminalRequest, off: TerminalRequest)
    requires
        undoes(off, on),
        s.spec_effect(on) is Some,
    ensures
        s.spec_after(on).spec_after(off) == s,
{
}

/// Carrying out `a` and then `b` is carrying out `a + b`.
pub proof fn lemma_state_after_concat(s: TerminalState, a: Seq<TerminalRequest>, b: Seq<TerminalRequest>)
    ensures
        state_after(s, a + b) == state_after(state_after(s, a), b),
    decreases a.len(),
{
    if a.len() == 0 {
        assert(a + b =~= b);
    } else {
        assert((a + b).drop_first() =~= a.drop_first() + b);
        lemma_state_after_concat(s.spec_after(a[0]), a.drop_first(), b);
    }
}

/// Dropping a terminal puts it back in its initial modes: carrying out the
/// restore requests from any state gives the initial state, and they need no
/// effect at all exactly when the terminal is already in its initial state.
pub proof fn law_drop_restores(s: TerminalState)
    ensures
        state_after(s, restore_requests()) == initial_terminal_state(),
        (effects_of(s, restore_requests()).len() == 0) == (s == initial_terminal_state()),
{
    let r = restore_requests();
    assert(r.drop_first().drop_first().drop_first().drop_first().drop_first() =~= Seq::<TerminalRequest>::empty());
    reveal_with_fuel(state_after, 6);
    reveal_with_fuel(effects_of, 6);
}

/// What an effect does to the modes of a terminal: each switching effect
/// turns its own mode on or off and leaves the others; bracketed paste and
/// clearing touch no tracked mode.
pub open spec fn op_result(op: TerminalOp, t: TerminalState) -> TerminalState {
    match op {
        TerminalOp::EnableRawMode => TerminalState { raw_mode: true, ..t },
        TerminalOp::DisableRawMode => TerminalState { raw_mode: false, ..t },
        TerminalOp::EnterAlternateScreen => TerminalState { alt_screen: true, ..t },
        TerminalOp::LeaveAlternateScreen => TerminalState { alt_screen: false, ..t },
        TerminalOp::EnableMouseCapture => TerminalState { mouse_enabled: true, ..t },
        TerminalOp::DisableMouseCapture => TerminalState { mouse_enabled: false, ..t },
        TerminalOp::EnableFocusChange => TerminalState { focus_reporting: true, ..t },
        TerminalOp::DisableFocusChange => TerminalState { focus_reporting: false, ..t },
        TerminalOp::ShowCursor => TerminalState { cursor_visible: true, ..t },
        TerminalOp::HideCursor => TerminalState { cursor_visible: false, ..t },
        TerminalOp::EnableBracketedPaste | TerminalOp::DisableBracketedPaste
        | TerminalOp::ClearAll => t,
    }
}

/// The effect a request needs is the one that brings the terminal into the
/// modes the request asks for: performing it gives exactly the recorded
/// modes. A mode request needs an effect exactly when it changes a mode.
/// Bracketed paste is switched on or off as asked and clearing clears, each
/// every time.
pub proof fn law_effect_does_what_is_asked(s: TerminalState, req: TerminalRequest)
    ensures
        s.spec_effect(req) matches Some(op) ==> op_result(op, s) == s.spec_after(req),
        is_mode_request(req) ==> ((s.spec_effect(req) is Some) == (s.spec_after(req) != s)),
        req is EnableBracketedPaste ==> s.spec_effect(req) == Some(TerminalOp::EnableBracketedPaste),
        req is DisableBracketedPaste ==> s.spec_effect(req) == Some(TerminalOp::DisableBracketedPaste),
        req is Clear ==> s.spec_effect(req) == Some(TerminalOp::ClearAll),
{
}

/// `t` with the carriage return dropped from every carriage return and line
/// feed pair.
pub open spec fn drop_cr_before_lf(t: Seq<char>) -> Seq<char>
    decreases t.len(),
{
    if t.len() >= 2 && t.last() == '\n' && t[t.len() - 2] == '\r' {
        drop_cr_before_lf(t.subrange(0, t.len() - 2)).push('\n')
    } else if t.len() > 0 {
        drop_cr_before_lf(t.drop_last()).push(t.last())
    } else {
        t
    }
}

/// The number of line feeds in `t`.
pub open spec fn line_feeds(t: Seq<char>) -> nat
    decreases t.len(),
{
    if t.len() == 0 {
        0
    } else {
        line_feeds(t.drop_last()) + if t.last() == '\n' { 1nat } else { 0nat }
    }
}

/// Writing line feeds as carriage return and line feed loses nothing: each
/// line feed gains one carriage return before it, so dropping the carriage
/// return of each pair gives the text back, and the length grows by the
/// number of line feeds, which stays the same.
pub proof fn law_crlf_keeps_text(s: Seq<char>)
    ensures
        drop_cr_before_lf(crlf(s)) == s,
        crlf(s).len() == s.len() + line_feeds(s),
        line_feeds(crlf(s)) == line_feeds(s),
    decreases s.len(),
{
    if s.len() > 0 {
        let p = s.drop_last();
        law_crlf_keeps_text(p);
        let c = crlf(p);
        if s.last() == '\n' {
            let t = c + seq!['\r', '\n'];
            assert(t.subrange(0, t.len() - 2) =~= c);
            assert(t.drop_last() =~= c.push('\r'));
            assert(c.push('\r').drop_last() =~= c);
            assert(line_feeds(c.push('\r')) == line_feeds(c));
            assert(line_feeds(t) == line_feeds(c) + 1);
            assert(p.push('\n') =~= s);
        } else {
            let t = c + seq![s.last()];
            assert(t.drop_last() =~= c);
            assert(line_feeds(t) == line_feeds(c));
            assert(p.push(s.last()) =~= s);
        }
    }
}

/// `s` with every line feed written as a carriage return and a line feed.
pub open spec fn crlf(s: Seq<char>) -> Seq<char>
    decreases s.len(),
{
    if s.len() == 0 {
        Seq::empty()
    } else {
        crlf(s.drop_last()) + if s.last() == '\n' {
            seq!['\r', '\n']
        } else {
            seq![s.last()]
        }
    }
}

/// The escape sequence that moves the cursor home and clears the screen.
pub open spec fn home_and_clear() -> Seq<char> {
    seq!['\x1b', '[', 'H', '\x1b', '[', '2', 'J']
}

/// The text written to the terminal to show a view: `content` with line feeds
/// turned into carriage return and line feed, preceded by a cursor-home and
/// clear-screen sequence when `home_and_clear_first` holds.
pub fn frame_text(content: &str, home_and_clear_first: bool) -> (s: String)
    ensures
        s@ == (if home_and_clear_first { home_and_clear() } else { Seq::empty() }) + crlf(content@),
{
    broadcast use vstd::string::group_string_axioms;
    let mut s = String::new();
    if home_and_clear_first {
        s.append("\x1b[H\x1b[2J");
        proof {
            reveal_strlit("\x1b[H\x1b[2J");
        }
    }
    let ghost base = s@;
    assert(crlf(content@.take(0)) =~= Seq::<char>::empty());
    for c in it: content.chars()
        invariant
            base == (if home_and_clear_first { home_and_clear() } else { Seq::<char>::empty() }),
            it.seq() == content@,
            s@ == base + crlf(content@.take(it.index() as int)),
    {
        let ghost i = it.index();
        assert(content@.take(i + 1).drop_last() =~= content@.take(i as int));
        if c == '\n' {
            push_char(&mut s, '\r');
            push_char(&mut s, '\n');
        } else {
            push_char(&mut s, c);
        }
        assert(s@ =~= base + crlf(content@.take(i + 1)));
    }
    assert(content@.take(content@.len() as int) =~= content@);
    s
}

} // verus!
