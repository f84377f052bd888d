//! The messages of the framework: keyboard and mouse input, window size,
//! lifecycle signals and terminal control requests; and timer identifiers.

use vstd::prelude::*;

verus! {

/// Media keys.
#[derive(Debug, Clone, Copy, PartialEq, Eq, Hash, Structural)]
pub enum MediaKeyCode {
    /// Play media key.
    Play,
    /// Pause media key.
    Pause,
    /// Play/Pause media key.
    PlayPause,
    /// Reverse media key.
    Reverse,
    /// Stop media key.
    Stop,
    /// Fast-forward media key.
    FastForward,
    /// Rewind media key.
    Rewind,
    /// Next-track media key.
    TrackNext,
    /// Previous-track media key.
    TrackPrevious,
    /// Record media key.
    Record,
    /// Lower-volume media key.
    LowerVolume,
    /// Raise-volume media key.
    RaiseVolume,
    /// Mute media key.
    MuteVolume,
}

/// Modifier keys pressed on their own.
#[derive(Debug, Clone, Copy, PartialEq, Eq, Hash, Structural)]
pub enum ModifierKeyCode {
    /// Left Shift key.
    LeftShift,
    /// Left Control key.
    LeftControl,
    /// Left Alt key.
    LeftAlt,
    /// Left Super key.
    LeftSuper,
    /// Left Hyper key.
    LeftHyper,
    /// Left Meta key.
    LeftMeta,
    /// Right Shift key.
    RightShift,
    /// Right Control key.
    RightControl,
    /// Right Alt key.
    RightAlt,
    /// Right Super key.
    RightSuper,
    /// Right Hyper key.
    RightHyper,
    /// Right Meta key.
    RightMeta,
    /// Iso Level3 Shift key.
    IsoLevel3Shift,
    /// Iso Level5 Shift key.
    IsoLevel5Shift,
}

/// A key.
#[derive(Debug, Clone, Copy, PartialEq, Eq, Hash, Structural)]
pub enum KeyCode {
    /// Backspace key.
    Backspace,
    /// Enter key.
    Enter,
    /// Left arrow key.
    Left,
    /// Right arrow key.
    Right,
    /// Up arrow key.
    Up,
    /// Down arrow key.
    Down,
    /// Home key.
    Home,
    /// End key.
    End,
    /// Page up key.
    PageUp,
    /// Page down key.
    PageDown,
    /// Tab key.
    Tab,
    /// Shift + Tab key.
    BackTab,
    /// Delete key.
    Delete,
    /// Insert key.
    Insert,
    /// A function key, `F(1)` for F1.
    F(u8),
    /// A character key.
    Char(char),
    /// Null.
    Null,
    /// Escape key.
    Esc,
    /// Caps Lock key.
    CapsLock,
    /// Scroll Lock key.
    ScrollLock,
    /// Num Lock key.
    NumLock,
    /// Print Screen key.
    PrintScreen,
    /// Pause key.
    Pause,
    /// Menu key.
    Menu,
    /// The "Begin" key (often mapped to the 5 key when Num Lock is off).
    KeypadBegin,
    /// A media key.
    Media(MediaKeyCode),
    /// A modifier key pressed on its own.
    Modifier(ModifierKeyCode),
}

/// A set of modifier keys, one bit each.
#[derive(Debug, Clone, Copy, PartialEq, Eq, Hash, Structural)]
pub struct KeyModifiers {
    /// The bits of the set: Shift 1, Control 2, Alt 4, Super 8, Hyper 16, Meta 32.
    pub bits: u8,
}

impl KeyModifiers {
    /// No modifier.
    pub fn none() -> (m: Self)
        ensures
            m.bits == 0,
    {
        KeyModifiers { bits: 0 }
    }

    /// Shift alone.
    pub fn shift() -> (m: Self)
        ensures
            m.bits == 1,
    {
        KeyModifiers { bits: 1 }
    }

    /// Control alone.
    pub fn control() -> (m: Self)
        ensures
            m.bits == 2,
    {
        KeyModifiers { bits: 2 }
    }

    /// Alt alone.
    pub fn alt() -> (m: Self)
        ensures
            m.bits == 4,
    {
        KeyModifiers { bits: 4 }
    }

    /// Super alone.
    pub fn super_key() -> (m: Self)
        ensures
            m.bits == 8,
    {
        KeyModifiers { bits: 8 }
    }

    /// Hyper alone.
    pub fn hyper() -> (m: Self)
        ensures
            m.bits == 16,
    {
        KeyModifiers { bits: 16 }
    }

    /// Meta alone.
    pub fn meta() -> (m: Self)
        ensures
            m.bits == 32,
    {
        KeyModifiers { bits: 32 }
    }

    /// The empty set.
    pub fn empty() -> (m: Self)
        ensures
            m.bits == 0,
    {
        KeyModifiers { bits: 0 }
    }

    /// Whether every modifier of `other` is in this set.
    pub fn contains(&self, other: KeyModifiers) -> (r: bool)
        ensures
            r == (self.bits & other.bits == other.bits),
    {
        self.bits & other.bits == other.bits
    }

    /// The modifiers in either set.
    pub fn union(self, other: KeyModifiers) -> (m: Self)
        ensures
            m.bits == self.bits | other.bits,
    {
        KeyModifiers { bits: self.bits | other.bits }
    }
}

/// A mouse button.
#[derive(Debug, Clone, Copy, PartialEq, Eq, Hash, Structural)]
pub enum MouseButton {
    /// Left mouse button.
    Left,
    /// Right mouse button.
    Right,
    /// Middle mouse button.
    Middle,
}

/// What a mouse event reports.
#[derive(Debug, Clone, Copy, PartialEq, Eq, Hash, Structural)]
pub enum MouseEventKind {
    /// Pressed a mouse button.
    Down(MouseButton),
    /// Released a mouse button.
    Up(MouseButton),
    /// Moved the mouse cursor while pressing a mouse button.
    Drag(MouseButton),
    /// Moved the mouse cursor while not pressing a mouse button.
    Moved,
    /// Scrolled down.
    ScrollDown,
    /// Scrolled up.
    ScrollUp,
    /// Scrolled left.
    ScrollLeft,
    /// Scrolled right.
    ScrollRight,
}

/// A message indicating a keyboard input event.
#[derive(Debug, Clone, Copy, PartialEq, Eq, Structural)]
pub struct KeyMsg {
    /// The key pressed.
    pub key: KeyCode,
    /// The modifiers active during the key press.
    pub modifiers: KeyModifiers,
}

/// A message indicating a mouse input event.
#[derive(Debug, Clone, Copy, PartialEq, Eq, Structural)]
pub struct MouseMsg {
    /// The column coordinate of the mouse event.
    pub x: u16,
    /// The row coordinate of the mouse event.
    pub y: u16,
    /// The type of mouse event.
    pub button: MouseEventKind,
    /// The modifiers active during the mouse event.
    pub modifiers: KeyModifiers,
}

/// A message indicating that text was pasted into the terminal (bracketed paste).
#[derive(Debug, Clone)]
pub struct PasteMsg(pub String);

/// A message indicating a change in the terminal window size.
#[derive(Debug, Clone, Copy, PartialEq, Eq, Structural)]
pub struct WindowSizeMsg {
    /// The new width of the terminal window.
    pub width: u16,
    /// The new height of the terminal window.
    pub height: u16,
}

/// A message to signal the application to quit.
#[derive(Debug, Clone)]
pub struct QuitMsg;

/// A message to forcefully kill the application immediately: the event loop
/// stops without invoking the model's `update` and reports
/// `Error::ProgramKilled`.
#[derive(Debug, Clone)]
pub struct KillMsg;

/// A message to signal an application interruption (e.g. Ctrl+C).
#[derive(Debug, Clone)]
pub struct InterruptMsg;

/// A message to signal the application to suspend.
#[derive(Debug, Clone)]
pub struct SuspendMsg;

/// A message to signal the application to resume after suspension.
#[derive(Debug, Clone)]
pub struct ResumeMsg;

/// A message indicating that the terminal gained focus.
#[derive(Debug, Clone)]
pub struct FocusMsg;

/// A message indicating that the terminal lost focus.
#[derive(Debug, Clone)]
pub struct BlurMsg;

/// Several messages delivered to the model one after the other.
#[derive(Debug)]
pub struct BatchMsgInternal<M> {
    /// Aggregated messages to dispatch as a single batch.
    pub messages: Vec<M>,
}

/// Commands to be executed concurrently.
pub struct BatchCmdMsg<C>(pub Vec<C>);

/// A message to signal the terminal to enter the alternate screen buffer.
#[derive(Debug, Clone)]
pub struct EnterAltScreenMsg;

/// A message to signal the terminal to exit the alternate screen buffer.
#[derive(Debug, Clone)]
pub struct ExitAltScreenMsg;

/// A message to signal the terminal to enable mouse cell motion reporting.
#[derive(Debug, Clone)]
pub struct EnableMouseCellMotionMsg;

/// A message to signal the terminal to enable all mouse motion reporting.
#[derive(Debug, Clone)]
pub struct EnableMouseAllMotionMsg;

/// A message to signal the terminal to disable mouse reporting.
#[derive(Debug, Clone)]
pub struct DisableMouseMsg;

/// A message to signal the terminal to enable bracketed paste mode.
#[derive(Debug, Clone)]
pub struct EnableBracketedPasteMsg;

/// A message to signal the terminal to disable bracketed paste mode.
#[derive(Debug, Clone)]
pub struct DisableBracketedPasteMsg;

/// A message to signal the terminal to enable focus reporting.
#[derive(Debug, Clone)]
pub struct EnableReportFocusMsg;

/// A message to signal the terminal to disable focus reporting.
#[derive(Debug, Clone)]
pub struct DisableReportFocusMsg;

/// A message to signal the terminal to show the cursor.
#[derive(Debug, Clone)]
pub struct ShowCursorMsg;

/// A message to signal the terminal to hide the cursor.
#[derive(Debug, Clone)]
pub struct HideCursorMsg;

/// A message to signal the terminal to clear the screen.
#[derive(Debug, Clone)]
pub struct ClearScreenMsg;

/// A message to request the current window size; the answer is a `WindowSizeMsg`.
#[derive(Debug, Clone)]
pub struct RequestWindowSizeMsg;

/// A message to print a line to the terminal.
#[derive(Debug, Clone)]
pub struct PrintMsg(pub String);

/// A message to print pre-formatted text to the terminal, without a newline.
#[derive(Debug, Clone)]
pub struct PrintfMsg(pub String);

/// A message to set the terminal window title.
#[derive(Debug, Clone)]
pub struct SetWindowTitleMsg(pub String);

/// A message to cancel a specific timer.
#[derive(Debug, Clone)]
pub struct CancelTimerMsg {
    /// The unique identifier of the timer to cancel.
    pub timer_id: u64,
}

/// A message to cancel all active timers.
#[derive(Debug, Clone)]
pub struct CancelAllTimersMsg;

/// `x + 1`, wrapping around at `u64::MAX`.
pub open spec fn wrap_inc(x: u64) -> u64 {
    if x == u64::MAX {
        0
    } else {
        (x + 1) as u64
    }
}

/// The source of timer identifiers: a counter that starts at 1.
#[derive(Debug)]
pub struct TimerIds {
    next: u64,
}

impl View for TimerIds {
    type V = u64;

    /// The identifier that the next call of [`next_timer_id`] hands out.
    closed spec fn view(&self) -> u64 {
        self.next
    }
}

impl TimerIds {
    /// A fresh counter; the first identifier is 1.
    pub fn new() -> (ids: Self)
        ensures
            ids@ == 1,
    {
        TimerIds { next: 1 }
    }
}

/// Hands out the next timer identifier: the counter's value, which then
/// advances by one (wrapping around after `u64::MAX`).
pub fn next_timer_id(ids: &mut TimerIds) -> (id: u64)
    ensures
        id == old(ids)@,
        final(ids)@ == wrap_inc(id),
{
    let id = ids.next;
    ids.next = ids.next.wrapping_add(1);
    id
}


/// The identifier handed out `k` calls after one that handed out `first`.
pub open spec fn id_after(first: u64, k: nat) -> u64
    decreases k,
{
    if k == 0 {
        first
    } else {
        wrap_inc(id_after(first, (k - 1) as nat))
    }
}

proof fn lemma_id_after(first: u64, k: nat)
    ensures
        id_after(first, k) as int == (first + k) % 0x1_0000_0000_0000_0000,
    decreases k,
{
    if k > 0 {
        lemma_id_after(first, (k - 1) as nat);
        let p = id_after(first, (k - 1) as nat) as int;
        assert((first + k) % 0x1_0000_0000_0000_0000 == (if p == u64::MAX { 0 } else { p + 1 })) by {
            vstd::arithmetic::div_mod::lemma_add_mod_noop(first + k - 1, 1, 0x1_0000_0000_0000_0000);
            vstd::arithmetic::div_mod::lemma_small_mod(1, 0x1_0000_0000_0000_0000);
            vstd::arithmetic::div_mod::lemma_mod_bound(first + k - 1, 0x1_0000_0000_0000_0000);
            if p + 1 < 0x1_0000_0000_0000_0000 {
                vstd::arithmetic::div_mod::lemma_small_mod((p + 1) as nat, 0x1_0000_0000_0000_0000);
            } else {
                vstd::arithmetic::div_mod::lemma_mod_self_0(0x1_0000_0000_0000_0000);
            }
        }
    }
}

/// Timer identifiers are unique: among fewer than 2^64 consecutive calls of
/// [`next_timer_id`], no two hand out the same identifier.
pub proof fn law_timer_ids_unique(first: u64, j: nat, k: nat)
    requires
        j < k < 0x1_0000_0000_0000_0000,
    ensures
        id_after(first, j) != id_after(first, k),
{
    lemma_id_after(first, j);
    lemma_id_after(first, k);
    let m: int = 0x1_0000_0000_0000_0000;
    vstd::arithmetic::div_mod::lemma_fundamental_div_mod(first + j, m);
    vstd::arithmetic::div_mod::lemma_fundamental_div_mod(first + k, m);
    vstd::arithmetic::div_mod::lemma_mod_bound(first + j, m);
    vstd::arithmetic::div_mod::lemma_mod_bound(first + k, m);
    let qj = (first + j) / m;
    let qk = (first + k) / m;
    assert(0 <= first + j && first + j < 2 * m);
    assert(0 <= first + k && first + k < 2 * m);
    assert(0 <= qj <= 1 && 0 <= qk <= 1) by (nonlinear_arith)
        requires
            first + j == m * qj + (first + j) % m,
            first + k == m * qk + (first + k) % m,
            0 <= (first + j) % m < m,
            0 <= (first + k) % m < m,
            0 <= first + j < 2 * m,
            0 <= first + k < 2 * m,
            m > 0,
    ;
}

} // verus!
