//! Program configuration and the decisions of the program's event loop:
//! how the terminal is set up, released, restored and shut down, and what
//! happens to each incoming message.

use vstd::prelude::*;
use crate::terminal::{
    TerminalRequest, TerminalState, initial_terminal_state, lemma_state_after_concat, state_after,
};

verus! {

/// Defines the different modes for mouse motion reporting.
#[derive(Debug, Clone, Copy, PartialEq, Eq, Structural)]
pub enum MouseMotion {
    /// No mouse motion events are reported.
    Off,
    /// Mouse motion events are reported when the mouse moves over a different cell.
    Cell,
    /// Mouse motion events are reported for every movement.
    All,
}

/// Configuration options for a program: terminal features, rendering and
/// panic/signal handling.
#[derive(Debug, Clone, Copy, PartialEq, Eq, Structural)]
pub struct ProgramConfig {
    /// Whether to use the alternate screen buffer.
    pub alt_screen: bool,
    /// The mouse motion reporting mode.
    pub mouse_motion: MouseMotion,
    /// Whether to report focus events.
    pub report_focus: bool,
    /// The target frames per second for rendering.
    pub fps: u32,
    /// Whether to disable the renderer entirely.
    pub without_renderer: bool,
    /// Whether to catch panics and report them as `ProgramPanic` errors.
    pub catch_panics: bool,
    /// Whether to enable signal handling (e.g., Ctrl+C).
    pub signal_handler: bool,
    /// Whether to enable bracketed paste mode.
    pub bracketed_paste: bool,
}

/// The default configuration: no alternate screen, no mouse motion
/// reporting, no focus reporting, 60 FPS, rendering on, panics caught,
/// signals handled, bracketed paste off.
pub open spec fn default_config() -> ProgramConfig {
    ProgramConfig {
        alt_screen: false,
        mouse_motion: MouseMotion::Off,
        report_focus: false,
        fps: 60,
        without_renderer: false,
        catch_panics: true,
        signal_handler: true,
        bracketed_paste: false,
    }
}

impl Default for ProgramConfig {
    /// Returns the default `ProgramConfig`, see [`default_config`].
    fn default() -> (c: Self)
        ensures
            c == default_config(),
    {
        ProgramConfig {
            alt_screen: false,
            mouse_motion: MouseMotion::Off,
            report_focus: false,
            fps: 60,
            without_renderer: false,
            catch_panics: true,
            signal_handler: true,
            bracketed_paste: false,
        }
    }
}

/// The terminal requests that set the terminal up for a program, in order:
/// raw mode, the alternate screen if configured, the configured mouse
/// reporting, focus reporting and bracketed paste if configured, and finally
/// hiding the cursor.
pub open spec fn spec_startup_requests(c: ProgramConfig) -> Seq<TerminalRequest> {
    seq![TerminalRequest::EnterRawMode] + (if c.alt_screen {
        seq![TerminalRequest::EnterAltScreen]
    } else {
        Seq::empty()
    }) + match c.mouse_motion {
        MouseMotion::Cell => seq![TerminalRequest::EnableMouseCellMotion],
        MouseMotion::All => seq![TerminalRequest::EnableMouseAllMotion],
        MouseMotion::Off => Seq::empty(),
    } + (if c.report_focus {
        seq![TerminalRequest::EnableFocusReporting]
    } else {
        Seq::empty()
    }) + (if c.bracketed_paste {
        seq![TerminalRequest::EnableBracketedPaste]
    } else {
        Seq::empty()
    }) + seq![TerminalRequest::HideCursor]
}

/// The terminal requests that give the terminal back on release.
pub open spec fn spec_release_requests() -> Seq<TerminalRequest> {
    seq![
        TerminalRequest::ExitRawMode,
        TerminalRequest::ExitAltScreen,
        TerminalRequest::DisableMouse,
        TerminalRequest::DisableFocusReporting,
        TerminalRequest::ShowCursor,
    ]
}

/// The terminal requests made when the event loop has ended: show the
/// cursor, disable mouse and focus reporting, leave the alternate screen if
/// configured, leave raw mode.
pub open spec fn spec_shutdown_requests(c: ProgramConfig) -> Seq<TerminalRequest> {
    seq![
        TerminalRequest::ShowCursor,
        TerminalRequest::DisableMouse,
        TerminalRequest::DisableFocusReporting,
    ] + (if c.alt_screen {
        seq![TerminalRequest::ExitAltScreen]
    } else {
        Seq::empty()
    }) + seq![TerminalRequest::ExitRawMode]
}

impl ProgramConfig {
    /// The requests that set the terminal up when a program starts and when
    /// it takes the terminal back after a release.
    pub fn startup_requests(&self) -> (reqs: Vec<TerminalRequest>)
        ensures
            reqs@ == spec_startup_requests(*self),
    {
        let mut reqs: Vec<TerminalRequest> = Vec::new();
        reqs.push(TerminalRequest::EnterRawMode);
        if self.alt_screen {
            reqs.push(TerminalRequest::EnterAltScreen);
        }
        match self.mouse_motion {
            MouseMotion::Cell => reqs.push(TerminalRequest::EnableMouseCellMotion),
            MouseMotion::All => reqs.push(TerminalRequest::EnableMouseAllMotion),
            MouseMotion::Off => {},
        }
        if self.report_focus {
            reqs.push(TerminalRequest::EnableFocusReporting);
        }
        if self.bracketed_paste {
            reqs.push(TerminalRequest::EnableBracketedPaste);
        }
        reqs.push(TerminalRequest::HideCursor);
        assert(reqs@ =~= spec_startup_requests(*self));
        reqs
    }

    /// The requests made when the event loop has ended.
    pub fn shutdown_requests(&self) -> (reqs: Vec<TerminalRequest>)
        ensures
            reqs@ == spec_shutdown_requests(*self),
    {
        let mut reqs: Vec<TerminalRequest> = Vec::new();
        reqs.push(TerminalRequest::ShowCursor);
        reqs.push(TerminalRequest::DisableMouse);
        reqs.push(TerminalRequest::DisableFocusReporting);
        if self.alt_screen {
            reqs.push(TerminalRequest::ExitAltScreen);
        }
        reqs.push(TerminalRequest::ExitRawMode);
        assert(reqs@ =~= spec_shutdown_requests(*self));
        reqs
    }

    /// Whether the program drives a terminal (its renderer is on).
    pub fn uses_terminal(&self) -> (r: bool)
        ensures
            r == !self.without_renderer,
    {
        !self.without_renderer
    }

    /// Whether the program runs an input handler: when it drives a terminal
    /// or reads from a custom input source.
    pub fn needs_input_handler(&self, has_custom_input: bool) -> (r: bool)
        ensures
            r == (!self.without_renderer || has_custom_input),
    {
        !self.without_renderer || has_custom_input
    }
}

/// The requests that give the terminal back when a program releases it:
/// leave raw mode and the alternate screen, disable mouse and focus
/// reporting, show the cursor.
pub fn release_requests() -> (reqs: Vec<TerminalRequest>)
    ensures
        reqs@ == spec_release_requests(),
{
    let mut reqs: Vec<TerminalRequest> = Vec::new();
    reqs.push(TerminalRequest::ExitRawMode);
    reqs.push(TerminalRequest::ExitAltScreen);
    reqs.push(TerminalRequest::DisableMouse);
    reqs.push(TerminalRequest::DisableFocusReporting);
    reqs.push(TerminalRequest::ShowCursor);
    assert(reqs@ =~= spec_release_requests());
    reqs
}

/// The modes a program leaves the terminal in once its setup is done:
/// raw mode, the alternate screen if configured, mouse capture if mouse
/// motion is reported, focus reporting if configured, cursor hidden.
pub open spec fn set_up_state(c: ProgramConfig) -> TerminalState {
    TerminalState {
        raw_mode: true,
        alt_screen: c.alt_screen,
        mouse_enabled: !(c.mouse_motion is Off),
        focus_reporting: c.report_focus,
        cursor_visible: false,
    }
}

proof fn lemma_state_after_one(s: TerminalState, r: TerminalRequest)
    ensures
        state_after(s, seq![r]) == s.spec_after(r),
{
    assert(seq![r].drop_first() =~= Seq::<TerminalRequest>::empty());
    reveal_with_fuel(state_after, 2);
}

proof fn lemma_state_after_empty(s: TerminalState)
    ensures
        state_after(s, Seq::<TerminalRequest>::empty()) == s,
{
}

proof fn lemma_concat_contains(a: Seq<TerminalRequest>, b: Seq<TerminalRequest>, x: TerminalRequest)
    ensures
        (a + b).contains(x) == (a.contains(x) || b.contains(x)),
{
    if a.contains(x) {
        let i = choose|i: int| 0 <= i < a.len() && a[i] == x;
        assert((a + b)[i] == x);
    }
    if b.contains(x) {
        let j = choose|j: int| 0 <= j < b.len() && b[j] == x;
        assert((a + b)[a.len() + j] == x);
    }
    if (a + b).contains(x) {
        let k = choose|k: int| 0 <= k < (a + b).len() && (a + b)[k] == x;
        if k < a.len() {
            assert(a[k] == x);
        } else {
            assert(b[k - a.len()] == x);
        }
    }
}

proof fn lemma_single_contains(r: TerminalRequest, x: TerminalRequest)
    ensures
        seq![r].contains(x) == (r == x),
{
    if r == x {
        assert(seq![r][0] == x);
    }
}

/// The start-up requests are exactly these: raw mode first and hiding the
/// cursor last, and in between the alternate screen when it is configured,
/// the configured mouse reporting, focus reporting when configured and
/// bracketed paste when configured, each independently of the others.
pub proof fn law_startup_requests(c: ProgramConfig, x: TerminalRequest)
    ensures
        spec_startup_requests(c)[0] == TerminalRequest::EnterRawMode,
        spec_startup_requests(c).last() == TerminalRequest::HideCursor,
        spec_startup_requests(c).contains(x) == (x == TerminalRequest::EnterRawMode || (c.alt_screen
            && x == TerminalRequest::EnterAltScreen) || (c.mouse_motion == MouseMotion::Cell && x
            == TerminalRequest::EnableMouseCellMotion) || (c.mouse_motion == MouseMotion::All && x
            == TerminalRequest::EnableMouseAllMotion) || (c.report_focus && x
            == TerminalRequest::EnableFocusReporting) || (c.bracketed_paste && x
            == TerminalRequest::EnableBracketedPaste) || x == TerminalRequest::HideCursor),
{
    let p1 = seq![TerminalRequest::EnterRawMode];
    let p2: Seq<TerminalRequest> = if c.alt_screen { seq![TerminalRequest::EnterAltScreen] } else { Seq::empty() };
    let p3: Seq<TerminalRequest> = match c.mouse_motion {
        MouseMotion::Cell => seq![TerminalRequest::EnableMouseCellMotion],
        MouseMotion::All => seq![TerminalRequest::EnableMouseAllMotion],
        MouseMotion::Off => Seq::empty(),
    };
    let p4: Seq<TerminalRequest> = if c.report_focus { seq![TerminalRequest::EnableFocusReporting] } else { Seq::empty() };
    let p5: Seq<TerminalRequest> = if c.bracketed_paste { seq![TerminalRequest::EnableBracketedPaste] } else { Seq::empty() };
    let p6 = seq![TerminalRequest::HideCursor];
    assert(spec_startup_requests(c) == p1 + p2 + p3 + p4 + p5 + p6);
    lemma_concat_contains(p1 + p2 + p3 + p4 + p5, p6, x);
    lemma_concat_contains(p1 + p2 + p3 + p4, p5, x);
    lemma_concat_contains(p1 + p2 + p3, p4, x);
    lemma_concat_contains(p1 + p2, p3, x);
    lemma_concat_contains(p1, p2, x);
    lemma_single_contains(TerminalRequest::EnterRawMode, x);
    lemma_single_contains(TerminalRequest::HideCursor, x);
    lemma_single_contains(TerminalRequest::EnterAltScreen, x);
    lemma_single_contains(TerminalRequest::EnableMouseCellMotion, x);
    lemma_single_contains(TerminalRequest::EnableMouseAllMotion, x);
    lemma_single_contains(TerminalRequest::EnableFocusReporting, x);
    lemma_single_contains(TerminalRequest::EnableBracketedPaste, x);
}

/// The shutdown requests are exactly these: showing the cursor first and
/// leaving raw mode last, and in between disabling the mouse and focus
/// reporting, and leaving the alternate screen when it is configured.
pub proof fn law_shutdown_requests(c: ProgramConfig, x: TerminalRequest)
    ensures
        spec_shutdown_requests(c)[0] == TerminalRequest::ShowCursor,
        spec_shutdown_requests(c).last() == TerminalRequest::ExitRawMode,
        spec_shutdown_requests(c).contains(x) == (x == TerminalRequest::ShowCursor || x
            == TerminalRequest::DisableMouse || x == TerminalRequest::DisableFocusReporting || (
        c.alt_screen && x == TerminalRequest::ExitAltScreen) || x == TerminalRequest::ExitRawMode),
{
    let p1 = seq![TerminalRequest::ShowCursor];
    let p2 = seq![TerminalRequest::DisableMouse];
    let p3 = seq![TerminalRequest::DisableFocusReporting];
    let p4: Seq<TerminalRequest> = if c.alt_screen { seq![TerminalRequest::ExitAltScreen] } else { Seq::empty() };
    let p5 = seq![TerminalRequest::ExitRawMode];
    assert(spec_shutdown_requests(c) == p1 + p2 + p3 + p4 + p5);
    lemma_concat_contains(p1 + p2 + p3 + p4, p5, x);
    lemma_concat_contains(p1 + p2 + p3, p4, x);
    lemma_concat_contains(p1 + p2, p3, x);
    lemma_concat_contains(p1, p2, x);
    lemma_single_contains(TerminalRequest::ShowCursor, x);
    lemma_single_contains(TerminalRequest::DisableMouse, x);
    lemma_single_contains(TerminalRequest::DisableFocusReporting, x);
    lemma_single_contains(TerminalRequest::ExitAltScreen, x);
    lemma_single_contains(TerminalRequest::ExitRawMode, x);
}

/// Setting the terminal up from its initial modes gives [`set_up_state`].
pub proof fn lemma_startup_state(c: ProgramConfig)
    ensures
        state_after(initial_terminal_state(), spec_startup_requests(c)) == set_up_state(c),
{
    let s0 = initial_terminal_state();
    let p1 = seq![TerminalRequest::EnterRawMode];
    let p2: Seq<TerminalRequest> = if c.alt_screen { seq![TerminalRequest::EnterAltScreen] } else { Seq::empty() };
    let p3: Seq<TerminalRequest> = match c.mouse_motion {
        MouseMotion::Cell => seq![TerminalRequest::EnableMouseCellMotion],
        MouseMotion::All => seq![TerminalRequest::EnableMouseAllMotion],
        MouseMotion::Off => Seq::empty(),
    };
    let p4: Seq<TerminalRequest> = if c.report_focus { seq![TerminalRequest::EnableFocusReporting] } else { Seq::empty() };
    let p5: Seq<TerminalRequest> = if c.bracketed_paste { seq![TerminalRequest::EnableBracketedPaste] } else { Seq::empty() };
    let p6 = seq![TerminalRequest::HideCursor];
    assert(spec_startup_requests(c) == p1 + p2 + p3 + p4 + p5 + p6);
    lemma_state_after_concat(s0, p1 + p2 + p3 + p4 + p5, p6);
    lemma_state_after_concat(s0, p1 + p2 + p3 + p4, p5);
    lemma_state_after_concat(s0, p1 + p2 + p3, p4);
    lemma_state_after_concat(s0, p1 + p2, p3);
    lemma_state_after_concat(s0, p1, p2);
    let s1 = state_after(s0, p1);
    lemma_state_after_one(s0, TerminalRequest::EnterRawMode);
    let s2 = state_after(s1, p2);
    if c.alt_screen { lemma_state_after_one(s1, TerminalRequest::EnterAltScreen); } else { lemma_state_after_empty(s1); }
    let s3 = state_after(s2, p3);
    match c.mouse_motion {
        MouseMotion::Cell => lemma_state_after_one(s2, TerminalRequest::EnableMouseCellMotion),
        MouseMotion::All => lemma_state_after_one(s2, TerminalRequest::EnableMouseAllMotion),
        MouseMotion::Off => lemma_state_after_empty(s2),
    }
    let s4 = state_after(s3, p4);
    if c.report_focus { lemma_state_after_one(s3, TerminalRequest::EnableFocusReporting); } else { lemma_state_after_empty(s3); }
    let s5 = state_after(s4, p5);
    if c.bracketed_paste { lemma_state_after_one(s4, TerminalRequest::EnableBracketedPaste); } else { lemma_state_after_empty(s4); }
    lemma_state_after_one(s5, TerminalRequest::HideCursor);
}

/// Shutting down from any state in which the alternate screen is on only if
/// configured gives back the initial modes.
proof fn lemma_shutdown_state(c: ProgramConfig, s: TerminalState)
    requires
        s.alt_screen ==> c.alt_screen,
    ensures
        state_after(s, spec_shutdown_requests(c)) == initial_terminal_state(),
{
    let p1 = seq![TerminalRequest::ShowCursor, TerminalRequest::DisableMouse, TerminalRequest::DisableFocusReporting];
    let p2: Seq<TerminalRequest> = if c.alt_screen { seq![TerminalRequest::ExitAltScreen] } else { Seq::empty() };
    let p3 = seq![TerminalRequest::ExitRawMode];
    assert(spec_shutdown_requests(c) == p1 + p2 + p3);
    lemma_state_after_concat(s, p1 + p2, p3);
    lemma_state_after_concat(s, p1, p2);
    reveal_with_fuel(state_after, 4);
    assert(p1.drop_first().drop_first().drop_first() =~= Seq::<TerminalRequest>::empty());
    let s1 = state_after(s, p1);
    if c.alt_screen { lemma_state_after_one(s1, TerminalRequest::ExitAltScreen); } else { lemma_state_after_empty(s1); }
    lemma_state_after_one(state_after(s1, p2), TerminalRequest::ExitRawMode);
}

/// A program that sets the terminal up and shuts down leaves the terminal in
/// its initial modes.
pub proof fn law_startup_then_shutdown(c: ProgramConfig)
    ensures
        state_after(initial_terminal_state(), spec_startup_requests(c) + spec_shutdown_requests(c))
            == initial_terminal_state(),
{
    lemma_startup_state(c);
    lemma_state_after_concat(initial_terminal_state(), spec_startup_requests(c), spec_shutdown_requests(c));
    lemma_shutdown_state(c, set_up_state(c));
}

/// Releasing the terminal after the setup gives back its initial modes, and
/// restoring it after a release gives the modes of the first setup again.
pub proof fn law_release_and_restore(c: ProgramConfig)
    ensures
        state_after(initial_terminal_state(), spec_startup_requests(c) + spec_release_requests())
            == initial_terminal_state(),
        state_after(
            initial_terminal_state(),
            spec_startup_requests(c) + spec_release_requests() + spec_startup_requests(c),
        ) == set_up_state(c),
{
    let s0 = initial_terminal_state();
    lemma_startup_state(c);
    lemma_state_after_concat(s0, spec_startup_requests(c), spec_release_requests());
    let r = spec_release_requests();
    assert(r.drop_first().drop_first().drop_first().drop_first().drop_first() =~= Seq::<TerminalRequest>::empty());
    reveal_with_fuel(state_after, 6);
    assert(state_after(set_up_state(c), r) == s0);
    lemma_state_after_concat(s0, spec_startup_requests(c) + r, spec_startup_requests(c));
}

/// A builder of program configurations.
pub struct ProgramBuilder {
    config: ProgramConfig,
}

impl View for ProgramBuilder {
    type V = ProgramConfig;

    /// The configuration built so far.
    closed spec fn view(&self) -> ProgramConfig {
        self.config
    }
}

impl ProgramBuilder {
    /// A builder holding the default configuration.
    pub fn new() -> (b: Self)
        ensures
            b@ == default_config(),
    {
        ProgramBuilder { config: ProgramConfig::default() }
    }

    /// Sets whether to use the alternate screen buffer.
    pub fn alt_screen(self, enabled: bool) -> (b: Self)
        ensures
            b@ == (ProgramConfig { alt_screen: enabled, ..self@ }),
    {
        let mut b = self;
        b.config.alt_screen = enabled;
        b
    }

    /// Sets the mouse motion reporting mode.
    pub fn mouse_motion(self, motion: MouseMotion) -> (b: Self)
        ensures
            b@ == (ProgramConfig { mouse_motion: motion, ..self@ }),
    {
        let mut b = self;
        b.config.mouse_motion = motion;
        b
    }

    /// Sets whether to report focus events.
    pub fn report_focus(self, enabled: bool) -> (b: Self)
        ensures
            b@ == (ProgramConfig { report_focus: enabled, ..self@ }),
    {
        let mut b = self;
        b.config.report_focus = enabled;
        b
    }

    /// Sets the target frames per second for rendering.
    pub fn with_fps(self, fps: u32) -> (b: Self)
        ensures
            b@ == (ProgramConfig { fps: fps, ..self@ }),
    {
        let mut b = self;
        b.config.fps = fps;
        b
    }

    /// Disables the renderer.
    pub fn without_renderer(self) -> (b: Self)
        ensures
            b@ == (ProgramConfig { without_renderer: true, ..self@ }),
    {
        let mut b = self;
        b.config.without_renderer = true;
        b
    }

    /// Sets whether to catch panics.
    pub fn catch_panics(self, enabled: bool) -> (b: Self)
        ensures
            b@ == (ProgramConfig { catch_panics: enabled, ..self@ }),
    {
        let mut b = self;
        b.config.catch_panics = enabled;
        b
    }

    /// Sets whether to enable signal handling.
    pub fn signal_handler(self, enabled: bool) -> (b: Self)
        ensures
            b@ == (ProgramConfig { signal_handler: enabled, ..self@ }),
    {
        let mut b = self;
        b.config.signal_handler = enabled;
        b
    }

    /// Sets whether to enable bracketed paste mode.
    pub fn bracketed_paste(self, enabled: bool) -> (b: Self)
        ensures
            b@ == (ProgramConfig { bracketed_paste: enabled, ..self@ }),
    {
        let mut b = self;
        b.config.bracketed_paste = enabled;
        b
    }

    /// Uses the terminal as input, which is the default: the configuration is unchanged.
    pub fn input_tty(self) -> (b: Self)
        ensures
            b@ == self@,
    {
        self
    }

    /// The configuration built so far.
    pub fn config(&self) -> (c: ProgramConfig)
        ensures
            c == self@,
    {
        self.config
    }
}

/// What kind of message the event loop has received.
#[derive(Debug, Clone, Copy, PartialEq, Eq, Structural)]
pub enum MsgKind {
    /// A request to clear the screen.
    ClearScreen,
    /// A request to enter the alternate screen.
    EnterAltScreen,
    /// A request to exit the alternate screen.
    ExitAltScreen,
    /// A request to enable mouse reporting of cell motion.
    EnableMouseCellMotion,
    /// A request to enable mouse reporting of all motion.
    EnableMouseAllMotion,
    /// A request to disable mouse reporting.
    DisableMouse,
    /// A request to enable focus reporting.
    EnableReportFocus,
    /// A request to disable focus reporting.
    DisableReportFocus,
    /// A request to enable bracketed paste.
    EnableBracketedPaste,
    /// A request to disable bracketed paste.
    DisableBracketedPaste,
    /// A request to show the cursor.
    ShowCursor,
    /// A request to hide the cursor.
    HideCursor,
    /// A request for the window size.
    RequestWindowSize,
    /// A request to print a line.
    Print,
    /// A request to print text as it is.
    Printf,
    /// A request to set the window title.
    SetWindowTitle,
    /// A request to start a repeating timer.
    Every,
    /// A request to cancel one timer.
    CancelTimer,
    /// A request to cancel all timers.
    CancelAllTimers,
    /// Commands to run concurrently.
    BatchCommands,
    /// A batch of messages.
    Batch,
    /// A request to quit.
    Quit,
    /// A request to kill the program.
    Kill,
    /// A panic caught in the application.
    Panic,
    /// Any other message: it goes to the model.
    Other,
}

/// What the runtime itself does for a message.
#[derive(Debug, Clone, Copy, PartialEq, Eq, Structural)]
pub enum RuntimeAction {
    /// Nothing.
    Nothing,
    /// Start the repeating timer the message describes.
    StartTimer,
    /// Cancel the timer the message names.
    CancelTimer,
    /// Cancel every timer.
    CancelAllTimers,
    /// Spawn each command of the message.
    SpawnCommands,
    /// Send a window size message with the terminal's size.
    ReportWindowSize,
    /// Print the message's text followed by a line feed.
    PrintLine,
    /// Print the message's text as it is.
    PrintText,
    /// Set the window title to the message's text.
    SetWindowTitle,
}

/// Which messages the model's `update` receives.
#[derive(Debug, Clone, Copy, PartialEq, Eq, Structural)]
pub enum Delivery {
    /// The model does not see the message.
    Skip,
    /// The model receives the message.
    Single,
    /// The model receives each message of the batch, in order.
    EachOfBatch,
}

/// How the event loop ends.
#[derive(Debug, Clone, Copy, PartialEq, Eq, Structural)]
pub enum LoopExit {
    /// The loop ends normally and the program returns its model.
    Finished,
    /// The loop ends with `Error::ProgramKilled`.
    Killed,
    /// The loop ends with the `Error::ProgramPanic` that the message carries.
    Panicked,
}

/// What the event loop does with one message: first the terminal request
/// (when a terminal is driven), then the runtime action, then the delivery
/// to the model; then it ends if `exit` is set, and otherwise renders the
/// view if `render` holds.
#[derive(Debug, Clone, Copy, PartialEq, Eq, Structural)]
pub struct Dispatch {
    /// The request to the terminal, if any.
    pub terminal: Option<TerminalRequest>,
    /// What the runtime does.
    pub action: RuntimeAction,
    /// What the model receives.
    pub delivery: Delivery,
    /// Whether, and how, the loop ends after the delivery.
    pub exit: Option<LoopExit>,
    /// Whether the view is rendered afterwards.
    pub render: bool,
}

/// The terminal request that a message of the given kind stands for.
pub open spec fn terminal_request_of(kind: MsgKind) -> Option<TerminalRequest> {
    match kind {
        MsgKind::ClearScreen => Some(TerminalRequest::Clear),
        MsgKind::EnterAltScreen => Some(TerminalRequest::EnterAltScreen),
        MsgKind::ExitAltScreen => Some(TerminalRequest::ExitAltScreen),
        MsgKind::EnableMouseCellMotion => Some(TerminalRequest::EnableMouseCellMotion),
        MsgKind::EnableMouseAllMotion => Some(TerminalRequest::EnableMouseAllMotion),
        MsgKind::DisableMouse => Some(TerminalRequest::DisableMouse),
        MsgKind::EnableReportFocus => Some(TerminalRequest::EnableFocusReporting),
        MsgKind::DisableReportFocus => Some(TerminalRequest::DisableFocusReporting),
        MsgKind::EnableBracketedPaste => Some(TerminalRequest::EnableBracketedPaste),
        MsgKind::DisableBracketedPaste => Some(TerminalRequest::DisableBracketedPaste),
        MsgKind::ShowCursor => Some(TerminalRequest::ShowCursor),
        MsgKind::HideCursor => Some(TerminalRequest::HideCursor),
        _ => None,
    }
}

/// The runtime action that a message of the given kind asks for.
pub open spec fn runtime_action_of(kind: MsgKind) -> RuntimeAction {
    match kind {
        MsgKind::RequestWindowSize => RuntimeAction::ReportWindowSize,
        MsgKind::Print => RuntimeAction::PrintLine,
        MsgKind::Printf => RuntimeAction::PrintText,
        MsgKind::SetWindowTitle => RuntimeAction::SetWindowTitle,
        MsgKind::Every => RuntimeAction::StartTimer,
        MsgKind::CancelTimer => RuntimeAction::CancelTimer,
        MsgKind::CancelAllTimers => RuntimeAction::CancelAllTimers,
        MsgKind::BatchCommands => RuntimeAction::SpawnCommands,
        _ => RuntimeAction::Nothing,
    }
}

/// Whether the model does not receive a message of the given kind: a request
/// to clear the screen or to enter or leave the alternate screen, a request
/// to start a repeating timer, commands to run concurrently (the runtime takes
/// the message apart to start the timer or spawn the commands), a kill
/// request and a caught panic.
pub open spec fn withheld(kind: MsgKind) -> bool {
    ||| kind is ClearScreen
    ||| kind is EnterAltScreen
    ||| kind is ExitAltScreen
    ||| kind is Every
    ||| kind is BatchCommands
    ||| kind is Kill
    ||| kind is Panic
}

/// The handling of each kind of message. The runtime first carries out the
/// terminal request or the runtime action that the message stands for, if
/// any. The model then receives the message, except the withheld kinds (see
/// [`withheld`]); a batch is delivered message by message (whether it ends
/// the loop is decided by [`batch_exit`]). A quit request is delivered and
/// then ends the loop; a kill request or a caught panic ends it at once with
/// an error. The view is rendered after every message the model received
/// and after entering or leaving the alternate screen, unless the loop ends.
pub open spec fn spec_dispatch(kind: MsgKind) -> Dispatch {
    Dispatch {
        terminal: terminal_request_of(kind),
        action: runtime_action_of(kind),
        delivery: if withheld(kind) {
            Delivery::Skip
        } else if kind is Batch {
            Delivery::EachOfBatch
        } else {
            Delivery::Single
        },
        exit: if kind is Quit {
            Some(LoopExit::Finished)
        } else if kind is Kill {
            Some(LoopExit::Killed)
        } else if kind is Panic {
            Some(LoopExit::Panicked)
        } else {
            None
        },
        render: !(kind is ClearScreen || kind is Every || kind is BatchCommands || kind is Quit
            || kind is Kill || kind is Panic),
    }
}

/// The model receives every message but the withheld kinds: clear-screen and
/// alternate-screen requests, timer starts, command batches, kill requests
/// and caught panics. The loop ends exactly on quit and kill requests and on
/// panics, and never renders after ending; otherwise it renders exactly
/// after the model received something and after switching the alternate
/// screen.
pub proof fn law_dispatch(kind: MsgKind)
    ensures
        (spec_dispatch(kind).delivery != Delivery::Skip) == !withheld(kind),
        (spec_dispatch(kind).exit is Some) == (kind is Quit || kind is Kill || kind is Panic),
        spec_dispatch(kind).exit is Some ==> !spec_dispatch(kind).render,
        spec_dispatch(kind).render == ((spec_dispatch(kind).delivery != Delivery::Skip
            && spec_dispatch(kind).exit is None) || kind is EnterAltScreen
            || kind is ExitAltScreen),
{
}

/// Decides what the event loop does with a message of the given kind.
pub fn dispatch(kind: MsgKind) -> (d: Dispatch)
    ensures
        d == spec_dispatch(kind),
{
    let terminal = match kind {
        MsgKind::ClearScreen => Some(TerminalRequest::Clear),
        MsgKind::EnterAltScreen => Some(TerminalRequest::EnterAltScreen),
        MsgKind::ExitAltScreen => Some(TerminalRequest::ExitAltScreen),
        MsgKind::EnableMouseCellMotion => Some(TerminalRequest::EnableMouseCellMotion),
        MsgKind::EnableMouseAllMotion => Some(TerminalRequest::EnableMouseAllMotion),
        MsgKind::DisableMouse => Some(TerminalRequest::DisableMouse),
        MsgKind::EnableReportFocus => Some(TerminalRequest::EnableFocusReporting),
        MsgKind::DisableReportFocus => Some(TerminalRequest::DisableFocusReporting),
        MsgKind::EnableBracketedPaste => Some(TerminalRequest::EnableBracketedPaste),
        MsgKind::DisableBracketedPaste => Some(TerminalRequest::DisableBracketedPaste),
        MsgKind::ShowCursor => Some(TerminalRequest::ShowCursor),
        MsgKind::HideCursor => Some(TerminalRequest::HideCursor),
        _ => None,
    };
    let action = match kind {
        MsgKind::RequestWindowSize => RuntimeAction::ReportWindowSize,
        MsgKind::Print => RuntimeAction::PrintLine,
        MsgKind::Printf => RuntimeAction::PrintText,
        MsgKind::SetWindowTitle => RuntimeAction::SetWindowTitle,
        MsgKind::Every => RuntimeAction::StartTimer,
        MsgKind::CancelTimer => RuntimeAction::CancelTimer,
        MsgKind::CancelAllTimers => RuntimeAction::CancelAllTimers,
        MsgKind::BatchCommands => RuntimeAction::SpawnCommands,
        _ => RuntimeAction::Nothing,
    };
    let delivery = match kind {
        MsgKind::ClearScreen | MsgKind::EnterAltScreen | MsgKind::ExitAltScreen | MsgKind::Every
        | MsgKind::BatchCommands | MsgKind::Kill | MsgKind::Panic => Delivery::Skip,
        MsgKind::Batch => Delivery::EachOfBatch,
        _ => Delivery::Single,
    };
    let exit = match kind {
        MsgKind::Quit => Some(LoopExit::Finished),
        MsgKind::Kill => Some(LoopExit::Killed),
        MsgKind::Panic => Some(LoopExit::Panicked),
        _ => None,
    };
    let render = match kind {
        MsgKind::ClearScreen | MsgKind::Every | MsgKind::BatchCommands | MsgKind::Quit
        | MsgKind::Kill | MsgKind::Panic => false,
        _ => true,
    };
    Dispatch { terminal, action, delivery, exit, render }
}

/// Whether the loop ends after a batch whose messages are of the given kinds
/// have been delivered: it does, normally, when one of them is a quit request.
pub fn batch_exit(kinds: &Vec<MsgKind>) -> (exit: Option<LoopExit>)
    ensures
        exit == (if exists|i: int| 0 <= i < kinds@.len() && kinds@[i] == MsgKind::Quit {
            Some(LoopExit::Finished)
        } else {
            None
        }),
{
    let mut i: usize = 0;
    while i < kinds.len()
        invariant
            i <= kinds@.len(),
            forall|j: int| 0 <= j < i ==> kinds@[j] != MsgKind::Quit,
        decreases kinds@.len() - i,
    {
        if kinds[i] == MsgKind::Quit {
            return Some(LoopExit::Finished);
        }
        i = i + 1;
    }
    None
}

} // verus!
