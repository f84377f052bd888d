//! # bubbletea-rs
//!
//! The verified core of a Model-View-Update terminal UI framework: the
//! messages, the error type, the decisions of the event loop, terminal mode
//! bookkeeping, input decoding, gradient rendering and memory monitoring.
//! The asynchronous runtime that drives a terminal with these pieces lives
//! beside this library.

/// Grouping of commands and the outcome of running commands in sequence.
pub mod command;
/// Error types and handling.
pub mod error;
/// Event types and message passing system.
pub mod event;
/// Gradient rendering utilities for progress bars and color transitions.
pub mod gradient;
/// Decoding of custom input into key messages.
pub mod input;
/// Logging utilities.
pub mod logging;
/// Memory monitoring and leak detection.
pub mod memory;
/// The core Model trait defining application behavior.
pub mod model;
/// Convenient re-exports of the most commonly used types.
pub mod prelude;
/// Program configuration and the decisions of the event loop.
pub mod program;
/// Terminal mode bookkeeping and frame text.
pub mod terminal;
/// Decimal notation and string-building helpers.
pub mod text;
/// The running repeating timers.
pub mod timers;

pub use command::{sequence_outcome, Batch};
pub use error::Error;
pub use event::{
    next_timer_id, BatchCmdMsg, BatchMsgInternal, BlurMsg, CancelAllTimersMsg, CancelTimerMsg,
    ClearScreenMsg, DisableBracketedPasteMsg, DisableMouseMsg, DisableReportFocusMsg,
    EnableBracketedPasteMsg, EnableMouseAllMotionMsg, EnableMouseCellMotionMsg,
    EnableReportFocusMsg, EnterAltScreenMsg, ExitAltScreenMsg, FocusMsg, HideCursorMsg,
    InterruptMsg, KeyCode, KeyModifiers, KeyMsg, KillMsg, MediaKeyCode, ModifierKeyCode,
    MouseButton, MouseEventKind, MouseMsg, PasteMsg, PrintMsg, PrintfMsg, QuitMsg,
    RequestWindowSizeMsg, ResumeMsg, SetWindowTitleMsg, ShowCursorMsg, SuspendMsg, TimerIds,
    WindowSizeMsg,
};
pub use gradient::{
    charm_default_gradient, gradient_filled_segment, gradient_filled_segment_with_buffer,
};
pub use input::line_to_key_msgs;
pub use logging::log_to_file;
pub use memory::{MemoryHealth, MemoryMonitor, MemorySnapshot};
pub use model::Model;
pub use program::{
    batch_exit, dispatch, release_requests, Delivery, Dispatch, LoopExit, MouseMotion, MsgKind,
    ProgramBuilder, ProgramConfig, RuntimeAction,
};
pub use terminal::{frame_text, TerminalOp, TerminalRequest, TerminalState};
pub use timers::TimerRegistry;
