use bubbletea_rs::{frame_text, TerminalOp, TerminalRequest, TerminalState};

fn apply(state: &mut TerminalState, req: TerminalRequest) -> Option<TerminalOp> {
    let op = state.effect(req);
    state.record(req);
    op
}

#[test]
fn new_terminal_has_visible_cursor_and_no_modes() {
    let s = TerminalState::new();
    assert!(!s.raw_mode && !s.alt_screen && !s.mouse_enabled && !s.focus_reporting);
    assert!(s.cursor_visible);
    assert!(s.drop_ops().is_empty());
}

#[test]
fn mode_requests_are_idempotent() {
    let mut s = TerminalState::new();
    assert_eq!(apply(&mut s, TerminalRequest::EnterRawMode), Some(TerminalOp::EnableRawMode));
    assert_eq!(apply(&mut s, TerminalRequest::EnterRawMode), None);
    assert_eq!(apply(&mut s, TerminalRequest::EnterAltScreen), Some(TerminalOp::EnterAlternateScreen));
    assert_eq!(apply(&mut s, TerminalRequest::EnterAltScreen), None);
    assert_eq!(apply(&mut s, TerminalRequest::EnableMouseCellMotion), Some(TerminalOp::EnableMouseCapture));
    assert_eq!(apply(&mut s, TerminalRequest::EnableMouseAllMotion), None);
    assert_eq!(apply(&mut s, TerminalRequest::HideCursor), Some(TerminalOp::HideCursor));
    assert_eq!(apply(&mut s, TerminalRequest::HideCursor), None);
}

#[test]
fn paste_and_clear_are_always_performed() {
    let mut s = TerminalState::new();
    for _ in 0..2 {
        assert_eq!(apply(&mut s, TerminalRequest::EnableBracketedPaste), Some(TerminalOp::EnableBracketedPaste));
        assert_eq!(apply(&mut s, TerminalRequest::DisableBracketedPaste), Some(TerminalOp::DisableBracketedPaste));
        assert_eq!(apply(&mut s, TerminalRequest::Clear), Some(TerminalOp::ClearAll));
    }
    assert_eq!(s, TerminalState::new());
}

#[test]
fn on_then_off_restores_state() {
    let pairs = [
        (TerminalRequest::EnterRawMode, TerminalRequest::ExitRawMode),
        (TerminalRequest::EnterAltScreen, TerminalRequest::ExitAltScreen),
        (TerminalRequest::EnableMouse, TerminalRequest::DisableMouse),
        (TerminalRequest::EnableFocusReporting, TerminalRequest::DisableFocusReporting),
        (TerminalRequest::HideCursor, TerminalRequest::ShowCursor),
    ];
    for (on, off) in pairs {
        let mut s = TerminalState::new();
        let start = s;
        assert!(apply(&mut s, on).is_some());
        assert!(apply(&mut s, off).is_some());
        assert_eq!(s, start);
        assert_eq!(apply(&mut s, off), None);
    }
}

#[test]
fn drop_ops_undo_active_modes_in_order() {
    let mut s = TerminalState::new();
    for req in [
        TerminalRequest::EnterRawMode,
        TerminalRequest::EnterAltScreen,
        TerminalRequest::EnableMouse,
        TerminalRequest::EnableFocusReporting,
        TerminalRequest::HideCursor,
    ] {
        apply(&mut s, req);
    }
    assert_eq!(
        s.drop_ops(),
        vec![
            TerminalOp::ShowCursor,
            TerminalOp::DisableMouseCapture,
            TerminalOp::DisableFocusChange,
            TerminalOp::LeaveAlternateScreen,
            TerminalOp::DisableRawMode,
        ]
    );
    let mut t = TerminalState::new();
    apply(&mut t, TerminalRequest::EnterAltScreen);
    assert_eq!(t.drop_ops(), vec![TerminalOp::LeaveAlternateScreen]);
}

#[test]
fn frame_text_turns_line_feeds_into_crlf() {
    assert_eq!(frame_text("a\nb\n", false), "a\r\nb\r\n");
    assert_eq!(frame_text("a\nb", true), "\x1b[H\x1b[2Ja\r\nb");
    assert_eq!(frame_text("", true), "\x1b[H\x1b[2J");
    assert_eq!(frame_text("", false), "");
    assert_eq!(frame_text("x\r\ny", false), "x\r\r\ny");
    assert_eq!(frame_text("héllo ✓\n", false), "héllo ✓\r\n");
}
