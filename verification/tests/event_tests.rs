use bubbletea_rs::{
    next_timer_id, BlurMsg, CancelTimerMsg, FocusMsg, InterruptMsg, KeyCode, KeyModifiers, KeyMsg,
    MouseButton, MouseEventKind, MouseMsg, PasteMsg, QuitMsg, ResumeMsg, SuspendMsg, TimerIds,
    WindowSizeMsg,
};
use std::any::Any;

type Msg = Box<dyn Any + Send>;

#[test]
fn test_msg_type_alias() {
    let key_msg: Msg = Box::new(KeyMsg {
        key: KeyCode::Char('a'),
        modifiers: KeyModifiers::none(),
    });

    let mouse_msg: Msg = Box::new(MouseMsg {
        x: 10,
        y: 20,
        button: MouseEventKind::Down(MouseButton::Left),
        modifiers: KeyModifiers::control(),
    });

    let quit_msg: Msg = Box::new(QuitMsg);

    assert!(key_msg.downcast_ref::<KeyMsg>().is_some());
    assert!(mouse_msg.downcast_ref::<MouseMsg>().is_some());
    assert!(quit_msg.downcast_ref::<QuitMsg>().is_some());

    assert!(key_msg.downcast_ref::<MouseMsg>().is_none());
}

#[test]
fn test_key_msg() {
    let key_msg = KeyMsg {
        key: KeyCode::Enter,
        modifiers: KeyModifiers::shift().union(KeyModifiers::control()),
    };

    assert_eq!(key_msg.key, KeyCode::Enter);
    assert!(key_msg.modifiers.contains(KeyModifiers::shift()));
    assert!(key_msg.modifiers.contains(KeyModifiers::control()));
    assert!(!key_msg.modifiers.contains(KeyModifiers::alt()));
}

#[test]
fn test_mouse_msg() {
    let mouse_msg = MouseMsg {
        x: 42,
        y: 24,
        button: MouseEventKind::Down(MouseButton::Right),
        modifiers: KeyModifiers::alt(),
    };

    assert_eq!(mouse_msg.x, 42);
    assert_eq!(mouse_msg.y, 24);
    assert_eq!(mouse_msg.button, MouseEventKind::Down(MouseButton::Right));
    assert_eq!(mouse_msg.modifiers, KeyModifiers::alt());
}

#[test]
fn test_window_size_msg() {
    let size_msg = WindowSizeMsg {
        width: 80,
        height: 24,
    };

    assert_eq!(size_msg.width, 80);
    assert_eq!(size_msg.height, 24);
}

#[test]
fn test_lifecycle_messages() {
    let quit_msg = QuitMsg;
    let interrupt_msg = InterruptMsg;
    let suspend_msg = SuspendMsg;
    let resume_msg = ResumeMsg;
    let focus_msg = FocusMsg;
    let blur_msg = BlurMsg;

    let _: QuitMsg = quit_msg;
    let _: InterruptMsg = interrupt_msg;
    let _: SuspendMsg = suspend_msg;
    let _: ResumeMsg = resume_msg;
    let _: FocusMsg = focus_msg;
    let _: BlurMsg = blur_msg;
}

#[test]
fn test_message_cloning() {
    let key_msg = KeyMsg {
        key: KeyCode::Char('x'),
        modifiers: KeyModifiers::none(),
    };
    let cloned = key_msg.clone();
    assert_eq!(key_msg.key, cloned.key);
    assert_eq!(key_msg.modifiers, cloned.modifiers);

    let mouse_msg = MouseMsg {
        x: 1,
        y: 2,
        button: MouseEventKind::Moved,
        modifiers: KeyModifiers::none(),
    };
    let cloned = mouse_msg.clone();
    assert_eq!(mouse_msg.x, cloned.x);
    assert_eq!(mouse_msg.y, cloned.y);

    let size_msg = WindowSizeMsg {
        width: 100,
        height: 50,
    };
    let cloned = size_msg.clone();
    assert_eq!(size_msg.width, cloned.width);
    assert_eq!(size_msg.height, cloned.height);
}

#[test]
fn test_message_debug() {
    let key_msg = KeyMsg {
        key: KeyCode::Char('a'),
        modifiers: KeyModifiers::control(),
    };
    let debug_str = format!("{:?}", key_msg);
    assert!(debug_str.contains("KeyMsg"));

    let quit_msg = QuitMsg;
    let debug_str = format!("{:?}", quit_msg);
    assert!(debug_str.contains("QuitMsg"));
}

#[test]
fn test_messages_are_send() {
    fn assert_send<T: Send>() {}

    assert_send::<KeyMsg>();
    assert_send::<MouseMsg>();
    assert_send::<WindowSizeMsg>();
    assert_send::<QuitMsg>();
    assert_send::<InterruptMsg>();
    assert_send::<SuspendMsg>();
    assert_send::<ResumeMsg>();
    assert_send::<FocusMsg>();
    assert_send::<BlurMsg>();
    assert_send::<Msg>();
}

#[test]
fn test_message_type_checking() {
    let key_msg = KeyMsg {
        key: KeyCode::Enter,
        modifiers: KeyModifiers::none(),
    };

    let msg: Msg = Box::new(key_msg);

    assert!(msg.downcast_ref::<KeyMsg>().is_some());
    assert!(msg.downcast_ref::<MouseMsg>().is_none());

    if let Some(key_msg) = msg.downcast_ref::<KeyMsg>() {
        assert_eq!(key_msg.key, KeyCode::Enter);
    }
}

#[test]
fn test_message_any_trait() {
    let key_msg = KeyMsg {
        key: KeyCode::Esc,
        modifiers: KeyModifiers::alt(),
    };

    let any_ref: &dyn Any = &key_msg;
    assert!(any_ref.is::<KeyMsg>());
    assert!(!any_ref.is::<MouseMsg>());
}

#[test]
fn test_special_key_codes() {
    let special_keys = vec![
        KeyCode::Enter,
        KeyCode::Tab,
        KeyCode::Backspace,
        KeyCode::Delete,
        KeyCode::Up,
        KeyCode::Down,
        KeyCode::Left,
        KeyCode::Right,
        KeyCode::Home,
        KeyCode::End,
        KeyCode::PageUp,
        KeyCode::PageDown,
        KeyCode::Esc,
    ];

    for key_code in special_keys {
        let key_msg = KeyMsg {
            key: key_code,
            modifiers: KeyModifiers::none(),
        };

        assert_eq!(key_msg.key, key_code);

        let msg: Msg = Box::new(key_msg);
        assert!(msg.downcast_ref::<KeyMsg>().is_some());
    }
}

#[test]
fn test_modifier_combinations() {
    let shift = KeyModifiers::shift();
    let control = KeyModifiers::control();
    let alt = KeyModifiers::alt();
    let modifiers = vec![
        KeyModifiers::none(),
        shift,
        control,
        alt,
        shift.union(control),
        shift.union(alt),
        control.union(alt),
        shift.union(control).union(alt),
    ];

    for modifier in modifiers {
        let key_msg = KeyMsg {
            key: KeyCode::Char('x'),
            modifiers: modifier,
        };

        assert_eq!(key_msg.modifiers, modifier);
    }
}

#[test]
fn test_mouse_button_types() {
    let mouse_buttons = vec![
        MouseEventKind::Down(MouseButton::Left),
        MouseEventKind::Down(MouseButton::Right),
        MouseEventKind::Down(MouseButton::Middle),
        MouseEventKind::Up(MouseButton::Left),
        MouseEventKind::Up(MouseButton::Right),
        MouseEventKind::Up(MouseButton::Middle),
        MouseEventKind::Moved,
        MouseEventKind::Drag(MouseButton::Left),
    ];

    for button_kind in mouse_buttons {
        let mouse_msg = MouseMsg {
            x: 0,
            y: 0,
            button: button_kind,
            modifiers: KeyModifiers::none(),
        };

        assert_eq!(mouse_msg.button, button_kind);

        let msg: Msg = Box::new(mouse_msg);
        assert!(msg.downcast_ref::<MouseMsg>().is_some());
    }
}

#[test]
fn modifier_bits() {
    assert_eq!(KeyModifiers::none().bits, 0);
    assert_eq!(KeyModifiers::shift().bits, 1);
    assert_eq!(KeyModifiers::control().bits, 2);
    assert_eq!(KeyModifiers::alt().bits, 4);
    assert_eq!(KeyModifiers::super_key().bits, 8);
    assert_eq!(KeyModifiers::hyper().bits, 16);
    assert_eq!(KeyModifiers::meta().bits, 32);
    assert_eq!(KeyModifiers::empty(), KeyModifiers::none());
    assert!(KeyModifiers::none().contains(KeyModifiers::empty()));
    assert!(!KeyModifiers::none().contains(KeyModifiers::meta()));
}

#[test]
fn paste_msg_keeps_text() {
    let paste_msg = PasteMsg("Hello\nWorld".to_string());
    assert_eq!(paste_msg.0, "Hello\nWorld");
}

#[test]
fn timer_ids_start_at_one_and_never_repeat() {
    let mut ids = TimerIds::new();
    let id1 = next_timer_id(&mut ids);
    let id2 = next_timer_id(&mut ids);
    let id3 = next_timer_id(&mut ids);
    assert_eq!((id1, id2, id3), (1, 2, 3));
    assert_ne!(id1, id2);
    let cancel = CancelTimerMsg { timer_id: id2 };
    assert_eq!(cancel.timer_id, 2);
}

#[test]
fn test_key_message_conversion() {
    let key_msg = KeyMsg {
        key: KeyCode::Char('a'),
        modifiers: KeyModifiers::control(),
    };

    assert_eq!(key_msg.key, KeyCode::Char('a'));
    assert!(key_msg.modifiers.contains(KeyModifiers::control()));
}

#[test]
fn test_mouse_message_conversion() {
    let mouse_msg = MouseMsg {
        x: 10,
        y: 5,
        button: MouseEventKind::Down(MouseButton::Left),
        modifiers: KeyModifiers::shift(),
    };

    assert_eq!(mouse_msg.x, 10);
    assert_eq!(mouse_msg.y, 5);
    assert!(matches!(
        mouse_msg.button,
        MouseEventKind::Down(MouseButton::Left)
    ));
    assert!(mouse_msg.modifiers.contains(KeyModifiers::shift()));
}

#[test]
fn test_window_size_message_conversion() {
    let window_size_msg = WindowSizeMsg {
        width: 80,
        height: 24,
    };

    assert_eq!(window_size_msg.width, 80);
    assert_eq!(window_size_msg.height, 24);
}
