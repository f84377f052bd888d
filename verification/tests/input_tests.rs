use bubbletea_rs::{line_to_key_msgs, KeyCode, KeyModifiers, KeyMsg};

fn codes(keys: &[KeyMsg]) -> Vec<KeyCode> {
    keys.iter().map(|k| k.key).collect()
}

#[test]
fn test_custom_input_processing() {
    let keys = line_to_key_msgs("ab\n");
    assert_eq!(keys.len(), 3);
    assert_eq!(codes(&keys), vec![KeyCode::Char('a'), KeyCode::Char('b'), KeyCode::Enter]);
    for k in &keys {
        assert_eq!(k.modifiers, KeyModifiers::none());
    }
}

#[test]
fn test_custom_input_empty_line() {
    let keys = line_to_key_msgs("\n");
    assert_eq!(codes(&keys), vec![KeyCode::Enter]);
    assert_eq!(keys[0].modifiers, KeyModifiers::none());
}

#[test]
fn test_custom_input_multiple_lines() {
    let mut keys = line_to_key_msgs("hi\n");
    keys.extend(line_to_key_msgs("bye\n"));
    assert_eq!(keys.len(), 7);
    assert_eq!(
        codes(&keys),
        vec![
            KeyCode::Char('h'),
            KeyCode::Char('i'),
            KeyCode::Enter,
            KeyCode::Char('b'),
            KeyCode::Char('y'),
            KeyCode::Char('e'),
            KeyCode::Enter,
        ]
    );
}

#[test]
fn test_custom_input_eof() {
    let keys = line_to_key_msgs("test");
    assert_eq!(
        codes(&keys),
        vec![KeyCode::Char('t'), KeyCode::Char('e'), KeyCode::Char('s'), KeyCode::Char('t')]
    );
}

#[test]
fn white_space_is_kept() {
    let keys = line_to_key_msgs(" a\n");
    assert_eq!(codes(&keys), vec![KeyCode::Char(' '), KeyCode::Char('a'), KeyCode::Enter]);
    let keys = line_to_key_msgs("  a b\t\r\n");
    assert_eq!(
        codes(&keys),
        vec![
            KeyCode::Char(' '),
            KeyCode::Char(' '),
            KeyCode::Char('a'),
            KeyCode::Char(' '),
            KeyCode::Char('b'),
            KeyCode::Char('\t'),
            KeyCode::Char('\r'),
            KeyCode::Enter,
        ]
    );
    assert!(line_to_key_msgs("").is_empty());
    assert_eq!(codes(&line_to_key_msgs("   ")), vec![KeyCode::Char(' '); 3]);
}

#[test]
fn one_key_per_character() {
    for line in ["abc", " é ü\n", "\u{85}\u{a0}z\u{1680}\n", "\u{200b}q", "\n\n"] {
        let keys = line_to_key_msgs(line);
        assert_eq!(keys.len(), line.chars().count(), "line {:?}", line);
        let text = line.strip_suffix('\n').unwrap_or(line);
        let mut expected: Vec<KeyCode> = text.chars().map(KeyCode::Char).collect();
        if line.ends_with('\n') {
            expected.push(KeyCode::Enter);
        }
        assert_eq!(codes(&keys), expected, "line {:?}", line);
    }
}
