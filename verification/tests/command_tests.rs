use bubbletea_rs::{sequence_outcome, BatchCmdMsg, QuitMsg};

#[test]
fn sequence_with_no_messages_produces_nothing() {
    assert!(sequence_outcome::<i32>(vec![]).is_none());
    assert!(sequence_outcome::<i32>(vec![None, None]).is_none());
}

#[test]
fn sequence_keeps_produced_messages_in_order() {
    let b = sequence_outcome(vec![Some(1), None, Some(2), Some(3), None]).unwrap();
    assert_eq!(b.messages, vec![1, 2, 3]);
    let b = sequence_outcome(vec![None, Some("only")]).unwrap();
    assert_eq!(b.messages, vec!["only"]);
}

#[test]
fn batch_cmd_msg_holds_its_commands() {
    let b = BatchCmdMsg(vec![QuitMsg, QuitMsg]);
    assert_eq!(b.0.len(), 2);
}
