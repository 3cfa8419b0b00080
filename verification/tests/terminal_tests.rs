use lotta_app_server::terminal::{
    decode_chunk, exited_message, failure_message, output_message, resolve_cwd, spawned_message,
    validate, within_window, KillOutcome, SessionTable, TerminalCommand, TerminalInputCommand,
    TerminalKillCommand, TerminalMessage, TERMINAL_ID_BYTES_MAX, TERMINAL_INPUT_BYTES_MAX,
};
use lotta_app_server::ConnectionId;

#[test]
fn commands_from_other_connection_construct_correct_scoped_keys() {
    // The scoping contract is structural: every command resolves its session
    // through (connection, terminal_id), so a foreign connection's terminal_id
    // can never alias another connection's live record.
    let connection_a = ConnectionId::from(1_u64);
    let connection_b = ConnectionId::from(2_u64);
    assert_ne!(connection_a, connection_b);
}

#[test]
fn oversized_terminal_id_is_rejected_with_correlation() {
    let command = TerminalCommand::Kill(TerminalKillCommand {
        terminal_id: "x".repeat(TERMINAL_ID_BYTES_MAX + 1),
    });
    let error = validate(&command, Some("req-1".to_owned())).expect_err("oversized terminal id");
    assert_eq!(error.request_id.as_deref(), Some("req-1"));
    assert_eq!(error.code, "terminal_command_invalid");
}

#[test]
fn oversized_input_data_is_rejected() {
    let command = TerminalCommand::Input(TerminalInputCommand {
        terminal_id: "t".to_owned(),
        data: "x".repeat(TERMINAL_INPUT_BYTES_MAX + 1),
    });
    assert!(validate(&command, None).is_err());
}

#[test]
fn limits_are_inclusive() {
    let at_limit = TerminalCommand::Input(TerminalInputCommand {
        terminal_id: "x".repeat(TERMINAL_ID_BYTES_MAX),
        data: "y".repeat(TERMINAL_INPUT_BYTES_MAX),
    });
    assert!(validate(&at_limit, None).is_ok());
    // Byte length, not character count, is what the limit counts.
    let wide = TerminalCommand::Kill(TerminalKillCommand { terminal_id: "é".repeat(33) });
    assert!(validate(&wide, None).is_err());
}

#[test]
fn foreign_connection_cannot_touch_a_session() {
    let a: ConnectionId = 1;
    let b: ConnectionId = 2;
    let mut table = SessionTable::new();
    table.insert(a, "term-a", 4242, 1_000);
    assert!(matches!(table.kill(b, "term-a", 10_000), KillOutcome::Absent));
    assert_eq!(table.get(a, "term-a"), Some((4242, 1_000)));
    assert_eq!(table.get(b, "term-a"), None);
    assert!(!table.take_matching(b, "term-a", 4242));
    assert_eq!(table.len(), 1);
    let removed = table.disconnect(a);
    assert_eq!(removed.len(), 1);
    assert_eq!(table.len(), 0);
}

#[test]
fn kill_inside_window_is_protected() {
    let mut table = SessionTable::new();
    table.insert(1, "t", 7, 1_000);
    assert!(matches!(table.kill(1, "t", 2_999), KillOutcome::Protected));
    assert_eq!(table.len(), 1);
    assert!(matches!(table.kill(1, "t", 3_000), KillOutcome::Removed(_)));
    assert_eq!(table.len(), 0);
}

#[test]
fn repeat_spawn_reuses_only_a_young_live_session() {
    let mut table = SessionTable::new();
    table.insert(1, "t", 9, 1_000);
    assert_eq!(table.reusable_pid(1, "t", 2_500, false), Some(9));
    assert_eq!(table.reusable_pid(1, "t", 2_500, true), None);
    assert_eq!(table.reusable_pid(1, "t", 3_000, false), None);
    assert_eq!(table.reusable_pid(2, "t", 1_500, false), None);
}

#[test]
fn window_end_overflow_counts_as_outside() {
    assert!(within_window(0, 0));
    assert!(!within_window(2_000, 0));
    assert!(!within_window(i64::MIN, i64::MAX));
}

#[test]
fn natural_exit_removes_only_the_matching_pid() {
    let mut table = SessionTable::new();
    table.insert(1, "t", 5, 0);
    assert!(!table.take_matching(1, "t", 6));
    assert_eq!(table.len(), 1);
    assert!(table.take_matching(1, "t", 5));
    assert_eq!(table.len(), 0);
}

#[test]
fn messages_carry_their_fields() {
    match spawned_message("t", 7) {
        TerminalMessage::Spawned(m) => {
            assert_eq!(m.terminal_id, "t");
            assert_eq!(m.pid, 7);
        }
        other => panic!("unexpected {other:?}"),
    }
    match failure_message("t", "boom".to_owned()) {
        TerminalMessage::Exited(m) => {
            assert_eq!(m.exit_code, 1);
            assert_eq!(m.error.as_deref(), Some("boom"));
        }
        other => panic!("unexpected {other:?}"),
    }
    match exited_message("t", 3) {
        TerminalMessage::Exited(m) => {
            assert_eq!(m.exit_code, 3);
            assert_eq!(m.error, None);
        }
        other => panic!("unexpected {other:?}"),
    }
    match output_message("t", "hi".to_owned()) {
        TerminalMessage::Output(m) => assert_eq!(m.data, "hi"),
        other => panic!("unexpected {other:?}"),
    }
}

#[test]
fn spawn_cwd_prefers_the_request() {
    assert_eq!(resolve_cwd("/home", &Some("/tmp".to_owned())), "/tmp");
    assert_eq!(resolve_cwd("/home", &None), "/home");
}

#[test]
fn output_chunks_decode_lossily() {
    assert_eq!(decode_chunk(b"plain"), "plain");
    assert_eq!(decode_chunk(&[0x66, 0xff, 0x6f]), "f\u{fffd}o");
}
