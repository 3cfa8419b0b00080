use lotta_app_server::router::{
    abort_response, accepted_disposition, admission_row, control_row, input_response,
    is_control_continuation, management_row, members_in_fixture, runtime_start_response,
    state_row, stream_row, sync_response, terminal_row, AbortOutcome, AcceptedInputDisposition,
    ConnectionResponse, CreatedFlags, InputDisposition, ServiceFailure,
    UnsupportedRuntimeCommandService,
};
use lotta_app_server::teleport::RuntimeScope;

fn scope() -> RuntimeScope {
    RuntimeScope { agent_id: "agent-1".to_owned(), conversation_id: "default".to_owned() }
}

#[test]
fn input_acknowledgements_follow_the_disposition() {
    assert_eq!(accepted_disposition(InputDisposition::Started), Some(AcceptedInputDisposition::Started));
    assert_eq!(accepted_disposition(InputDisposition::Queued), Some(AcceptedInputDisposition::Queued));
    assert_eq!(accepted_disposition(InputDisposition::Rejected), None);
    match input_response::<()>(Some("r1"), &scope(), InputDisposition::Rejected, Some("busy")) {
        Some(ConnectionResponse::InputAccepted { request_id, accepted, disposition, error, .. }) => {
            assert_eq!(request_id, "r1");
            assert!(!accepted);
            assert_eq!(disposition, None);
            assert_eq!(error.as_deref(), Some("busy"));
        }
        other => panic!("unexpected {other:?}"),
    }
    match input_response::<()>(Some("r2"), &scope(), InputDisposition::Queued, None) {
        Some(ConnectionResponse::InputAccepted { accepted, disposition, .. }) => {
            assert!(accepted);
            assert_eq!(disposition, Some(AcceptedInputDisposition::Queued));
        }
        other => panic!("unexpected {other:?}"),
    }
    assert!(input_response::<()>(None, &scope(), InputDisposition::Started, None).is_none());
}

#[test]
fn sync_and_abort_answer_only_correlated_commands() {
    assert!(sync_response::<()>(None, &scope()).is_none());
    match sync_response::<()>(Some("s1"), &scope()) {
        Some(ConnectionResponse::SyncResponse { request_id, success, runtime, .. }) => {
            assert_eq!(request_id, "s1");
            assert!(success);
            assert_eq!(runtime.agent_id, "agent-1");
        }
        other => panic!("unexpected {other:?}"),
    }
    match abort_response::<()>(Some("a1"), &scope(), AbortOutcome { aborted: true }) {
        Some(ConnectionResponse::AbortMessage { aborted, success, .. }) => assert!(aborted && success),
        other => panic!("unexpected {other:?}"),
    }
    assert!(abort_response::<()>(None, &scope(), AbortOutcome { aborted: false }).is_none());
}

#[test]
fn runtime_start_carries_creation_flags() {
    let created = CreatedFlags { agent: true, conversation: false };
    match runtime_start_response(&"rs1".to_owned(), &scope(), created, Some(1_u8), None) {
        ConnectionResponse::RuntimeStart { request_id, success, runtime, agent, conversation, created: f, error } => {
            assert_eq!(request_id, "rs1");
            assert!(success);
            assert!(runtime.is_some());
            assert_eq!(agent, Some(1));
            assert_eq!(conversation, None);
            assert_eq!(f, created);
            assert_eq!(error, None);
        }
        other => panic!("unexpected {other:?}"),
    }
}

#[test]
fn control_continuations_are_recognized() {
    assert!(is_control_continuation(Some("approval_response")));
    assert!(is_control_continuation(Some("teleport_continue")));
    assert!(!is_control_continuation(Some("message")));
    assert!(!is_control_continuation(None));
}

#[test]
fn unsupported_service_refuses_everything() {
    let service = UnsupportedRuntimeCommandService;
    assert_eq!(service.runtime_start::<u8>(), Err(ServiceFailure::Unavailable));
    assert_eq!(service.admit_input::<u8>(), Err(ServiceFailure::Unavailable));
    assert_eq!(service.continue_input(), Err(ServiceFailure::Unavailable));
    assert_eq!(service.sync::<u8>(), Err(ServiceFailure::Unavailable));
    assert_eq!(service.abort_message(), Err(ServiceFailure::Unavailable));
    assert_eq!(service.change_device_state::<u8>(), Err(ServiceFailure::Unavailable));
    assert_eq!(service.submit_turn(), Err(ServiceFailure::Unavailable));
}

#[test]
fn rows_resolve_against_a_fixture_listing_in_row_order() {
    let fixture: Vec<String> = ["turn_finished", "stream_delta", "terminal_output", "update_device_status", "input_accepted"]
        .iter()
        .map(|s| s.to_string())
        .collect();
    assert_eq!(
        members_in_fixture(&terminal_row(), &fixture),
        vec!["turn_finished".to_owned(), "terminal_output".to_owned()]
    );
    assert_eq!(members_in_fixture(&stream_row(), &fixture), vec!["stream_delta".to_owned()]);
    assert_eq!(members_in_fixture(&state_row(), &fixture), vec!["update_device_status".to_owned()]);
    assert_eq!(members_in_fixture(&admission_row(), &fixture), vec!["input_accepted".to_owned()]);
    assert_eq!(control_row().len(), 2);
    assert_eq!(management_row().len(), 14);
}
