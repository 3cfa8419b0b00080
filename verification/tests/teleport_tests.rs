use lotta_app_server::router::InputDisposition;
use lotta_app_server::teleport::{
    continuation_outcome, ContinuationAdmission, TeleportContinuationOutcome, RuntimeScope, TeleportBridge, TeleportFailedCommand, TeleportMessage, TeleportProbeCommand,
    TeleportReadyMessage, TeleportRequestCommand, TeleportTarget,
};

fn scope() -> RuntimeScope {
    RuntimeScope { agent_id: "agent-1".to_owned(), conversation_id: "conversation-1".to_owned() }
}

fn other_scope() -> RuntimeScope {
    RuntimeScope { agent_id: "agent-1".to_owned(), conversation_id: "conversation-2".to_owned() }
}

fn request_command(runtime: RuntimeScope, teleport_id: &str) -> TeleportRequestCommand {
    TeleportRequestCommand {
        request_id: "request-1".to_owned(),
        teleport_id: teleport_id.to_owned(),
        runtime,
        target: TeleportTarget {
            connection_id: "connection-9".to_owned(),
            device_id: "device-9".to_owned(),
            connection_name: "destination".to_owned(),
        },
    }
}

fn failed_command(teleport_id: &str) -> TeleportFailedCommand {
    TeleportFailedCommand { teleport_id: teleport_id.to_owned(), runtime: scope(), error: "boom".to_owned() }
}

fn ready(message: &TeleportMessage) -> &TeleportReadyMessage {
    match message {
        TeleportMessage::Ready(r) => r,
        other => panic!("expected teleport_ready, got {other:?}"),
    }
}

fn same_ready(a: &TeleportReadyMessage, b: &TeleportReadyMessage) -> bool {
    a.teleport_id == b.teleport_id
        && a.runtime.agent_id == b.runtime.agent_id
        && a.runtime.conversation_id == b.runtime.conversation_id
        && a.success == b.success
        && a.active_turn == b.active_turn
        && a.error == b.error
}

#[test]
fn idle_scope_answers_ready_immediately() {
    let mut bridge = TeleportBridge::new();
    let answer = bridge.request(&request_command(scope(), "teleport-1"), false);
    assert_eq!(bridge.pending_len(), 1);
    let message = answer.expect("one ready outcome");
    let r = ready(&message);
    assert!(r.success);
    assert!(!r.active_turn);
    assert_eq!(r.teleport_id, "teleport-1");
}

#[test]
fn repeat_identical_request_replays_recorded_outcome() {
    let mut bridge = TeleportBridge::new();
    let first = bridge.request(&request_command(scope(), "teleport-1"), false).expect("first");
    let second = bridge.request(&request_command(scope(), "teleport-1"), false).expect("second");
    assert!(same_ready(ready(&first), ready(&second)), "replay emits the same ready outcome");
}

#[test]
fn concurrent_different_teleport_answers_conflict_failure() {
    let mut bridge = TeleportBridge::new();
    assert!(bridge.request(&request_command(scope(), "teleport-1"), true).is_none());
    let message = bridge
        .request(&request_command(scope(), "teleport-2"), false)
        .expect("conflict answers without displacing pending");
    let r = ready(&message);
    assert!(!r.success);
    assert_eq!(r.error.as_deref(), Some("Conversation already has a teleport pending"));
    assert_eq!(bridge.pending_len(), 1);
}

#[test]
fn busy_scopes_are_independent() {
    let mut bridge = TeleportBridge::new();
    assert!(bridge.request(&request_command(scope(), "teleport-1"), true).is_none());
    let message = bridge.request(&request_command(other_scope(), "teleport-2"), false).expect("idle scope answers");
    assert_eq!(ready(&message).teleport_id, "teleport-2");
}

#[test]
fn unknown_failure_identity_changes_nothing() {
    let mut bridge = TeleportBridge::new();
    assert!(bridge.request(&request_command(scope(), "teleport-7"), true).is_none());
    assert!(!bridge.failed(&failed_command("teleport-other")));
    assert_eq!(bridge.pending_len(), 1);
    assert!(bridge.failed(&failed_command("teleport-7")));
    assert_eq!(bridge.pending_len(), 0);
}

#[test]
fn failure_clears_pending_and_admits_subsequent_input() {
    let mut bridge = TeleportBridge::new();
    assert!(bridge.request(&request_command(scope(), "teleport-7"), true).is_none());
    assert_eq!(bridge.pending_len(), 1, "teleport stays pending while busy");
    assert!(bridge.failed(&failed_command("teleport-7")));
    assert_eq!(bridge.pending_len(), 0, "no dangling teleport may survive a failure");
    // A fresh teleport for the same scope is served again.
    let message = bridge.request(&request_command(scope(), "teleport-8"), false).expect("ready");
    assert!(ready(&message).success);
}

#[test]
fn probe_answers_without_touching_pending_state() {
    let bridge = TeleportBridge::new();
    let message = bridge.probe(&TeleportProbeCommand { request_id: "probe-1".to_owned(), runtime: scope() });
    assert_eq!(bridge.pending_len(), 0);
    match message {
        TeleportMessage::ProbeResponse(p) => {
            assert_eq!(p.request_id, "probe-1");
            assert!(p.supported && p.drains_accepted_inputs && p.idempotent_continuation);
        }
        other => panic!("expected probe response, got {other:?}"),
    }
}

#[test]
fn continuation_outcomes_follow_the_admission() {
    assert_eq!(continuation_outcome(ContinuationAdmission::Continue), Ok(TeleportContinuationOutcome::Continued));
    assert_eq!(
        continuation_outcome(ContinuationAdmission::StaleGeneration),
        Ok(TeleportContinuationOutcome::StaleLease),
        "a superseded generation is rejected with zero emissions"
    );
    assert_eq!(
        continuation_outcome(ContinuationAdmission::Duplicate(InputDisposition::Started)),
        Ok(TeleportContinuationOutcome::Duplicate(InputDisposition::Started))
    );
    assert_eq!(continuation_outcome(ContinuationAdmission::Other), Err(()));
}
