use lotta_app_server::settings::{
    classify_cwd, default_reflection, env_toggle_enabled, experiment_discriminant,
    experiment_index, experiment_snapshots, experiments_answer, normalize_scope, reflection_answer,
    reflection_write_result, resolve_reflection, apply_reflection_body, scope_key,
    scope_writes_global, scope_writes_local, should_write_global, validate_reflection_body,
    CwdChange, CwdResolution, CwdState, ExperimentId, ExperimentSource, GetCwdMapCommand,
    GetExperimentsCommand, GetReflectionSettingsCommand, PersistedReflection,
    ReflectionMergeMode, ReflectionScope, ReflectionSettingsBody, ReflectionTriggerMode,
    SetExperimentCommand, SetReflectionSettingsCommand, SettingsMessage,
};
use lotta_app_server::teleport::RuntimeScope;

const AGENT_ID: &str = "agent-local-settings-commands";

fn runtime(agent: &str, conversation: &str) -> RuntimeScope {
    RuntimeScope { agent_id: agent.to_owned(), conversation_id: conversation.to_owned() }
}

fn set_command(
    request_id: &str,
    settings: ReflectionSettingsBody,
    scope: Option<ReflectionScope>,
) -> SetReflectionSettingsCommand {
    SetReflectionSettingsCommand {
        request_id: request_id.to_owned(),
        runtime: runtime(AGENT_ID, "default"),
        settings,
        scope,
    }
}

fn body(trigger: ReflectionTriggerMode, step_count: u64) -> ReflectionSettingsBody {
    ReflectionSettingsBody { trigger, step_count, merge: None, merge_instructions: None }
}

fn defaults() -> Vec<lotta_app_server::settings::ExperimentSnapshot> {
    experiment_snapshots(&vec![None; 6], &vec![false; 6])
}

#[test]
fn get_cwd_map_serves_the_boot_directory_before_changes() {
    let state = CwdState::new("/workspace");
    let message = state.cwd_map_answer(&GetCwdMapCommand { request_id: "cm-0".to_owned() });
    let SettingsMessage::CwdMapResponse(response) = message else {
        panic!("expected cwd map response");
    };
    assert!(response.success);
    assert!(response.cwd_map.is_empty(), "a fresh listener serves an empty map");
    assert_eq!(response.boot_working_directory.as_deref(), Some("/workspace"));
}

#[test]
fn set_experiment_persists_through_the_global_side_store_scope() {
    let state = CwdState::new("/workspace");
    let command = SetExperimentCommand {
        request_id: "ex-1".to_owned(),
        experiment_id: ExperimentId::Artifacts,
        enabled: true,
    };
    let mut overrides = vec![None; 6];
    overrides[experiment_index(command.experiment_id)] = Some(command.enabled);
    let after = experiment_snapshots(&overrides, &vec![false; 6]);
    let status = experiment_snapshots(&overrides, &vec![false; 6]);
    let messages = state.set_experiment_answer(&command, Ok(()), after, status);
    assert_eq!(messages.len(), 2);
    let SettingsMessage::SetExperimentResponse(response) = &messages[0] else {
        panic!("expected set experiment response");
    };
    assert!(response.success);
    let artifacts = response
        .experiments
        .iter()
        .find(|snapshot| snapshot.id == ExperimentId::Artifacts)
        .expect("artifacts snapshot");
    assert!(artifacts.enabled);
    assert_eq!(artifacts.source, ExperimentSource::Override);
    assert_eq!(artifacts.override_value, Some(true));
    assert!(matches!(messages[1], SettingsMessage::DeviceStatus { .. }));
}

#[test]
fn get_experiments_lists_every_pinned_definition() {
    let message = experiments_answer(
        &GetExperimentsCommand { request_id: "ex-2".to_owned() },
        defaults(),
    );
    let SettingsMessage::GetExperimentsResponse(response) = message else {
        panic!("expected experiments response");
    };
    assert!(response.success);
    let ids: Vec<String> =
        response.experiments.iter().map(|s| experiment_discriminant(s.id)).collect();
    assert_eq!(
        ids,
        vec![
            "artifacts",
            "conversation_titles",
            "desktop_conversation_bootstrap",
            "diffs",
            "reflection_arena",
            "tui_cron",
        ],
        "pinned definitions in pinned order"
    );
    for snapshot in &response.experiments {
        assert_eq!(snapshot.source, ExperimentSource::Default);
        assert!(!snapshot.enabled);
        assert_eq!(snapshot.override_value, None);
    }
}

#[test]
fn get_reflection_settings_resolves_defaults_then_persisted_entries() {
    let resolved = resolve_reflection(AGENT_ID, &None, &None);
    let message = reflection_answer(
        &GetReflectionSettingsCommand {
            request_id: "rf-1".to_owned(),
            runtime: runtime(AGENT_ID, "default"),
        },
        resolved,
    );
    let SettingsMessage::GetReflectionSettingsResponse(response) = message else {
        panic!("expected reflection response");
    };
    assert!(response.success);
    let settings = response.reflection_settings.expect("settings");
    assert_eq!(settings.trigger, ReflectionTriggerMode::CompactionEvent);
    assert_eq!(settings.step_count, 25);
    assert_eq!(settings.merge, ReflectionMergeMode::Auto);
    assert_eq!(settings.agent_id, AGENT_ID);
    // After a global write of trigger `off` and 40 steps, the read serves the
    // persisted entry back; merge falls back to the current value.
    let mut written = resolve_reflection(AGENT_ID, &None, &None);
    apply_reflection_body(&mut written, &body(ReflectionTriggerMode::Off, 40));
    let persisted = PersistedReflection {
        trigger: Some(written.trigger),
        step_count: Some(written.step_count),
        merge: Some(written.merge),
        merge_instructions: Some(written.merge_instructions.clone()),
    };
    let reread = resolve_reflection(AGENT_ID, &Some(persisted), &None);
    assert_eq!(reread.trigger, ReflectionTriggerMode::Off);
    assert_eq!(reread.step_count, 40);
    assert_eq!(reread.merge, ReflectionMergeMode::Auto);
}

#[test]
fn set_reflection_normalizes_scope_and_emits_snapshot_after_response() {
    let state = CwdState::new("/workspace");
    let command = set_command("rf-4", body(ReflectionTriggerMode::StepCount, 10), None);
    assert!(validate_reflection_body(&command).is_ok());
    let mut written = resolve_reflection(AGENT_ID, &None, &None);
    apply_reflection_body(&mut written, &command.settings);
    let scope = normalize_scope(command.scope);
    assert_eq!(scope, ReflectionScope::Both, "omitted scope normalizes to both");
    let local = if scope_writes_local(scope) { Some(Ok(())) } else { None };
    let global = if should_write_global(scope, &local) { Some(Ok(())) } else { None };
    let result = reflection_write_result(local, global);
    let messages = state.set_reflection_answer(&command, written, result, defaults());
    assert_eq!(messages.len(), 2, "one device-status snapshot after the success response");
    let SettingsMessage::SetReflectionSettingsResponse(response) = &messages[0] else {
        panic!("expected set reflection response");
    };
    assert_eq!(response.scope, ReflectionScope::Both);
    match &messages[1] {
        SettingsMessage::DeviceStatus { device_status } => {
            assert_eq!(
                device_status.reflection_settings.as_ref().expect("written entry").step_count,
                10,
                "the snapshot carries the written reflection entry"
            );
        }
        other => panic!("expected device status, got {other:?}"),
    }
}

#[test]
fn applies_to_next_turn() {
    let mut state = CwdState::new("/workspace");
    let change = CwdChange {
        agent_id: Some("agent-local-cwd-change".to_owned()),
        conversation_id: "local-conv-cwd".to_owned(),
        cwd: "/workspace/next-turn".to_owned(),
    };
    state.apply_cwd_change(&change, true).expect("cwd change applies");
    assert_eq!(
        state.cwd_for_next_turn(Some("agent-local-cwd-change"), "local-conv-cwd", true),
        CwdResolution::Requested("/workspace/next-turn".to_owned()),
        "subsequent turns receive the new cwd"
    );
    assert_eq!(
        state.claim_missing_cwd_reminder(Some("agent-local-cwd-change"), "local-conv-cwd"),
        None,
        "usable directories never record reminders"
    );
    let key = scope_key(Some("agent-local-cwd-change"), Some("local-conv-cwd"));
    let SettingsMessage::CwdMapResponse(response) =
        state.cwd_map_answer(&GetCwdMapCommand { request_id: "cw-1".to_owned() })
    else {
        panic!("expected cwd map response");
    };
    let entry = response.cwd_map.iter().find(|(k, _)| *k == key).expect("scoped entry");
    assert_eq!(entry.1, "/workspace/next-turn");
}

#[test]
fn missing_dir_falls_back_and_reminds_once() {
    let mut state = CwdState::new("/workspace");
    let change = CwdChange {
        agent_id: Some("agent-local-cwd-change".to_owned()),
        conversation_id: "local-conv-cwd".to_owned(),
        cwd: "/workspace/deleted".to_owned(),
    };
    let resolution = state.apply_cwd_change(&change, false).expect("cwd change applies");
    assert_eq!(
        resolution,
        CwdResolution::DeletedFallback {
            original: "/workspace/deleted".to_owned(),
            fallback: "/workspace".to_owned(),
        }
    );
    assert_eq!(
        state.cwd_for_next_turn(Some("agent-local-cwd-change"), "local-conv-cwd", false),
        CwdResolution::DeletedFallback {
            original: "/workspace/deleted".to_owned(),
            fallback: "/workspace".to_owned(),
        }
    );
    assert_eq!(
        state.claim_missing_cwd_reminder(Some("agent-local-cwd-change"), "local-conv-cwd"),
        Some("/workspace/deleted".to_owned()),
        "first claim returns the original requested path"
    );
    assert_eq!(
        state.claim_missing_cwd_reminder(Some("agent-local-cwd-change"), "local-conv-cwd"),
        None,
        "second claim is empty — the reminder is one-time"
    );
}

#[test]
fn accepts_explicit_merge_settings_and_optional_instructions() {
    let command = set_command(
        "request-1",
        ReflectionSettingsBody {
            trigger: ReflectionTriggerMode::StepCount,
            step_count: 25,
            merge: Some(ReflectionMergeMode::Explicit),
            merge_instructions: Some("Preserve exact wording.".to_owned()),
        },
        None,
    );
    assert!(validate_reflection_body(&command).is_ok());
}

#[test]
fn keeps_older_trigger_only_clients_compatible() {
    let command = set_command("request-1", body(ReflectionTriggerMode::CompactionEvent, 25), None);
    assert!(validate_reflection_body(&command).is_ok());
}

#[test]
fn rejects_out_of_range_step_counts_without_writes() {
    let command = set_command("request-1", body(ReflectionTriggerMode::StepCount, 0), None);
    let error = validate_reflection_body(&command).expect_err("zero threshold");
    assert_eq!(error.code, "settings_command_invalid");
    assert_eq!(error.message, "invalid settings command");
    assert_eq!(error.request_id.as_deref(), Some("request-1"));
}

#[test]
fn valid_command_persists_after_validation() {
    let state = CwdState::new("/workspace");
    let command = set_command(
        "request-1",
        ReflectionSettingsBody {
            trigger: ReflectionTriggerMode::StepCount,
            step_count: 25,
            merge: Some(ReflectionMergeMode::Explicit),
            merge_instructions: None,
        },
        None,
    );
    assert!(validate_reflection_body(&command).is_ok());
    let mut written = default_reflection(AGENT_ID);
    apply_reflection_body(&mut written, &command.settings);
    let messages = state.set_reflection_answer(&command, written, Ok(()), defaults());
    let SettingsMessage::SetReflectionSettingsResponse(response) = &messages[0] else {
        panic!("expected set reflection response");
    };
    assert!(response.success);
}

#[test]
fn local_project_scope_writes_the_workspace_local_settings_path() {
    let scope = normalize_scope(Some(ReflectionScope::LocalProject));
    assert!(scope_writes_local(scope));
    assert!(!scope_writes_global(scope), "a local_project write never touches the global document");
    assert!(!should_write_global(scope, &Some(Ok(()))));
}

#[test]
fn global_scope_writes_the_global_settings_path() {
    let scope = normalize_scope(Some(ReflectionScope::Global));
    assert!(!scope_writes_local(scope), "a global write never touches the project-local document");
    assert!(should_write_global(scope, &None));
}

#[test]
fn both_scope_writes_both_scoped_paths() {
    let scope = normalize_scope(None);
    assert!(scope_writes_local(scope));
    assert!(should_write_global(scope, &Some(Ok(()))));
}

#[test]
fn local_failure_skips_the_global_write_and_answers_its_detail() {
    let local = Some(Err(None));
    assert!(!should_write_global(ReflectionScope::Both, &local));
    assert_eq!(
        reflection_write_result(local, None),
        Err("Failed to update project local settings".to_owned())
    );
    assert_eq!(
        reflection_write_result(Some(Ok(())), Some(Err(Some("disk full".to_owned())))),
        Err("disk full".to_owned())
    );
    assert_eq!(
        reflection_write_result(None, Some(Err(None))),
        Err("Failed to update global settings".to_owned())
    );
}

#[test]
fn failed_reflection_write_answers_without_snapshot() {
    let state = CwdState::new("/workspace");
    let command = set_command("rf-9", body(ReflectionTriggerMode::Off, 5), Some(ReflectionScope::Global));
    let written = default_reflection(AGENT_ID);
    let messages =
        state.set_reflection_answer(&command, written, Err("Failed to update global settings".to_owned()), defaults());
    assert_eq!(messages.len(), 1);
    let SettingsMessage::SetReflectionSettingsResponse(response) = &messages[0] else {
        panic!("expected set reflection response");
    };
    assert!(!response.success);
    assert!(response.reflection_settings.is_none());
    assert_eq!(response.error.as_deref(), Some("Failed to update global settings"));
}

#[test]
fn failed_experiment_write_falls_back_to_the_global_catch_all() {
    let state = CwdState::new("/w");
    let command = SetExperimentCommand {
        request_id: "ex-9".to_owned(),
        experiment_id: ExperimentId::Diffs,
        enabled: false,
    };
    let messages = state.set_experiment_answer(&command, Err(None), defaults(), defaults());
    assert_eq!(messages.len(), 1);
    let SettingsMessage::SetExperimentResponse(response) = &messages[0] else {
        panic!("expected set experiment response");
    };
    assert!(!response.success);
    assert_eq!(response.error.as_deref(), Some("Failed to update global settings"));
}

#[test]
fn scope_keys_follow_the_listener_shapes() {
    assert_eq!(scope_key(Some("a1"), Some("c1")), "conversation:c1");
    assert_eq!(scope_key(Some("a1"), Some("default")), "agent:a1::conversation:default");
    assert_eq!(scope_key(None, None), "agent:__unknown__::conversation:default");
}

#[test]
fn persisted_entries_overlay_in_order_and_ignore_zero_steps() {
    let global = PersistedReflection {
        trigger: Some(ReflectionTriggerMode::Off),
        step_count: Some(0),
        merge: Some(ReflectionMergeMode::Explicit),
        merge_instructions: Some("g".to_owned()),
    };
    let local = PersistedReflection {
        trigger: None,
        step_count: Some(12),
        merge: None,
        merge_instructions: Some("l".to_owned()),
    };
    let r = resolve_reflection("a", &Some(global), &Some(local));
    assert_eq!(r.trigger, ReflectionTriggerMode::Off);
    assert_eq!(r.step_count, 12);
    assert_eq!(r.merge, ReflectionMergeMode::Explicit);
    assert_eq!(r.merge_instructions, "l");
}

#[test]
fn merge_instructions_are_trimmed_when_written() {
    let mut r = default_reflection("a");
    apply_reflection_body(
        &mut r,
        &ReflectionSettingsBody {
            trigger: ReflectionTriggerMode::StepCount,
            step_count: 3,
            merge: None,
            merge_instructions: Some("  keep it  ".to_owned()),
        },
    );
    assert_eq!(r.merge_instructions, "keep it");
    assert_eq!(r.merge, ReflectionMergeMode::Auto);
}

#[test]
fn environment_toggles_and_precedence() {
    assert!(env_toggle_enabled(" TRUE "));
    assert!(env_toggle_enabled("1"));
    assert!(env_toggle_enabled("Yes"));
    assert!(!env_toggle_enabled("on"));
    let mut env = vec![false; 6];
    env[0] = true; // artifacts has an environment toggle
    env[1] = true; // conversation titles has none
    let mut overrides = vec![None; 6];
    overrides[4] = Some(false);
    env[4] = true;
    let snapshots = experiment_snapshots(&overrides, &env);
    assert_eq!(snapshots[0].source, ExperimentSource::Env);
    assert!(snapshots[0].enabled);
    assert_eq!(snapshots[1].source, ExperimentSource::Default);
    assert_eq!(snapshots[4].source, ExperimentSource::Override);
    assert!(!snapshots[4].enabled);
    assert_eq!(snapshots[0].env_var.as_deref(), Some("LETTA_ARTIFACTS"));
}

#[test]
fn classification_follows_the_directory_observation() {
    assert_eq!(classify_cwd("/a", "/boot", true), CwdResolution::Requested("/a".to_owned()));
    assert_eq!(
        classify_cwd("/a", "/boot", false),
        CwdResolution::DeletedFallback { original: "/a".to_owned(), fallback: "/boot".to_owned() }
    );
}

#[test]
fn a_read_serves_back_the_last_write() {
    let mut written = default_reflection("agent-x");
    apply_reflection_body(
        &mut written,
        &ReflectionSettingsBody {
            trigger: ReflectionTriggerMode::StepCount,
            step_count: 7,
            merge: Some(ReflectionMergeMode::Explicit),
            merge_instructions: Some("Keep it".to_owned()),
        },
    );
    let persisted = || PersistedReflection {
        trigger: Some(written.trigger),
        step_count: Some(written.step_count),
        merge: Some(written.merge),
        merge_instructions: Some(written.merge_instructions.clone()),
    };
    let stale_global = PersistedReflection {
        trigger: Some(ReflectionTriggerMode::Off),
        step_count: Some(99),
        merge: Some(ReflectionMergeMode::Auto),
        merge_instructions: Some("old".to_owned()),
    };
    let local_read = resolve_reflection("agent-x", &Some(stale_global), &Some(persisted()));
    assert_eq!(local_read.trigger, written.trigger);
    assert_eq!(local_read.step_count, written.step_count);
    assert_eq!(local_read.merge, written.merge);
    assert_eq!(local_read.merge_instructions, written.merge_instructions);
    let global_read = resolve_reflection("agent-x", &Some(persisted()), &None);
    assert_eq!(global_read.step_count, 7);
    assert_eq!(global_read.merge_instructions, "Keep it");
}

#[test]
fn experiment_labels_and_descriptions_are_pinned() {
    let snapshots = defaults();
    assert_eq!(snapshots[0].label, "artifacts");
    assert_eq!(snapshots[2].label, "conversation bootstrap");
    assert_eq!(snapshots[5].label, "TUI cron scheduler");
    assert_eq!(
        snapshots[5].description,
        "Fire scheduled tasks from the CLI when the desktop app isn't running."
    );
}
