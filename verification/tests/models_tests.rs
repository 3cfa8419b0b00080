use lotta_app_server::models::{
    applied_to, available_handles, byok_provider_aliases, connected_chatgpt, connect_answer,
    declarative_rows, disconnect_answer, disconnect_input, field_value, find_row, handle_hints,
    list_connect_providers_answer, model_scope_key, provider_entries, record_id, resolve_bedrock_auth,
    resolve_handle, resolve_key_auth, unknown_provider, update_model_answer, usage_answer, usage_source,
    AuthMethodSpec, ChatgptUsageReadCommand, ConnectProviderCommand, ConnectionSnapshot,
    ConnectionState, DisconnectProviderCommand, FieldSpec, ListConnectProvidersCommand, ListedModel,
    ModelUpdateFailure, ResolvedAuth, RuntimeScopeRef, StorageTarget, UpdateModelCommand,
    UpdateModelPayload, UsageTarget,
};
use lotta_app_server::models::{accept_secret, clear_toolset, store_toolset, stored_toolset};
use lotta_app_server::text_map::TextMap;

/// Stored connections of a fresh store seeded with an OpenAI key record
/// and, when asked, a connected ChatGPT plan record.
fn fixture_bridge(openai_key: Option<&str>, chatgpt: bool) -> Vec<ConnectionSnapshot> {
    let mut snapshots = Vec::new();
    if openai_key.is_some() {
        snapshots.push(ConnectionSnapshot {
            id: record_id("openai"),
            provider_name: "openai".to_owned(),
            provider_type: "openai".to_owned(),
            is_connected: true,
        });
    }
    if chatgpt {
        snapshots.push(ConnectionSnapshot {
            id: record_id("chatgpt-plus-pro"),
            provider_name: "chatgpt-plus-pro".to_owned(),
            provider_type: "chatgpt_oauth".to_owned(),
            is_connected: true,
        });
    }
    snapshots
}

fn api_key_fields() -> Vec<FieldSpec> {
    vec![FieldSpec { key: "apiKey".to_owned(), label: "API Key".to_owned(), required: true }]
}

fn fields(pairs: &[(&str, &str)]) -> TextMap {
    let mut m = TextMap::new();
    for (k, v) in pairs {
        m.insert(k, v);
    }
    m
}

fn runtime(conversation: &str) -> RuntimeScopeRef {
    RuntimeScopeRef { agent_id: "agent-1".to_owned(), conversation_id: conversation.to_owned(), acting_user_id: None }
}

#[test]
fn catalog_rows_are_pinned() {
    let rows = declarative_rows();
    assert_eq!(rows.len(), 8);
    let ids: Vec<&str> = rows.iter().map(|r| r.id.as_str()).collect();
    assert_eq!(
        ids,
        vec!["openai", "anthropic", "google-vertex", "openai-compatible", "ollama", "lmstudio", "llama-cpp", "bedrock"]
    );
    assert_eq!(rows[7].provider_type, "amazon-bedrock");
    assert!(!rows[3].requires_api_key);
    assert_eq!(record_id("openai"), "local-provider-openai");
    assert_eq!(find_row(&rows, "ollama"), Some(4));
    assert_eq!(find_row(&rows, "nope-row"), None);
}

#[test]
fn provider_entries_merge_rows_with_connections() {
    let mut snapshots = fixture_bridge(Some("sk-test"), true);
    snapshots.push(ConnectionSnapshot {
        id: "local-provider-mystery".to_owned(),
        provider_name: "mystery".to_owned(),
        provider_type: "mystery_type".to_owned(),
        is_connected: false,
    });
    let entries = provider_entries(&snapshots);
    // Eight rows, then one orphan for each type no row serves.
    assert_eq!(entries.len(), 10);
    assert_eq!(entries[0].id, "openai");
    assert_eq!(entries[0].connected, vec![0]);
    assert!(entries[1].connected.is_empty());
    assert_eq!(entries[8].provider_type, "chatgpt_oauth");
    assert_eq!(entries[8].connected, vec![1]);
    assert_eq!(entries[9].provider_name, "mystery");
    assert!(entries[9].requires_api_key);
    assert_eq!(entries[9].row, None);
    let fresh = list_connect_providers_answer(
        &ListConnectProvidersCommand { request_id: "lp1".to_owned(), target: StorageTarget::Local },
        &fixture_bridge(None, false),
    );
    assert!(fresh.success);
    assert_eq!(fresh.providers.len(), 8);
    assert_eq!(fresh.providers[0].display_name, "OpenAI");
    assert!(fresh.providers[0].connected.is_empty());
}

#[test]
fn connect_resolution_texts() {
    let rows = declarative_rows();
    let openai = &rows[0];
    assert_eq!(unknown_provider("nope-row"), "Unknown provider: nope-row");
    match resolve_key_auth(openai, &None, &api_key_fields(), &fields(&[])) {
        Err(e) => assert_eq!(e, "Missing API Key."),
        other => panic!("unexpected {other:?}"),
    }
    match resolve_key_auth(openai, &None, &api_key_fields(), &fields(&[("apiKey", "  sk-1  ")])) {
        Ok(ResolvedAuth::ApiKey(key)) => assert_eq!(key, "sk-1"),
        other => panic!("unexpected {other:?}"),
    }
    match resolve_key_auth(openai, &Some("iam".to_owned()), &api_key_fields(), &fields(&[])) {
        Err(e) => assert_eq!(e, "OpenAI does not use auth methods."),
        other => panic!("unexpected {other:?}"),
    }
    match resolve_key_auth(&rows[4], &None, &Vec::new(), &fields(&[])) {
        Ok(ResolvedAuth::ApiKey(key)) => assert_eq!(key, "not-needed"),
        other => panic!("unexpected {other:?}"),
    }
    match resolve_key_auth(&rows[1], &None, &Vec::new(), &fields(&[("apiKey", "   ")])) {
        Err(e) => assert_eq!(e, "Missing Anthropic API API key."),
        other => panic!("unexpected {other:?}"),
    }
    match accept_secret(ResolvedAuth::ApiKey("sk-1".to_owned()), false) {
        Err(e) => assert_eq!(e, "Provider API key rejected."),
        other => panic!("unexpected {other:?}"),
    }
    match accept_secret(ResolvedAuth::ApiKey("sk-1".to_owned()), true) {
        Ok(ResolvedAuth::ApiKey(key)) => assert_eq!(key, "sk-1"),
        other => panic!("unexpected {other:?}"),
    }
    assert!(matches!(accept_secret(ResolvedAuth::Profile, false), Ok(ResolvedAuth::Profile)));
}

#[test]
fn bedrock_resolution() {
    let methods = vec![
        AuthMethodSpec {
            id: "iam".to_owned(),
            fields: vec![FieldSpec { key: "region".to_owned(), label: "AWS Region".to_owned(), required: true }],
        },
        AuthMethodSpec { id: "profile".to_owned(), fields: Vec::new() },
    ];
    match resolve_bedrock_auth(&None, &methods, &fields(&[])) {
        Err(e) => assert_eq!(e, "Select an auth method for Amazon Bedrock."),
        other => panic!("unexpected {other:?}"),
    }
    match resolve_bedrock_auth(&Some("sso".to_owned()), &methods, &fields(&[])) {
        Err(e) => assert_eq!(e, "Unknown auth method \"sso\" for Amazon Bedrock."),
        other => panic!("unexpected {other:?}"),
    }
    match resolve_bedrock_auth(&Some("iam".to_owned()), &methods, &fields(&[])) {
        Err(e) => assert_eq!(e, "Missing AWS Region."),
        other => panic!("unexpected {other:?}"),
    }
    match resolve_bedrock_auth(&Some("iam".to_owned()), &methods, &fields(&[("region", "us-east-1")])) {
        Err(e) => assert_eq!(e, "Missing AWS Secret Access Key."),
        other => panic!("unexpected {other:?}"),
    }
    assert!(matches!(
        resolve_bedrock_auth(&Some("profile".to_owned()), &methods, &fields(&[])),
        Ok(ResolvedAuth::Profile)
    ));
}

#[test]
fn connect_failures_answer_on_the_local_target() {
    let command = ConnectProviderCommand {
        request_id: "cp0".to_owned(),
        target: StorageTarget::Local,
        provider_id: "nope-row".to_owned(),
        auth_method_id: None,
        fields: TextMap::new(),
    };
    let m = connect_answer(&command, Err(unknown_provider(&command.provider_id)));
    assert!(!m.success);
    assert_eq!(m.error.as_deref(), Some("Unknown provider: nope-row"));
    assert!(m.providers.is_empty());
    assert!(!m.models_may_have_changed);
    let m = connect_answer(&command, Ok(provider_entries(&fixture_bridge(Some("k"), false))));
    assert!(m.success && m.models_may_have_changed);
    assert_eq!(m.providers.len(), 8);
}

#[test]
fn disconnect_targets_the_row_record() {
    let command = DisconnectProviderCommand {
        request_id: "dp1".to_owned(),
        target: StorageTarget::Local,
        provider_id: "openai".to_owned(),
        provider_name: None,
        force: None,
    };
    let input = disconnect_input(&command);
    assert_eq!(input.provider_id, "local-provider-openai");
    assert!(!input.force);
    let removed = disconnect_answer(&command, Ok(provider_entries(&fixture_bridge(None, false))));
    assert!(removed.success);
    assert!(removed.models_may_have_changed);
    assert!(removed.providers[0].connected.is_empty());
    let absent = disconnect_answer(&command, Err("provider not connected".to_owned()));
    assert!(!absent.success);
    assert!(absent.providers.is_empty());
    assert_eq!(absent.error.as_deref(), Some("provider not connected"));
}

#[test]
fn usage_reads_pick_the_connected_plan() {
    let snapshots = fixture_bridge(None, true);
    assert_eq!(connected_chatgpt(&snapshots, None), Some("chatgpt-plus-pro".to_owned()));
    assert_eq!(connected_chatgpt(&snapshots, Some("chatgpt-plus-pro")), Some("chatgpt-plus-pro".to_owned()));
    assert_eq!(connected_chatgpt(&snapshots, Some("other")), None);
    assert_eq!(connected_chatgpt(&fixture_bridge(Some("k"), false), None), None);
    let mut command = ChatgptUsageReadCommand {
        request_id: "u1".to_owned(),
        target: UsageTarget::Api,
        provider_name: None,
        force_refresh: None,
    };
    let refused = usage_source(&command, Some("chatgpt-plus-pro".to_owned())).expect_err("api target");
    assert_eq!(refused.code, "unsupported_target");
    command.target = UsageTarget::Local;
    let read = usage_source(&command, Some("chatgpt-plus-pro".to_owned())).expect("served");
    assert_eq!(read.provider_name, "chatgpt-plus-pro");
    assert!(!read.force_refresh);
    command.force_refresh = Some(true);
    assert!(usage_source(&command, Some("chatgpt-plus-pro".to_owned())).expect("served").force_refresh);
    command.force_refresh = Some(false);
    assert!(!usage_source(&command, Some("chatgpt-plus-pro".to_owned())).expect("served").force_refresh);
    command.force_refresh = None;
    let refused = usage_source(&command, None).expect_err("no connection");
    assert_eq!(refused.code, "not_connected");
    assert_eq!(refused.message, "Connect a ChatGPT provider to read usage.");
    let m = usage_answer(&command, Ok(42_u32));
    assert!(m.success);
    assert_eq!(m.usage, Some(42));
    let m = usage_answer::<u32>(&command, Err(refused));
    assert!(!m.success);
    assert_eq!(m.error.expect("error").code, "not_connected");
}

#[test]
fn model_updates_select_handles_and_answer() {
    let payload = UpdateModelPayload {
        model_id: Some("sonnet".to_owned()),
        model_handle: Some(String::new()),
        reasoning_effort: None,
    };
    assert_eq!(
        resolve_handle(&payload, None, Some("anthropic/sonnet-test".to_owned())),
        Some("anthropic/sonnet-test".to_owned())
    );
    assert_eq!(resolve_handle(&payload, Some("x/y".to_owned()), None), None, "an empty handle field is ignored");
    let command = UpdateModelCommand { request_id: "um1".to_owned(), runtime: runtime("default"), payload };
    let mut preferences = TextMap::new();
    store_toolset(&mut preferences, &runtime("default"), "codex");
    store_toolset(&mut preferences, &runtime("other"), "default");
    let unavailable =
        update_model_answer::<&str>(&mut preferences, &command, Some("h/m".to_owned()), Err(ModelUpdateFailure::Unavailable));
    assert_eq!(unavailable.error.as_deref(), Some("model unavailable"));
    assert_eq!(stored_toolset(&preferences, &runtime("default")), Some("codex".to_owned()), "a failed update keeps the toolset");
    let ok = update_model_answer(&mut preferences, &command, Some("anthropic/sonnet-test".to_owned()), Ok("settings"));
    assert!(ok.success);
    assert_eq!(stored_toolset(&preferences, &runtime("default")), None, "a successful update clears the toolset");
    assert_eq!(stored_toolset(&preferences, &runtime("other")), Some("default".to_owned()));
    assert_eq!(ok.applied_to.as_deref(), Some("agent"));
    assert_eq!(ok.model_id.as_deref(), Some("sonnet"));
    assert_eq!(ok.model_settings, Some("settings"));
    let missing = update_model_answer::<&str>(&mut preferences, &command, None, Ok("unused"));
    assert_eq!(
        missing.error.as_deref(),
        Some("Model not found. Provide a valid model_id from list_models or a model_handle.")
    );
    let other = update_model_answer::<&str>(&mut preferences, &command, Some("h/m".to_owned()), Err(ModelUpdateFailure::Other));
    assert_eq!(other.error.as_deref(), Some("Failed to update model"));
}

#[test]
fn scope_keys_levels_and_hints() {
    assert_eq!(model_scope_key(&runtime("conv-1")), "agent-1/conv-1");
    assert_eq!(applied_to(&runtime("default")), "agent");
    assert_eq!(applied_to(&runtime("conv-1")), "conversation");
    assert_eq!(handle_hints(Some("openai/gpt-5/mini")), (Some("openai".to_owned()), Some("gpt-5/mini".to_owned())));
    assert_eq!(handle_hints(Some("bare")), (None, None));
    assert_eq!(handle_hints(None), (None, None));
}

#[test]
fn listings_report_ready_handles_and_aliases() {
    let listed = vec![
        ListedModel { handle: "openai/gpt-test".to_owned(), ready: true },
        ListedModel { handle: "anthropic/opus-test".to_owned(), ready: false },
    ];
    assert_eq!(available_handles(&listed), vec!["openai/gpt-test".to_owned()]);
    let mut snapshots = fixture_bridge(Some("k"), false);
    snapshots.push(ConnectionSnapshot {
        id: "x".to_owned(),
        provider_name: "openai".to_owned(),
        provider_type: "openai-compatible".to_owned(),
        is_connected: true,
    });
    let aliases = byok_provider_aliases(&snapshots);
    assert_eq!(aliases.get("openai"), Some("openai-compatible".to_owned()), "the latest connection wins");
    assert_eq!(aliases.len(), 1);
    assert_eq!(field_value(&fields(&[("a", " v ")]), "a"), Some("v".to_owned()));
    let placeholder: ConnectionState<u8, u8> = ConnectionState::disconnected();
    assert!(!placeholder.is_connected && placeholder.id.is_none());
}

#[test]
fn toolset_preferences_are_scoped_and_cleared_by_model_updates() {
    let mut preferences = TextMap::new();
    store_toolset(&mut preferences, &runtime("c1"), "codex");
    store_toolset(&mut preferences, &runtime("c2"), "default");
    assert_eq!(stored_toolset(&preferences, &runtime("c1")), Some("codex".to_owned()));
    clear_toolset(&mut preferences, &runtime("c1"));
    assert_eq!(stored_toolset(&preferences, &runtime("c1")), None);
    assert_eq!(stored_toolset(&preferences, &runtime("c2")), Some("default".to_owned()));
}
