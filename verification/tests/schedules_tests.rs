use lotta_app_server::schedules::{
    active_limit_rejection, add_answer, add_inputs, apply_fields, delete_all_answer, delete_answer,
    find_task, fit_kept, hex_encode, insert_task, invalid_expression, list_answer, list_tasks, matches_filter,
    page_limit, prepare_draft, random_schedule_id, remove_agent_tasks, remove_task, resolve_expression,
    runs_order, runs_page, trigger_answer, update_answer, update_fields, update_inputs, update_task,
    validate_fields, window_len, CronAddCommand, CronDeleteAllCommand, CronDeleteCommand,
    CronListCommand, CronTriggerCommand, CronUpdateCommand, ExpressionResolution, FieldChecks,
    RunKey, ScheduleLifecycle, ScheduleRecord, ScheduleUpdate, SchedulesMessage, TriggerOutcome,
};

fn record(id: &str, agent: &str, conversation: &str, status: &str) -> ScheduleRecord {
    ScheduleRecord {
        id: id.to_owned(),
        agent_id: agent.to_owned(),
        conversation_id: conversation.to_owned(),
        name: "name".to_owned(),
        description: "description".to_owned(),
        cron: "0 3 * * *".to_owned(),
        timezone: "UTC".to_owned(),
        recurring: true,
        prompt: "prompt".to_owned(),
        status: status.to_owned(),
        scheduled_for: None,
        lifecycle: ScheduleLifecycle {
            created_at: "2026-01-01T00:00:00Z".to_owned(),
            expires_at: None,
            last_fired_at: Some("2026-01-02T03:00:00Z".to_owned()),
            fire_count: 1,
            cancel_reason: None,
            jitter_offset_ms: 0,
            last_run_at: None,
            last_run_outcome: None,
            last_run_reason: None,
            last_run_error: None,
            last_missed_at: None,
            missed_count: 0,
            failed_count: 0,
            fired_at: None,
            missed_at: None,
        },
    }
}

fn passing_checks() -> FieldChecks {
    FieldChecks {
        cron_parses: true,
        interval: None,
        prompt_accepted: true,
        conversation_accepted: true,
        timezone: Some("UTC".to_owned()),
        scheduled_for: None,
    }
}

fn add_command() -> CronAddCommand {
    CronAddCommand {
        request_id: "a1".to_owned(),
        agent_id: "agent-1".to_owned(),
        conversation_id: None,
        name: "nightly".to_owned(),
        description: "runs nightly".to_owned(),
        cron: "0 3 * * *".to_owned(),
        timezone: None,
        recurring: true,
        prompt: "summarize".to_owned(),
        scheduled_for: None,
    }
}

#[test]
fn filters_match_unset_or_equal_values() {
    assert!(matches_filter(None, None));
    assert!(matches_filter(None, Some("x")));
    assert!(matches_filter(Some("x"), Some("x")));
    assert!(!matches_filter(Some("x"), Some("y")));
    assert!(!matches_filter(Some("x"), None));
}

#[test]
fn listing_filters_by_agent_and_conversation_in_order() {
    let tasks = vec![
        record("s1", "a", "c1", "active"),
        record("s2", "b", "c1", "active"),
        record("s3", "a", "c2", "active"),
    ];
    let ids = |v: Vec<ScheduleRecord>| v.into_iter().map(|t| t.id).collect::<Vec<_>>();
    assert_eq!(ids(list_tasks(&tasks, Some("a"), None)), vec!["s1", "s3"]);
    assert_eq!(ids(list_tasks(&tasks, None, Some("c1"))), vec!["s1", "s2"]);
    assert_eq!(ids(list_tasks(&tasks, Some("a"), Some("c2"))), vec!["s3"]);
    let command = CronListCommand { request_id: "l1".to_owned(), agent_id: None, conversation_id: None };
    let SchedulesMessage::ListResponse(r) = list_answer(&command, Ok(Some(&tasks))) else { panic!("list") };
    assert!(r.success);
    assert_eq!(r.tasks.len(), 3);
    let SchedulesMessage::ListResponse(r) = list_answer(&command, Ok(None)) else { panic!("list") };
    assert!(r.success && r.tasks.is_empty(), "listing a fresh install serves an empty page");
    let SchedulesMessage::ListResponse(r) = list_answer(&command, Err(())) else { panic!("list") };
    assert!(!r.success);
    assert_eq!(r.error.as_deref(), Some("Failed to list crons"));
}

#[test]
fn active_limit_refuses_the_fifty_first_schedule() {
    let mut tasks: Vec<ScheduleRecord> = (0..50).map(|i| record(&format!("s{i}"), "agent-1", "new", "active")).collect();
    tasks.push(record("other", "agent-2", "new", "active"));
    tasks.push(record("done", "agent-1", "new", "completed"));
    let before = tasks.len();
    let refused = insert_task(&mut tasks, record("x", "agent-1", "new", "active"));
    assert_eq!(
        refused.expect_err("limit reached"),
        "Agent agent-1 has 50 active schedules (max 50). Delete some before adding more."
    );
    assert_eq!(tasks.len(), before, "a refused insert changes nothing");
    assert!(insert_task(&mut tasks, record("y", "agent-2", "new", "active")).is_ok());
    assert_eq!(tasks.len(), before + 1);
}

#[test]
fn rejection_texts_are_exact() {
    assert_eq!(active_limit_rejection("a", 7), "Agent a has 7 active schedules (max 50). Delete some before adding more.");
    assert_eq!(
        invalid_expression("definitely not a cron"),
        "Invalid cron expression \"definitely not a cron\". Schedule was not saved."
    );
}

#[test]
fn invalid_expression_rejected_without_writes() {
    let err = resolve_expression("definitely not a cron", false, None).expect_err("refused");
    assert_eq!(err, "Invalid cron expression \"definitely not a cron\". Schedule was not saved.");
    let interval = ExpressionResolution { cron: "*/5 * * * *".to_owned(), warning: Some("rounded".to_owned()) };
    let ok = resolve_expression("5m", false, Some(interval)).expect("interval");
    assert_eq!(ok.cron, "*/5 * * * *");
    assert_eq!(ok.warning.as_deref(), Some("rounded"));
    let ok = resolve_expression("0 3 * * *", true, None).expect("cron");
    assert_eq!(ok.cron, "0 3 * * *");
    assert_eq!(ok.warning, None);
}

#[test]
fn unknown_timezone_rejected_without_writes() {
    let mut command = add_command();
    command.timezone = Some("Mars/Olympus_Mons".to_owned());
    let mut checks = passing_checks();
    checks.timezone = None;
    assert_eq!(
        validate_fields(add_inputs(&command), checks).expect_err("unknown zone"),
        "Unknown IANA timezone"
    );
}

#[test]
fn validation_reports_the_first_failing_field() {
    let mut command = add_command();
    command.conversation_id = Some("bad".to_owned());
    let mut checks = passing_checks();
    checks.prompt_accepted = false;
    checks.conversation_accepted = false;
    assert_eq!(validate_fields(add_inputs(&command), checks).expect_err("prompt first"), "Schedule prompt cannot be empty");
    let mut checks = passing_checks();
    checks.conversation_accepted = false;
    assert_eq!(validate_fields(add_inputs(&command), checks).expect_err("conversation"), "Invalid conversation_id");
    let mut command = add_command();
    command.scheduled_for = Some(Some("not a time".to_owned()));
    assert_eq!(
        validate_fields(add_inputs(&command), passing_checks()).expect_err("instant"),
        "Invalid scheduled_for timestamp"
    );
}

#[test]
fn add_builds_an_active_draft_with_defaults_and_notifies() {
    let command = add_command();
    let fields = validate_fields(add_inputs(&command), passing_checks()).expect("valid");
    let draft = prepare_draft(&command, fields, true, Some("0a1b2c3d".to_owned()), "2026-03-01T00:00:00Z").expect("draft");
    assert_eq!(draft.id, "0a1b2c3d");
    assert_eq!(draft.status, "active");
    assert_eq!(draft.lifecycle.created_at, "2026-03-01T00:00:00Z");
    assert_eq!(draft.lifecycle.fire_count, 0);
    assert_eq!(draft.lifecycle.missed_count, 0);
    assert_eq!(draft.lifecycle.failed_count, 0);
    assert_eq!(draft.lifecycle.jitter_offset_ms, 0);
    assert!(draft.lifecycle.last_fired_at.is_none());
    assert!(draft.lifecycle.expires_at.is_none());
    assert_eq!(draft.cron, "0 3 * * *");
    assert_eq!(draft.conversation_id, "new");
    assert_eq!(draft.timezone, "UTC");
    let mut tasks = Vec::new();
    let inserted = insert_task(&mut tasks, draft);
    let messages = add_answer(&command, inserted, None, 1_000);
    assert_eq!(messages.len(), 2, "response then crons_updated snapshot");
    let SchedulesMessage::AddResponse(r) = &messages[0] else { panic!("add response") };
    assert!(r.success);
    let SchedulesMessage::Updated(u) = &messages[1] else { panic!("notice") };
    assert_eq!(u.agent_id.as_deref(), Some("agent-1"));
    assert_eq!(u.conversation_id, Some(Some("new".to_owned())));
}

#[test]
fn draft_refusals_follow_the_pinned_order() {
    let command = add_command();
    let fields = validate_fields(add_inputs(&command), passing_checks()).expect("valid");
    assert_eq!(prepare_draft(&command, fields, false, None, "2026-03-01T00:00:00Z").expect_err("agent"), "Invalid agent_id");
    let fields = validate_fields(add_inputs(&command), passing_checks()).expect("valid");
    assert_eq!(prepare_draft(&command, fields, true, None, "2026-03-01T00:00:00Z").expect_err("id"), "Failed to add cron");
}

#[test]
fn update_applies_supplied_fields_and_keeps_identity() {
    let mut tasks = vec![record("schedule-1", "a", "c", "active")];
    let command = CronUpdateCommand {
        request_id: "u1".to_owned(),
        task_id: "schedule-1".to_owned(),
        name: Some("renamed".to_owned()),
        description: None,
        conversation_id: None,
        cron: None,
        timezone: None,
        recurring: Some(false),
        prompt: None,
        scheduled_for: Some(None),
    };
    let mut checks = passing_checks();
    checks.timezone = None;
    let fields = validate_fields(update_inputs(&command), checks).expect("valid");
    let update = update_fields(&command, fields);
    let updated = update_task(&mut tasks, &command.task_id, &update).expect("found");
    assert_eq!(updated.name, "renamed");
    assert!(!updated.recurring);
    assert_eq!(updated.id, "schedule-1");
    assert_eq!(updated.lifecycle.fire_count, 1, "an update keeps the run bookkeeping");
    assert_eq!(updated.lifecycle.created_at, "2026-01-01T00:00:00Z");
    assert_eq!(tasks[0].name, "renamed");
    let messages = update_answer(&command, Ok(Some(updated)), 5);
    assert_eq!(messages.len(), 2);
    let messages = update_answer(&command, Ok(None), 5);
    let SchedulesMessage::UpdateResponse(r) = &messages[0] else { panic!("update") };
    assert_eq!(r.error.as_deref(), Some("Cron task not found"));
}

#[test]
fn three_state_scheduled_for_updates() {
    let mut t = record("s", "a", "c", "active");
    let set = ScheduleUpdate {
        name: None,
        description: None,
        conversation_id: None,
        cron: None,
        timezone: None,
        recurring: None,
        prompt: None,
        scheduled_for: Some(Some("2026-01-02T00:00:00Z".to_owned())),
    };
    apply_fields(&mut t, &set);
    assert_eq!(t.scheduled_for.as_deref(), Some("2026-01-02T00:00:00Z"));
    let keep = ScheduleUpdate { scheduled_for: None, ..set };
    apply_fields(&mut t, &keep);
    assert_eq!(t.scheduled_for.as_deref(), Some("2026-01-02T00:00:00Z"), "absent keeps the instant");
    let clear = ScheduleUpdate { scheduled_for: Some(None), ..keep };
    apply_fields(&mut t, &clear);
    assert_eq!(t.scheduled_for, None, "null clears the instant");
}

#[test]
fn delete_and_delete_all() {
    let mut tasks = vec![record("s1", "a", "c", "active"), record("s2", "b", "c", "active"), record("s3", "a", "d", "active")];
    let removed = remove_task(&mut tasks, "s2").expect("found");
    assert_eq!(removed.id, "s2");
    assert!(remove_task(&mut tasks, "s2").is_none());
    let command = CronDeleteCommand { request_id: "d1".to_owned(), task_id: "s2".to_owned() };
    assert_eq!(delete_answer(&command, Ok(Some(removed)), 9).len(), 2);
    let messages = delete_answer(&command, Ok(None), 9);
    let SchedulesMessage::DeleteResponse(r) = &messages[0] else { panic!("delete") };
    assert!(r.success && !r.found);
    assert_eq!(remove_agent_tasks(&mut tasks, "a"), 2);
    assert!(tasks.is_empty());
    assert_eq!(remove_agent_tasks(&mut tasks, "a"), 0);
    let all = CronDeleteAllCommand { request_id: "v6".to_owned(), agent_id: "a".to_owned() };
    let messages = delete_all_answer(&all, Ok(0), 1);
    assert_eq!(messages.len(), 1, "zero deletions emit no snapshot");
    let SchedulesMessage::DeleteAllResponse(r) = &messages[0] else { panic!("delete all") };
    assert_eq!(r.deleted, 0);
    assert_eq!(delete_all_answer(&all, Ok(2), 1).len(), 2);
    let messages = delete_all_answer(&all, Err(()), 1);
    let SchedulesMessage::DeleteAllResponse(r) = &messages[0] else { panic!("delete all") };
    assert_eq!(r.error.as_deref(), Some("Failed to delete cron"));
}

#[test]
fn trigger_answers_follow_the_scheduler_outcome() {
    let command = CronTriggerCommand { request_id: "t1".to_owned(), task_id: "s".to_owned() };
    let SchedulesMessage::TriggerResponse(r) = trigger_answer(&command, Ok(TriggerOutcome { found: false, active: false }), None)
    else { panic!("trigger") };
    assert_eq!(r.error.as_deref(), Some("Schedule not found"));
    assert!(!r.found);
    let SchedulesMessage::TriggerResponse(r) =
        trigger_answer(&command, Ok(TriggerOutcome { found: true, active: false }), Some(record("s", "a", "c", "completed")))
    else { panic!("trigger") };
    assert_eq!(r.error.as_deref(), Some("Schedule is not active"));
    assert!(r.found && !r.success);
    let SchedulesMessage::TriggerResponse(r) =
        trigger_answer(&command, Ok(TriggerOutcome { found: true, active: true }), Some(record("s", "a", "c", "active")))
    else { panic!("trigger") };
    assert!(r.success && r.found);
    let SchedulesMessage::TriggerResponse(r) = trigger_answer(&command, Err(()), None) else { panic!("trigger") };
    assert_eq!(r.error.as_deref(), Some("Failed to trigger cron"));
}

#[test]
fn runs_are_newest_first_and_paged() {
    let entries = vec![
        RunKey { ts: 10, run_id: Some("r1".to_owned()) },
        RunKey { ts: 30, run_id: Some("r2".to_owned()) },
        RunKey { ts: 20, run_id: None },
        RunKey { ts: 30, run_id: Some("r1".to_owned()) },
    ];
    let order = runs_order(&entries, None);
    assert_eq!(order, vec![1, 3, 2, 0], "newest first, ties in log order");
    let filtered = runs_order(&entries, Some("r1"));
    assert_eq!(filtered, vec![3, 0]);
    assert_eq!(page_limit(None), 50, "default limit is the pinned 50");
    assert_eq!(page_limit(Some(0)), 1);
    assert_eq!(page_limit(Some(1000)), 200);
    let kept = window_len(order.len(), 1, 2);
    assert_eq!(kept, 2);
    let page = runs_page(&order, 1, 2, kept);
    assert_eq!(page.entries, vec![3, 2]);
    assert_eq!(page.total, 4);
    assert!(page.has_more);
    assert_eq!(page.next_offset, Some(3));
    let last = runs_page(&order, 3, 50, window_len(order.len(), 3, 50));
    assert_eq!(last.entries, vec![0]);
    assert!(!last.has_more);
    assert_eq!(last.next_offset, None);
    let past = runs_page(&order, 9, 50, window_len(order.len(), 9, 50));
    assert!(past.entries.is_empty());
}

#[test]
fn oversized_pages_shrink_until_they_fit_one_frame() {
    let sizes = vec![40, 90, 130, 170];
    assert_eq!(fit_kept(&sizes, 1000), 3, "a page that fits keeps the window");
    assert_eq!(fit_kept(&sizes, 100), 1, "entries drop from the end until it fits");
    assert_eq!(fit_kept(&sizes, 10), 0, "the empty page goes out whatever its size");
    let order = vec![5, 4, 3];
    let window = window_len(order.len(), 0, 50);
    let sizes = vec![40, 90, 130, 170];
    let page = runs_page(&order, 0, 50, fit_kept(&sizes[..=window].to_vec(), 100));
    assert_eq!(page.entries, vec![5]);
    assert!(page.has_more);
    assert_eq!(page.next_offset, Some(1));
}

#[test]
fn identifiers_are_eight_lower_hex_digits() {
    assert_eq!(hex_encode(&vec![0x0a, 0xff, 0x00, 0x9c]), "0aff009c");
    let id = random_schedule_id().expect("system randomness");
    assert_eq!(id.len(), 8);
    assert!(id.chars().all(|c| c.is_ascii_hexdigit() && !c.is_ascii_uppercase()));
}

#[test]
fn lookup_finds_the_first_matching_identifier() {
    let tasks = vec![record("a", "x", "c", "active"), record("b", "x", "c", "active")];
    assert_eq!(find_task(&tasks, "b"), Some(1));
    assert_eq!(find_task(&tasks, "z"), None);
}
