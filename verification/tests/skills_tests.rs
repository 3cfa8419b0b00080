use lotta_app_server::skills::{
    disable_answer, disable_check, enable_answer, enable_link_step, enable_precheck, link_path,
    skills_dir_failure, LinkEntry, LinkStep, SkillDisableCommand, SkillEnableCommand,
    SkillSelection, SkillsMessage,
};

const NOW_MS: i64 = 1_767_398_400_000;

fn enable(selection: &mut SkillSelection, request_id: &str, path: &str) -> Vec<SkillsMessage> {
    let command = SkillEnableCommand { request_id: request_id.to_owned(), skill_path: path.to_owned() };
    let name = path.rsplit('/').next();
    let outcome = enable_precheck(&command.skill_path, true, true, name).map_err(Some);
    enable_answer(&command, outcome, selection, NOW_MS)
}

fn disable(selection: &mut SkillSelection, request_id: &str, name: &str, entry: LinkEntry) -> Vec<SkillsMessage> {
    let command = SkillDisableCommand { request_id: request_id.to_owned(), name: name.to_owned() };
    let outcome = disable_check(&command.name, entry);
    disable_answer(&command, outcome, selection, NOW_MS)
}

#[test]
fn enable_adds() {
    let mut selection = SkillSelection::new();
    let messages = enable(&mut selection, "se-1", "/root/skills/note_taker");
    let SkillsMessage::EnableResponse(response) = &messages[0] else {
        panic!("expected enable response");
    };
    assert!(response.success);
    assert_eq!(response.skill_name.as_deref(), Some("note_taker"));
    assert_eq!(
        selection.ids(),
        vec!["note_taker".to_owned()],
        "the runtime's selected skill sources gain the enabled skill"
    );
    assert_eq!(link_path("/root/.letta/skills", "note_taker"), "/root/.letta/skills/note_taker");
    assert_eq!(enable_link_step("/root/.letta/skills/note_taker", LinkEntry::Absent), Ok(LinkStep::Create));
}

#[test]
fn enable_rejects_missing_or_manifestless_paths() {
    let mut selection = SkillSelection::new();
    let command = SkillEnableCommand { request_id: "se-2".to_owned(), skill_path: "/root/absent".to_owned() };
    let outcome = enable_precheck(&command.skill_path, false, false, Some("absent")).map_err(Some);
    let messages = enable_answer(&command, outcome, &mut selection, NOW_MS);
    let SkillsMessage::EnableResponse(response) = &messages[0] else {
        panic!("expected enable response");
    };
    assert!(!response.success);
    assert!(response.error.as_deref().expect("error text").starts_with("Path does not exist:"));
    let command = SkillEnableCommand { request_id: "se-3".to_owned(), skill_path: "/root/bare".to_owned() };
    let outcome = enable_precheck(&command.skill_path, true, false, Some("bare")).map_err(Some);
    let messages = enable_answer(&command, outcome, &mut selection, NOW_MS);
    let SkillsMessage::EnableResponse(response) = &messages[0] else {
        panic!("expected enable response");
    };
    assert!(!response.success);
    assert!(response.error.as_deref().expect("error text").starts_with("No SKILL.md found in"));
    assert!(selection.ids().is_empty(), "rejected enables must not touch the runtime selection");
}

#[test]
fn disable_removes() {
    let mut selection = SkillSelection::new();
    enable(&mut selection, "sd-0", "/root/skills/note_taker");
    let messages = disable(&mut selection, "sd-1", "note_taker", LinkEntry::Symlink);
    let SkillsMessage::DisableResponse(response) = &messages[0] else {
        panic!("expected disable response");
    };
    assert!(response.success);
    assert_eq!(response.skill_name.as_deref(), Some("note_taker"));
    assert!(selection.ids().is_empty(), "disable removes the source");
}

#[test]
fn disable_rejects_absent_or_non_symlink_entries() {
    let mut selection = SkillSelection::new();
    let messages = disable(&mut selection, "sd-2", "absent_skill", LinkEntry::Absent);
    let SkillsMessage::DisableResponse(response) = &messages[0] else {
        panic!("expected disable response");
    };
    assert!(!response.success);
    assert_eq!(response.error.as_deref(), Some("Skill not found: absent_skill"));
    let messages = disable(&mut selection, "sd-3", "plain", LinkEntry::Other);
    let SkillsMessage::DisableResponse(response) = &messages[0] else {
        panic!("expected disable response");
    };
    assert!(!response.success);
    assert!(response
        .error
        .as_deref()
        .expect("error text")
        .contains("is not a symlink — refusing to delete"));
}

#[test]
fn emits_snapshot() {
    let mut selection = SkillSelection::new();
    let mut messages = enable(&mut selection, "su-1", "/root/skills/snapshot_skill");
    messages.extend(disable(&mut selection, "su-2", "snapshot_skill", LinkEntry::Symlink));
    let kinds: Vec<&str> = messages
        .iter()
        .map(|message| match message {
            SkillsMessage::EnableResponse(_) => "skill_enable_response",
            SkillsMessage::DisableResponse(_) => "skill_disable_response",
            SkillsMessage::Updated(_) => "skills_updated",
        })
        .collect();
    assert_eq!(
        kinds,
        vec!["skill_enable_response", "skills_updated", "skill_disable_response", "skills_updated"],
        "every successful mutation emits one snapshot after its response"
    );
    let SkillsMessage::Updated(updated) = &messages[1] else {
        panic!("expected notice");
    };
    assert_eq!(updated.timestamp, 1_767_398_400_000_i64, "clock millis");
}

#[test]
fn selection_adds_once_and_keeps_order() {
    let mut selection = SkillSelection::new();
    selection.add("a");
    selection.add("b");
    selection.add("a");
    assert_eq!(selection.ids(), vec!["a".to_owned(), "b".to_owned()]);
    assert!(selection.remove("a"));
    assert!(!selection.remove("a"));
    assert_eq!(selection.ids(), vec!["b".to_owned()]);
    selection.add("a");
    assert_eq!(selection.ids(), vec!["b".to_owned(), "a".to_owned()]);
}

#[test]
fn link_conflicts_and_unreadable_entries_refuse() {
    match enable_link_step("/g/x", LinkEntry::Other) {
        Err(Some(detail)) => {
            assert_eq!(detail, "/g/x already exists and is not a symlink — refusing to overwrite")
        }
        other => panic!("unexpected {other:?}"),
    }
    assert_eq!(enable_link_step("/g/x", LinkEntry::Symlink), Ok(LinkStep::Replace));
    assert_eq!(enable_link_step("/g/x", LinkEntry::Unreadable), Err(None));
    assert_eq!(disable_check("x", LinkEntry::Unreadable), Err(None));
    assert_eq!(
        disable_check("x", LinkEntry::Other),
        Err(Some("x is not a symlink — refusing to delete. Remove it manually if intended.".to_owned()))
    );
}

#[test]
fn failures_fall_back_to_catch_alls() {
    let mut selection = SkillSelection::new();
    selection.add("kept");
    let command = SkillEnableCommand { request_id: "e".to_owned(), skill_path: "/p".to_owned() };
    let messages = enable_answer(&command, Err(None), &mut selection, NOW_MS);
    assert_eq!(messages.len(), 1);
    let SkillsMessage::EnableResponse(response) = &messages[0] else { panic!("enable response") };
    assert_eq!(response.error.as_deref(), Some("Failed to enable skill"));
    let command = SkillDisableCommand { request_id: "d".to_owned(), name: "kept".to_owned() };
    let messages = disable_answer(&command, Err(None), &mut selection, NOW_MS);
    let SkillsMessage::DisableResponse(response) = &messages[0] else { panic!("disable response") };
    assert_eq!(response.error.as_deref(), Some("Failed to disable skill"));
    assert_eq!(selection.ids(), vec!["kept".to_owned()]);
    assert_eq!(skills_dir_failure().as_deref(), Some("Failed to enable skill: global skills directory"));
}

#[test]
fn precheck_texts_and_link_paths() {
    assert_eq!(
        enable_precheck("/x", false, true, Some("x")),
        Err("Path does not exist: /x".to_owned())
    );
    assert_eq!(
        enable_precheck("/x", true, false, Some("x")),
        Err("No SKILL.md found in /x".to_owned())
    );
    assert_eq!(enable_precheck("/", true, true, None), Err("Path does not exist: /".to_owned()));
    assert_eq!(enable_precheck("/x", true, true, Some("x")), Ok("x".to_owned()));
    assert_eq!(link_path("/g/", "n"), "/g/n");
    assert_eq!(link_path("", "n"), "n");
}
