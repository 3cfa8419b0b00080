use lotta_app_server::memory::{
    build_entry, decode_content, enable_answer, encode_content, history_limit, list_chunks,
    memory_root_of, mutation_answer, mutation_precheck, parent_revision, EnableMemfsCommand,
    MemoryEncoding, MemoryEntryKind, MemoryMessage, MutationKind, MutationOutcome, MutationRequest,
};
use lotta_app_server::memory::{delete_plan, history_answer, mutation_start, DeletePlan, MutationStep, HistoryEntry, MemoryHistoryCommand};
use lotta_app_server::memory_paths::{confine, normalize_path, PathRejection};
use lotta_app_server::memory_refs::{description_of, split_frontmatter_of, wiki_reference_list, wiki_target_list};

fn chars(s: &str) -> Vec<char> {
    s.chars().collect()
}

fn text(v: &[char]) -> String {
    v.iter().collect()
}

#[test]
fn listing_entries_classify_describe_and_resolve_references() {
    let known = vec!["system/core.md".to_owned(), "plain.md".to_owned()];
    let plain = build_entry("plain.md", b"---\ndescription: plain\n---\nbody [[core]]\n", true, &known)
        .expect("markdown is listed");
    assert_eq!(plain.kind, MemoryEntryKind::Markdown);
    assert_eq!(plain.mime_type, "text/markdown");
    assert_eq!(plain.description.as_deref(), Some("plain"));
    assert_eq!(plain.content, "body [[core]]");
    assert_eq!(plain.references, Some(vec!["system/core.md".to_owned()]));
    let system = build_entry(
        "system/core.md",
        b"---\ndescription: core system doc\n---\nsee [[plain]]\n",
        true,
        &known,
    )
    .expect("markdown is listed");
    assert!(system.is_system);
    assert_eq!(system.description.as_deref(), Some("core system doc"));
    let image = build_entry("pic.png", &[0x89, b'P', b'N', b'G'], true, &known).expect("image is listed");
    assert_eq!(image.kind, MemoryEntryKind::Image);
    assert_eq!(image.mime_type, "image/png");
    assert_eq!(image.size, 4);
    assert!(build_entry("skipped.txt", b"not memory material", true, &known).is_none());
}

#[test]
fn listing_chunks_end_with_one_done_frame() {
    let known: Vec<String> = Vec::new();
    let entries = vec![
        build_entry("a.md", b"x", false, &known).expect("entry"),
        build_entry("b.md", b"y", false, &known).expect("entry"),
    ];
    let frames = list_chunks("l1", entries);
    let last = frames.last().expect("a terminal frame");
    assert!(last.done);
    assert_eq!(last.total, 2);
    assert_eq!(frames.iter().filter(|f| f.done).count(), 1);
    assert_eq!(frames.iter().map(|f| f.entries.len()).sum::<usize>(), 2);
}

#[test]
fn traversal_and_absolute_paths_are_rejected() {
    for path in ["../peer.md", "sub/../../escape.md", ".", ".."] {
        assert_eq!(confine(path), Err(PathRejection::EscapesRoot), "accepted traversal {path:?}");
        assert!(PathRejection::EscapesRoot.text("write_memory_file: ").contains("resolve inside the memory root"));
    }
    for path in ["/etc/passwd", ""] {
        assert_eq!(confine(path), Err(PathRejection::NotRelative), "accepted absolute {path:?}");
    }
    assert_eq!(
        PathRejection::NotRelative.text(""),
        "path must be a non-empty relative path"
    );
    assert_eq!(text(&confine("notes/today.md").expect("inside")), "notes/today.md");
    assert_eq!(confine("a//b.md"), Err(PathRejection::EscapesRoot));
}

#[test]
fn content_round_trips_through_both_encodings() {
    let bytes = b"hello \xff world";
    let b64 = encode_content(bytes, MemoryEncoding::Base64);
    assert_eq!(b64, "aGVsbG8g/yB3b3JsZA==");
    assert_eq!(decode_content(&b64, MemoryEncoding::Base64, 1024), Ok(bytes.to_vec()));
    assert_eq!(encode_content(b"plain", MemoryEncoding::Utf8), "plain");
    assert_eq!(encode_content(&[0x66, 0xff], MemoryEncoding::Utf8), "f\u{fffd}");
    assert_eq!(decode_content("plain", MemoryEncoding::Utf8, 1024), Ok(b"plain".to_vec()));
    assert!(decode_content("not base64!", MemoryEncoding::Base64, 1024).is_err());
    assert!(decode_content("toolong", MemoryEncoding::Utf8, 3).is_err());
}

#[test]
fn frontmatter_and_wiki_links() {
    let (front, body) = split_frontmatter_of(&chars("---\ndescription: d\n---\nbody\n"));
    assert_eq!(front.map(|f| text(&f)), Some("d".to_owned()), "the description value");
    assert_eq!(text(&body), "body");
    let (front, body) = split_frontmatter_of(&chars("no frontmatter"));
    assert!(front.is_none());
    assert_eq!(text(&body), "no frontmatter");
    let targets: Vec<String> =
        wiki_target_list(&chars("a [[x]] b [[y|alias]] [[x]]")).iter().map(|t| text(t)).collect();
    assert!(targets.contains(&"x".to_owned()));
    let known = vec![chars("system/x.md"), chars("self.md")];
    let refs: Vec<String> = wiki_reference_list(&chars("[[x]] [[self]] [[missing]] [[x]]"), &chars("self.md"), &known)
        .iter()
        .map(|r| text(r))
        .collect();
    assert_eq!(refs, vec!["system/x.md".to_owned()], "no self reference, no duplicates");
}

#[test]
fn history_limits_and_parents() {
    assert!(history_limit(None) > 0);
    assert_eq!(history_limit(Some(5)), 5);
    let history = vec!["c3".to_owned(), "c2".to_owned(), "c1".to_owned()];
    assert_eq!(parent_revision(&history, "c3"), Ok(Some("c2".to_owned())));
    assert_eq!(parent_revision(&history, "c1"), Ok(None));
    assert_eq!(parent_revision(&history, "zz"), Err(()));
}

#[test]
fn paths_normalize_lexically() {
    assert_eq!(text(&normalize_path(&chars("a/./b/../c"))), "a/c");
    assert!(memory_root_of("/backend", "agent-1").ends_with("memfs/agent-1/memory"));
}

fn write_request(path: &str) -> MutationRequest {
    MutationRequest {
        which: MutationKind::Write,
        request_id: "w1".to_owned(),
        agent_id: "agent-local-memory-test".to_owned(),
        path: path.to_owned(),
        commit_message: None,
    }
}

#[test]
fn committed_writes_push_the_notice_before_the_response() {
    let request = write_request("notes.md");
    let messages = mutation_answer(
        &request,
        "notes.md",
        Ok(MutationOutcome { committed: true, revision: Some("abc123".to_owned()) }),
        77,
    );
    assert_eq!(messages.len(), 2);
    match &messages[0] {
        MemoryMessage::Updated(u) => {
            assert_eq!(u.affected_paths, vec!["notes.md".to_owned()]);
            assert_eq!(u.timestamp, 77);
        }
        other => panic!("expected memory_updated first, got {other:?}"),
    }
    match &messages[1] {
        MemoryMessage::WriteFileResponse(r) => {
            assert!(r.success);
            assert_eq!(r.committed, Some(true));
            assert_eq!(r.commit_sha.as_deref(), Some("abc123"));
        }
        other => panic!("expected write response, got {other:?}"),
    }
    let unchanged = mutation_answer(&request, "notes.md", Ok(MutationOutcome { committed: false, revision: None }), 77);
    assert_eq!(unchanged.len(), 1, "an unchanged file pushes no notice");
}

#[test]
fn mutation_rejections_carry_the_command_prefix() {
    match mutation_precheck(&write_request("../escape.md"), true, true) {
        Err(MemoryMessage::WriteFileResponse(r)) => {
            assert!(!r.success);
            assert_eq!(r.error.as_deref(), Some("write_memory_file: path must resolve inside the memory root"));
        }
        other => panic!("unexpected {other:?}"),
    }
    match mutation_precheck(&write_request("notes.md"), false, true) {
        Err(MemoryMessage::WriteFileResponse(r)) => {
            assert_eq!(r.error.as_deref(), Some("write_memory_file: invalid agent identifier"));
        }
        other => panic!("unexpected {other:?}"),
    }
    match mutation_precheck(&write_request("notes.md"), true, false) {
        Err(MemoryMessage::WriteFileResponse(r)) => {
            assert_eq!(r.error.as_deref(), Some("write_memory_file: memfs is not enabled for this agent"));
        }
        other => panic!("unexpected {other:?}"),
    }
    assert_eq!(mutation_precheck(&write_request("notes.md"), true, true).ok(), Some("notes.md".to_owned()));
}

#[test]
fn enabling_memfs_answers_the_memory_directory() {
    let command = EnableMemfsCommand { agent_id: "agent-local-memory-test".to_owned(), request_id: "en1".to_owned() };
    let messages = enable_answer(&command, true, true, "/backend", 5);
    assert_eq!(messages.len(), 2);
    match &messages[0] {
        MemoryMessage::EnableMemfsResponse(r) => {
            assert!(r.success);
            assert!(r.memory_directory.as_deref().expect("directory").ends_with("memfs/agent-local-memory-test/memory"));
        }
        other => panic!("unexpected {other:?}"),
    }
}

#[test]
fn confined_paths_are_already_normal() {
    for path in ["notes.md", "a/b/c.md", "system/core.md"] {
        let confined = confine(path).expect("inside the root");
        assert_eq!(text(&normalize_path(&confined)), path);
    }
}

#[test]
fn quoted_descriptions_decode_as_json_strings() {
    assert_eq!(text(&description_of(&chars(r#"  "a \"q\" \u00e9"  "#))), "a \"q\" é");
    assert_eq!(text(&description_of(&chars("plain words"))), "plain words");
    let (front, _) = split_frontmatter_of(&chars("---\ndescription: \"tab\\there\"\n---\nbody"));
    assert_eq!(front.map(|f| text(&f)), Some("tab\there".to_owned()));
}

fn history_of(n: usize) -> Vec<HistoryEntry> {
    (0..n).map(|i| HistoryEntry { revision: format!("r{i}"), summary: format!("change {i}") }).collect()
}

#[test]
fn history_keeps_the_newest_commits_up_to_the_limit() {
    let command = MemoryHistoryCommand {
        agent_id: "agent-local-memory-test".to_owned(),
        file_path: None,
        limit: Some(10),
        request_id: "h1".to_owned(),
    };
    let MemoryMessage::HistoryResponse(m) = history_answer(&command, Some(history_of(3))) else {
        panic!("history response");
    };
    assert!(m.success);
    assert_eq!(m.file_path, "");
    assert_eq!(m.commits.len(), 3);
    assert_eq!(m.commits[0].sha, "r0");
    assert_eq!(m.commits[2].message, "change 2");
    assert_eq!(m.commits[0].timestamp, "");
    assert!(m.commits[0].author_name.is_none());
    let MemoryMessage::HistoryResponse(m) = history_answer(&command, Some(history_of(25))) else {
        panic!("history response");
    };
    assert_eq!(m.commits.len(), 10);
    assert_eq!(m.commits[9].sha, "r9");
    let unbounded = MemoryHistoryCommand { limit: None, ..command };
    let MemoryMessage::HistoryResponse(m) = history_answer(&unbounded, Some(history_of(80))) else {
        panic!("history response");
    };
    assert_eq!(m.commits.len(), 50);
    let huge = MemoryHistoryCommand { limit: Some(5000), ..unbounded };
    let MemoryMessage::HistoryResponse(m) = history_answer(&huge, Some(history_of(300))) else {
        panic!("history response");
    };
    assert_eq!(m.commits.len(), 200);
    let MemoryMessage::HistoryResponse(m) = history_answer(&huge, None) else {
        panic!("history response");
    };
    assert!(!m.success);
    assert!(m.commits.is_empty());
    assert_eq!(m.error.as_deref(), Some("Failed to fetch memory history"));
}

#[test]
fn a_second_delete_answers_success_without_a_commit() {
    let request = MutationRequest {
        which: MutationKind::Delete,
        request_id: "d2".to_owned(),
        agent_id: "agent-local-memory-test".to_owned(),
        path: "notes/gone.md".to_owned(),
        commit_message: None,
    };
    assert!(matches!(delete_plan(&request, "notes/gone.md", false), DeletePlan::Remove));
    let DeletePlan::Answered(frames) = delete_plan(&request, "notes/gone.md", true) else {
        panic!("absent file is answered at once");
    };
    assert_eq!(frames.len(), 1);
    let MemoryMessage::DeleteFileResponse(m) = &frames[0] else {
        panic!("delete response");
    };
    assert!(m.success);
    assert_eq!(m.committed, Some(false));
    assert!(m.commit_sha.is_none());
    assert!(m.error.is_none());
    assert_eq!(m.path, "notes/gone.md");
    assert_eq!(m.request_id, "d2");
}

fn refusal_text(step: MutationStep) -> String {
    let MutationStep::Answered(frames) = step else {
        panic!("refused before the repository");
    };
    assert_eq!(frames.len(), 1);
    match &frames[0] {
        MemoryMessage::WriteFileResponse(r) | MemoryMessage::DeleteFileResponse(r) => {
            assert!(!r.success);
            assert!(r.committed.is_none());
            r.error.clone().expect("error")
        }
        other => panic!("unexpected {other:?}"),
    }
}

#[test]
fn mutations_check_before_they_read_or_commit() {
    let write = write_request("notes/a.md");
    assert_eq!(
        refusal_text(mutation_start(&write, Some("hi"), MemoryEncoding::Utf8, 16, false, true)),
        "write_memory_file: invalid agent identifier"
    );
    assert_eq!(
        refusal_text(mutation_start(&write, Some("hi"), MemoryEncoding::Utf8, 16, true, false)),
        "write_memory_file: memfs is not enabled for this agent"
    );
    assert_eq!(
        refusal_text(mutation_start(&write, Some("%%%"), MemoryEncoding::Base64, 16, true, true)),
        "write_memory_file: content is not valid base64"
    );
    assert_eq!(
        refusal_text(mutation_start(&write, Some("far too long for it"), MemoryEncoding::Utf8, 4, true, true)),
        "write_memory_file: content exceeds the memory file limit"
    );
    match mutation_start(&write, Some("aGk="), MemoryEncoding::Base64, 16, true, true) {
        MutationStep::Commit(path, bytes) => {
            assert_eq!(path, "notes/a.md");
            assert_eq!(bytes, b"hi".to_vec());
        }
        other => panic!("unexpected {other:?}"),
    }
    let delete = MutationRequest {
        which: MutationKind::Delete,
        request_id: "d1".to_owned(),
        agent_id: "agent-local-memory-test".to_owned(),
        path: "../escape.md".to_owned(),
        commit_message: None,
    };
    assert!(refusal_text(mutation_start(&delete, None, MemoryEncoding::Utf8, 16, true, true)).starts_with("delete_memory_file: "));
    let delete = MutationRequest { path: "notes/gone.md".to_owned(), ..delete };
    match mutation_start(&delete, None, MemoryEncoding::Utf8, 16, true, true) {
        MutationStep::ReadBeforeDelete(path) => assert_eq!(path, "notes/gone.md"),
        other => panic!("unexpected {other:?}"),
    }
}
