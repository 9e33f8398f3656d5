use msc_agent::files::read_response;
use msc_agent::health::{
    BedrockBackend, BedrockRuntimeState, CardCheck, DiagnosticResult, HealthStatus,
    bedrock_vm_runtime_card, card_result_to_dto, health_problems, health_response,
    no_active_server_problems, port_reachability_card,
};
use msc_agent::staging::{StagedEntry, StagedUploadPurpose, StagingStore};
use msc_agent::tui::server_editor::{EditorMutation, EditorRequest, editor_request};
use msc_agent::tui::worlds::{WorldMutation, WorldRequest, world_request};

fn full_check(id: &str, status: HealthStatus, detected: &str, action: Option<&str>) -> CardCheck {
    CardCheck {
        id: id.into(),
        status,
        detected_value: detected.into(),
        action_label: action.map(|a| format!("Fix {a}")),
        action_type: action.map(|a| a.to_string()),
        help_id: format!("help.{id}"),
    }
}

#[test]
fn health_cards_carry_each_check_in_full() {
    let directory = full_check("directory", HealthStatus::Red, "/srv/missing", Some("chooseDirectory"));
    let java = full_check("java", HealthStatus::Green, "Java 21", None);
    let ram = full_check("ram", HealthStatus::Yellow, "4 GB of 8 GB", Some("adjustRam"));
    let startup = full_check("lastStartup", HealthStatus::Gray, "never started", None);
    let jars = full_check("componentJars", HealthStatus::Green, "3 jars", None);
    let port = port_reachability_card(19132, true, false, false, DiagnosticResult::NotAttempted);
    let runtime = BedrockRuntimeState {
        state: "available".into(),
        backend: Some(BedrockBackend::VzSidecar),
        host_os: None,
        reason_code: None,
        message: None,
        help_id: Some("help.vm".into()),
    };
    let response = health_response(
        "bedrock".into(),
        "Island".into(),
        false,
        directory.clone(),
        java.clone(),
        ram.clone(),
        startup.clone(),
        port.clone(),
        jars.clone(),
        Some(runtime.clone()),
    );
    assert_eq!(response.cards.len(), 7);
    assert_eq!(response.cards[0], card_result_to_dto(directory));
    assert_eq!(response.cards[0].detail.as_deref(), Some("/srv/missing"));
    assert_eq!(response.cards[0].action_code.as_deref(), Some("chooseDirectory"));
    assert_eq!(response.cards[0].action_label.as_deref(), Some("Fix chooseDirectory"));
    assert_eq!(response.cards[0].help_id.as_deref(), Some("help.directory"));
    assert_eq!(response.cards[1], card_result_to_dto(java));
    assert_eq!(response.cards[2], card_result_to_dto(ram));
    assert_eq!(response.cards[3], card_result_to_dto(startup));
    assert_eq!(response.cards[4], port);
    assert_eq!(response.cards[5], card_result_to_dto(jars));
    assert_eq!(response.cards[6], bedrock_vm_runtime_card(runtime));
    assert_eq!(response.cards[6].detail.as_deref(), Some("Bedrock VM sidecar is available."));
    assert_eq!(response.cards[6].help_id.as_deref(), Some("help.vm"));
    assert_eq!(response.overall_severity, "red");
}

fn staged(id: &str, expires_at: u64, max_bytes: u64) -> StagedEntry {
    StagedEntry {
        id: id.into(),
        purpose: StagedUploadPurpose::WorldImport,
        expires_at,
        max_bytes,
        path: format!("/uploads/{id}.bin"),
    }
}

#[test]
fn expired_upload_is_evicted_when_its_bytes_arrive() {
    let mut store = StagingStore::new();
    store.insert(staged("old", 10, 100));
    store.insert(staged("fresh", 100, 5));
    let e = store.admit_bytes("old", 11, 1).unwrap_err();
    assert_eq!(
        (e.status, e.code.as_str(), e.message.as_str()),
        (409, "staged_upload_expired", "This staged upload has expired.")
    );
    assert!(store.get("old").is_none());
    let e = store.admit_bytes("old", 11, 1).unwrap_err();
    assert_eq!((e.status, e.code.as_str()), (404, "not_found"));
    let e = store.admit_bytes("fresh", 50, 6).unwrap_err();
    assert_eq!((e.status, e.code.as_str()), (409, "max_bytes_exceeded"));
    assert!(store.get("fresh").is_some());
    let entry = store.admit_bytes("fresh", 100, 5).unwrap();
    assert_eq!(entry, staged("fresh", 100, 5));
    assert!(store.get("fresh").is_some());
}

#[test]
fn delivered_file_read_answers_ok_as_text() {
    let r = read_response("logs/latest.log".into(), "latest.log".into(), Some(42), "hello".into(), false);
    assert!(r.success);
    assert_eq!(r.message, "ok");
    assert_eq!(r.path.as_deref(), Some("logs/latest.log"));
    assert_eq!(r.name.as_deref(), Some("latest.log"));
    assert_eq!(r.size_bytes, Some(42));
    assert_eq!(r.content.as_deref(), Some("hello"));
    assert_eq!(r.encoding.as_deref(), Some("text"));
    assert_eq!(r.truncated, Some(false));
}

#[test]
fn problems_answers_with_and_without_a_server() {
    let none = no_active_server_problems();
    assert_eq!(none.server_type, "");
    assert!(!none.server_running && !none.is_soft_fail);
    assert!(none.problem_ids.is_empty());
    assert_eq!(none.note.as_deref(), Some("No active server."));
    let soft = health_problems("java".into(), true, true, true, vec!["p1".into()]);
    assert!(soft.is_soft_fail);
    assert_eq!(soft.problem_ids, vec!["p1".to_string()]);
    assert_eq!(soft.note, None);
    let hard = health_problems("java".into(), false, true, false, vec!["p1".into()]);
    assert!(!hard.is_soft_fail);
    let fresh = health_problems("java".into(), false, false, false, vec![]);
    assert_eq!(
        fresh.note.as_deref(),
        Some("No startup record yet \u{2014} start this server at least once.")
    );
}

#[test]
fn editor_changes_send_their_bodies() {
    assert_eq!(
        editor_request(EditorMutation::Rename { server_id: "s1".into(), name: "Hub".into() }),
        EditorRequest::Rename { server_id: "s1".into(), name: "Hub".into() }
    );
    assert_eq!(
        editor_request(EditorMutation::UpdatePort { port: 25570 }),
        EditorRequest::Settings { changes: vec![("server-port".into(), "25570".into())] }
    );
    assert_eq!(
        editor_request(EditorMutation::SetJavaPath { path: "/usr/bin/java".into() }),
        EditorRequest::JavaRuntime { executable_path: Some("/usr/bin/java".into()), extra_flags: None }
    );
    assert_eq!(
        editor_request(EditorMutation::SetJavaArguments { arguments: "-Xss1m".into() }),
        EditorRequest::JavaRuntime { executable_path: None, extra_flags: Some("-Xss1m".into()) }
    );
    assert_eq!(
        editor_request(EditorMutation::UpdateRam { min: Some("2".into()), max: None }),
        EditorRequest::Ram { min: Some("2".into()), max: None }
    );
    assert_eq!(editor_request(EditorMutation::Playit { start: true }), EditorRequest::Empty);
}

#[test]
fn world_changes_send_their_bodies() {
    assert_eq!(
        world_request(WorldMutation::Copy {
            destination_slot_id: "dst".into(),
            source_slot_id: "src".into(),
        }),
        WorldRequest::Replace { slot_id: "dst".into(), source_slot_id: "src".into() }
    );
    assert_eq!(world_request(WorldMutation::SaveCurrent { slot_id: "a".into() }), WorldRequest::Empty);
    assert_eq!(
        world_request(WorldMutation::ReplaceActive { level_name: "world2".into(), staged_upload_id: None }),
        WorldRequest::ReplaceActive { new_level_name: "world2".into(), staged_upload_id: None }
    );
    assert_eq!(
        world_request(WorldMutation::Export { slot_id: "a".into(), output: "/tmp/a.zip".into() }),
        WorldRequest::Export { slot_id: "a".into() }
    );
    assert_eq!(
        world_request(WorldMutation::Create { name: "New".into() }),
        WorldRequest::Create { name: "New".into() }
    );
}
