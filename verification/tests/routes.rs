use msc_agent::api::{Permission, reconciliation_degraded_response, require_permission};
use msc_agent::backups::{
    BackupRecord, OperationFinish, RestoreOutcome, admit_config_update, admit_delete,
    admit_restore, default_backup_config, restore_finish, to_item_dto,
};
use msc_agent::capabilities::{
    ActiveServer, CapabilitiesQuery, JavaProbe, ServerType, java_runtime_capability,
    select_capabilities, third_party_boundary,
};
use msc_agent::commands::{
    RelativeTimePreset, TimeQueryStep, TimeRequestRefusal, admit_relative_time,
    bedrock_canonical_command, time_query_step,
};
use msc_agent::components::{
    ComponentUpdatePlan, ComponentUpdateRequest, JavaFlavor, PlanItem, is_paper_like,
    items_with_updates, modrinth_path_segment, parse_selected_ids, plan_component_update,
    selection_summary, single_update_target, update_result,
};
use msc_agent::geyser::{admit_geyser_update, empty_response, geyser_config};
use msc_agent::health::{
    BedrockBackend, BedrockRuntimeState, CardCheck, DiagnosticResult, HealthCard, HealthStatus,
    RepairFailure, RepairKind, RepairTarget, admit_repair, bedrock_vm_runtime_card,
    card_result_to_dto, health_repair_error_response, health_response, no_active_server_health,
    overall_severity, port_reachability_card, problems_summary, repair_record_outcome,
    server_port, severity_rank,
};
use msc_agent::host_reset::{HostResetMode, ResetLock, admit_reset, reset_accepted, reset_step};
use msc_agent::lifecycle::{
    AgentConsoleSink, ReconciliationRegistry, ReconciliationStatus, ServerRecord,
    java_server_port, mutation_guard, registered_server_parts,
};
use msc_agent::sessions::{
    PairingCreateRequest, PairingError, admit_pairing_creation, pairing_created, parse_role,
    refuse_pairing,
};
use msc_agent::staging::{
    PendingImport, PendingManualFile, StagedUploadPurpose, admit_download, admit_upload_bytes,
    begin_staged_upload, lower_hex_string, staged_upload_begin, upload_ceiling, upload_receipt,
};

#[test]
fn phase4_lifecycle_routes_permission_check_uses_declared_category() {
    let permissions = vec![Permission::ServerControl];
    assert!(require_permission(&permissions, Permission::ServerControl).is_none());
    assert!(require_permission(&permissions, Permission::Fleet).is_some());
}

#[test]
fn administrators_pass_every_permission_check() {
    let admin = vec![Permission::Admin];
    assert!(require_permission(&admin, Permission::Fleet).is_none());
    let refused = require_permission(&[], Permission::Worlds).unwrap();
    assert_eq!(refused.status, 403);
    assert_eq!(refused.code, "forbidden");
}

#[test]
fn bedrock_vm_runtime_card_reflects_backend_state() {
    let native = bedrock_vm_runtime_card(BedrockRuntimeState {
        state: "available".to_string(),
        backend: Some(BedrockBackend::Native),
        host_os: None,
        reason_code: None,
        message: None,
        help_id: None,
    });
    assert_eq!(native.severity, "green");
    assert_eq!(
        native.detail.as_deref(),
        Some("Native Bedrock runtime is available; no VM is required.")
    );

    let sidecar = bedrock_vm_runtime_card(BedrockRuntimeState {
        state: "available".to_string(),
        backend: Some(BedrockBackend::VzSidecar),
        host_os: None,
        reason_code: None,
        message: None,
        help_id: None,
    });
    assert_eq!(sidecar.severity, "green");
    assert_eq!(sidecar.detail.as_deref(), Some("Bedrock VM sidecar is available."));

    let provisioning = bedrock_vm_runtime_card(BedrockRuntimeState {
        state: "provisioning_required".to_string(),
        backend: Some(BedrockBackend::Native),
        host_os: None,
        reason_code: Some("archive_missing".to_string()),
        message: Some("A verified Bedrock distribution is required before start.".to_string()),
        help_id: None,
    });
    assert_eq!(provisioning.severity, "yellow");
    assert_eq!(
        provisioning.detail.as_deref(),
        Some("A verified Bedrock distribution is required before start.")
    );
}

#[test]
fn unknown_runtime_state_is_gray_with_its_state() {
    let card = bedrock_vm_runtime_card(BedrockRuntimeState {
        state: "weird".to_string(),
        backend: None,
        host_os: None,
        reason_code: None,
        message: None,
        help_id: Some("h".into()),
    });
    assert_eq!(card.severity, "gray");
    assert_eq!(card.detail.as_deref(), Some("Bedrock runtime state: weird."));
    assert_eq!(card.help_id.as_deref(), Some("h"));
}

fn check(id: &str, status: HealthStatus) -> CardCheck {
    CardCheck {
        id: id.into(),
        status,
        detected_value: "value".into(),
        action_label: None,
        action_type: None,
        help_id: "help".into(),
    }
}

#[test]
fn cards_take_their_presentation_from_their_id() {
    let card = card_result_to_dto(check("lastStartup", HealthStatus::Red));
    assert_eq!(card.title, "Last Startup");
    assert_eq!(card.short_label, "Startup");
    assert_eq!(card.icon_system_name, "xmark.octagon");
    assert_eq!(card.severity, "red");
    let other = card_result_to_dto(check("custom", HealthStatus::Green));
    assert_eq!(other.title, "custom");
    assert_eq!(other.icon_system_name, "questionmark.circle");
}

fn card(severity: &str) -> HealthCard {
    let mut c = card_result_to_dto(check("ram", HealthStatus::Green));
    c.severity = severity.into();
    c
}

#[test]
fn overall_severity_is_the_gravest_card() {
    assert_eq!(overall_severity(&[]), "green");
    assert_eq!(overall_severity(&[card("green"), card("red"), card("yellow")]), "red");
    assert_eq!(overall_severity(&[card("gray"), card("yellow")]), "yellow");
    assert_eq!(overall_severity(&[card("green"), card("blue")]), "blue");
    assert_eq!(severity_rank("red"), 3);
    assert_eq!(severity_rank("purple"), 0);
}

#[test]
fn health_response_orders_cards_and_sums_them_up() {
    let port = port_reachability_card(25565, false, true, true, DiagnosticResult::Open);
    let response = health_response(
        "java".into(),
        "Survival".into(),
        true,
        check("directory", HealthStatus::Green),
        check("java", HealthStatus::Green),
        check("ram", HealthStatus::Yellow),
        check("lastStartup", HealthStatus::Gray),
        port,
        check("componentJars", HealthStatus::Green),
        Some(BedrockRuntimeState {
            state: "unavailable".into(),
            backend: None,
            host_os: None,
            reason_code: None,
            message: None,
            help_id: None,
        }),
    );
    assert_eq!(response.cards.len(), 7);
    assert_eq!(response.cards[4].id, "portReachability");
    assert_eq!(response.cards[6].id, "vmRuntime");
    assert_eq!(response.overall_severity, "yellow");
    let none = no_active_server_health();
    assert_eq!(none.note.as_deref(), Some("No active server."));
    assert_eq!(none.overall_severity, "gray");
}

#[test]
fn port_card_states() {
    let first = port_reachability_card(19132, true, false, false, DiagnosticResult::NotAttempted);
    assert_eq!(first.detail.as_deref(), Some("Waiting for first start\nPort 19132 (UDP)"));
    assert_eq!(first.action_code.as_deref(), Some("openRouterPortForwardGuide"));
    let off = port_reachability_card(25565, false, true, false, DiagnosticResult::NotAttempted);
    assert_eq!(
        off.detail.as_deref(),
        Some("Server is off\nStart it to verify port 25565 (TCP) reachability.")
    );
    let closed = port_reachability_card(25565, false, true, true, DiagnosticResult::Closed);
    assert_eq!(closed.severity, "red");
    let unknown = port_reachability_card(25565, false, true, true, DiagnosticResult::NotApplicable);
    assert_eq!(unknown.detail.as_deref(), Some("Port 25565 (TCP)\nNo probe was attempted."));
    assert_eq!(unknown.action_label, None);
}

#[test]
fn game_port_from_properties_or_defaults() {
    assert_eq!(server_port(false, None, Some("motd=x\nserver-port= 25570 \nserver-port=1")), 25570);
    assert_eq!(server_port(false, None, Some("server-port=0")), 25565);
    assert_eq!(server_port(false, None, Some("server-port=abc\nserver-port=2")), 25565);
    assert_eq!(server_port(false, None, None), 25565);
    assert_eq!(server_port(true, Some(19133), None), 19133);
    assert_eq!(server_port(true, Some(70000), None), 19132);
    assert_eq!(server_port(true, None, Some("server-port=1")), 19132);
    assert_eq!(java_server_port(Some("server-port=-3")), Some(-3));
    assert_eq!(java_server_port(Some("level=x")), None);
}

fn target(running: bool, ids: Option<Vec<&str>>) -> RepairTarget {
    RepairTarget {
        running,
        has_add_on_folder: true,
        recorded_problem_ids: ids.map(|v| v.into_iter().map(String::from).collect()),
    }
}

#[test]
fn health_repair_route_rejects_a_blank_problem_id() {
    let e = admit_repair("  ", "disable", None).unwrap_err();
    assert_eq!(e.status, 400);
    assert_eq!(e.code, "missing_problem_id");
}

#[test]
fn health_repair_route_rejects_an_invalid_action() {
    let e = admit_repair("p1", "reinstall", None).unwrap_err();
    assert_eq!(e.status, 400);
    assert_eq!(e.code, "invalid_action");
}

#[test]
fn health_repair_route_accepts_update_and_install_as_valid_actions() {
    for action in ["update", "install"] {
        let e = admit_repair("p1", action, None).unwrap_err();
        assert_eq!(e.status, 409);
        assert_eq!(e.code, "no_active_server");
    }
}

#[test]
fn health_repair_route_reports_no_active_server() {
    let e = admit_repair("p1", "disable", None).unwrap_err();
    assert_eq!(e.status, 409);
    assert_eq!(e.code, "no_active_server");
}

#[test]
fn repair_admission_in_order() {
    assert_eq!(admit_repair("p1", "delete", Some(&target(true, None))).unwrap_err().code, "server_running");
    assert_eq!(admit_repair("p1", "delete", Some(&target(false, None))).unwrap_err().code, "problem_not_found");
    assert_eq!(
        admit_repair("p2", "delete", Some(&target(false, Some(vec!["p1", "p2"])))),
        Ok((RepairKind::Delete, 1))
    );
    let mut no_folder = target(false, Some(vec!["p1"]));
    no_folder.has_add_on_folder = false;
    assert_eq!(admit_repair("p1", "update", Some(&no_folder)).unwrap_err().code, "action_unavailable");
}

#[test]
fn repair_failures_and_record_outcomes() {
    let e = health_repair_error_response(&RepairFailure::PackManaged);
    assert_eq!((e.status, e.code.as_str()), (409, "conflict"));
    let e = health_repair_error_response(&RepairFailure::Io { message: "disk".into() });
    assert_eq!((e.status, e.message.as_str()), (500, "disk"));
    let e = health_repair_error_response(&RepairFailure::NoAddOnKind);
    assert_eq!(e.message, "No repair target for this problem.");
    assert!(repair_record_outcome(Ok(true)).is_ok());
    let e = repair_record_outcome(Err("io".into())).unwrap_err();
    assert_eq!(e.message, "The repair succeeded on disk, but its problem record could not be saved: io");
    assert_eq!(problems_summary(true, true, 2).0, true);
    assert_eq!(
        problems_summary(false, false, 0).1.as_deref(),
        Some("No startup record yet \u{2014} start this server at least once.")
    );
}

fn backups() -> Vec<BackupRecord> {
    vec![
        BackupRecord { filename: "a.zip".into(), slot_id: Some("s1".into()), verified: true },
        BackupRecord { filename: "b.zip".into(), slot_id: None, verified: false },
    ]
}

#[test]
fn restore_guard_order() {
    let entries = backups();
    assert_eq!(admit_restore(&entries, "x.zip", true, true, None).unwrap_err().code, "backup_not_found");
    assert_eq!(admit_restore(&entries, "a.zip", true, true, None).unwrap_err().code, "capability_unavailable");
    assert_eq!(admit_restore(&entries, "a.zip", false, true, None).unwrap_err().message, "Server is running.");
    assert_eq!(
        admit_restore(&entries, "a.zip", false, false, Some("s2")).unwrap_err().message,
        "Backup belongs to a different slot than the active one."
    );
    assert_eq!(admit_restore(&entries, "a.zip", false, false, Some("s1")), Ok(0));
    assert_eq!(admit_restore(&entries, "b.zip", false, false, Some("s2")), Ok(1));
}

#[test]
fn the_sole_verified_backup_is_kept() {
    let entries = backups();
    assert_eq!(admit_delete(&entries, "a.zip").unwrap_err().code, "sole_verified_backup");
    assert_eq!(admit_delete(&entries, "b.zip"), Ok(1));
    let mut two = backups();
    two[1].verified = true;
    assert_eq!(admit_delete(&two, "a.zip"), Ok(0));
}

#[test]
fn backup_settings_and_listing() {
    assert_eq!(admit_config_update(None, None, None).unwrap_err().code, "no_changes");
    assert!(admit_config_update(Some(true), None, None).is_ok());
    let d = default_backup_config();
    assert_eq!(d.interval_options, vec![15, 30, 60, 120, 240]);
    assert_eq!(d.note.as_deref(), Some("no_active_server"));
    let item = to_item_dto("f.zip".into(), "F".into(), Some(10), Some(86_400 + 3_661), true, None, None, "manual".into());
    assert_eq!(item.modification_date.as_deref(), Some("1970-01-02T01:01:01Z"));
    assert_eq!(item.file_size, Some(10));
    assert!(matches!(restore_finish(RestoreOutcome::Panicked), OperationFinish::Fail { code, .. } if code == "internal_error"));
    assert!(matches!(restore_finish(RestoreOutcome::Cancelled), OperationFinish::Cancel { .. }));
}

#[test]
fn host_reset_admission_and_single_run() {
    let mut lock = ResetLock::new();
    assert_eq!(admit_reset("all", Ok("h".into()), "RESET AGENT", false, &mut lock).unwrap_err().code, "invalid_mode");
    assert_eq!(admit_reset("everything", Err("store".into()), "RESET AGENT", false, &mut lock).unwrap_err().status, 500);
    assert_eq!(admit_reset("everything", Ok("h".into()), "reset agent", false, &mut lock).unwrap_err().code, "confirmation_mismatch");
    assert_eq!(admit_reset("everything", Ok("h".into()), "RESET AGENT", true, &mut lock).unwrap_err().code, "server_running");
    assert_eq!(
        admit_reset("configuration", Ok("h".into()), "RESET AGENT", false, &mut lock),
        Ok((HostResetMode::Configuration, "h".into()))
    );
    assert_eq!(admit_reset("everything", Ok("h".into()), "RESET AGENT", false, &mut lock).unwrap_err().code, "reset_in_progress");
    lock.release();
    assert!(admit_reset("everything", Ok("h".into()), "RESET AGENT", false, &mut lock).is_ok());
    assert_eq!(HostResetMode::Everything.as_str(), "everything");
    assert_eq!(reset_step(2), "Removing approved host files.");
    assert_eq!(reset_accepted("op".into(), "h".into(), "everything".into()).agent_state, "needs_pairing");
}

#[test]
fn reconciliation_registry_reads_back_what_was_set() {
    let mut registry = ReconciliationRegistry::new();
    assert_eq!(
        registry.status("s1"),
        ReconciliationStatus::Degraded { reason: "no reconciliation state exists for this server".into() }
    );
    registry.set("s1".into(), ReconciliationStatus::Ready);
    registry.set("s2".into(), ReconciliationStatus::Reconciling);
    registry.set("s1".into(), ReconciliationStatus::Degraded { reason: "bad".into() });
    assert_eq!(registry.status("s1"), ReconciliationStatus::Degraded { reason: "bad".into() });
    assert_eq!(registry.status("s2"), ReconciliationStatus::Reconciling);
}

#[test]
fn degraded_servers_refuse_mutations() {
    assert_eq!(mutation_guard(false, &ReconciliationStatus::Ready).unwrap_err().message, "No server is currently active.");
    let e = mutation_guard(true, &ReconciliationStatus::Degraded { reason: "disk".into() }).unwrap_err();
    assert_eq!(e, reconciliation_degraded_response("disk"));
    assert!(e.message.contains(": disk. Fix"));
    assert!(mutation_guard(true, &ReconciliationStatus::Reconciling).is_ok());
}

#[test]
fn registered_servers_and_console_lines() {
    let record = ServerRecord {
        id: "j".into(),
        display_name: "Java".into(),
        server_dir: "/srv/j".into(),
        is_java: true,
        server_type: "java".into(),
        java_flavor: "paper".into(),
        bedrock_port: Some(19132),
        playit_enabled: true,
        xbox_broadcast_enabled: false,
    };
    let parts = registered_server_parts(record.clone(), Some("server-port=25566"), false);
    assert_eq!(parts.game_port, Some(25566));
    assert_eq!(parts.bedrock_port, Some(19132));
    assert_eq!(parts.java_flavor.as_deref(), Some("paper"));
    let bedrock = registered_server_parts(ServerRecord { is_java: false, ..record }, None, true);
    assert_eq!(bedrock.game_port, Some(19132));
    assert_eq!(bedrock.bedrock_port, None);
    assert_eq!(bedrock.java_flavor, None);
    let mut sink = AgentConsoleSink { lines: Vec::new() };
    sink.append_system_line("started");
    assert_eq!(sink.lines[0].source, "system");
    assert_eq!(sink.lines[0].text, "started");
}

#[test]
fn staged_upload_ceilings() {
    let pending = vec![PendingImport {
        operation_id: "op-1".into(),
        remaining_manual_files: vec![PendingManualFile { file_id: 42, expected_byte_size: 1234 }],
    }];
    assert_eq!(upload_ceiling(StagedUploadPurpose::WorldImport, None, None, &pending), Ok(10_737_418_240));
    assert_eq!(upload_ceiling(StagedUploadPurpose::AddonLocalFile, None, None, &pending), Ok(536_870_912));
    assert_eq!(upload_ceiling(StagedUploadPurpose::CurseforgeManualFile, Some("op-1"), Some("42"), &pending), Ok(1234));
    assert_eq!(
        upload_ceiling(StagedUploadPurpose::CurseforgeManualFile, Some(" "), Some("42"), &pending).unwrap_err().code,
        "missing_operation_id"
    );
    assert_eq!(
        upload_ceiling(StagedUploadPurpose::CurseforgeManualFile, Some("op-1"), None, &pending).unwrap_err().code,
        "missing_file_id"
    );
    assert_eq!(
        upload_ceiling(StagedUploadPurpose::CurseforgeManualFile, Some("op-2"), Some("42"), &pending).unwrap_err().message,
        "No pending modpack import matched that operation."
    );
    assert_eq!(
        upload_ceiling(StagedUploadPurpose::CurseforgeManualFile, Some("op-1"), Some("7"), &pending).unwrap_err().message,
        "No pending manual file matched that fileId."
    );
}

#[test]
fn staged_transfers_are_admitted_until_they_expire() {
    assert_eq!(admit_upload_bytes(false, 0, 10, 1, 5).unwrap_err().code, "not_found");
    assert_eq!(admit_upload_bytes(true, 11, 10, 1, 5).unwrap_err().code, "staged_upload_expired");
    assert_eq!(admit_upload_bytes(true, 10, 10, 6, 5).unwrap_err().code, "max_bytes_exceeded");
    assert!(admit_upload_bytes(true, 10, 10, 5, 5).is_ok());
    assert_eq!(admit_download(true, 11, 10).unwrap_err().code, "staged_download_expired");
    assert!(admit_download(true, 10, 10).is_ok());
}

#[test]
fn staged_upload_begin_and_receipt() {
    let begin = staged_upload_begin("id-1".into(), 0, u64::MAX);
    assert_eq!(begin.upload_path, "/v1/staged-uploads/id-1");
    assert_eq!(begin.expires_at, "1970-01-01T00:30:00Z");
    assert_eq!(begin.max_bytes, i64::MAX);
    let fresh = begin_staged_upload(0, 5);
    assert_eq!(fresh.staged_upload_id.len(), 36);
    assert_eq!(fresh.staged_upload_id.as_bytes()[14], b'4');
    assert_ne!(fresh.staged_upload_id, begin_staged_upload(0, 5).staged_upload_id);
    assert_eq!(fresh.max_bytes, 5);
    assert_eq!(fresh.upload_path, format!("/v1/staged-uploads/{}", fresh.staged_upload_id));
    let receipt = upload_receipt("id-1".into(), b"abc");
    assert_eq!(receipt.received_bytes, 3);
    assert_eq!(
        receipt.sha256,
        "ba7816bf8f01cfea414140de5dae2223b00361a396177a9cb410ff61f20015ad"
    );
    assert_eq!(lower_hex_string(&[0, 15, 255]), "000fff");
}

#[test]
fn component_names_and_selection() {
    assert!(is_paper_like(JavaFlavor::Purpur));
    assert!(!is_paper_like(JavaFlavor::Fabric));
    assert_eq!(parse_selected_ids(None), None);
    assert_eq!(
        parse_selected_ids(Some(" a, ,b ,,")),
        Some(vec!["a".to_string(), "b".to_string()])
    );
    assert_eq!(modrinth_path_segment("fabric api/é"), "fabric%20api%2F%C3%A9");
    assert_eq!(modrinth_path_segment("A-z_0.~"), "A-z_0.~");
    assert_eq!(selection_summary(&vec![false, true, true]), (2, None));
    assert_eq!(selection_summary(&vec![false]).1.as_deref(), Some("nothing_selected"));
}

fn request() -> ComponentUpdateRequest {
    ComponentUpdateRequest {
        enabled: None,
        jar_stem: Some("sodium".into()),
        link_project_id: None,
        source_url: None,
        remove_source: None,
        update_all: None,
    }
}

#[test]
fn component_update_plans() {
    assert_eq!(
        plan_component_update(&ComponentUpdateRequest { enabled: Some(true), ..request() }),
        Ok(ComponentUpdatePlan::Toggle {
            enabled: true,
            jar_stem: "sodium".into(),
            current_name: "sodium.jar.disabled".into(),
            target_name: "sodium.jar".into()
        })
    );
    assert_eq!(
        plan_component_update(&ComponentUpdateRequest { enabled: Some(false), jar_stem: Some("  ".into()), ..request() })
            .unwrap_err()
            .code,
        "missing_jar_stem"
    );
    assert_eq!(
        plan_component_update(&ComponentUpdateRequest { link_project_id: Some("AANobbMI".into()), ..request() }),
        Ok(ComponentUpdatePlan::Link {
            project_id: "AANobbMI".into(),
            jar_stem: "sodium".into(),
            installed_file_name: "sodium.jar".into()
        })
    );
    assert_eq!(
        plan_component_update(&ComponentUpdateRequest { remove_source: Some(true), source_url: Some("u".into()), ..request() }),
        Ok(ComponentUpdatePlan::RemoveSource { jar_stem: "sodium".into() })
    );
    assert_eq!(
        plan_component_update(&ComponentUpdateRequest { jar_stem: None, update_all: Some(true), ..request() }),
        Ok(ComponentUpdatePlan::UpdateAll)
    );
    assert_eq!(plan_component_update(&request()), Ok(ComponentUpdatePlan::UpdateOne { jar_stem: "sodium".into() }));
}

#[test]
fn component_update_results() {
    assert_eq!(update_result("linked", None, 1, None).status, 200);
    assert_eq!(update_result("update_started", None, 1, Some("op".into())).status, 202);
    let items = vec![
        PlanItem { jar_stem: "a".into(), has_update: true },
        PlanItem { jar_stem: "b".into(), has_update: false },
        PlanItem { jar_stem: "c".into(), has_update: true },
    ];
    assert_eq!(items_with_updates(&items), vec![0, 2]);
    assert_eq!(single_update_target(&items, "c"), Ok(2));
    let none = single_update_target(&items, "b").unwrap_err().unwrap();
    assert_eq!(none.result, "no_updates_available");
    let missing = single_update_target(&items, "z").unwrap_err().unwrap_err();
    assert_eq!(missing.message, "Add-on not found.");
}

#[test]
fn browser_pairing_admission() {
    let good = PairingCreateRequest {
        client_kind: "browser".into(),
        label: "  Laptop ".into(),
        role: "named".into(),
        expires_at: None,
    };
    assert_eq!(admit_pairing_creation(&good, false).unwrap().1, "Laptop");
    assert_eq!(parse_role("guest").is_some(), true);
    let e = admit_pairing_creation(&PairingCreateRequest { client_kind: "desktop".into(), ..good.clone() }, false).unwrap_err();
    assert_eq!(e.code, "invalid_client_kind");
    let e = admit_pairing_creation(&PairingCreateRequest { role: "owner".into(), ..good.clone() }, false).unwrap_err();
    assert_eq!(e.code, "invalid_role");
    let e = admit_pairing_creation(&PairingCreateRequest { label: " ".into(), ..good.clone() }, false).unwrap_err();
    assert_eq!(e.code, "label_empty");
    assert_eq!(admit_pairing_creation(&good, true).unwrap_err().status, 429);
    let e = admit_pairing_creation(&PairingCreateRequest { expires_at: Some("x".into()), ..good }, false).unwrap_err();
    assert_eq!(e.code, "invalid_expiry");
    let created = pairing_created("code".into(), 1_700_000_000);
    assert_eq!(created.expires_at, "1700000000");
    assert_eq!(created.agent_host_id, "browser-session-agent");
}

#[test]
fn refused_pairing_codes() {
    let (e, audit) = refuse_pairing(PairingError::Expired, false);
    assert_eq!((e.status, e.code.as_str()), (410, "pairing_expired"));
    assert_eq!(audit, Some((410, "pairing_expired".to_string())));
    let (e, _) = refuse_pairing(PairingError::Unauthorized, true);
    assert_eq!(e.status, 429);
    let (e, audit) = refuse_pairing(PairingError::Store { message: "db".into() }, false);
    assert_eq!((e.status, e.message.as_str()), (500, "db"));
    assert_eq!(audit, None);
}

#[test]
fn capability_selection_prefers_the_question() {
    let active = ActiveServer {
        server_type: ServerType::Bedrock,
        minecraft_version: Some("1.21".into()),
        loader_version: None,
        playit_enabled: false,
    };
    let query = CapabilitiesQuery {
        server_type: Some("java".into()),
        minecraft_version: Some("  ".into()),
        java_flavor: None,
        loader_version: Some("0.16".into()),
        java_runtime_path: None,
    };
    let s = select_capabilities(&query, Some(&active), "/usr/bin/java");
    assert_eq!(s.server_type, Some(ServerType::Java));
    assert_eq!(s.minecraft_version.as_deref(), Some("1.21"));
    assert_eq!(s.loader_version.as_deref(), Some("0.16"));
    assert_eq!(s.java_runtime_path, "/usr/bin/java");
    let unknown = CapabilitiesQuery { server_type: Some("other".into()), ..query };
    assert_eq!(select_capabilities(&unknown, Some(&active), "j").server_type, Some(ServerType::Bedrock));
    assert_eq!(select_capabilities(&unknown, None, "j").server_type, None);
}

#[test]
fn java_runtime_assessment() {
    let old = java_runtime_capability("/j".into(), 21, Some("1.21.4"), JavaProbe::Captured { not_java: None, detected_major: Some(17) });
    assert_eq!(old.state, "unavailable");
    assert_eq!(old.reason.as_deref(), Some("Minecraft 1.21.4 needs Java 21, but the configured runtime is Java 17."));
    let ok = java_runtime_capability("/j".into(), 17, None, JavaProbe::Captured { not_java: None, detected_major: Some(21) });
    assert_eq!((ok.state.as_str(), ok.reason), ("available", None));
    let unknown = java_runtime_capability("/j".into(), 17, None, JavaProbe::Captured { not_java: None, detected_major: None });
    assert_eq!(unknown.state, "unknown");
    let missing = java_runtime_capability("/j".into(), 17, None, JavaProbe::NotFound);
    assert_eq!(missing.reason.as_deref(), Some("No usable Java runtime was found at the configured path."));
    assert!(!third_party_boundary().available);
}

#[test]
fn geyser_settings() {
    assert_eq!(empty_response("no_active_server").note.as_deref(), Some("no_active_server"));
    assert_eq!(geyser_config("S".into(), false, None, Some(19132), true).note.as_deref(), Some("geyser_not_installed"));
    assert_eq!(geyser_config("S".into(), true, None, Some(19132), true).port, Some(19132));
    assert_eq!(admit_geyser_update(true, false, true).unwrap_err().code, "not_supported");
    assert_eq!(admit_geyser_update(true, true, false).unwrap_err().code, "not_installed");
    assert!(admit_geyser_update(true, true, true).is_ok());
}

#[test]
fn commands_and_relative_time() {
    assert_eq!(bedrock_canonical_command("/say hi"), "say hi");
    assert_eq!(bedrock_canonical_command("say hi"), "say hi");
    assert_eq!(admit_relative_time(Some(" dusk "), true, true, false, false), Ok(RelativeTimePreset::Dusk));
    assert!(matches!(admit_relative_time(Some("noon"), true, true, false, false), Err(TimeRequestRefusal::Answer { error }) if error.code == "invalid_preset"));
    assert!(matches!(admit_relative_time(None, true, true, false, false), Err(TimeRequestRefusal::Answer { error }) if error.code == "missing_preset"));
    assert_eq!(admit_relative_time(Some("dawn"), false, true, false, false), Err(TimeRequestRefusal::NoActiveServer));
    assert!(matches!(admit_relative_time(Some("night"), true, false, false, false), Err(TimeRequestRefusal::Answer { error }) if error.code == "server_not_running"));
    assert!(matches!(admit_relative_time(Some("night"), true, true, true, false), Err(TimeRequestRefusal::Answer { error }) if error.code == "capability_unavailable"));
    assert_eq!(time_query_step(1, 2, Some(6000), true), TimeQueryStep::Answered { ticks: 6000 });
    assert_eq!(time_query_step(1, 1, Some(6000), false), TimeQueryStep::Wait);
    assert!(matches!(time_query_step(1, 2, None, true), TimeQueryStep::TimedOut { .. }));
}
