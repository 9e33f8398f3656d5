use msc_agent::api::{GuardedRoute, Permission, guard_route, required_permission};
use msc_agent::backups::{BackupRecord, admit_restore, restore_accepted};
use msc_agent::clock::civil_from_days;
use msc_agent::components::{
    AddonMutationFailure, ComponentUpdatePlan, ComponentUpdateRequest, OperationEnd, PlanItem,
    admit_addon_change, admit_component_update, link_finish, source_finish, toggle_finish,
    toggle_in_effect,
    update_all_finish, update_all_targets, update_one_finish,
};
use msc_agent::health::repair_applied;
use msc_agent::host_reset::{
    HostResetMode, ResetAction, ResetLock, ResetPreparation, admit_reset, reset_accepted,
    reset_prepared, reset_worker_step,
};
use msc_agent::update::{PayloadStep, install_error, replacement_failure, replacement_steps};
use msc_agent::help::parse_topic;
use msc_agent::modpacks::{
    InstallFailure, PendingImports, admit_import, admit_manual_file, finish_manual_file,
    install_accepted, install_finish, redeem_import_upload,
};
use msc_agent::staging::{
    PendingImport, PendingManualFile, StagedEntry, StagedUploadPurpose, StagingStore,
};

fn toggle_request(enabled: Option<bool>, jar_stem: Option<&str>) -> ComponentUpdateRequest {
    ComponentUpdateRequest {
        enabled,
        jar_stem: jar_stem.map(|s| s.to_string()),
        link_project_id: None,
        source_url: None,
        remove_source: None,
        update_all: None,
    }
}

fn entry(id: &str, purpose: StagedUploadPurpose, expires_at: u64) -> StagedEntry {
    StagedEntry {
        id: id.to_string(),
        purpose,
        expires_at,
        max_bytes: 1000,
        path: format!("/staging/{id}"),
    }
}

fn item(stem: &str, has_update: bool) -> PlanItem {
    PlanItem { jar_stem: stem.to_string(), has_update }
}

fn manual(id: u64) -> PendingManualFile {
    PendingManualFile { file_id: id, expected_byte_size: 10 * id }
}

#[test]
fn component_update_without_active_server_answers_conflict_before_reading_the_body() {
    let request = toggle_request(Some(true), None);
    let e = admit_component_update(&[Permission::Addons], false, false, &request).unwrap_err();
    assert_eq!(e.status, 409);
    assert_eq!(e.code, "no_active_server");
    assert_eq!(e.message, "No active server.");
}

#[test]
fn component_update_guards_come_in_order() {
    let request = toggle_request(Some(true), None);
    let e = admit_component_update(&[Permission::Players], false, false, &request).unwrap_err();
    assert_eq!((e.status, e.code.as_str()), (403, "forbidden"));
    let e = admit_component_update(&[Permission::Addons], true, false, &request).unwrap_err();
    assert_eq!(
        (e.status, e.code.as_str(), e.message.as_str()),
        (409, "not_supported", "This server's flavor has no add-ons.")
    );
    let e = admit_component_update(&[Permission::Admin], true, true, &request).unwrap_err();
    assert_eq!((e.status, e.code.as_str()), (400, "missing_jar_stem"));
    let plan =
        admit_component_update(&[Permission::Addons], true, true, &toggle_request(Some(false), Some("geyser")))
            .unwrap();
    assert_eq!(
        plan,
        ComponentUpdatePlan::Toggle {
            enabled: false,
            jar_stem: "geyser".to_string(),
            current_name: "geyser.jar".to_string(),
            target_name: "geyser.jar.disabled".to_string(),
        }
    );
    assert!(admit_addon_change(&[Permission::Addons], true, true).is_ok());
}

#[test]
fn toggle_already_in_effect_succeeds_without_renaming() {
    let answer = toggle_in_effect(true, "geyser", false, false, true).unwrap();
    assert_eq!(answer.status, 200);
    assert_eq!(answer.result, "enabled");
    assert_eq!(answer.jar_stem.as_deref(), Some("geyser"));
    assert_eq!(answer.count, 1);
    assert_eq!(answer.operation_id, None);
    let answer = toggle_in_effect(false, "geyser", false, false, true).unwrap();
    assert_eq!(answer.result, "disabled");
    assert!(toggle_in_effect(true, "geyser", true, false, true).is_none());
    assert!(toggle_in_effect(true, "geyser", false, true, true).is_none());
    assert!(toggle_in_effect(true, "geyser", false, false, false).is_none());
}

#[test]
fn toggle_finish_answers_each_outcome() {
    let done = toggle_finish(false, "geyser".to_string(), Ok(())).unwrap();
    assert_eq!((done.status, done.result.as_str(), done.count), (200, "disabled", 1));
    assert_eq!(done.jar_stem.as_deref(), Some("geyser"));
    let e = toggle_finish(
        true,
        "geyser".to_string(),
        Err(AddonMutationFailure::PackManaged { message: "managed".to_string() }),
    )
    .unwrap_err();
    assert_eq!(
        (e.status, e.code.as_str(), e.message.as_str()),
        (409, "conflict", "This server is managed by a modpack.")
    );
    let e = toggle_finish(
        true,
        "geyser".to_string(),
        Err(AddonMutationFailure::Failed { message: "disk full".to_string() }),
    )
    .unwrap_err();
    assert_eq!((e.status, e.code.as_str(), e.message.as_str()), (500, "internal_error", "disk full"));
}

#[test]
fn update_all_with_nothing_to_update_answers_at_once() {
    let answer = update_all_targets(&vec![item("a", false), item("b", false)]).unwrap_err();
    assert_eq!(answer.status, 200);
    assert_eq!(answer.result, "no_updates_available");
    assert_eq!(answer.jar_stem, None);
    assert_eq!(answer.count, 0);
    assert_eq!(answer.operation_id, None);
    assert!(update_all_targets(&Vec::new()).is_err());
    assert_eq!(
        update_all_targets(&vec![item("a", false), item("b", true), item("c", true)]).unwrap(),
        vec![1, 2]
    );
}

#[test]
fn add_on_updates_end_their_operations() {
    let (end, answer) = update_one_finish("geyser".to_string(), "op-1".to_string(), Ok(()));
    assert_eq!(end, OperationEnd::Succeeded { message: "Updated add-on.".to_string() });
    assert_eq!((answer.status, answer.result.as_str(), answer.count), (202, "update_started", 1));
    assert_eq!(answer.jar_stem.as_deref(), Some("geyser"));
    assert_eq!(answer.operation_id.as_deref(), Some("op-1"));
    let (end, _) = update_one_finish(
        "geyser".to_string(),
        "op-1".to_string(),
        Err(AddonMutationFailure::PackManaged { message: "managed".to_string() }),
    );
    assert_eq!(
        end,
        OperationEnd::Failed { code: "conflict".to_string(), message: "managed".to_string() }
    );
    let outcomes = vec![
        Ok(()),
        Err(AddonMutationFailure::Failed { message: "first".to_string() }),
        Ok(()),
        Err(AddonMutationFailure::PackManaged { message: "second".to_string() }),
    ];
    let (end, answer) = update_all_finish("op-2".to_string(), &outcomes);
    assert_eq!(
        end,
        OperationEnd::Failed { code: "internal_error".to_string(), message: "first".to_string() }
    );
    assert_eq!((answer.status, answer.count), (202, 2));
    assert_eq!(answer.jar_stem, None);
    let (end, answer) = update_all_finish("op-3".to_string(), &vec![Ok(()), Ok(())]);
    assert_eq!(end, OperationEnd::Succeeded { message: "Updated add-ons.".to_string() });
    assert_eq!(answer.count, 2);
    assert_eq!(answer.operation_id.as_deref(), Some("op-3"));
}

#[test]
fn staged_upload_is_redeemed_at_most_once() {
    let mut store = StagingStore::new();
    assert!(store.insert(entry("u1", StagedUploadPurpose::AddonLocalFile, 100)));
    assert!(!store.insert(entry("u1", StagedUploadPurpose::WorldImport, 100)));
    let first = store.redeem("u1", 50, StagedUploadPurpose::AddonLocalFile).unwrap();
    assert_eq!(first.path, "/staging/u1");
    let e = store.redeem("u1", 50, StagedUploadPurpose::AddonLocalFile).unwrap_err();
    assert_eq!(
        (e.status, e.code.as_str(), e.message.as_str()),
        (404, "not_found", "Unknown or already-redeemed staged upload.")
    );
}

#[test]
fn expired_or_misdirected_uploads_leave_staging_unredeemed() {
    let mut store = StagingStore::new();
    store.insert(entry("old", StagedUploadPurpose::AddonLocalFile, 10));
    store.insert(entry("world", StagedUploadPurpose::WorldImport, 100));
    assert!(store.redeem("old", 11, StagedUploadPurpose::AddonLocalFile).is_err());
    assert!(store.get("old").is_none());
    assert!(store.check("world", 50, StagedUploadPurpose::AddonLocalFile).is_err());
    assert!(store.check("world", 50, StagedUploadPurpose::WorldImport).is_ok());
    assert!(store.get("world").is_some());
    assert!(store.redeem("world", 50, StagedUploadPurpose::AddonLocalFile).is_err());
    assert!(store.get("world").is_none());
    assert!(store.take("world").is_none());
}

#[test]
fn modpack_import_admission_order() {
    let mut store = StagingStore::new();
    store.insert(entry("pack", StagedUploadPurpose::ModpackArchive, 100));
    store.insert(entry("jar", StagedUploadPurpose::AddonLocalFile, 100));
    let e = admit_import(&[Permission::Worlds], false, "bogus", &store, "none", 50).unwrap_err();
    assert_eq!(e.status, 403);
    let e = admit_import(&[Permission::Addons], false, "bogus", &store, "none", 50).unwrap_err();
    assert_eq!((e.status, e.code.as_str()), (409, "no_active_server"));
    let e = admit_import(&[Permission::Addons], true, "bogus", &store, "none", 50).unwrap_err();
    assert_eq!((e.status, e.code.as_str()), (400, "invalid_action"));
    let e = admit_import(&[Permission::Addons], true, "import", &store, "none", 50).unwrap_err();
    assert_eq!((e.status, e.code.as_str()), (404, "not_found"));
    assert_eq!(admit_import(&[Permission::Addons], true, "import", &store, "jar", 50).unwrap_err().status, 404);
    assert_eq!(admit_import(&[Permission::Addons], true, "import", &store, "pack", 101).unwrap_err().status, 404);
    assert_eq!(admit_import(&[Permission::Addons], true, "import", &store, "pack", 50), Ok(false));
    assert_eq!(admit_import(&[Permission::Admin], true, "replace", &store, "pack", 100), Ok(true));
    assert!(store.get("pack").is_some());
}

#[test]
fn missing_curseforge_key_keeps_the_upload_staged() {
    let mut store = StagingStore::new();
    store.insert(entry("pack", StagedUploadPurpose::ModpackArchive, 100));
    let e = redeem_import_upload(&mut store, "pack", true, Ok(Some("   ".to_string()))).unwrap_err();
    assert_eq!((e.status, e.code.as_str()), (400, "missing_curseforge_api_key"));
    let e = redeem_import_upload(&mut store, "pack", true, Ok(None)).unwrap_err();
    assert_eq!(e.code, "missing_curseforge_api_key");
    let e = redeem_import_upload(&mut store, "pack", true, Err("keyring locked".to_string())).unwrap_err();
    assert_eq!((e.status, e.message.as_str()), (500, "keyring locked"));
    assert!(store.get("pack").is_some());
    let redeemed = redeem_import_upload(&mut store, "pack", true, Ok(Some("key".to_string()))).unwrap();
    assert_eq!(redeemed.id, "pack");
    assert!(store.get("pack").is_none());
    let e = redeem_import_upload(&mut store, "pack", false, Ok(None)).unwrap_err();
    assert_eq!((e.status, e.code.as_str()), (404, "not_found"));
}

#[test]
fn install_answers_and_failure_codes() {
    let answer = install_accepted(Some("sodium".to_string()), "op-9");
    assert_eq!(answer.status, 202);
    assert!(answer.success);
    assert_eq!(answer.message, "Install started.");
    assert_eq!(answer.project_id.as_deref(), Some("sodium"));
    assert_eq!(answer.operation_id.as_deref(), Some("op-9"));
    assert_eq!(
        install_finish(Ok(())),
        OperationEnd::Succeeded { message: "Installed add-on.".to_string() }
    );
    assert_eq!(
        install_finish(Err(InstallFailure::ProviderUnavailable { message: "timeout".to_string() })),
        OperationEnd::Failed { code: "provider_unavailable".to_string(), message: "timeout".to_string() }
    );
    assert_eq!(
        install_finish(Err(InstallFailure::NoCompatibleVersion)),
        OperationEnd::Failed {
            code: "no_compatible_version".to_string(),
            message: "No compatible version was found.".to_string(),
        }
    );
    assert_eq!(
        install_finish(Err(InstallFailure::Mutation {
            failure: AddonMutationFailure::PackManaged { message: "managed".to_string() },
        })),
        OperationEnd::Failed { code: "conflict".to_string(), message: "managed".to_string() }
    );
    assert_eq!(
        install_finish(Err(InstallFailure::Mutation {
            failure: AddonMutationFailure::Failed { message: "io".to_string() },
        })),
        OperationEnd::Failed { code: "internal_error".to_string(), message: "io".to_string() }
    );
}

fn pending_with(op: &str, files: Vec<PendingManualFile>) -> PendingImports {
    let mut pending = PendingImports::new();
    pending.put(PendingImport { operation_id: op.to_string(), remaining_manual_files: files });
    pending
}

#[test]
fn pending_imports_are_keyed_by_operation() {
    let mut pending = pending_with("op-1", vec![manual(1)]);
    pending.put(PendingImport { operation_id: "op-2".to_string(), remaining_manual_files: vec![] });
    pending.put(PendingImport { operation_id: "op-1".to_string(), remaining_manual_files: vec![manual(7)] });
    let all = pending.as_vec();
    assert_eq!(all.len(), 2);
    assert_eq!(all[0].remaining_manual_files, vec![manual(7)]);
    assert_eq!(all[1].operation_id, "op-2");
}

#[test]
fn manual_file_admission_redeems_the_upload_either_way() {
    let pending = pending_with("op-1", vec![manual(11), manual(12)]);
    let mut store = StagingStore::new();
    store.insert(entry("f1", StagedUploadPurpose::CurseforgeManualFile, 100));
    let e = admit_manual_file(&[Permission::Addons], &mut store, &pending, "f1", 50, "op-x", "11")
        .unwrap_err();
    assert_eq!(e.message, "No pending modpack import matched that operation.");
    assert!(store.get("f1").is_none());
    store.insert(entry("f2", StagedUploadPurpose::CurseforgeManualFile, 100));
    let e = admit_manual_file(&[Permission::Addons], &mut store, &pending, "f2", 50, "op-1", "99")
        .unwrap_err();
    assert_eq!(e.message, "No pending manual file matched that fileId.");
    store.insert(entry("f3", StagedUploadPurpose::ModpackArchive, 100));
    let e = admit_manual_file(&[Permission::Addons], &mut store, &pending, "f3", 50, "op-1", "12")
        .unwrap_err();
    assert_eq!(e.message, "Unknown or already-redeemed staged upload.");
    assert!(store.get("f3").is_none());
    store.insert(entry("f4", StagedUploadPurpose::CurseforgeManualFile, 100));
    let e = admit_manual_file(&[Permission::Fleet], &mut store, &pending, "f4", 50, "op-1", "12")
        .unwrap_err();
    assert_eq!(e.status, 403);
    assert!(store.get("f4").is_some());
    let (redeemed, i, j) =
        admit_manual_file(&[Permission::Addons], &mut store, &pending, "f4", 50, "op-1", "12").unwrap();
    assert_eq!((redeemed.id.as_str(), i, j), ("f4", 0, 1));
}

#[test]
fn last_manual_file_finishes_the_import() {
    let mut pending = pending_with("op-1", vec![manual(11), manual(12)]);
    let e = finish_manual_file(&mut pending, 0, 0, Err("size mismatch".to_string())).unwrap_err();
    assert_eq!((e.status, e.code.as_str(), e.message.as_str()), (400, "invalid_body", "size mismatch"));
    assert_eq!(pending.as_vec()[0].remaining_manual_files.len(), 2);
    let (result, files, end) = finish_manual_file(&mut pending, 0, 0, Ok(())).unwrap();
    assert_eq!(result.message, "File accepted; waiting for the remaining manual files.");
    assert!(!result.all_files_resolved);
    assert_eq!(files, vec![manual(12)]);
    assert_eq!(end, None);
    assert_eq!(pending.as_vec()[0].remaining_manual_files, vec![manual(12)]);
    let (result, files, end) = finish_manual_file(&mut pending, 0, 0, Ok(())).unwrap();
    assert_eq!(result.message, "File accepted; import resumed.");
    assert!(result.all_files_resolved);
    assert!(files.is_empty());
    assert_eq!(end, Some(OperationEnd::Succeeded { message: "Imported modpack.".to_string() }));
    assert!(pending.as_vec().is_empty());
}

#[test]
fn applied_repair_drops_its_problem() {
    let recorded = vec!["a".to_string(), "missing-dep".to_string(), "b".to_string()];
    let answer = repair_applied(&recorded, "missing-dep");
    assert!(answer.success);
    assert_eq!(answer.message, "Repair applied.");
    assert_eq!(answer.operation_id, None);
    assert_eq!(answer.remaining_problem_ids, vec!["a".to_string(), "b".to_string()]);
    assert_eq!(repair_applied(&Vec::new(), "x").remaining_problem_ids, Vec::<String>::new());
}

#[test]
fn started_restore_answers_with_its_operation() {
    let answer = restore_accepted("op-r".to_string());
    assert_eq!(answer.status, 200);
    assert_eq!(answer.result, "restore_started");
    assert_eq!(answer.operation_id.as_deref(), Some("op-r"));
}

#[test]
fn each_route_asks_for_its_permission() {
    assert_eq!(required_permission(GuardedRoute::AddonUpdate), Permission::Addons);
    assert_eq!(required_permission(GuardedRoute::ModpackImport), Permission::Addons);
    assert_eq!(required_permission(GuardedRoute::BackupRestore), Permission::Worlds);
    assert_eq!(required_permission(GuardedRoute::BackupSettingsUpdate), Permission::Settings);
    assert_eq!(required_permission(GuardedRoute::HealthRepair), Permission::Settings);
    assert_eq!(required_permission(GuardedRoute::ConsoleCommand), Permission::ServerControl);
    assert_eq!(required_permission(GuardedRoute::FileRead), Permission::Admin);
    assert_eq!(required_permission(GuardedRoute::HostReset), Permission::Admin);
    assert_eq!(required_permission(GuardedRoute::BedrockAllowlistChange), Permission::Players);
    assert!(guard_route(&[Permission::Worlds], GuardedRoute::BackupNow).is_none());
    assert!(guard_route(&[Permission::Admin], GuardedRoute::FileBrowse).is_none());
    let e = guard_route(&[Permission::Worlds], GuardedRoute::HealthRepair).unwrap();
    assert_eq!((e.status, e.code.as_str()), (403, "forbidden"));
}

#[test]
fn civil_dates_cover_the_whole_day_range() {
    assert_eq!(civil_from_days(i64::MAX - 719_468), (25_252_734_927_766_554, 9, 25));
    assert_eq!(civil_from_days(i64::MIN), (-25_252_734_927_764_585, 6, 7));
}

#[test]
fn windows_line_endings_read_alike() {
    let lf = "---\nid: handbook.crlf\ntitle: Line endings\ncategory: test\n---\nIntro.\n\n### Bullet List\n- One\n- Two\n";
    let crlf = lf.replace('\n', "\r\n");
    let a = parse_topic(lf, "a.md".into()).unwrap();
    let b = parse_topic(&crlf, "a.md".into()).unwrap();
    assert_eq!(a, b);
    let bad = "---\nid: x\n";
    assert_eq!(
        parse_topic(bad, "b.md".into()).unwrap_err(),
        parse_topic(&bad.replace('\n', "\r\n"), "b.md".into()).unwrap_err()
    );
}

#[test]
fn settings_changes_answer_or_report_the_save_failure() {
    let r = link_finish("sodium".to_string(), true).unwrap();
    assert_eq!((r.status, r.result.as_str(), r.count), (200, "linked", 1));
    assert_eq!(r.jar_stem.as_deref(), Some("sodium"));
    let e = link_finish("sodium".to_string(), false).unwrap_err();
    assert_eq!((e.status, e.message.as_str()), (500, "Could not persist add-on link."));
    assert_eq!(source_finish("p".to_string(), true, true).unwrap().result, "source_removed");
    assert_eq!(source_finish("p".to_string(), false, true).unwrap().result, "source_set");
    let e = source_finish("p".to_string(), false, false).unwrap_err();
    assert_eq!(e.message, "Could not persist plugin source.");
}

#[test]
fn redeemed_import_upload_is_not_admitted_again() {
    let mut store = StagingStore::new();
    store.insert(entry("pack", StagedUploadPurpose::ModpackArchive, 100));
    assert_eq!(admit_import(&[Permission::Addons], true, "import", &store, "pack", 10), Ok(false));
    assert!(redeem_import_upload(&mut store, "pack", false, Ok(None)).is_ok());
    let e = admit_import(&[Permission::Addons], true, "import", &store, "pack", 10).unwrap_err();
    assert_eq!((e.status, e.code.as_str()), (404, "not_found"));
}

#[test]
fn restore_of_a_known_backup_is_started_after_the_guards() {
    let entries = vec![BackupRecord {
        filename: "2024-01-01.zip".into(),
        slot_id: None,
        verified: true,
    }];
    let e = admit_restore(&entries, "does-not-exist.zip", false, false, None).unwrap_err();
    assert_eq!((e.status, e.code.as_str()), (404, "backup_not_found"));
    let k = admit_restore(&entries, "2024-01-01.zip", false, false, None).unwrap();
    assert_eq!(k, 0);
    let answer = restore_accepted("op-restore".to_string());
    assert_eq!((answer.status, answer.result.as_str()), (200, "restore_started"));
}

#[test]
fn accepted_reset_answers_202_and_needs_pairing() {
    let answer = reset_accepted("op-reset".into(), "host-1".into(), "everything".into());
    assert_eq!(answer.status, 202);
    assert_eq!(answer.operation_id, "op-reset");
    assert_eq!(answer.host_id, "host-1");
    assert_eq!(answer.mode, "everything");
    assert_eq!(answer.agent_state, "needs_pairing");
}

fn claimed_lock() -> ResetLock {
    let mut lock = ResetLock::new();
    let host = Ok("host-1".to_string());
    assert!(admit_reset("everything", host, "RESET AGENT", false, &mut lock).is_ok());
    lock
}

#[test]
fn failed_reset_preparation_releases_the_lock() {
    let mut lock = claimed_lock();
    assert_eq!(reset_prepared(&mut lock, ResetPreparation::Ready), None);
    let again = admit_reset("everything", Ok("h".to_string()), "RESET AGENT", false, &mut lock);
    assert_eq!(again.unwrap_err().code, "reset_in_progress");

    let refusal = reset_prepared(
        &mut lock,
        ResetPreparation::WorkflowUnavailable { message: "no config path".to_string() },
    )
    .unwrap();
    assert_eq!(
        (refusal.answer.status, refusal.answer.code.as_str(), refusal.answer.message.as_str()),
        (500, "internal_error", "no config path")
    );
    assert_eq!(
        refusal.operation_failure,
        Some(("invalid_reset_target".to_string(), "no config path".to_string()))
    );
    assert!(admit_reset("everything", Ok("h".to_string()), "RESET AGENT", false, &mut lock).is_ok());

    let refusal = reset_prepared(
        &mut lock,
        ResetPreparation::BeginFailed { message: "marker".to_string() },
    )
    .unwrap();
    assert_eq!(refusal.operation_failure, Some(("reset_prepare_failed".to_string(), "marker".to_string())));
    assert!(admit_reset("configuration", Ok("h".to_string()), "RESET AGENT", false, &mut lock).is_ok());

    let journal = msc_agent::api::error_response(409, "conflict", "busy");
    let refusal = reset_prepared(
        &mut lock,
        ResetPreparation::OperationRefused { answer: journal.clone() },
    )
    .unwrap();
    assert_eq!(refusal.answer, journal);
    assert_eq!(refusal.operation_failure, None);
    assert!(admit_reset("configuration", Ok("h".to_string()), "RESET AGENT", false, &mut lock).is_ok());
}

#[test]
fn reset_worker_runs_its_steps_in_order_then_releases() {
    let mut lock = claimed_lock();
    let mut actions = Vec::new();
    let mut done = 0u32;
    loop {
        let action = reset_worker_step(&mut lock, done, Ok(()), HostResetMode::Everything);
        let over = action == ResetAction::Done;
        actions.push(action);
        if over {
            break;
        }
        done += 1;
    }
    assert_eq!(actions.len(), 10);
    assert_eq!(
        actions[0],
        ResetAction::Progress {
            step: 1,
            message: "Stopping managed helpers and clearing in-memory host state.".to_string(),
        }
    );
    assert_eq!(actions[1], ResetAction::ClearHostState);
    assert_eq!(
        actions[2],
        ResetAction::Progress { step: 2, message: "Removing approved host files.".to_string() }
    );
    assert_eq!(actions[3], ResetAction::ApplyFiles);
    assert_eq!(
        actions[4],
        ResetAction::Progress { step: 3, message: "Cleared approved host files.".to_string() }
    );
    assert_eq!(actions[5], ResetAction::ResetCredentials);
    assert_eq!(
        actions[6],
        ResetAction::Progress {
            step: 4,
            message: "Revoked credentials and rotated host identity.".to_string(),
        }
    );
    assert_eq!(actions[7], ResetAction::Finish);
    assert_eq!(
        actions[8],
        ResetAction::Succeed {
            message: "Host reset complete; fresh pairing required.".to_string(),
            mode: "everything".to_string(),
            agent_state: "needs_pairing".to_string(),
        }
    );
    assert!(admit_reset("everything", Ok("h".to_string()), "RESET AGENT", false, &mut lock).is_ok());
}

#[test]
fn reset_worker_failures_carry_their_codes() {
    for (done, code) in [
        (1, "reset_operation_failed"),
        (4, "reset_files_failed"),
        (6, "reset_auth_failed"),
        (8, "reset_finalize_failed"),
        (9, "reset_operation_failed"),
    ] {
        let mut lock = claimed_lock();
        let action =
            reset_worker_step(&mut lock, done, Err("boom".to_string()), HostResetMode::Configuration);
        assert_eq!(
            action,
            ResetAction::Fail { code: code.to_string(), message: "boom".to_string() }
        );
        assert!(admit_reset("everything", Ok("h".to_string()), "RESET AGENT", false, &mut lock).is_ok());
    }
}

#[test]
fn payload_replacement_steps_and_errors() {
    assert_eq!(
        replacement_steps("msc", true, true, true).unwrap(),
        vec![
            PayloadStep::BackUp,
            PayloadStep::RemoveStaged,
            PayloadStep::CopyToStaged,
            PayloadStep::RemoveInstalled,
            PayloadStep::RenameIntoPlace,
        ]
    );
    assert_eq!(
        replacement_steps("sidecar", true, false, false).unwrap(),
        vec![PayloadStep::CopyToStaged, PayloadStep::RenameIntoPlace]
    );
    assert_eq!(
        replacement_steps("sidecar", false, true, false).unwrap_err(),
        "The signed headless archive is missing sidecar."
    );
    assert_eq!(install_error("msc", "denied"), "Could not install msc: denied");
    assert_eq!(replacement_failure("copy failed", None), "copy failed");
    assert_eq!(
        replacement_failure("copy failed", Some("gone")),
        "copy failed; partial replacement rollback failed: gone"
    );
}
