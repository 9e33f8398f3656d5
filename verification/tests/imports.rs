use msc_agent::bedrock::{
    BedrockTarget, admit_allowlist, admit_allowlist_change, roster_note, runtime_required,
};
use msc_agent::display::{display_file_path, empty_as_default, on_off, player_note};
use msc_agent::files::{
    BrowseFailure, ReadFailure, admit_read, browse_note, file_item_dto, read_failure_response,
};
use msc_agent::modpacks::{
    ImportFinish, ImportReport, InstallSource, check_curseforge_key,
    complete_manual_file, import_outcome, inspection_warnings, install_result, loader_name,
    modrinth_version_path, parse_import_action, plan_install, uploaded_file_name,
};
use msc_agent::staging::{
    PendingImport, PendingManualFile, StagedEntry, StagedUploadPurpose, StagingStore,
};

fn file(id: u64) -> PendingManualFile {
    PendingManualFile { file_id: id, expected_byte_size: 100 * id }
}

#[test]
fn staged_uploads_are_redeemed_only_when_known_fresh_and_for_this_purpose() {
    let mut store = StagingStore::new();
    let staged = |id: &str, purpose| StagedEntry {
        id: id.to_string(),
        purpose,
        expires_at: 10,
        max_bytes: 100,
        path: String::new(),
    };
    store.insert(staged("a", StagedUploadPurpose::ModpackArchive));
    store.insert(staged("b", StagedUploadPurpose::WorldImport));
    assert!(store.check("a", 10, StagedUploadPurpose::ModpackArchive).is_ok());
    for (id, now) in [("missing", 5), ("a", 11), ("b", 5)] {
        let e = store.check(id, now, StagedUploadPurpose::ModpackArchive).unwrap_err();
        assert_eq!(e.status, 404);
        assert_eq!(e.code, "not_found");
        assert_eq!(e.message, "Unknown or already-redeemed staged upload.");
    }
}

#[test]
fn import_actions() {
    assert_eq!(parse_import_action("import").unwrap(), false);
    assert_eq!(parse_import_action("replace").unwrap(), true);
    let e = parse_import_action("merge").unwrap_err();
    assert_eq!((e.status, e.code.as_str()), (400, "invalid_action"));
    assert_eq!(e.message, "action must be import or replace.");
}

#[test]
fn curseforge_packs_need_a_saved_key() {
    assert!(check_curseforge_key(false, Ok(None)).is_ok());
    assert!(check_curseforge_key(true, Ok(Some("  key ".to_string()))).is_ok());
    for saved in [Ok(None), Ok(Some("   ".to_string()))] {
        let e = check_curseforge_key(true, saved).unwrap_err();
        assert_eq!((e.status, e.code.as_str()), (400, "missing_curseforge_api_key"));
    }
    let e = check_curseforge_key(true, Err("store locked".to_string())).unwrap_err();
    assert_eq!((e.status, e.code.as_str(), e.message.as_str()), (500, "internal_error", "store locked"));
}

#[test]
fn import_outcomes() {
    let (finish, text, files) = import_outcome(ImportReport::Imported {
        blocked_files: vec![],
        pack_name: "Pack".to_string(),
        pack_version: "1.2".to_string(),
        cancelled: false,
    });
    assert_eq!(
        finish,
        ImportFinish::Succeed {
            message: "Imported modpack.".to_string(),
            pack_name: "Pack".to_string(),
            pack_version: "1.2".to_string(),
        }
    );
    assert_eq!(text, "Import started.");
    assert!(files.is_empty());

    let (finish, text, files) = import_outcome(ImportReport::Imported {
        blocked_files: vec![file(7), file(9)],
        pack_name: "Pack".to_string(),
        pack_version: "1.2".to_string(),
        cancelled: false,
    });
    assert_eq!(finish, ImportFinish::AwaitFiles { files: vec![file(7), file(9)] });
    assert_eq!(text, "Import paused: 2 file(s) need manual completion.");
    assert_eq!(files, vec![file(7), file(9)]);

    let (finish, _, _) = import_outcome(ImportReport::Imported {
        blocked_files: vec![file(7)],
        pack_name: String::new(),
        pack_version: String::new(),
        cancelled: true,
    });
    assert_eq!(finish, ImportFinish::Cancel { message: "Modpack import cancelled.".to_string() });

    let (finish, text, files) = import_outcome(ImportReport::Failed { message: "boom".to_string() });
    assert_eq!(
        finish,
        ImportFinish::Fail { code: "internal_error".to_string(), message: "boom".to_string() }
    );
    assert_eq!(text, "Import started.");
    assert!(files.is_empty());
}

#[test]
fn manual_files_complete_a_paused_import() {
    let mut import = PendingImport {
        operation_id: "op-1".to_string(),
        remaining_manual_files: vec![file(1), file(2)],
    };
    let first = complete_manual_file(&mut import, 0);
    assert_eq!(first.remaining, 1);
    assert!(!first.all_files_resolved);
    assert_eq!(first.message, "File accepted; waiting for the remaining manual files.");
    assert_eq!(import.remaining_manual_files, vec![file(2)]);
    let last = complete_manual_file(&mut import, 0);
    assert_eq!(last.remaining, 0);
    assert!(last.all_files_resolved);
    assert_eq!(last.message, "File accepted; import resumed.");
    assert_eq!(import.operation_id, "op-1");
}

#[test]
fn inspection_and_loader() {
    assert!(inspection_warnings(0).is_empty());
    assert_eq!(
        inspection_warnings(3),
        vec!["3 file(s) require manual completion before import can finish.".to_string()]
    );
    assert_eq!(loader_name(Some("fabric 0.15.11")), Some("fabric".to_string()));
    assert_eq!(loader_name(Some("   ")), None);
    assert_eq!(loader_name(None), None);
}

#[test]
fn install_sources() {
    assert_eq!(
        plan_install(Some("up-1"), Some("p"), None).unwrap(),
        InstallSource::StagedUpload { id: "up-1".to_string() }
    );
    assert_eq!(
        plan_install(None, Some("sodium"), Some("abc")).unwrap(),
        InstallSource::Catalog { project_id: "sodium".to_string(), version_id: Some("abc".to_string()) }
    );
    assert_eq!(
        plan_install(None, Some("sodium"), Some("  ")).unwrap(),
        InstallSource::Catalog { project_id: "sodium".to_string(), version_id: None }
    );
    for project in [None, Some(" ")] {
        let e = plan_install(None, project, None).unwrap_err();
        assert_eq!((e.status, e.code.as_str(), e.message.as_str()), (400, "missing_project_id", "projectId is required."));
    }
    assert_eq!(uploaded_file_name(Some("mod.jar")), "mod.jar");
    assert_eq!(uploaded_file_name(None), "uploaded.jar");
    assert_eq!(modrinth_version_path("a b/c"), "version/a%20b%2Fc");
    let r = install_result(Some("sodium".to_string()), "op-9", "Installing.");
    assert_eq!((r.status, r.success), (202, true));
    assert_eq!(r.operation_id.as_deref(), Some("op-9"));
    assert_eq!(r.project_id.as_deref(), Some("sodium"));
    assert_eq!(r.message, "Installing.");
}

#[test]
fn console_display_texts() {
    assert_eq!(on_off(Some(true)), "ON");
    assert_eq!(on_off(Some(false)), "OFF");
    assert_eq!(on_off(None), "unknown");
    assert_eq!(empty_as_default(""), "(not set)");
    assert_eq!(empty_as_default("x"), "x");
    assert_eq!(display_file_path(""), "Server Root");
    assert_eq!(display_file_path("world/level.dat"), "Server Root / world/level.dat");
    assert_eq!(player_note("not_bedrock"), "online roster is only available for Bedrock servers");
    assert_eq!(player_note("no_active_server"), "no active server");
    assert_eq!(player_note("other"), "other");
}

#[test]
fn bedrock_allowlist_admission() {
    let e = admit_allowlist(BedrockTarget::NoActiveServer).unwrap_err();
    assert_eq!((e.status, e.code.as_str()), (409, "conflict"));
    let e = admit_allowlist(BedrockTarget::NotBedrock).unwrap_err();
    assert_eq!((e.status, e.code.as_str()), (409, "not_bedrock"));
    assert!(admit_allowlist(BedrockTarget::Bedrock).is_ok());

    assert_eq!(
        admit_allowlist_change(BedrockTarget::Bedrock, Some("add".into()), Some("Steve".into())).unwrap(),
        ("add".to_string(), "Steve".to_string())
    );
    let e = admit_allowlist_change(BedrockTarget::Bedrock, Some(" ".into()), Some("Steve".into())).unwrap_err();
    assert_eq!(e.code, "missing_action");
    let e = admit_allowlist_change(BedrockTarget::Bedrock, Some("add".into()), None).unwrap_err();
    assert_eq!(e.code, "missing_name");
    assert!(admit_allowlist_change(BedrockTarget::NotBedrock, Some("add".into()), Some("S".into())).is_err());

    assert_eq!(roster_note(BedrockTarget::NoActiveServer).as_deref(), Some("no_active_server"));
    assert_eq!(roster_note(BedrockTarget::NotBedrock).as_deref(), Some("not_bedrock"));
    assert_eq!(roster_note(BedrockTarget::Bedrock), None);
    assert!(runtime_required(BedrockTarget::Bedrock, false));
    assert!(!runtime_required(BedrockTarget::Bedrock, true));
    assert!(!runtime_required(BedrockTarget::NotBedrock, false));
}

#[test]
fn file_reads_and_listings() {
    assert_eq!(admit_read(Some("  server.properties "), true).unwrap(), "server.properties");
    let e = admit_read(Some("   "), true).unwrap_err();
    assert_eq!((e.status, e.code.as_str(), e.message.as_str()), (400, "invalid_body", "missing_path"));
    let e = admit_read(None, true).unwrap_err();
    assert_eq!(e.message, "missing_path");
    let e = admit_read(Some("a"), false).unwrap_err();
    assert_eq!((e.status, e.message.as_str()), (409, "no_active_server"));

    let outside = read_failure_response(ReadFailure::InvalidPath);
    assert_eq!(outside, read_failure_response(ReadFailure::FileNotFound));
    assert_eq!((outside.status, outside.message.as_str()), (404, "file_not_found"));
    assert_eq!(read_failure_response(ReadFailure::DirectoryNotFile).message, "directory_not_file");
    assert_eq!(read_failure_response(ReadFailure::NotPreviewable).status, 409);
    assert_eq!(read_failure_response(ReadFailure::ReadFailed).code, "internal_error");
    assert_eq!(browse_note(BrowseFailure::InvalidPath), "invalid_path");
    assert_eq!(browse_note(BrowseFailure::DirectoryNotFound), "directory_not_found");

    let item = file_item_dto(
        "level.dat".into(),
        "world/level.dat".into(),
        false,
        Some(12),
        Some(86400),
        Some("dat".into()),
        false,
    );
    assert_eq!(item.id, "world/level.dat");
    assert_eq!(item.modified_at.as_deref(), Some("1970-01-02T00:00:00Z"));
    assert_eq!(item.size_bytes, Some(12));
}
