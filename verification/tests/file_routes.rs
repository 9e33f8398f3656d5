use msc_agent::api::{Permission, require_permission};
use msc_agent::files::{
    BrowseOutcome, ReadFailure, admit_browse, admit_read, browse_response, file_item_dto,
    read_failure_response,
};
use msc_agent::health::no_active_server_health;

#[test]
fn browse_files_requires_admin() {
    let refused = require_permission(&[Permission::Players], Permission::Admin).unwrap();
    assert_eq!(refused.status, 403);
}

#[test]
fn browse_files_conflicts_with_no_active_server() {
    let refused = admit_browse(false).unwrap_err();
    assert_eq!(refused.status, 409);
    assert!(admit_browse(true).is_ok());
}

#[test]
fn browse_files_reports_a_traversal_escape_as_a_200_note() {
    let body = browse_response("Alpha".into(), BrowseOutcome::InvalidPath);
    assert_eq!(body.note.as_deref(), Some("invalid_path"));
    assert_eq!(body.server_name.as_deref(), Some("Alpha"));
    assert!(body.items.is_empty());
}

#[test]
fn browse_listing_keeps_the_agent_listing() {
    let item = file_item_dto("level.dat".into(), "world/level.dat".into(), false, Some(9), None, None, false);
    let body = browse_response(
        "Alpha".into(),
        BrowseOutcome::Listed { path: "world".into(), parent_path: Some(String::new()), items: vec![item.clone()] },
    );
    assert_eq!(body.path, "world");
    assert_eq!(body.items, vec![item]);
    assert_eq!(body.note, None);
    let missing = browse_response("Alpha".into(), BrowseOutcome::DirectoryNotFound);
    assert_eq!(missing.note.as_deref(), Some("directory_not_found"));
}

#[test]
fn read_file_requires_a_path() {
    assert_eq!(admit_read(None, true).unwrap_err().status, 400);
}

#[test]
fn read_file_rejects_a_non_previewable_file_with_409() {
    assert_eq!(read_failure_response(ReadFailure::NotPreviewable).status, 409);
}

#[test]
fn read_file_reports_a_missing_file_with_404() {
    assert_eq!(read_failure_response(ReadFailure::FileNotFound).status, 404);
}

#[test]
fn health_route_reports_no_active_server() {
    let body = no_active_server_health();
    assert!(body.note.unwrap_or_default().contains("No active server."));
}
