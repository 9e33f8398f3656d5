use msc_agent::tui::input::{Key, PromptEdit, edit_prompt, wrap_selection};
use msc_agent::tui::server_editor::{
    EditorInputKind, EditorIntent, EditorMutation, EditorReply, EditorSurface, JavaRuntimeSummary,
    ServerEditorState, ServerSummary, editor_result, editor_route, port_changes,
};
use msc_agent::tui::settings::{
    SettingField, SettingsIntent, SettingsMutation, SettingsSection, SettingsSnapshot,
    SettingsState, is_true,
};
use msc_agent::tui::transport::{
    OperationState, StreamAction, StreamChannel, StreamEvent, StreamFailure, header_end,
    is_reconnectable, is_terminal, operation_state, parse_content_length, reconnect_delay,
    request_header, response_body, response_status, stream_step,
};
use msc_agent::tui::worlds::{
    WorldInputKind, WorldIntent, WorldMutation, WorldReply, WorldSlot, WorldSlots, WorldsState,
    export_message, mutation_result, world_result, world_route,
};
use msc_agent::error::CliError;

fn type_text(editor: &mut ServerEditorState, text: &str) {
    for c in text.chars() {
        assert_eq!(editor.handle_key(Key::Char(c)), None);
    }
}

fn editor() -> ServerEditorState {
    ServerEditorState::for_server(
        ServerSummary {
            id: "srv-1".into(),
            name: "Survival".into(),
            server_type: "java".into(),
            directory: "/srv/survival".into(),
            game_port: Some(25565),
            bedrock_port: None,
            playit_enabled: Some(true),
            xbox_broadcast_enabled: None,
        },
        vec![
            JavaRuntimeSummary {
                name: "Temurin".into(),
                major_version: Some(21),
                executable_path: "/opt/java21/bin/java".into(),
            },
            JavaRuntimeSummary {
                name: "System".into(),
                major_version: None,
                executable_path: "/usr/bin/java".into(),
            },
        ],
        Some(false),
        Some(true),
    )
}

#[test]
fn prompts_name_their_values() {
    assert_eq!(EditorInputKind::DisplayName.prompt(), "Display name");
    assert_eq!(EditorInputKind::RamPair.prompt(), "RAM min|max in GB (blank side keeps current)");
    assert_eq!(WorldInputKind::Import.prompt(), "ZIP path | new slot name");
    assert_eq!(
        WorldInputKind::Convert.prompt(),
        "target server id | format | target name OR target slot id"
    );
}

#[test]
fn prompt_editing_appends_removes_cancels_and_submits() {
    let mut value = String::from("ab");
    assert_eq!(edit_prompt(&mut value, Key::Char('c')), PromptEdit::Keep);
    assert_eq!(value, "abc");
    assert_eq!(edit_prompt(&mut value, Key::Backspace), PromptEdit::Keep);
    assert_eq!(value, "ab");
    let mut empty = String::new();
    assert_eq!(edit_prompt(&mut empty, Key::Backspace), PromptEdit::Keep);
    assert_eq!(empty, "");
    assert_eq!(edit_prompt(&mut value, Key::Esc), PromptEdit::Cancel);
    assert_eq!(edit_prompt(&mut value, Key::Enter), PromptEdit::Submit);
    assert_eq!(value, "ab");
}

#[test]
fn selection_wraps_at_both_ends() {
    assert_eq!(wrap_selection(2, 1, 3), 0);
    assert_eq!(wrap_selection(0, -1, 3), 2);
    assert_eq!(wrap_selection(1, 1, 3), 2);
    assert_eq!(wrap_selection(7, 1, 3), 2);
    assert_eq!(wrap_selection(7, -1, 3), 0);
}

#[test]
fn editor_renames_with_a_trimmed_name() {
    let mut editor = editor();
    assert_eq!(editor.handle_key(Key::Char('n')), None);
    assert_eq!(editor.input.as_ref().map(|(kind, _)| *kind), Some(EditorInputKind::DisplayName));
    type_text(&mut editor, "  Creative  ");
    let intent = editor.handle_key(Key::Enter);
    assert_eq!(
        intent,
        Some(EditorIntent::Confirm(EditorMutation::Rename {
            server_id: "srv-1".into(),
            name: "Creative".into()
        }))
    );
    assert!(editor.input.is_none());
}

#[test]
fn editor_blank_name_submits_nothing_and_escape_cancels() {
    let mut editor = editor();
    editor.handle_key(Key::Char('n'));
    type_text(&mut editor, "   ");
    assert_eq!(editor.handle_key(Key::Enter), None);
    assert!(editor.input.is_none());
    editor.handle_key(Key::Char('n'));
    type_text(&mut editor, "abc");
    assert_eq!(editor.handle_key(Key::Esc), None);
    assert!(editor.input.is_none());
    assert_eq!(editor.handle_key(Key::Esc), Some(EditorIntent::Back));
}

#[test]
fn editor_typing_then_backspace_restores_the_text() {
    let mut editor = editor();
    editor.handle_key(Key::Char('o'));
    type_text(&mut editor, "255");
    editor.handle_key(Key::Char('6'));
    editor.handle_key(Key::Backspace);
    assert_eq!(editor.input.as_ref().map(|(_, v)| v.as_str()), Some("255"));
    editor.handle_key(Key::Char('6'));
    editor.handle_key(Key::Char('5'));
    assert_eq!(
        editor.handle_key(Key::Enter),
        Some(EditorIntent::Confirm(EditorMutation::UpdatePort { port: 25565 }))
    );
}

#[test]
fn editor_port_must_be_a_number() {
    let mut editor = editor();
    editor.handle_key(Key::Char('o'));
    type_text(&mut editor, "port");
    assert_eq!(editor.handle_key(Key::Enter), None);
    editor.handle_key(Key::Char('o'));
    type_text(&mut editor, "-5");
    assert_eq!(
        editor.handle_key(Key::Enter),
        Some(EditorIntent::Confirm(EditorMutation::UpdatePort { port: -5 }))
    );
}

#[test]
fn editor_ram_pair_keeps_blank_sides() {
    let mut editor = editor();
    editor.handle_key(Key::Char('m'));
    type_text(&mut editor, " 2 | ");
    assert_eq!(
        editor.handle_key(Key::Enter),
        Some(EditorIntent::Confirm(EditorMutation::UpdateRam { min: Some("2".into()), max: None }))
    );
    editor.handle_key(Key::Char('m'));
    type_text(&mut editor, " | ");
    assert_eq!(editor.handle_key(Key::Enter), None);
    editor.handle_key(Key::Char('m'));
    type_text(&mut editor, "4");
    assert_eq!(editor.handle_key(Key::Enter), None);
}

#[test]
fn editor_without_a_server_submits_nothing() {
    let mut editor = editor();
    editor.server = None;
    editor.handle_key(Key::Char('p'));
    type_text(&mut editor, "/srv/mc");
    assert_eq!(editor.handle_key(Key::Enter), None);
    assert_eq!(editor.server_name(), "No server selected");
    assert_eq!(editor.server_id(), None);
}

#[test]
fn editor_services_toggle_only_offered_services() {
    let mut editor = editor();
    assert_eq!(editor.handle_key(Key::Char('2')), None);
    assert_eq!(editor.surface, EditorSurface::Services);
    assert_eq!(editor.handle_key(Key::Char('p')), None);
    editor.set_capabilities(true, true);
    assert_eq!(
        editor.handle_key(Key::Char('p')),
        Some(EditorIntent::Confirm(EditorMutation::Playit { start: true }))
    );
    assert_eq!(
        editor.handle_key(Key::Char('x')),
        Some(EditorIntent::Confirm(EditorMutation::XboxBroadcast { start: false }))
    );
}

#[test]
fn editor_java_page_moves_detects_and_picks_runtimes() {
    let mut editor = editor();
    editor.handle_key(Key::Char('3'));
    editor.handle_key(Key::Char('d'));
    assert_eq!(
        editor.status.as_deref(),
        Some("Detected Temurin (Java 21) at /opt/java21/bin/java")
    );
    editor.handle_key(Key::Up);
    assert_eq!(editor.selected_runtime, 1);
    editor.handle_key(Key::Char('d'));
    assert_eq!(editor.status.as_deref(), Some("Detected System at /usr/bin/java"));
    editor.handle_key(Key::Down);
    assert_eq!(editor.selected_runtime, 0);
    assert_eq!(
        editor.handle_key(Key::Enter),
        Some(EditorIntent::Confirm(EditorMutation::SetJavaPath {
            path: "/opt/java21/bin/java".into()
        }))
    );
    editor.java_runtimes.clear();
    editor.handle_key(Key::Char('d'));
    assert_eq!(editor.status.as_deref(), Some("No Java runtimes were detected by the agent"));
    assert_eq!(editor.handle_key(Key::Enter), None);
}

#[test]
fn editor_reload_clears_loaded() {
    let mut editor = editor();
    editor.handle_key(Key::Char('r'));
    assert!(!editor.loaded);
}

#[test]
fn editor_routes_and_results() {
    assert_eq!(editor_route(&EditorMutation::Playit { start: false }), "/v1/playit/stop");
    assert_eq!(editor_route(&EditorMutation::UpdatePort { port: 1 }), "/v1/settings");
    let empty = EditorReply { message: None, operation_id: None, executable_path: None, extra_flags: None };
    let r = editor_result(&EditorMutation::UpdateRam { min: None, max: None }, empty.clone());
    assert_eq!(r.message, "RAM allocation updated.");
    let r = editor_result(&EditorMutation::SetJavaPath { path: "x".into() }, empty.clone());
    assert_eq!(r.message, "Java executable set to default.");
    let r = editor_result(
        &EditorMutation::SetJavaArguments { arguments: "-Xmx2G".into() },
        EditorReply { extra_flags: Some("-Xmx2G".into()), ..empty.clone() },
    );
    assert_eq!(r.message, "Java arguments set to -Xmx2G.");
    let r = editor_result(
        &EditorMutation::Playit { start: true },
        EditorReply { operation_id: Some("op-1".into()), ..empty.clone() },
    );
    assert_eq!(r.message, "Playit start requested.");
    assert_eq!(r.operation_id.as_deref(), Some("op-1"));
    let r = editor_result(&EditorMutation::XboxBroadcast { start: false }, empty.clone());
    assert_eq!(r.message, "Xbox Broadcast stop requested.");
    let r = editor_result(
        &EditorMutation::Rename { server_id: "a".into(), name: "b".into() },
        EditorReply { message: Some("Renamed.".into()), operation_id: Some("ignored".into()), ..empty },
    );
    assert_eq!(r.message, "Renamed.");
    assert_eq!(r.operation_id, None);
}

#[test]
fn port_changes_set_server_port() {
    assert_eq!(port_changes(25565), vec![("server-port".to_string(), "25565".to_string())]);
    assert_eq!(port_changes(-7), vec![("server-port".to_string(), "-7".to_string())]);
}

fn field(key: &str, label: &str, value: &str, kind: &str) -> SettingField {
    SettingField {
        key: key.into(),
        label: label.into(),
        value: value.into(),
        kind: kind.into(),
        unit: None,
        help_id: None,
        options: None,
    }
}

fn settings_state() -> SettingsState {
    SettingsState::for_response(SettingsSnapshot {
        server_name: "Survival".into(),
        server_type: "java".into(),
        sections: vec![
            SettingsSection {
                title: "Gameplay".into(),
                fields: vec![
                    field("pvp", "PvP", " Yes ", "Boolean"),
                    SettingField {
                        unit: Some(" chars".into()),
                        help_id: Some("settings.motd".into()),
                        options: Some(vec!["Short".into(), "Long".into()]),
                        ..field("motd", "Message", "hello", "string")
                    },
                ],
            },
            SettingsSection { title: "Empty".into(), fields: vec![] },
        ],
        editable: true,
    })
}

#[test]
fn settings_space_flips_a_boolean() {
    let mut s = settings_state();
    assert_eq!(
        s.handle_key(Key::Char(' ')),
        Some(SettingsIntent::Confirm(SettingsMutation::Update {
            changes: vec![("pvp".into(), "false".into())]
        }))
    );
    s.handle_key(Key::Char('j'));
    assert_eq!(s.handle_key(Key::Char(' ')), None);
}

#[test]
fn settings_edit_submits_a_trimmed_key_with_the_typed_value() {
    let mut s = settings_state();
    s.handle_key(Key::Down);
    s.handle_key(Key::Char('e'));
    assert_eq!(s.input, Some(("motd".to_string(), "hello".to_string())));
    s.handle_key(Key::Char('!'));
    assert_eq!(
        s.handle_key(Key::Enter),
        Some(SettingsIntent::Confirm(SettingsMutation::Update {
            changes: vec![("motd".into(), "hello!".into())]
        }))
    );
    assert!(s.input.is_none());
}

#[test]
fn settings_sections_and_moves() {
    let mut s = settings_state();
    s.handle_key(Key::Char('j'));
    assert_eq!(s.selected_field, 1);
    s.handle_key(Key::Char('j'));
    assert_eq!(s.selected_field, 0);
    s.handle_key(Key::Char('2'));
    assert_eq!(s.selected_section, 1);
    assert!(s.selected_field().is_none());
    s.handle_key(Key::Char('k'));
    assert_eq!(s.selected_field, 0);
    s.handle_key(Key::Char('9'));
    assert_eq!(s.selected_section, 1);
    s.handle_key(Key::Char('1'));
    assert_eq!(s.selected_section, 0);
    s.handle_key(Key::Char('r'));
    assert!(!s.loaded);
}

#[test]
fn settings_read_only_opens_no_prompt() {
    let mut s = settings_state();
    s.response.as_mut().unwrap().editable = false;
    s.handle_key(Key::Enter);
    assert!(s.input.is_none());
    assert_eq!(s.handle_key(Key::Char(' ')), None);
}

#[test]
fn truthy_setting_values() {
    assert!(is_true(" TRUE "));
    assert!(is_true("on"));
    assert!(is_true("1"));
    assert!(!is_true("0"));
    assert!(!is_true("truthy"));
}

fn worlds() -> WorldsState {
    WorldsState::for_response(WorldSlots {
        slots: vec![
            slot("slot-a", "Alpha", false),
            slot("slot-b", "Beta", true),
        ],
        active_slot_id: None,
        server_running: false,
    })
}

fn slot(id: &str, name: &str, is_active: bool) -> WorldSlot {
    WorldSlot {
        id: id.into(),
        name: name.into(),
        is_active,
        created_at: "2024-05-01T10:00:00Z".into(),
        zip_size_bytes: None,
        world_seed: None,
    }
}

fn submit(state: &mut WorldsState, text: &str) -> Option<WorldIntent> {
    for c in text.chars() {
        state.handle_key(Key::Char(c));
    }
    state.handle_key(Key::Enter)
}

#[test]
fn worlds_list_detail_and_slot_mutations() {
    let mut w = worlds();
    assert_eq!(w.selected_slot_name(), Some("Alpha"));
    w.handle_key(Key::Char('j'));
    assert_eq!(w.selected_slot_id(), Some("slot-b"));
    w.handle_key(Key::Char('j'));
    assert_eq!(w.selected_slot_id(), Some("slot-a"));
    w.handle_key(Key::Enter);
    assert!(w.detail_open);
    assert_eq!(w.handle_key(Key::Char('b')), Some(WorldIntent::OpenBackups));
    assert_eq!(
        w.handle_key(Key::Char('d')),
        Some(WorldIntent::Confirm(WorldMutation::Delete { slot_id: "slot-a".into() }))
    );
    assert_eq!(
        w.handle_key(Key::Char('R')),
        Some(WorldIntent::Confirm(WorldMutation::Repair { slot_id: "slot-a".into() }))
    );
    w.handle_key(Key::Esc);
    assert!(!w.detail_open);
}

#[test]
fn worlds_prompts_submit_their_mutations() {
    let mut w = worlds();
    w.handle_key(Key::Char('c'));
    assert_eq!(submit(&mut w, " New "), Some(WorldIntent::Confirm(WorldMutation::Create { name: "New".into() })));
    w.handle_key(Key::Char('i'));
    assert_eq!(
        submit(&mut w, " /tmp/w.zip | Imported "),
        Some(WorldIntent::Confirm(WorldMutation::Import {
            path: "/tmp/w.zip".into(),
            name: "Imported".into()
        }))
    );
    w.handle_key(Key::Char('i'));
    assert_eq!(submit(&mut w, "no-bar"), None);
    w.handle_key(Key::Enter);
    w.handle_key(Key::Char('l'));
    assert_eq!(
        submit(&mut w, "level | "),
        Some(WorldIntent::Confirm(WorldMutation::ReplaceActive {
            level_name: "level".into(),
            staged_upload_id: None
        }))
    );
    w.handle_key(Key::Char('v'));
    assert_eq!(
        submit(&mut w, "srv-2 | bedrock | slot:slot:target "),
        Some(WorldIntent::Confirm(WorldMutation::Convert {
            source_slot_id: "slot-a".into(),
            target_server_id: "srv-2".into(),
            target_format: "bedrock".into(),
            target_name: None,
            target_slot_id: Some("target".into())
        }))
    );
    w.handle_key(Key::Char('v'));
    assert_eq!(
        submit(&mut w, "srv-2|java|My World"),
        Some(WorldIntent::Confirm(WorldMutation::Convert {
            source_slot_id: "slot-a".into(),
            target_server_id: "srv-2".into(),
            target_format: "java".into(),
            target_name: Some("My World".into()),
            target_slot_id: None
        }))
    );
    w.handle_key(Key::Char('v'));
    assert_eq!(submit(&mut w, "srv-2|java"), None);
}

#[test]
fn worlds_active_slot_prefers_the_named_id() {
    let mut w = worlds();
    assert_eq!(w.active_slot().map(|s| s.id.as_str()), Some("slot-b"));
    w.response.as_mut().unwrap().active_slot_id = Some("slot-a".into());
    assert_eq!(w.active_slot().map(|s| s.id.as_str()), Some("slot-a"));
    w.response.as_mut().unwrap().active_slot_id = Some("gone".into());
    assert_eq!(w.active_slot().map(|s| s.id.as_str()), Some("slot-b"));
}

#[test]
fn worlds_results_and_routes() {
    assert_eq!(world_route(&WorldMutation::Copy {
        destination_slot_id: "a".into(),
        source_slot_id: "b".into()
    }), "/v1/worlds/replace");
    assert_eq!(
        mutation_result(false, "nope".into(), None),
        Err(CliError::Usage { message: "nope".into() })
    );
    let ok = world_result(WorldReply::Accepted { result: "activating".into(), operation_id: Some("op".into()) }).unwrap();
    assert_eq!(ok.message, "activating");
    assert_eq!(ok.operation_id.as_deref(), Some("op"));
    assert_eq!(export_message(1024, "/tmp/w.zip"), "Exported 1024 bytes to /tmp/w.zip");
}

#[test]
fn stream_channels_and_operation_states() {
    assert_eq!(StreamChannel::Console.path(), "/v1/console/stream");
    let op = StreamChannel::Operation { id: "abc".into() };
    assert_eq!(op.path(), "/v1/operations/abc/stream");
    assert_eq!(op.snapshot_path().as_deref(), Some("/v1/operations/abc"));
    assert!(op.is_operation());
    assert!(StreamChannel::Notifications.snapshot_path().is_none());
    assert!(is_terminal(OperationState::Cancelled));
    assert!(!is_terminal(OperationState::Running));
    assert_eq!(operation_state(OperationState::Succeeded), "SUCCEEDED");
    assert!(is_reconnectable(StreamFailure::Io));
    assert!(!is_reconnectable(StreamFailure::Other));
}

#[test]
fn reconnect_delay_doubles_up_to_two_seconds() {
    assert_eq!(reconnect_delay(0), 100);
    assert_eq!(reconnect_delay(1), 100);
    assert_eq!(reconnect_delay(2), 200);
    assert_eq!(reconnect_delay(5), 1600);
    assert_eq!(reconnect_delay(6), 2000);
    assert_eq!(reconnect_delay(60), 2000);
}

#[test]
fn stream_finishes_after_a_terminal_snapshot() {
    let (action, seen) = stream_step(true, false, StreamEvent::Text { terminal_operation: true });
    assert_eq!(action, StreamAction::Deliver);
    assert!(seen);
    assert_eq!(stream_step(true, seen, StreamEvent::Closed).0, StreamAction::Finish);
    assert_eq!(stream_step(false, false, StreamEvent::Closed).0, StreamAction::Reconnect);
    assert_eq!(
        stream_step(false, false, StreamEvent::Failed { failure: StreamFailure::Other }).0,
        StreamAction::Fail
    );
    assert_eq!(stream_step(false, false, StreamEvent::Ping).0, StreamAction::Pong);
    assert!(!stream_step(false, false, StreamEvent::Text { terminal_operation: true }).1);
}

#[test]
fn http_framing() {
    assert_eq!(
        request_header("POST", "/v1/x", "127.0.0.1:48001", "tok", Some("application/json"), Some(2)),
        "POST /v1/x HTTP/1.1\r\nHost: 127.0.0.1:48001\r\nAuthorization: Bearer tok\r\nConnection: close\r\nContent-Type: application/json\r\nContent-Length: 2\r\n\r\n"
    );
    assert_eq!(
        request_header("GET", "/", "h", "t", Some("ignored"), None),
        "GET / HTTP/1.1\r\nHost: h\r\nAuthorization: Bearer t\r\nConnection: close\r\n\r\n"
    );
    let response = b"HTTP/1.1 200 OK\r\nContent-Length: 2\r\n\r\nokextra";
    let end = header_end(response).unwrap();
    assert_eq!(end, 34);
    assert_eq!(response_body(response, end, Some(2)), b"ok".to_vec());
    assert_eq!(response_body(response, end, Some(99)), b"okextra".to_vec());
    assert_eq!(response_body(response, end, None), b"okextra".to_vec());
    assert_eq!(header_end(b"no blank line\r\n"), None);
}

#[test]
fn content_length_and_status_parsing() {
    assert_eq!(parse_content_length("HTTP/1.1 200 OK\r\ncontent-LENGTH:  42 "), Ok(Some(42)));
    assert_eq!(parse_content_length("HTTP/1.1 204 No Content"), Ok(None));
    assert_eq!(
        parse_content_length("Content-Length: x"),
        Err("content-length header was malformed: invalid digit found in string".to_string())
    );
    assert_eq!(
        parse_content_length("Content-Length:"),
        Err("content-length header was malformed: cannot parse integer from empty string".to_string())
    );
    assert_eq!(response_status("HTTP/1.1 404 Not Found\r\nX: y"), Ok(404));
    assert_eq!(
        response_status("HTTP/1.1"),
        Err("response status line was malformed".to_string())
    );
    assert_eq!(
        response_status("HTTP/1.1 99999 Big"),
        Err("response status line was malformed: number too large to fit in target type".to_string())
    );
}
