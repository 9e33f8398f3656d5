use msc_agent::tui::screens::{
    CreateDraft, ImportDraft, ManageServersView, ManageSurface, box_title_exec, join_texts,
    manage_servers_lines, number_text, server_editor_lines, settings_lines, signed_text,
    worlds_lines,
};
use msc_agent::tui::server_editor::{
    EditorInputKind, EditorSurface, JavaConfig, JavaRuntimeSummary, RamConfig, ServerEditorState,
    ServerSummary,
};
use msc_agent::tui::settings::{SettingField, SettingsSection, SettingsSnapshot, SettingsState};
use msc_agent::tui::worlds::{WorldInputKind, WorldSlot, WorldSlots, WorldsState};

fn server(id: &str, name: &str) -> ServerSummary {
    ServerSummary {
        id: id.into(),
        name: name.into(),
        server_type: "java".into(),
        directory: format!("/srv/{id}"),
        game_port: Some(25565),
        bedrock_port: None,
        playit_enabled: Some(true),
        xbox_broadcast_enabled: None,
    }
}

fn editor() -> ServerEditorState {
    ServerEditorState::for_server(
        server("alpha", "Alpha"),
        vec![
            JavaRuntimeSummary {
                name: "Temurin".into(),
                major_version: Some(21),
                executable_path: "/opt/java21/bin/java".into(),
            },
            JavaRuntimeSummary {
                name: "System".into(),
                major_version: None,
                executable_path: "/usr/bin/java".into(),
            },
        ],
        Some(true),
        None,
    )
}

fn field(key: &str, label: &str, value: &str) -> SettingField {
    SettingField {
        key: key.into(),
        label: label.into(),
        value: value.into(),
        kind: "string".into(),
        unit: None,
        help_id: None,
        options: None,
    }
}

fn snapshot() -> SettingsSnapshot {
    SettingsSnapshot {
        server_name: "Alpha".into(),
        server_type: "java".into(),
        sections: vec![
            SettingsSection {
                title: "Gameplay".into(),
                fields: vec![
                    field("pvp", "PvP", "true"),
                    SettingField {
                        unit: Some(" players".into()),
                        help_id: Some("settings.players".into()),
                        options: Some(vec!["10".into(), "20".into()]),
                        ..field("max-players", "Max players", "20")
                    },
                ],
            },
            SettingsSection { title: "World".into(), fields: vec![field("seed", "Seed", "")] },
        ],
        editable: false,
    }
}

#[test]
fn numbers_and_titles() {
    assert_eq!(number_text(0), "0");
    assert_eq!(number_text(1234), "1234");
    assert_eq!(signed_text(-42), "-42");
    assert_eq!(signed_text(i64::MIN), "-9223372036854775808");
    assert_eq!(box_title_exec("WORLDS", true), "› WORLDS");
    assert_eq!(box_title_exec("WORLDS", false), "WORLDS");
    assert_eq!(join_texts(&vec!["a".into(), "b".into(), "c".into()], ", "), "a, b, c");
    assert_eq!(join_texts(&vec![], ", "), "");
}

#[test]
fn server_editor_general_page() {
    let mut e = editor();
    e.ram = Some(RamConfig { min_ram_gb: 2, max_ram_gb: 6 });
    e.storage_bytes = Some(1_500_000);
    e.status = Some("Saved.".into());
    assert_eq!(
        server_editor_lines(&e, "1.4 MiB"),
        vec![
            "Alpha  ·  java",
            "[1] General  [2] Services  [3] Java  [r] reload  [esc] back",
            "",
            "GENERAL",
            "Display name: Alpha  [n] rename",
            "Directory: /srv/alpha  [p] edit path",
            "RAM: 2–6 GB  [m] edit min|max GB",
            "Ports: game 25565 · bedrock —  [o] edit game port",
            "Storage: 1.4 MiB",
            "EULA: agent-managed acceptance in Manage Servers",
            "Deletion: Manage Servers confirms removal of managed data",
            "Status: Saved.",
        ]
    );
    e.storage_bytes = None;
    e.ram = None;
    let lines = server_editor_lines(&e, "ignored");
    assert_eq!(lines[6], "RAM: unavailable  [m] edit min|max GB");
    assert_eq!(lines[8], "Storage: unavailable");
}

#[test]
fn server_editor_services_and_java_pages() {
    let mut e = editor();
    e.surface = EditorSurface::Services;
    e.playit_available = true;
    e.settings = Some(snapshot());
    e.error = Some("ram route failed".into());
    assert_eq!(
        server_editor_lines(&e, ""),
        vec![
            "Alpha  ·  java",
            "[1] General  [2] Services  [3] Java  [r] reload  [esc] back",
            "",
            "SERVICES · CAPABILITY-BACKED",
            "Playit: available · RUNNING [p] stop",
            "Xbox Broadcast: unavailable · state unavailable",
            "Controls appear only when host capability and token permission allow them.",
            "Settings schema: 3 field(s) · read-only",
            "Editor data note: ram route failed",
        ]
    );
    let mut e = editor();
    e.surface = EditorSurface::Java;
    e.selected_runtime = 1;
    e.java_config = Some(JavaConfig { executable_path: None, extra_flags: Some("-XX:+UseG1GC".into()) });
    e.input = Some((EditorInputKind::JavaPath, "/opt/j".into()));
    assert_eq!(
        server_editor_lines(&e, ""),
        vec![
            "Alpha  ·  java",
            "[1] General  [2] Services  [3] Java  [r] reload  [esc] back",
            "",
            "JAVA · DETECTED RUNTIMES",
            "Configured path: default  [p] edit path",
            "Extra arguments: -XX:+UseG1GC  [a] edit",
            "  Temurin · Java 21 · /opt/java21/bin/java",
            "› System · Java ? · /usr/bin/java",
            "[j/k] choose runtime  [enter] use it  [d] report detection",
            "Java executable path on agent host: /opt/j_",
        ]
    );
    e.java_runtimes.clear();
    let lines = server_editor_lines(&e, "");
    assert_eq!(lines[6], "No Java runtimes detected. [d] check again");
    let empty = ServerEditorState { server: None, ..editor() };
    assert_eq!(server_editor_lines(&empty, "")[0], "No server selected  ·  unknown");
    assert_eq!(server_editor_lines(&empty, "").len(), 3);
}

#[test]
fn settings_page_lines() {
    let mut s = SettingsState::for_response(snapshot());
    s.selected_field = 1;
    s.status = Some("Updated.".into());
    assert_eq!(
        settings_lines(&s),
        vec![
            "SERVER SETTINGS · SCHEMA FROM AGENT",
            "Alpha · java · read-only",
            "› Gameplay [1]",
            "  World [2]",
            "",
            "Gameplay · [j/k] field  [enter] edit",
            "  PvP = true",
            "› Max players = 20 players",
            "  Help: settings.players",
            "  Options: 10, 20",
            "Status: Updated.",
        ]
    );
    let loading = SettingsState { loaded: false, ..SettingsState::for_response(snapshot()) };
    assert_eq!(
        settings_lines(&loading),
        vec!["SERVER SETTINGS · SCHEMA FROM AGENT", "Loading settings…"]
    );
    let failed = SettingsState {
        error: Some("offline".into()),
        input: Some(("motd".into(), "hi".into())),
        ..SettingsState::for_response(snapshot())
    };
    assert_eq!(
        settings_lines(&failed),
        vec!["SERVER SETTINGS · SCHEMA FROM AGENT", "Settings unavailable: offline", "Edit motd: hi_"]
    );
}

fn slot(id: &str, name: &str, active: bool) -> WorldSlot {
    WorldSlot {
        id: id.into(),
        name: name.into(),
        is_active: active,
        created_at: "2024-05-01T10:00:00Z".into(),
        zip_size_bytes: Some(2048),
        world_seed: None,
    }
}

fn worlds() -> WorldsState {
    WorldsState::for_response(WorldSlots {
        slots: vec![slot("w-1", "Main", true), slot("w-2", "Creative", false)],
        active_slot_id: Some("w-1".into()),
        server_running: true,
    })
}

#[test]
fn world_list_and_detail_lines() {
    assert_eq!(
        worlds_lines(&worlds(), ""),
        vec![
            "ACTIVE WORLD  Main",
            "2 saved slots · server RUNNING",
            "",
            "› Main  ACTIVE  w-1",
            "  Creative  SAVED  w-2",
            "",
            "[j/k] choose  [enter] detail  [c] create  [i] import  [r] reload",
        ]
    );
    let mut w = worlds();
    w.detail_open = true;
    w.input = Some((WorldInputKind::Rename, "Old".into()));
    assert_eq!(
        worlds_lines(&w, "2.0 KiB"),
        vec![
            "SELECTED WORLD SLOT",
            "Main  ·  ACTIVE · live identity",
            "Slot ID: w-1",
            "Created: 2024-05-01T10:00:00Z",
            "Archive: 2.0 KiB",
            "Seed: not reported",
            "",
            "[b] backups  [a] activate  [s] save current  [n] rename  [N] rename active",
            "[p] copy into  [l] replace active  [e] export  [v] convert  [R] repair",
            "[d] delete  [esc] world list",
            "New slot name: Old_",
        ]
    );
    w.selected_slot = 5;
    w.status = Some("ignored".into());
    assert_eq!(worlds_lines(&w, ""), vec!["No world slot is selected."]);
    let empty = WorldsState::for_response(WorldSlots {
        slots: vec![],
        active_slot_id: None,
        server_running: false,
    });
    assert_eq!(worlds_lines(&empty, "")[0], "ACTIVE WORLD  none");
    assert_eq!(worlds_lines(&empty, "")[1], "0 saved slots · server STOPPED");
    assert_eq!(worlds_lines(&empty, "")[3], "No world slots are available.");
}

fn manage() -> ManageServersView {
    ManageServersView {
        surface: Some(ManageSurface::List),
        servers: vec![server("alpha", "Alpha"), server("beta", "Beta")],
        selected: 1,
        create_draft: CreateDraft {
            name: String::new(),
            server_type: None,
            java_flavor: Some("paper".into()),
            port: Some(25570),
            world_name: None,
            accept_eula: true,
        },
        create_review: true,
        import_draft: ImportDraft {
            source_path: "/old/server".into(),
            server_type: Some("bedrock".into()),
            display_name: None,
            active_world_name: None,
            accept_eula: false,
        },
        import_review: false,
        input: None,
        status: None,
    }
}

#[test]
fn manage_servers_lines_for_each_page() {
    assert_eq!(
        manage_servers_lines(&manage(), Some("alpha")),
        vec![
            "REGISTERED SERVERS",
            "The agent owns these registrations and lifecycle states.",
            "",
            "  ACTIVE  Alpha  java  /srv/alpha",
            "›         Beta  java  /srv/beta",
            "",
            "[j/k] choose  [enter] detail  [c] create  [i] import  [r] reload  [esc] close",
        ]
    );
    let detail = ManageServersView { surface: Some(ManageSurface::Detail), ..manage() };
    assert_eq!(
        manage_servers_lines(&detail, Some("alpha")),
        vec![
            "Beta  ·  java  ·  SAVED",
            "Server ID: beta",
            "Host path: /srv/beta",
            "Ports: game 25565 · bedrock —",
            "Services: Playit ON · Xbox Broadcast unknown",
            "EULA: accept through the agent · Delete: removes managed server data",
            "",
            "[e] editor  [a] set active  [n] rename  [u] accept EULA  [d] delete  [esc] list",
        ]
    );
    let create = ManageServersView {
        surface: Some(ManageSurface::Create),
        input: Some(("Server name".into(), "Ne".into())),
        ..manage()
    };
    assert_eq!(
        manage_servers_lines(&create, None),
        vec![
            "CREATE SERVER · STAGED CHOICES",
            "Name: (not set)  Type: java  Flavor: paper  Port: 25570  World: default  EULA: yes",
            "Choices are reviewed before the create request is sent.",
            "[enter] create server  [esc] cancel",
            "Server name: Ne_",
        ]
    );
    let import = ManageServersView {
        surface: Some(ManageSurface::Import),
        status: Some("Imported.".into()),
        ..manage()
    };
    assert_eq!(
        manage_servers_lines(&import, None),
        vec![
            "IMPORT SERVER · STAGED CHOICES",
            "Source: /old/server  Type: bedrock  Name: detected  World: detected  EULA: no",
            "The source path is interpreted by the agent host.",
            "Status: Imported.",
        ]
    );
    let closed = ManageServersView { surface: None, servers: vec![], ..manage() };
    assert!(manage_servers_lines(&closed, None).is_empty());
}

