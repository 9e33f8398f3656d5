use msc_agent::backups::{BackupConfig, BackupItem};
use msc_agent::files::{FileItem, ServerFilesResponse};
use msc_agent::health::{HealthCard, HealthResponse};
use msc_agent::tui::screens::{
    AccessSurface, AccessView, BackupsView, ConnectionPrompt, ConnectionSurface, Connectivity,
    ConnectionsView, CredentialIdentity, FilePreview, FilesView, HealthView, NamedUser,
    ProblemSummary, ProblemsView, access_lines, backups_lines, connections_lines, files_lines,
    health_lines,
};

fn item(id: &str, dir: bool, preview: bool, size: Option<u64>) -> FileItem {
    FileItem {
        id: id.into(),
        name: id.rsplit('/').next().unwrap().into(),
        path: id.into(),
        is_directory: dir,
        size_bytes: size,
        modified_at: None,
        file_extension: None,
        is_previewable: preview,
    }
}

fn files_view() -> FilesView {
    FilesView {
        error: None,
        loaded: true,
        detail_open: false,
        preview: None,
        response: Some(ServerFilesResponse {
            server_name: None,
            path: "world".into(),
            parent_path: Some(String::new()),
            note: Some("read only".into()),
            items: vec![
                item("world/level.dat", false, false, Some(900)),
                item("world/region", true, false, None),
                item("world/notes.txt", false, true, None),
            ],
        }),
        selected: 2,
        status: None,
    }
}

#[test]
fn file_listing_lines() {
    let sizes = vec!["900 B".to_string(), String::new(), String::new()];
    assert_eq!(
        files_lines(&files_view(), "Alpha", "", &sizes),
        vec![
            "Server: Alpha",
            "Path: Server Root / world · parent Server Root",
            "Agent note: read only",
            "",
            "Folders",
            "  DIR     region",
            "",
            "Files",
            "  FILE    level.dat · 900 B",
            "› PREVIEW notes.txt · size unknown",
            "",
            "[j/k] choose  [enter] open/preview  [b/esc] parent  [y] report path  [r] reload",
        ]
    );
    let empty = FilesView {
        response: Some(ServerFilesResponse {
            server_name: Some("Beta".into()),
            path: String::new(),
            parent_path: None,
            note: None,
            items: vec![],
        }),
        status: Some("Copied.".into()),
        ..files_view()
    };
    assert_eq!(
        files_lines(&empty, "Alpha", "", &vec![]),
        vec![
            "Server: Beta",
            "Path: Server Root",
            "",
            "This folder is empty.",
            "",
            "[j/k] choose  [enter] open/preview  [b/esc] parent  [y] report path  [r] reload",
            "Status: Copied.",
        ]
    );
    let loading = FilesView { loaded: false, ..files_view() };
    assert_eq!(files_lines(&loading, "", "", &sizes), vec!["Loading the selected server's files…"]);
}

#[test]
fn file_preview_lines() {
    let view = FilesView {
        detail_open: true,
        preview: Some(FilePreview {
            name: Some("server.properties".into()),
            path: Some("server.properties".into()),
            size_bytes: Some(1200),
            encoding: Some("utf-8".into()),
            truncated: Some(true),
            content: Some("motd=Hi\r\npvp=true\n".into()),
        }),
        ..files_view()
    };
    assert_eq!(
        files_lines(&view, "", "1.2 KiB", &vec![String::new(); 3]),
        vec![
            "Server: server.properties",
            "Path: Server Root / server.properties",
            "Size: 1.2 KiB · Encoding: utf-8 · preview truncated at the agent limit",
            "",
            "motd=Hi",
            "pvp=true",
            "",
            "[esc/b] file list  [y] report path",
        ]
    );
    let none = FilesView { detail_open: true, preview: None, ..files_view() };
    assert_eq!(files_lines(&none, "", "", &vec![String::new(); 3]), vec!["No file preview is selected."]);
}

fn connectivity() -> Connectivity {
    Connectivity {
        headline: "Reachable".into(),
        server_type: "java".into(),
        severity: "green".into(),
        join_address: Some("play.example.net:25565".into()),
        externally_reachable: None,
        join_address_source: "DuckDNS Public".into(),
        method: "port-forward".into(),
        local_outcome: "open".into(),
        public_outcome: "open".into(),
        detail: None,
        help_id: Some("connect.help".into()),
    }
}

fn connections() -> ConnectionsView {
    ConnectionsView {
        error: None,
        surface: ConnectionSurface::Connection,
        connectivity: Some(connectivity()),
        duckdns_hostname: None,
        playit_running: Some(true),
        broadcast_running: None,
        broadcast_autostart: Some(false),
        broadcast_has_password: Some(true),
        input: None,
        status: None,
    }
}

#[test]
fn connection_lines() {
    assert_eq!(
        connections_lines(&connections()),
        vec![
            "CONNECTIONS · DIAGNOSTICS AND SERVICES",
            "[1] connection  [2] services  [r] reload",
            "Reachable · java · green",
            "Visibility: PUBLIC",
            "Join: play.example.net:25565 · method: port-forward",
            "Local port: open · Public port: open",
            "Help: connect.help",
            "DuckDNS: not configured  [d] edit",
            "Java and Bedrock join addresses retain their agent labels.",
        ]
    );
    let mut c = connectivity();
    c.join_address_source = "lan".into();
    let local = ConnectionsView { connectivity: Some(c.clone()), ..connections() };
    assert_eq!(connections_lines(&local)[3], "Visibility: LOCAL");
    c.join_address = None;
    let hidden = ConnectionsView { connectivity: Some(c), ..connections() };
    assert_eq!(connections_lines(&hidden)[3], "Visibility: HIDDEN");
    assert_eq!(connections_lines(&hidden)[4], "Join: not advertised · method: port-forward");
    let services = ConnectionsView {
        surface: ConnectionSurface::Services,
        input: Some(ConnectionPrompt { label: "Password".into(), value: "abc".into(), masked: true }),
        ..connections()
    };
    assert_eq!(
        connections_lines(&services),
        vec![
            "CONNECTIONS · DIAGNOSTICS AND SERVICES",
            "[1] connection  [2] services  [r] reload",
            "Playit: RUNNING  [p] start/stop",
            "Xbox Broadcast: unavailable  [x] start/stop",
            "Broadcast autostart: OFF  [a] toggle",
            "Broadcast credentials: stored  [e] replace (write-only password)",
            "Management services are separate from literal Minecraft console commands.",
            "Password: •••_",
        ]
    );
    let failed = ConnectionsView { error: Some("offline".into()), status: Some("x".into()), ..connections() };
    assert_eq!(connections_lines(&failed).len(), 3);
    assert_eq!(connections_lines(&failed)[2], "Connections unavailable: offline");
}

fn card(title: &str, severity: &str, detail: Option<&str>) -> HealthCard {
    HealthCard {
        id: title.to_lowercase(),
        title: title.into(),
        short_label: title.into(),
        severity: severity.into(),
        detail: detail.map(|d| d.to_string()),
        icon_system_name: "i".into(),
        action_label: None,
        action_code: None,
        help_id: None,
    }
}

fn problem(title: &str) -> ProblemSummary {
    ProblemSummary {
        kind_title: title.into(),
        offender_name: "badmod".into(),
        raw_excerpt: "Exception in badmod".into(),
        available_actions: vec!["disable".into(), "remove".into()],
    }
}

#[test]
fn health_view_lines() {
    let view = HealthView {
        error: None,
        health: Some(HealthResponse {
            server_type: "java".into(),
            server_name: "Alpha".into(),
            server_running: false,
            overall_severity: "yellow".into(),
            cards: vec![card("Java", "green", None), card("RAM", "yellow", Some("Low memory."))],
            note: None,
        }),
        problems: Some(ProblemsView { problems: vec![problem("Crash"), problem("Missing dependency")], note: None }),
        detail_open: false,
        selected_problem: 1,
    };
    assert_eq!(
        health_lines(&view),
        vec![
            "HEALTH · DIAGNOSIS AND REPAIR",
            "Overall: yellow · Alpha · stopped",
            "Java: green",
            "RAM: yellow",
            "  Low memory.",
            "",
            "Startup problems: 2",
            "  Crash · badmod",
            "› Missing dependency · badmod",
            "[j/k] choose  [enter] details  [r] reload",
        ]
    );
    let detail = HealthView { detail_open: true, health: None, ..view.clone() };
    assert_eq!(
        health_lines(&detail),
        vec![
            "HEALTH · DIAGNOSIS AND REPAIR",
            "",
            "Startup problems: 2",
            "› Missing dependency · badmod",
            "Exception in badmod",
            "[1] repair: disable",
            "[2] repair: remove",
            "[esc] back",
        ]
    );
    let clean = HealthView {
        error: Some("down".into()),
        problems: Some(ProblemsView { problems: vec![], note: None }),
        ..view
    };
    assert_eq!(
        health_lines(&clean),
        vec![
            "HEALTH · DIAGNOSIS AND REPAIR",
            "Health unavailable: down",
            "",
            "Startup problems: 0",
            "No repair needed.",
        ]
    );
}

fn access() -> AccessView {
    AccessView {
        error: None,
        surface: AccessSurface::Allowlist,
        allowlist: vec!["Steve".into(), "Alex".into()],
        users: vec![
            NamedUser { label: "ops".into(), role: "admin".into(), is_expired: false, expires_at_iso8601: None },
            NamedUser {
                label: "guest".into(),
                role: "viewer".into(),
                is_expired: true,
                expires_at_iso8601: Some("2024-01-01T00:00:00Z".into()),
            },
        ],
        identity: Some(CredentialIdentity {
            name: "desktop".into(),
            role: "admin".into(),
            is_named_token: false,
            permissions: vec!["servers".into(), "worlds".into()],
        }),
        selected: 0,
        input: Some("Notch".into()),
        status: None,
    }
}

#[test]
fn access_view_lines() {
    assert_eq!(
        access_lines(&access()),
        vec![
            "ACCESS · PLAYER ALLOWLIST AND NAMED TOKENS",
            "[1] allowlist  [2] named users  [3] this credential  [r] reload",
            "Bedrock player access · [a] add  [x] remove",
            "› Steve",
            "  Alex",
            "Add Bedrock player: Notch_",
        ]
    );
    let users = AccessView { surface: AccessSurface::Users, selected: 1, input: None, ..access() };
    assert_eq!(access_lines(&users)[3], "  ops · admin · active");
    assert_eq!(access_lines(&users)[4], "› guest · viewer · EXPIRED · expires 2024-01-01T00:00:00Z");
    let me = AccessView { surface: AccessSurface::Me, input: None, ..access() };
    assert_eq!(
        access_lines(&me)[2..].to_vec(),
        vec!["Credential: desktop · role: admin", "Named token: false", "Permissions: servers, worlds"]
    );
    let empty = AccessView { allowlist: vec![], input: None, ..access() };
    assert_eq!(access_lines(&empty)[3], "No allowlist entries returned.");
}

#[test]
fn backups_view_lines() {
    let backup = |name: &str, auto: bool, size: Option<i64>| BackupItem {
        id: name.into(),
        display_name: name.into(),
        file_size: size,
        modification_date: None,
        is_automatic: auto,
        slot_id: None,
        slot_name: None,
        trigger_reason: "scheduled".into(),
    };
    let view = BackupsView {
        error: None,
        loaded: true,
        visible: vec![backup("b1.zip", true, Some(512)), backup("b2.zip", false, None)],
        selected_backup: 0,
        config: Some(BackupConfig {
            server_name: "Alpha".into(),
            auto_backup_enabled: true,
            auto_backup_interval_minutes: 60,
            auto_backup_max_count: 5,
            interval_options: vec![],
            note: None,
        }),
        input: None,
        status: Some("Done.".into()),
    };
    assert_eq!(
        backups_lines(&view, &vec!["512 B".into(), String::new()]),
        vec![
            "BACKUP CONTEXT FOR SELECTED WORLD",
            "2 backups",
            "Verification: per-backup verification is not exposed; the agent enforces restore/delete safety.",
            "",
            "› b1.zip  AUTO  scheduled  512 B",
            "  b2.zip  MANUAL  scheduled  size unknown",
            "",
            "SCHEDULE  ON · every 60 min · retain 5",
            "[m] backup now  [r] restore  [d] delete  [c] edit schedule  [R] reload  [b] back",
            "Status: Done.",
        ]
    );
    let empty = BackupsView { visible: vec![], config: None, status: None, input: Some("true;30".into()), ..view };
    let lines = backups_lines(&empty, &vec![]);
    assert_eq!(lines[4], "No backups are available for this server.");
    assert_eq!(lines[6], "SCHEDULE  unavailable");
    assert_eq!(lines[8], "Schedule enabled,true/false; interval minutes; retention count: true;30_");
}
