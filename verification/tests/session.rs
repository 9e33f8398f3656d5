use msc_agent::error::CliError;
use msc_agent::tui::server_editor::ServerSummary;
use msc_agent::tui::session::{resolve_server, server_selector};

fn server(id: &str, name: &str) -> ServerSummary {
    ServerSummary {
        id: id.into(),
        name: name.into(),
        server_type: "java".into(),
        directory: String::new(),
        game_port: None,
        bedrock_port: None,
        playit_enabled: None,
        xbox_broadcast_enabled: None,
    }
}

fn usage(text: &str) -> CliError {
    CliError::Usage { message: text.into() }
}

#[test]
fn selectors_are_trimmed_and_must_not_be_blank() {
    assert_eq!(server_selector(Some("  alpha ")), Ok("alpha".to_string()));
    assert_eq!(server_selector(Some("   ")), Err(usage("server selector cannot be empty")));
    assert_eq!(server_selector(None), Err(usage("server selector cannot be empty")));
}

#[test]
fn selectors_resolve_by_id_then_name_then_folded_name() {
    let servers = vec![
        server("srv-1", "Survival"),
        server("srv-2", "Creative"),
        server("Creative", "Other"),
        server("srv-4", "Lobby"),
        server("srv-5", "lobby"),
        server("srv-6", "Hub"),
        server("srv-7", "HUB"),
    ];
    assert_eq!(resolve_server(&servers, "srv-2").unwrap().name, "Creative");
    assert_eq!(resolve_server(&servers, "Creative").unwrap().id, "Creative");
    assert_eq!(resolve_server(&servers, "Survival").unwrap().id, "srv-1");
    assert_eq!(resolve_server(&servers, "survival").unwrap().id, "srv-1");
    assert_eq!(resolve_server(&servers, "Lobby").unwrap().id, "srv-4");
    assert_eq!(
        resolve_server(&servers, "LOBBY"),
        Err(usage("multiple servers match \"LOBBY\"; use the server id instead"))
    );
    assert_eq!(resolve_server(&servers, "hub"), Err(usage("multiple servers match \"hub\"; use the server id instead")));
    assert_eq!(resolve_server(&servers, "nether"), Err(usage("no imported server matched \"nether\"")));
    let twins = vec![server("a", "Twin"), server("b", "Twin")];
    assert_eq!(
        resolve_server(&twins, "Twin"),
        Err(usage("multiple servers are named \"Twin\"; use the server id instead"))
    );
    assert_eq!(resolve_server(&vec![], "x"), Err(usage("the agent reports no imported servers")));
}
