use msc_agent::config_store::{
    AgentAppConfigStore, AppConfig, ConfigServer, ServerKind, backup_config_change,
    backup_config_result, existing_bedrock_ports, existing_java_ports, with_active_server_id,
    with_duckdns_hostname, with_server_upserted, with_servers_merged, with_servers_replaced,
};
use msc_agent::lifecycle::{AgentAppConfigError, TryMutateError};

fn server(id: &str, kind: ServerKind, port: Option<i64>) -> ConfigServer {
    ConfigServer {
        id: id.into(),
        server_type: kind,
        server_dir: format!("/srv/{id}"),
        bedrock_port: port,
        auto_backup_enabled: false,
        auto_backup_interval_minutes: 60,
        auto_backup_max_count: 10,
    }
}

fn config() -> AppConfig {
    AppConfig {
        servers: vec![
            server("bed", ServerKind::Bedrock, Some(19132)),
            server("java", ServerKind::Java, Some(19133)),
        ],
        active_server_id: Some("java".into()),
        duckdns_hostname: None,
        servers_root: "/srv".into(),
    }
}

#[test]
fn a_change_is_kept_only_once_it_was_saved() {
    let mut store = AgentAppConfigStore::load(config());
    let candidate = with_active_server_id(store.snapshot().clone(), Some("bed".into()));
    assert_eq!(
        store.commit(candidate.clone(), Err("disk full".into())),
        Err(AgentAppConfigError::Save("disk full".into()))
    );
    assert_eq!(store.active_server_id(), Some("java"));
    assert_eq!(store.commit(candidate, Ok(())), Ok(()));
    assert_eq!(store.active_server_id(), Some("bed"));

    let refused: Result<(AppConfig, u8), &str> = Err("server not found");
    assert_eq!(store.try_commit(refused, Ok(())), Err(TryMutateError::Domain("server not found")));
    assert_eq!(store.snapshot().active_server_id.as_deref(), Some("bed"));
    let accepted = Ok((with_duckdns_hostname(config(), Some("mc.duckdns.org".into())), 7u8));
    assert_eq!(
        store.try_commit(accepted.clone(), Err("read-only".into())),
        Err(TryMutateError::Save(AgentAppConfigError::Save("read-only".into())))
    );
    assert_eq!(store.snapshot().duckdns_hostname, None);
    assert_eq!(store.try_commit::<u8, &str>(accepted, Ok(())), Ok(7));
    assert_eq!(store.snapshot().duckdns_hostname.as_deref(), Some("mc.duckdns.org"));
}

#[test]
fn backup_schedule_changes() {
    let (changed, updated) = backup_config_change(config(), "java", Some(true), None, Some(3));
    let updated = updated.unwrap();
    assert!(updated.auto_backup_enabled);
    assert_eq!(updated.auto_backup_interval_minutes, 60);
    assert_eq!(updated.auto_backup_max_count, 3);
    assert_eq!(changed.servers[1], updated);
    assert_eq!(changed.servers[0], config().servers[0]);
    assert_eq!(backup_config_result("java", Some(updated.clone()), Ok(())), Ok(updated.clone()));
    assert_eq!(
        backup_config_result("java", Some(updated), Err(AgentAppConfigError::Save("x".into()))),
        Err(AgentAppConfigError::Save("x".into()))
    );
    let (same, none) = backup_config_change(config(), "ghost", Some(true), None, None);
    assert_eq!(same, config());
    assert_eq!(
        backup_config_result("ghost", none, Ok(())),
        Err(AgentAppConfigError::Save("no server named 'ghost'".into()))
    );
}

#[test]
fn server_list_changes() {
    let mut replacement = server("java", ServerKind::Java, None);
    replacement.server_dir = "/elsewhere".into();
    let upserted = with_server_upserted(config(), replacement.clone());
    assert_eq!(upserted.servers.len(), 2);
    assert_eq!(upserted.servers[1], replacement);
    let added = with_server_upserted(config(), server("new", ServerKind::Java, None));
    assert_eq!(added.servers.len(), 3);
    assert_eq!(added.servers[2].id, "new");
    let merged = with_servers_merged(config(), vec![server("a", ServerKind::Java, None)]);
    assert_eq!(merged.servers.iter().map(|s| s.id.as_str()).collect::<Vec<_>>(), vec!["bed", "java", "a"]);
    let replaced = with_servers_replaced(
        config(),
        vec![server("b2", ServerKind::Bedrock, None), server("j2", ServerKind::Java, None), server("j3", ServerKind::Java, None)],
    );
    assert_eq!(replaced.active_server_id.as_deref(), Some("j2"));
    assert_eq!(replaced.servers_root, "/srv");
    let only_bedrock = with_servers_replaced(config(), vec![server("b2", ServerKind::Bedrock, None)]);
    assert_eq!(only_bedrock.active_server_id, None);
}

#[test]
fn ports_in_use() {
    assert_eq!(existing_bedrock_ports(&config()), vec![19132]);
    let properties = vec![None, Some("motd=x\nserver-port= 25570 \n".to_string())];
    assert_eq!(existing_java_ports(&config(), &properties), vec![25570]);
    assert_eq!(existing_java_ports(&config(), &vec![None, None]), Vec::<i64>::new());
}
