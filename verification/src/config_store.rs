//! The agent's application config, held in memory. Every change is built
//! as a candidate config, saved to disk by the caller, and only then taken
//! over: a change whose save failed, or that its own checks refused, leaves
//! the config as it was.

use vstd::prelude::*;
use crate::lifecycle::{AgentAppConfigError, TryMutateError, java_server_port, properties_game_port};
use crate::text::{chars_eq, chars_of, concat_str};

verus! {

/// The edition a registered server runs.
#[derive(Debug, Clone, Copy, PartialEq, Eq, Structural)]
pub enum ServerKind {
    Java,
    Bedrock,
}

/// A registered server, as far as the store's changes read it.
#[derive(Debug, Clone, PartialEq, Eq)]
pub struct ConfigServer {
    pub id: String,
    pub server_type: ServerKind,
    pub server_dir: String,
    pub bedrock_port: Option<i64>,
    pub auto_backup_enabled: bool,
    pub auto_backup_interval_minutes: i64,
    pub auto_backup_max_count: i64,
}

/// The application config.
#[derive(Debug, Clone, PartialEq, Eq)]
pub struct AppConfig {
    pub servers: Vec<ConfigServer>,
    pub active_server_id: Option<String>,
    pub duckdns_hostname: Option<String>,
    pub servers_root: String,
}

/// The in-memory application config.
pub struct AgentAppConfigStore {
    config: AppConfig,
}

/// A copy of a registered server.
pub fn copy_server(s: &ConfigServer) -> (res: ConfigServer)
    ensures
        res == *s,
{
    ConfigServer {
        id: s.id.clone(),
        server_type: s.server_type,
        server_dir: s.server_dir.clone(),
        bedrock_port: s.bedrock_port,
        auto_backup_enabled: s.auto_backup_enabled,
        auto_backup_interval_minutes: s.auto_backup_interval_minutes,
        auto_backup_max_count: s.auto_backup_max_count,
    }
}

impl AgentAppConfigStore {
    /// The config held now.
    pub closed spec fn current(&self) -> AppConfig {
        self.config
    }

    /// The store holding a config read from disk.
    pub fn load(config: AppConfig) -> (res: Self)
        ensures
            res.current() == config,
    {
        AgentAppConfigStore { config }
    }

    /// The config held now.
    pub fn snapshot(&self) -> (res: &AppConfig)
        ensures
            *res == self.current(),
    {
        &self.config
    }

    /// The active server's id.
    pub fn active_server_id(&self) -> (res: Option<&str>)
        ensures
            match res {
                Some(id) => self.current().active_server_id matches Some(a) && a@ == id@,
                None => self.current().active_server_id is None,
            },
    {
        match &self.config.active_server_id {
            Some(id) => Some(id.as_str()),
            None => None,
        }
    }

    /// Takes over a candidate config once saving it succeeded; a failed
    /// save leaves the config as it was and is reported with its message.
    pub fn commit(&mut self, candidate: AppConfig, saved: Result<(), String>) -> (res: Result<
        (),
        AgentAppConfigError,
    >)
        ensures
            match saved {
                Ok(()) => res is Ok && final(self).current() == candidate,
                Err(m) => res == Err::<(), AgentAppConfigError>(AgentAppConfigError::Save(m))
                    && final(self).current() == old(self).current(),
            },
    {
        match saved {
            Ok(()) => {
                self.config = candidate;
                Ok(())
            },
            Err(m) => Err(AgentAppConfigError::Save(m)),
        }
    }

    /// Takes over the candidate of a change that its own checks may refuse:
    /// a refused change leaves the config as it was (nothing is saved); an
    /// accepted one is taken over once saving it succeeded.
    pub fn try_commit<T, E>(&mut self, outcome: Result<(AppConfig, T), E>, saved: Result<(), String>) -> (res:
        Result<T, TryMutateError<E>>)
        ensures
            match outcome {
                Err(e) => res == Err::<T, TryMutateError<E>>(TryMutateError::Domain(e))
                    && final(self).current() == old(self).current(),
                Ok((candidate, value)) => match saved {
                    Ok(()) => res == Ok::<T, TryMutateError<E>>(value) && final(self).current()
                        == candidate,
                    Err(m) => res == Err::<T, TryMutateError<E>>(
                        TryMutateError::Save(AgentAppConfigError::Save(m)),
                    ) && final(self).current() == old(self).current(),
                },
            },
    {
        match outcome {
            Err(e) => Err(TryMutateError::Domain(e)),
            Ok((candidate, value)) => match saved {
                Ok(()) => {
                    self.config = candidate;
                    Ok(value)
                },
                Err(m) => Err(TryMutateError::Save(AgentAppConfigError::Save(m))),
            },
        }
    }
}

/// The index of the first server with this id.
pub open spec fn server_index(servers: Seq<ConfigServer>, id: Seq<char>, from: int) -> Option<int>
    decreases servers.len() - from,
{
    if from < 0 || from >= servers.len() {
        None
    } else if servers[from].id@ == id {
        Some(from)
    } else {
        server_index(servers, id, from + 1)
    }
}

proof fn lemma_server_index_bounds(servers: Seq<ConfigServer>, id: Seq<char>, from: int)
    ensures
        server_index(servers, id, from) matches Some(i) ==> from <= i < servers.len()
            && servers[i].id@ == id,
    decreases servers.len() - from,
{
    if !(from < 0 || from >= servers.len()) && servers[from].id@ != id {
        lemma_server_index_bounds(servers, id, from + 1);
    }
}

fn find_server(servers: &Vec<ConfigServer>, id: &str) -> (res: Option<usize>)
    ensures
        match res {
            Some(i) => server_index(servers@, id@, 0) == Some(i as int),
            None => server_index(servers@, id@, 0) is None,
        },
{
    let target = chars_of(id);
    let mut i: usize = 0;
    while i < servers.len()
        invariant
            i <= servers.len(),
            target@ == id@,
            server_index(servers@, id@, 0) == server_index(servers@, id@, i as int),
        decreases servers.len() - i,
    {
        if chars_eq(chars_of(servers[i].id.as_str()).as_slice(), target.as_slice()) {
            return Some(i);
        }
        i += 1;
    }
    None
}

/// The server with its schedule options applied: each one given replaces
/// the stored value.
pub open spec fn with_schedule(s: ConfigServer, enabled: Option<bool>, interval: Option<i64>, max_count: Option<i64>) -> ConfigServer {
    ConfigServer {
        auto_backup_enabled: match enabled {
            Some(e) => e,
            None => s.auto_backup_enabled,
        },
        auto_backup_interval_minutes: match interval {
            Some(v) => v,
            None => s.auto_backup_interval_minutes,
        },
        auto_backup_max_count: match max_count {
            Some(v) => v,
            None => s.auto_backup_max_count,
        },
        ..s
    }
}

/// The candidate config of a backup-schedule change for `server_id`: the
/// first server with that id gets the given options, and is given back;
/// where there is none, the config stays as it is and nothing is given
/// back.
pub fn backup_config_change(
    config: AppConfig,
    server_id: &str,
    enabled: Option<bool>,
    interval_minutes: Option<i64>,
    max_count: Option<i64>,
) -> (res: (AppConfig, Option<ConfigServer>))
    ensures
        match server_index(config.servers@, server_id@, 0) {
            Some(i) => {
                let updated = with_schedule(config.servers@[i], enabled, interval_minutes, max_count);
                res.0 == (AppConfig { servers: res.0.servers, ..config }) && res.0.servers@
                    == config.servers@.update(i, updated) && res.1 == Some(updated)
            },
            None => res.0 == config && res.1 is None,
        },
{
    let mut config = config;
    match find_server(&config.servers, server_id) {
        Some(i) => {
            proof {
                lemma_server_index_bounds(config.servers@, server_id@, 0);
            }
            let mut s = copy_server(&config.servers[i]);
            if let Some(e) = enabled {
                s.auto_backup_enabled = e;
            }
            if let Some(v) = interval_minutes {
                s.auto_backup_interval_minutes = v;
            }
            if let Some(v) = max_count {
                s.auto_backup_max_count = v;
            }
            let back = copy_server(&s);
            config.servers.set(i, s);
            (config, Some(back))
        },
        None => (config, None),
    }
}

/// What a backup-schedule change answers once the candidate was offered
/// for saving: the save's failure, else the changed server, else that no
/// server has the id.
pub fn backup_config_result(
    server_id: &str,
    updated: Option<ConfigServer>,
    committed: Result<(), AgentAppConfigError>,
) -> (res: Result<ConfigServer, AgentAppConfigError>)
    ensures
        match committed {
            Err(e) => res == Err::<ConfigServer, AgentAppConfigError>(e),
            Ok(()) => match updated {
                Some(s) => res == Ok::<ConfigServer, AgentAppConfigError>(s),
                None => res matches Err(AgentAppConfigError::Save(m)) && m@ == "no server named '"@
                    + server_id@ + "'"@,
            },
        },
{
    match committed {
        Err(e) => Err(e),
        Ok(()) => match updated {
            Some(s) => Ok(s),
            None => Err(
                AgentAppConfigError::Save(
                    concat_str(concat_str(concat_str(String::new(), "no server named '"), server_id), "'"),
                ),
            ),
        },
    }
}

/// The candidate config with `server` stored: it replaces the first server
/// with its id, or is added at the end.
pub fn with_server_upserted(config: AppConfig, server: ConfigServer) -> (res: AppConfig)
    ensures
        res == (AppConfig { servers: res.servers, ..config }),
        match server_index(config.servers@, server.id@, 0) {
            Some(i) => res.servers@ == config.servers@.update(i, server),
            None => res.servers@ == config.servers@.push(server),
        },
{
    let mut config = config;
    match find_server(&config.servers, server.id.as_str()) {
        Some(i) => {
            proof {
                lemma_server_index_bounds(config.servers@, server.id@, 0);
            }
            config.servers.set(i, server);
        },
        None => {
            config.servers.push(server);
        },
    }
    config
}

/// The candidate config with `new_servers` added after the stored ones.
pub fn with_servers_merged(config: AppConfig, new_servers: Vec<ConfigServer>) -> (res: AppConfig)
    ensures
        res == (AppConfig { servers: res.servers, ..config }),
        res.servers@ == config.servers@ + new_servers@,
{
    let mut config = config;
    let mut added = new_servers;
    config.servers.append(&mut added);
    config
}

/// The index of the first Java server.
pub open spec fn first_java(servers: Seq<ConfigServer>, from: int) -> Option<int>
    decreases servers.len() - from,
{
    if from < 0 || from >= servers.len() {
        None
    } else if servers[from].server_type == ServerKind::Java {
        Some(from)
    } else {
        first_java(servers, from + 1)
    }
}

fn first_java_exec(servers: &Vec<ConfigServer>) -> (res: Option<usize>)
    ensures
        match res {
            Some(i) => first_java(servers@, 0) == Some(i as int) && i < servers@.len(),
            None => first_java(servers@, 0) is None,
        },
{
    let mut i: usize = 0;
    while i < servers.len()
        invariant
            i <= servers.len(),
            first_java(servers@, 0) == first_java(servers@, i as int),
        decreases servers.len() - i,
    {
        if servers[i].server_type == ServerKind::Java {
            return Some(i);
        }
        i += 1;
    }
    None
}

/// The candidate config holding exactly `new_servers`, with the first Java
/// server among them active (none where there is none).
pub fn with_servers_replaced(config: AppConfig, new_servers: Vec<ConfigServer>) -> (res: AppConfig)
    ensures
        res.servers@ == new_servers@,
        match first_java(new_servers@, 0) {
            Some(i) => res.active_server_id == Some(new_servers@[i].id),
            None => res.active_server_id is None,
        },
        res.duckdns_hostname == config.duckdns_hostname,
        res.servers_root == config.servers_root,
{
    let active = match first_java_exec(&new_servers) {
        Some(i) => Some(new_servers[i].id.clone()),
        None => None,
    };
    AppConfig {
        servers: new_servers,
        active_server_id: active,
        duckdns_hostname: config.duckdns_hostname,
        servers_root: config.servers_root,
    }
}

/// The candidate config with `server_id` as the active server.
pub fn with_active_server_id(config: AppConfig, server_id: Option<String>) -> (res: AppConfig)
    ensures
        res == (AppConfig { active_server_id: server_id, ..config }),
{
    AppConfig { active_server_id: server_id, ..config }
}

/// The candidate config with `hostname` as the DuckDNS host name.
pub fn with_duckdns_hostname(config: AppConfig, hostname: Option<String>) -> (res: AppConfig)
    ensures
        res == (AppConfig { duckdns_hostname: hostname, ..config }),
{
    AppConfig { duckdns_hostname: hostname, ..config }
}

/// The configured ports of the Bedrock servers among the first `n`.
pub open spec fn bedrock_ports(servers: Seq<ConfigServer>, n: int) -> Seq<i64>
    decreases n,
{
    if n <= 0 {
        Seq::empty()
    } else {
        bedrock_ports(servers, n - 1) + if servers[n - 1].server_type == ServerKind::Bedrock
            && servers[n - 1].bedrock_port is Some {
            seq![servers[n - 1].bedrock_port.unwrap()]
        } else {
            Seq::empty()
        }
    }
}

/// The ports that the registered Bedrock servers are configured with, in
/// order.
pub fn existing_bedrock_ports(config: &AppConfig) -> (res: Vec<i64>)
    ensures
        res@ == bedrock_ports(config.servers@, config.servers@.len() as int),
{
    let mut out: Vec<i64> = Vec::new();
    let mut i: usize = 0;
    while i < config.servers.len()
        invariant
            i <= config.servers.len(),
            out@ == bedrock_ports(config.servers@, i as int),
        decreases config.servers.len() - i,
    {
        let s = &config.servers[i];
        match (s.server_type, s.bedrock_port) {
            (ServerKind::Bedrock, Some(p)) => {
                out.push(p);
            },
            _ => {},
        }
        assert(out@ =~= bedrock_ports(config.servers@, i + 1));
        i += 1;
    }
    out
}

/// The game ports of the Java servers among the first `n`, read from the
/// `server.properties` contents given for each server (`None` where there
/// is no such file).
pub open spec fn java_ports(servers: Seq<ConfigServer>, properties: Seq<Option<Seq<char>>>, n: int) -> Seq<i64>
    decreases n,
{
    if n <= 0 {
        Seq::empty()
    } else {
        java_ports(servers, properties, n - 1) + if servers[n - 1].server_type == ServerKind::Java
            && properties_game_port(properties[n - 1]) is Some {
            seq![properties_game_port(properties[n - 1]).unwrap() as i64]
        } else {
            Seq::empty()
        }
    }
}

/// The views of optional texts.
pub open spec fn optional_texts(v: Seq<Option<String>>) -> Seq<Option<Seq<char>>> {
    Seq::new(
        v.len(),
        |i: int|
            match v[i] {
                Some(s) => Some(s@),
                None => None,
            },
    )
}

/// The game ports of the registered Java servers, in order; `properties`
/// holds each server's `server.properties` contents.
pub fn existing_java_ports(config: &AppConfig, properties: &Vec<Option<String>>) -> (res: Vec<i64>)
    requires
        properties@.len() == config.servers@.len(),
    ensures
        res@ == java_ports(config.servers@, optional_texts(properties@), config.servers@.len() as int),
{
    let mut out: Vec<i64> = Vec::new();
    let mut i: usize = 0;
    while i < config.servers.len()
        invariant
            i <= config.servers.len(),
            properties@.len() == config.servers@.len(),
            out@ == java_ports(config.servers@, optional_texts(properties@), i as int),
        decreases config.servers.len() - i,
    {
        let contents = match &properties[i] {
            Some(p) => Some(p.as_str()),
            None => None,
        };
        assert(optional_texts(properties@)[i as int] == match contents {
            Some(p) => Some(p@),
            None => None::<Seq<char>>,
        });
        let is_java = match config.servers[i].server_type {
            ServerKind::Java => true,
            ServerKind::Bedrock => false,
        };
        if is_java {
            match java_server_port(contents) {
                Some(p) => {
                    out.push(p);
                },
                None => {},
            }
        }
        assert(out@ =~= java_ports(config.servers@, optional_texts(properties@), i + 1));
        i += 1;
    }
    out
}

} // verus!
