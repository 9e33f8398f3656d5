//! What the agent reports it can do: which server the capability question
//! is about, whether the Java runtime suits the selected version, and the
//! fixed parts of the answer.

use vstd::prelude::*;
use crate::text::{chars_of, concat_str, decimal, decimal_exec, is_literal, string_of, trim, trim_vec};

verus! {

/// The question that `GET /v1/capabilities` answers: a server type,
/// version, flavor and loader to ask about, and a Java executable to probe.
#[derive(Debug, Clone, PartialEq, Eq)]
pub struct CapabilitiesQuery {
    pub server_type: Option<String>,
    pub minecraft_version: Option<String>,
    pub java_flavor: Option<String>,
    pub loader_version: Option<String>,
    pub java_runtime_path: Option<String>,
}

/// The two kinds of server.
#[derive(Debug, Clone, Copy, PartialEq, Eq)]
pub enum ServerType {
    Java,
    Bedrock,
}

/// The server type that a type word names.
pub open spec fn server_type_of(raw: Seq<char>) -> Option<ServerType> {
    if raw == "java"@ {
        Some(ServerType::Java)
    } else if raw == "bedrock"@ {
        Some(ServerType::Bedrock)
    } else {
        None
    }
}

/// The server type that a type word names.
pub fn server_type_from_raw(raw: &str) -> (res: Option<ServerType>)
    ensures
        res == server_type_of(raw@),
{
    let r = chars_of(raw);
    if is_literal(r.as_slice(), "java") {
        Some(ServerType::Java)
    } else if is_literal(r.as_slice(), "bedrock") {
        Some(ServerType::Bedrock)
    } else {
        None
    }
}

/// The active server, as far as the capability question reads it.
#[derive(Debug, Clone, PartialEq, Eq)]
pub struct ActiveServer {
    pub server_type: ServerType,
    pub minecraft_version: Option<String>,
    pub loader_version: Option<String>,
    pub playit_enabled: bool,
}

/// What a capability question is about once the active server filled in
/// what the question left open.
#[derive(Debug, Clone, PartialEq, Eq)]
pub struct CapabilitySelection {
    pub server_type: Option<ServerType>,
    pub minecraft_version: Option<String>,
    pub loader_version: Option<String>,
    pub java_runtime_path: String,
}

/// An answer of the question where it is not blank.
pub open spec fn given(s: Option<String>) -> Option<Seq<char>> {
    match s {
        Some(v) => if trim(v@).len() > 0 {
            Some(v@)
        } else {
            None
        },
        None => None,
    }
}

/// The view of an optional string.
pub open spec fn opt_text(s: Option<String>) -> Option<Seq<char>> {
    match s {
        Some(v) => Some(v@),
        None => None,
    }
}

fn nonblank(s: &Option<String>) -> (res: Option<String>)
    ensures
        opt_text(res) == given(*s),
{
    match s {
        Some(v) => if trim_vec(chars_of(v.as_str()).as_slice()).len() > 0 {
            Some(v.clone())
        } else {
            None
        },
        None => None,
    }
}

/// What a capability question is about: each part the question gives (a
/// known server type, a version, loader or Java path that is not blank)
/// wins; the active server fills in the rest, the configured Java path the
/// executable.
pub fn select_capabilities(
    query: &CapabilitiesQuery,
    active: Option<&ActiveServer>,
    configured_java_path: &str,
) -> (res: CapabilitySelection)
    ensures
        res.server_type == match query.server_type {
            Some(t) if server_type_of(t@) is Some => server_type_of(t@),
            _ => match active {
                Some(a) => Some(a.server_type),
                None => None,
            },
        },
        opt_text(res.minecraft_version) == match given(query.minecraft_version) {
            Some(v) => Some(v),
            None => match active {
                Some(a) => opt_text(a.minecraft_version),
                None => None,
            },
        },
        opt_text(res.loader_version) == match given(query.loader_version) {
            Some(v) => Some(v),
            None => match active {
                Some(a) => opt_text(a.loader_version),
                None => None,
            },
        },
        res.java_runtime_path@ == match given(query.java_runtime_path) {
            Some(p) => p,
            None => configured_java_path@,
        },
{
    let from_query = match &query.server_type {
        Some(t) => server_type_from_raw(t.as_str()),
        None => None,
    };
    let server_type = match from_query {
        Some(t) => Some(t),
        None => match active {
            Some(a) => Some(a.server_type),
            None => None,
        },
    };
    let minecraft_version = match nonblank(&query.minecraft_version) {
        Some(v) => Some(v),
        None => match active {
            Some(a) => a.minecraft_version.clone(),
            None => None,
        },
    };
    let loader_version = match nonblank(&query.loader_version) {
        Some(v) => Some(v),
        None => match active {
            Some(a) => a.loader_version.clone(),
            None => None,
        },
    };
    let java_runtime_path = match nonblank(&query.java_runtime_path) {
        Some(p) => p,
        None => configured_java_path.to_owned(),
    };
    CapabilitySelection { server_type, minecraft_version, loader_version, java_runtime_path }
}

/// What probing a Java executable gave.
#[derive(Debug, Clone, PartialEq, Eq)]
pub enum JavaProbe {
    /// Nothing ran at the path.
    NotFound,
    /// Something ran: `not_java` holds why its output is not Java's, where
    /// it is not; `detected_major` is the major version its output names.
    Captured { not_java: Option<String>, detected_major: Option<u32> },
}

/// Whether the Java runtime suits the selected version.
#[derive(Debug, Clone, PartialEq, Eq)]
pub struct JavaRuntimeCapability {
    pub state: String,
    pub executable_path: String,
    pub required_major: u32,
    pub detected_major: Option<u32>,
    pub reason: Option<String>,
}

/// The state and reason of a probed runtime.
pub open spec fn runtime_view(
    probe: JavaProbe,
    required_major: u32,
    minecraft_version: Option<Seq<char>>,
) -> (Seq<char>, Option<Seq<char>>) {
    match probe {
        JavaProbe::NotFound => (
            "unavailable"@,
            Some("No usable Java runtime was found at the configured path."@),
        ),
        JavaProbe::Captured { not_java, detected_major } => match not_java {
            Some(why) => ("unavailable"@, Some(why@)),
            None => match detected_major {
                Some(major) => if major < required_major {
                    (
                        "unavailable"@,
                        Some(
                            "Minecraft "@ + match minecraft_version {
                                Some(v) => v,
                                None => "this version"@,
                            } + " needs Java "@ + decimal(required_major as nat)
                                + ", but the configured runtime is Java "@ + decimal(major as nat)
                                + "."@,
                        ),
                    )
                } else {
                    ("available"@, None)
                },
                None => (
                    "unknown"@,
                    Some("The Java runtime responded, but its version could not be read."@),
                ),
            },
        },
    }
}

/// Whether the Java runtime at `executable_path` suits the selected
/// version, which needs Java `required_major`: a runtime that is not found
/// or not Java is unavailable; an older one is unavailable with the
/// versions named; an unreadable version is unknown.
pub fn java_runtime_capability(
    executable_path: String,
    required_major: u32,
    minecraft_version: Option<&str>,
    probe: JavaProbe,
) -> (res: JavaRuntimeCapability)
    ensures
        res.executable_path == executable_path,
        res.required_major == required_major,
        res.state@ == runtime_view(
            probe,
            required_major,
            match minecraft_version {
                Some(v) => Some(v@),
                None => None,
            },
        ).0,
        opt_text(res.reason) == runtime_view(
            probe,
            required_major,
            match minecraft_version {
                Some(v) => Some(v@),
                None => None,
            },
        ).1,
        res.detected_major == match probe {
            JavaProbe::Captured { not_java: None, detected_major } => detected_major,
            _ => None,
        },
{
    let ghost version = match minecraft_version {
        Some(v) => Some(v@),
        None => None::<Seq<char>>,
    };
    match probe {
        JavaProbe::NotFound => JavaRuntimeCapability {
            state: concat_str(String::new(), "unavailable"),
            executable_path,
            required_major,
            detected_major: None,
            reason: Some(
                concat_str(String::new(), "No usable Java runtime was found at the configured path."),
            ),
        },
        JavaProbe::Captured { not_java, detected_major } => match not_java {
            Some(why) => JavaRuntimeCapability {
                state: concat_str(String::new(), "unavailable"),
                executable_path,
                required_major,
                detected_major: None,
                reason: Some(why),
            },
            None => match detected_major {
                Some(major) => {
                    if major < required_major {
                        let mut t = concat_str(String::new(), "Minecraft ");
                        t = match minecraft_version {
                            Some(v) => concat_str(t, v),
                            None => concat_str(t, "this version"),
                        };
                        t = concat_str(t, " needs Java ");
                        t = concat_str(t, string_of(decimal_exec(required_major as u64).as_slice()).as_str());
                        t = concat_str(t, ", but the configured runtime is Java ");
                        t = concat_str(t, string_of(decimal_exec(major as u64).as_slice()).as_str());
                        t = concat_str(t, ".");
                        assert(t@ =~= runtime_view(probe, required_major, version).1.unwrap());
                        JavaRuntimeCapability {
                            state: concat_str(String::new(), "unavailable"),
                            executable_path,
                            required_major,
                            detected_major: Some(major),
                            reason: Some(t),
                        }
                    } else {
                        JavaRuntimeCapability {
                            state: concat_str(String::new(), "available"),
                            executable_path,
                            required_major,
                            detected_major: Some(major),
                            reason: None,
                        }
                    }
                },
                None => JavaRuntimeCapability {
                    state: concat_str(String::new(), "unknown"),
                    executable_path,
                    required_major,
                    detected_major: None,
                    reason: Some(
                        concat_str(
                            String::new(),
                            "The Java runtime responded, but its version could not be read.",
                        ),
                    ),
                },
            },
        },
    }
}

/// The operating systems the agent runs on.
#[derive(Debug, Clone, Copy, PartialEq, Eq)]
pub enum HostOs {
    Macos,
    Linux,
    Windows,
}

/// The host operating system that an OS name (`std::env::consts::OS`)
/// names; the agent runs on no other.
pub fn host_os(os: &str) -> (res: HostOs)
    requires
        os@ == "macos"@ || os@ == "linux"@ || os@ == "windows"@,
    ensures
        os@ == "macos"@ ==> res == HostOs::Macos,
        os@ == "linux"@ ==> res == HostOs::Linux,
        os@ == "windows"@ ==> res == HostOs::Windows,
{
    let o = chars_of(os);
    proof {
        reveal_strlit("macos");
        reveal_strlit("linux");
        reveal_strlit("windows");
        assert("linux"@[0] != "macos"@[0]);
        assert("windows"@.len() != "macos"@.len());
        assert("windows"@.len() != "linux"@.len());
    }
    if is_literal(o.as_slice(), "macos") {
        HostOs::Macos
    } else if is_literal(o.as_slice(), "linux") {
        HostOs::Linux
    } else {
        HostOs::Windows
    }
}

/// The helpers that the agent reports as set up.
#[derive(Debug, Clone, Copy, PartialEq, Eq)]
pub struct Helpers {
    pub playit: bool,
    pub duckdns: bool,
    pub geyser: bool,
    pub tailscale: bool,
}

/// The helpers that are set up: Playit where the active server enables it,
/// DuckDNS where a host name is configured, Geyser where the active server
/// has it installed.
pub fn helpers(
    active_playit_enabled: Option<bool>,
    duckdns_hostname_configured: bool,
    active_geyser_installed: Option<bool>,
    tailscale_installed: bool,
) -> (res: Helpers)
    ensures
        res.playit == (active_playit_enabled == Some(true)),
        res.duckdns == duckdns_hostname_configured,
        res.geyser == (active_geyser_installed == Some(true)),
        res.tailscale == tailscale_installed,
{
    Helpers {
        playit: active_playit_enabled == Some(true),
        duckdns: duckdns_hostname_configured,
        geyser: active_geyser_installed == Some(true),
        tailscale: tailscale_installed,
    }
}

/// The part of world settings that belongs to the server or its mods.
#[derive(Debug, Clone, PartialEq, Eq)]
pub struct ThirdPartyBoundary {
    pub available: bool,
    pub label: String,
    pub message: String,
    pub handoff: String,
    pub help_id: Option<String>,
}

/// The part of world settings that belongs to the server or its mods: MSC
/// edits native settings only and hands the rest to the server settings.
pub fn third_party_boundary() -> (res: ThirdPartyBoundary)
    ensures
        !res.available,
        res.label@ == "Provided by this server/mod"@,
        res.message@
            == "MSC manages native world settings only. Use the server or mod's own configuration path for custom settings; MSC will not invent a universal editor or silently discard them."@,
        res.handoff@ == "server_settings"@,
        opt_text(res.help_id) == Some("handbook.standard-vs-modded"@),
{
    ThirdPartyBoundary {
        available: false,
        label: concat_str(String::new(), "Provided by this server/mod"),
        message: concat_str(
            String::new(),
            "MSC manages native world settings only. Use the server or mod's own configuration path for custom settings; MSC will not invent a universal editor or silently discard them.",
        ),
        handoff: concat_str(String::new(), "server_settings"),
        help_id: Some(concat_str(String::new(), "handbook.standard-vs-modded")),
    }
}

} // verus!
