//! Health cards of the active server and the repair of startup problems.
//!
//! The diagnostics themselves are measured on the agent's host; this module
//! decides how each result is presented (title, label, icon, severity),
//! which severity sums a set of cards up, what the port card says, and
//! which repair requests are admitted and how their failures are answered.

use vstd::prelude::*;
use crate::api::{ApiError, BAD_REQUEST, CONFLICT, INTERNAL_SERVER_ERROR, NOT_FOUND, error_response, invalid_body, is_error};
use crate::text::{
    chars_eq, chars_of, concat_str, decimal, decimal_exec, is_literal, lines, lines_exec, parse_u16,
    parse_unsigned, starts_with, starts_with_exec, string_of, slice_vec, trim, trim_vec,
};

verus! {

/// The outcome of one diagnostic check.
#[derive(Debug, Clone, Copy, PartialEq, Eq, Structural)]
pub enum HealthStatus {
    Green,
    Yellow,
    Red,
    Gray,
}

/// The severity word of a status, as every client matches it.
pub open spec fn status_text(status: HealthStatus) -> Seq<char> {
    match status {
        HealthStatus::Green => "green"@,
        HealthStatus::Yellow => "yellow"@,
        HealthStatus::Red => "red"@,
        HealthStatus::Gray => "gray"@,
    }
}

/// The severity word of a status.
pub fn health_status_str(status: HealthStatus) -> (res: &'static str)
    ensures
        res@ == status_text(status),
{
    match status {
        HealthStatus::Green => "green",
        HealthStatus::Yellow => "yellow",
        HealthStatus::Red => "red",
        HealthStatus::Gray => "gray",
    }
}

/// How grave a severity word is: red over yellow over gray over anything
/// else.
pub open spec fn rank(severity: Seq<char>) -> int {
    if severity == "red"@ {
        3
    } else if severity == "yellow"@ {
        2
    } else if severity == "gray"@ {
        1
    } else {
        0
    }
}

/// How grave a severity word is.
pub fn severity_rank(status: &str) -> (res: u8)
    ensures
        res as int == rank(status@),
{
    let s = chars_of(status);
    if is_literal(s.as_slice(), "red") {
        3
    } else if is_literal(s.as_slice(), "yellow") {
        2
    } else if is_literal(s.as_slice(), "gray") {
        1
    } else {
        0
    }
}

/// A health card as the clients show it.
#[derive(Debug, Clone, PartialEq, Eq)]
pub struct HealthCard {
    pub id: String,
    pub title: String,
    pub short_label: String,
    pub severity: String,
    pub detail: Option<String>,
    pub icon_system_name: String,
    pub action_label: Option<String>,
    pub action_code: Option<String>,
    pub help_id: Option<String>,
}

/// The result of one diagnostic check on the agent's host.
#[derive(Debug, Clone, PartialEq, Eq)]
pub struct CardCheck {
    pub id: String,
    pub status: HealthStatus,
    pub detected_value: String,
    pub action_label: Option<String>,
    pub action_type: Option<String>,
    pub help_id: String,
}

/// The title of the card with this id; an unknown id is its own title.
pub open spec fn card_title(id: Seq<char>) -> Seq<char> {
    if id == "directory"@ {
        "Server Directory"@
    } else if id == "java"@ {
        "Java Runtime"@
    } else if id == "ram"@ {
        "RAM Allocation"@
    } else if id == "lastStartup"@ {
        "Last Startup"@
    } else if id == "componentJars"@ {
        "Add-on Jars"@
    } else {
        id
    }
}

/// The short label of the card with this id; an unknown id is its own
/// label.
pub open spec fn card_short_label(id: Seq<char>) -> Seq<char> {
    if id == "directory"@ {
        "Directory"@
    } else if id == "java"@ {
        "Java"@
    } else if id == "ram"@ {
        "RAM"@
    } else if id == "lastStartup"@ {
        "Startup"@
    } else if id == "componentJars"@ {
        "Add-ons"@
    } else {
        id
    }
}

/// The icon of the card with this id in this status.
pub open spec fn card_icon(id: Seq<char>, status: HealthStatus) -> Seq<char> {
    if id == "directory"@ {
        "folder"@
    } else if id == "java"@ {
        "cup.and.saucer"@
    } else if id == "ram"@ {
        "memorychip"@
    } else if id == "lastStartup"@ {
        match status {
            HealthStatus::Green => "checkmark.circle"@,
            HealthStatus::Yellow => "exclamationmark.triangle"@,
            HealthStatus::Red => "xmark.octagon"@,
            HealthStatus::Gray => "questionmark.circle"@,
        }
    } else if id == "componentJars"@ {
        match status {
            HealthStatus::Green => "checkmark.seal"@,
            HealthStatus::Yellow => "exclamationmark.triangle"@,
            HealthStatus::Red => "xmark.seal"@,
            HealthStatus::Gray => "questionmark.circle"@,
        }
    } else {
        "questionmark.circle"@
    }
}

/// The title of the card with this id.
pub fn health_card_title(id: &str) -> (res: String)
    ensures
        res@ == card_title(id@),
{
    let c = chars_of(id);
    let text = if is_literal(c.as_slice(), "directory") {
        "Server Directory"
    } else if is_literal(c.as_slice(), "java") {
        "Java Runtime"
    } else if is_literal(c.as_slice(), "ram") {
        "RAM Allocation"
    } else if is_literal(c.as_slice(), "lastStartup") {
        "Last Startup"
    } else if is_literal(c.as_slice(), "componentJars") {
        "Add-on Jars"
    } else {
        id
    };
    text.to_owned()
}

/// The short label of the card with this id.
pub fn health_card_short_label(id: &str) -> (res: String)
    ensures
        res@ == card_short_label(id@),
{
    let c = chars_of(id);
    let text = if is_literal(c.as_slice(), "directory") {
        "Directory"
    } else if is_literal(c.as_slice(), "java") {
        "Java"
    } else if is_literal(c.as_slice(), "ram") {
        "RAM"
    } else if is_literal(c.as_slice(), "lastStartup") {
        "Startup"
    } else if is_literal(c.as_slice(), "componentJars") {
        "Add-ons"
    } else {
        id
    };
    text.to_owned()
}

/// The icon of the card with this id in this status.
pub fn health_card_icon(id: &str, status: HealthStatus) -> (res: String)
    ensures
        res@ == card_icon(id@, status),
{
    let c = chars_of(id);
    let text = if is_literal(c.as_slice(), "directory") {
        "folder"
    } else if is_literal(c.as_slice(), "java") {
        "cup.and.saucer"
    } else if is_literal(c.as_slice(), "ram") {
        "memorychip"
    } else if is_literal(c.as_slice(), "lastStartup") {
        match status {
            HealthStatus::Green => "checkmark.circle",
            HealthStatus::Yellow => "exclamationmark.triangle",
            HealthStatus::Red => "xmark.octagon",
            HealthStatus::Gray => "questionmark.circle",
        }
    } else if is_literal(c.as_slice(), "componentJars") {
        match status {
            HealthStatus::Green => "checkmark.seal",
            HealthStatus::Yellow => "exclamationmark.triangle",
            HealthStatus::Red => "xmark.seal",
            HealthStatus::Gray => "questionmark.circle",
        }
    } else {
        "questionmark.circle"
    };
    text.to_owned()
}

/// The view of an optional string.
pub open spec fn opt_text(s: Option<String>) -> Option<Seq<char>> {
    match s {
        Some(v) => Some(v@),
        None => None,
    }
}

/// `c` presents the check `card` in full: its id, the title, label and
/// icon for that id, the status's severity word, the detected value as the
/// detail, and the check's action and help.
pub open spec fn presents_check(card: CardCheck, c: HealthCard) -> bool {
    &&& c.id@ == card.id@
    &&& c.title@ == card_title(card.id@)
    &&& c.short_label@ == card_short_label(card.id@)
    &&& c.severity@ == status_text(card.status)
    &&& opt_text(c.detail) == Some(card.detected_value@)
    &&& c.icon_system_name@ == card_icon(card.id@, card.status)
    &&& opt_text(c.action_label) == opt_text(card.action_label)
    &&& opt_text(c.action_code) == opt_text(card.action_type)
    &&& opt_text(c.help_id) == Some(card.help_id@)
}

/// The card that presents a diagnostic check: its id, the title, label and
/// icon for that id, the status's severity word, the detected value as the
/// detail, and the check's action and help.
pub fn card_result_to_dto(card: CardCheck) -> (res: HealthCard)
    ensures
        presents_check(card, res),
{
    let title = health_card_title(card.id.as_str());
    let short_label = health_card_short_label(card.id.as_str());
    let icon_system_name = health_card_icon(card.id.as_str(), card.status);
    let severity = health_status_str(card.status).to_owned();
    HealthCard {
        id: card.id,
        title,
        short_label,
        severity,
        detail: Some(card.detected_value),
        icon_system_name,
        action_label: card.action_label,
        action_code: card.action_type,
        help_id: Some(card.help_id),
    }
}

/// How the agent runs Bedrock servers on this host.
#[derive(Debug, Clone, Copy, PartialEq, Eq)]
pub enum BedrockBackend {
    Native,
    VzSidecar,
}

/// The Bedrock runtime's reported state.
#[derive(Debug, Clone, PartialEq, Eq)]
pub struct BedrockRuntimeState {
    pub state: String,
    pub backend: Option<BedrockBackend>,
    pub host_os: Option<crate::capabilities::HostOs>,
    pub reason_code: Option<String>,
    pub message: Option<String>,
    pub help_id: Option<String>,
}

/// The detail of the VM runtime card where no fixed sentence applies: the
/// runtime's own message, else its state.
pub open spec fn runtime_fallback(runtime: BedrockRuntimeState) -> Seq<char> {
    match runtime.message {
        Some(m) => m@,
        None => "Bedrock runtime state: "@ + runtime.state@ + "."@,
    }
}

/// The severity and detail of the VM runtime card.
pub open spec fn runtime_card_view(runtime: BedrockRuntimeState) -> (Seq<char>, Seq<char>) {
    if runtime.state@ == "available"@ {
        match runtime.backend {
            Some(BedrockBackend::Native) => (
                "green"@,
                "Native Bedrock runtime is available; no VM is required."@,
            ),
            Some(BedrockBackend::VzSidecar) => ("green"@, "Bedrock VM sidecar is available."@),
            None => ("green"@, runtime_fallback(runtime)),
        }
    } else if runtime.state@ == "provisioning_required"@ {
        ("yellow"@, runtime_fallback(runtime))
    } else {
        ("gray"@, runtime_fallback(runtime))
    }
}

/// `c` is the VM runtime card of `runtime` in full: its fixed id, title,
/// label and icon, the severity and detail of the runtime's state, no
/// action, and the runtime's help id.
pub open spec fn presents_runtime(runtime: BedrockRuntimeState, c: HealthCard) -> bool {
    &&& c.id@ == "vmRuntime"@
    &&& c.title@ == "VM Runtime"@
    &&& c.short_label@ == "VM"@
    &&& c.severity@ == runtime_card_view(runtime).0
    &&& opt_text(c.detail) == Some(runtime_card_view(runtime).1)
    &&& c.icon_system_name@ == "memorychip"@
    &&& c.action_label is None
    &&& c.action_code is None
    &&& c.help_id == runtime.help_id
}

/// The card that reports the Bedrock runtime: green where it is available,
/// yellow where it needs provisioning, gray otherwise.
pub fn bedrock_vm_runtime_card(runtime: BedrockRuntimeState) -> (res: HealthCard)
    ensures
        presents_runtime(runtime, res),
{
    let state = chars_of(runtime.state.as_str());
    let fallback = match &runtime.message {
        Some(m) => m.clone(),
        None => {
            let mut t = concat_str(String::new(), "Bedrock runtime state: ");
            t = concat_str(t, runtime.state.as_str());
            concat_str(t, ".")
        },
    };
    proof {
        assert(fallback@ =~= runtime_fallback(runtime));
    }
    let (severity, detail) = if is_literal(state.as_slice(), "available") {
        match runtime.backend {
            Some(BedrockBackend::Native) => (
                "green",
                concat_str(String::new(), "Native Bedrock runtime is available; no VM is required."),
            ),
            Some(BedrockBackend::VzSidecar) => (
                "green",
                concat_str(String::new(), "Bedrock VM sidecar is available."),
            ),
            None => ("green", fallback),
        }
    } else if is_literal(state.as_slice(), "provisioning_required") {
        ("yellow", fallback)
    } else {
        ("gray", fallback)
    };
    HealthCard {
        id: concat_str(String::new(), "vmRuntime"),
        title: concat_str(String::new(), "VM Runtime"),
        short_label: concat_str(String::new(), "VM"),
        severity: severity.to_owned(),
        detail: Some(detail),
        icon_system_name: concat_str(String::new(), "memorychip"),
        action_label: None,
        action_code: None,
        help_id: runtime.help_id,
    }
}

/// The value of the first line of `ls` that starts with `p`, after `p`.
pub open spec fn first_value(ls: Seq<Seq<char>>, p: Seq<char>) -> Option<Seq<char>>
    decreases ls.len(),
{
    if ls.len() == 0 {
        None
    } else if starts_with(ls[0], p) {
        Some(ls[0].skip(p.len() as int))
    } else {
        first_value(ls.drop_first(), p)
    }
}

/// The game port that a `server.properties` text sets: the first
/// `server-port=` line's value, trimmed, where it is a port above zero;
/// else the Java default 25565.
pub open spec fn properties_port(contents: Option<Seq<char>>) -> int {
    match contents {
        Some(c) => match first_value(lines(c), "server-port="@) {
            Some(v) => match parse_unsigned(trim(v), u16::MAX as int) {
                Some(p) => if p > 0 {
                    p
                } else {
                    25565
                },
                None => 25565,
            },
            None => 25565,
        },
        None => 25565,
    }
}

/// The game port of a Bedrock server: its configured port where it is a
/// port above zero, else the Bedrock default 19132.
pub open spec fn bedrock_port(port: Option<i64>) -> int {
    match port {
        Some(p) => if 0 < p <= u16::MAX {
            p as int
        } else {
            19132
        },
        None => 19132,
    }
}

/// The game port of the active server: a Bedrock server's configured
/// port, or the port that a Java server's `server.properties` sets.
pub fn server_port(is_bedrock: bool, configured_bedrock_port: Option<i64>, properties: Option<&str>) -> (res: u16)
    ensures
        is_bedrock ==> res as int == bedrock_port(configured_bedrock_port),
        !is_bedrock ==> res as int == properties_port(
            match properties {
                Some(p) => Some(p@),
                None => None,
            },
        ),
{
    if is_bedrock {
        return match configured_bedrock_port {
            Some(p) => if 0 < p && p <= 65535 {
                p as u16
            } else {
                19132
            },
            None => 19132,
        };
    }
    let contents = match properties {
        Some(p) => p,
        None => return 25565,
    };
    let ls = lines_exec(chars_of(contents).as_slice());
    let prefix = chars_of("server-port=");
    let ghost all = lines(contents@);
    let mut i: usize = 0;
    assert(all.skip(0) =~= all);
    while i < ls.len()
        invariant
            !is_bedrock,
            properties == Some(contents),
            all == lines(contents@),
            ls.deep_view() == all,
            prefix@ == "server-port="@,
            i <= ls.len(),
            first_value(all, "server-port="@) == first_value(all.skip(i as int), "server-port="@),
        decreases ls.len() - i,
    {
        assert(ls.deep_view()[i as int] == ls@[i as int]@);
        assert(all.skip(i as int)[0] == all[i as int]);
        assert(all.skip(i as int).drop_first() =~= all.skip(i + 1));
        if starts_with_exec(ls[i].as_slice(), prefix.as_slice()) {
            let n = ls[i].len();
            let value = slice_vec(ls[i].as_slice(), prefix.len(), n);
            assert(value@ =~= all[i as int].skip(prefix@.len() as int));
            let t = trim_vec(value.as_slice());
            return match parse_u16(t.as_slice()) {
                Some(p) => if p > 0 {
                    p
                } else {
                    25565
                },
                None => 25565,
            };
        }
        i += 1;
    }
    assert(all.skip(ls.len() as int).len() == 0);
    25565
}

/// How the local listener probe of the game port came out.
#[derive(Debug, Clone, Copy, PartialEq, Eq)]
pub enum DiagnosticResult {
    Open,
    Closed,
    Unreachable,
    Unavailable,
    NotAttempted,
    NotApplicable,
}

/// `Port <port> (<protocol>)`.
pub open spec fn port_text(port: u16, udp: bool) -> Seq<char> {
    "Port "@ + decimal(port as nat) + " ("@ + (if udp {
        "UDP"@
    } else {
        "TCP"@
    }) + ")"@
}

/// The detail, severity and whether the port-setup guide is offered, for
/// the port card.
pub open spec fn port_card_view(
    port: u16,
    udp: bool,
    has_ever_started: bool,
    running: bool,
    local: DiagnosticResult,
) -> (Seq<char>, Seq<char>, bool) {
    let p = port_text(port, udp);
    if !has_ever_started && !running {
        ("Waiting for first start\n"@ + p, "gray"@, true)
    } else if !running {
        (
            "Server is off\nStart it to verify port "@ + decimal(port as nat) + " ("@ + (if udp {
                "UDP"@
            } else {
                "TCP"@
            }) + ") reachability."@,
            "gray"@,
            true,
        )
    } else {
        match local {
            DiagnosticResult::Open => (
                p + "\nListening locally\nPublic access unverified."@,
                "yellow"@,
                false,
            ),
            DiagnosticResult::Closed => (
                p
                    + "\nServer is running but nothing is listening on this port.\nCheck the port in your server settings."@,
                "red"@,
                true,
            ),
            DiagnosticResult::Unreachable | DiagnosticResult::Unavailable => (
                p + "\nThe local listener could not be verified.\nSee Networking for more diagnostics."@,
                "yellow"@,
                false,
            ),
            _ => (p + "\nNo probe was attempted."@, "gray"@, false),
        }
    }
}

/// The card that reports whether the game port is reachable: before the
/// first start and while the server is off it only names the port; while it
/// runs, the local probe decides.
pub fn port_reachability_card(
    port: u16,
    is_bedrock: bool,
    has_ever_started: bool,
    running: bool,
    local: DiagnosticResult,
) -> (res: HealthCard)
    ensures
        res.id@ == "portReachability"@,
        res.title@ == "Port Reachability"@,
        res.short_label@ == "Port"@,
        opt_text(res.detail) == Some(
            port_card_view(port, is_bedrock, has_ever_started, running, local).0,
        ),
        res.severity@ == port_card_view(port, is_bedrock, has_ever_started, running, local).1,
        res.icon_system_name@ == "network"@,
        port_card_view(port, is_bedrock, has_ever_started, running, local).2 ==> opt_text(
            res.action_label,
        ) == Some("View Port Setup Guide"@) && opt_text(res.action_code) == Some(
            "openRouterPortForwardGuide"@,
        ),
        !port_card_view(port, is_bedrock, has_ever_started, running, local).2 ==> res.action_label is None
            && res.action_code is None,
        res.help_id is None,
{
    let protocol = if is_bedrock {
        "UDP"
    } else {
        "TCP"
    };
    let digits = string_of(decimal_exec(port as u64).as_slice());
    let mut head = concat_str(String::new(), "Port ");
    head = concat_str(head, digits.as_str());
    head = concat_str(head, " (");
    head = concat_str(head, protocol);
    head = concat_str(head, ")");
    let ghost view = port_card_view(port, is_bedrock, has_ever_started, running, local);
    let (detail, severity, guide) = if !has_ever_started && !running {
        let d = concat_str(concat_str(String::new(), "Waiting for first start\n"), head.as_str());
        (d, "gray", true)
    } else if !running {
        let mut d = concat_str(String::new(), "Server is off\nStart it to verify port ");
        d = concat_str(d, digits.as_str());
        d = concat_str(d, " (");
        d = concat_str(d, protocol);
        d = concat_str(d, ") reachability.");
        (d, "gray", true)
    } else {
        match local {
            DiagnosticResult::Open => (
                concat_str(head, "\nListening locally\nPublic access unverified."),
                "yellow",
                false,
            ),
            DiagnosticResult::Closed => (
                concat_str(
                    head,
                    "\nServer is running but nothing is listening on this port.\nCheck the port in your server settings.",
                ),
                "red",
                true,
            ),
            DiagnosticResult::Unreachable | DiagnosticResult::Unavailable => (
                concat_str(
                    head,
                    "\nThe local listener could not be verified.\nSee Networking for more diagnostics.",
                ),
                "yellow",
                false,
            ),
            _ => (concat_str(head, "\nNo probe was attempted."), "gray", false),
        }
    };
    assert(detail@ =~= view.0);
    HealthCard {
        id: concat_str(String::new(), "portReachability"),
        title: concat_str(String::new(), "Port Reachability"),
        short_label: concat_str(String::new(), "Port"),
        severity: severity.to_owned(),
        detail: Some(detail),
        icon_system_name: concat_str(String::new(), "network"),
        action_label: if guide {
            Some(concat_str(String::new(), "View Port Setup Guide"))
        } else {
            None
        },
        action_code: if guide {
            Some(concat_str(String::new(), "openRouterPortForwardGuide"))
        } else {
            None
        },
        help_id: None,
    }
}

/// The severity that sums up `sevs`: the gravest word, the last of equally
/// grave ones; none for no cards.
pub open spec fn worst(sevs: Seq<Seq<char>>) -> Option<Seq<char>>
    decreases sevs.len(),
{
    if sevs.len() == 0 {
        None
    } else {
        let s = sevs.last();
        match worst(sevs.drop_last()) {
            None => Some(s),
            Some(w) => if rank(s) >= rank(w) {
                Some(s)
            } else {
                Some(w)
            },
        }
    }
}

/// The severity words of `cards`.
pub open spec fn severities(cards: Seq<HealthCard>) -> Seq<Seq<char>> {
    cards.map_values(|c: HealthCard| c.severity@)
}

/// The severities are ordered green < gray < yellow < red, and that order
/// decides a report: it is red where any card is red; else yellow where
/// any card is yellow; else gray where any card is gray; and it is never
/// green while a card is gray, yellow or red.
pub proof fn law_severity_order(cards: Seq<HealthCard>)
    ensures
        rank("green"@) < rank("gray"@),
        rank("gray"@) < rank("yellow"@),
        rank("yellow"@) < rank("red"@),
        severities(cards).contains("red"@) ==> overall(cards) == "red"@,
        !severities(cards).contains("red"@) && severities(cards).contains("yellow"@) ==> overall(
            cards,
        ) == "yellow"@,
        !severities(cards).contains("red"@) && !severities(cards).contains("yellow"@)
            && severities(cards).contains("gray"@) ==> overall(cards) == "gray"@,
{
    reveal_strlit("green");
    reveal_strlit("gray");
    reveal_strlit("yellow");
    reveal_strlit("red");
    assert("green"@.len() == 5 && "gray"@.len() == 4 && "yellow"@.len() == 6 && "red"@.len() == 3);
    let sevs = severities(cards);
    law_overall_is_gravest(sevs);
    if sevs.len() > 0 {
        let w = worst(sevs).unwrap();
        assert(overall(cards) == w);
        if sevs.contains("red"@) {
            let i = choose|i: int| 0 <= i < sevs.len() && sevs[i] == "red"@;
            assert(rank(sevs[i]) <= rank(w));
        } else if sevs.contains("yellow"@) {
            let i = choose|i: int| 0 <= i < sevs.len() && sevs[i] == "yellow"@;
            assert(rank(sevs[i]) <= rank(w));
            assert(w != "red"@);
        } else if sevs.contains("gray"@) {
            let i = choose|i: int| 0 <= i < sevs.len() && sevs[i] == "gray"@;
            assert(rank(sevs[i]) <= rank(w));
            assert(w != "red"@ && w != "yellow"@);
        }
    }
}

/// Of equally grave cards the last one decides: where the last card is at
/// least as grave as every card, the report takes its severity.
pub proof fn law_last_gravest_card_decides(sevs: Seq<Seq<char>>)
    requires
        sevs.len() > 0,
        forall|i: int| 0 <= i < sevs.len() ==> rank(#[trigger] sevs[i]) <= rank(sevs.last()),
    ensures
        worst(sevs) == Some(sevs.last()),
{
    let rest = sevs.drop_last();
    law_overall_is_gravest(rest);
    if rest.len() > 0 {
        let w = worst(rest).unwrap();
        let k = choose|k: int| 0 <= k < rest.len() && rest[k] == w;
        assert(sevs[k] == rest[k]);
    }
}

/// The overall severity of a set of cards: the gravest card's severity,
/// `green` where there is no card.
pub open spec fn overall(cards: Seq<HealthCard>) -> Seq<char> {
    match worst(severities(cards)) {
        Some(w) => w,
        None => "green"@,
    }
}

/// The overall severity is one of the cards' severities and at least as
/// grave as each of them.
pub proof fn law_overall_is_gravest(sevs: Seq<Seq<char>>)
    ensures
        sevs.len() > 0 ==> worst(sevs) is Some && sevs.contains(worst(sevs).unwrap()),
        forall|i: int| 0 <= i < sevs.len() ==> rank(#[trigger] sevs[i]) <= rank(worst(sevs).unwrap()),
    decreases sevs.len(),
{
    if sevs.len() > 0 {
        let rest = sevs.drop_last();
        law_overall_is_gravest(rest);
        if rest.len() > 0 {
            let w = worst(rest).unwrap();
            let k = choose|k: int| 0 <= k < rest.len() && rest[k] == w;
            assert(sevs[k] == w);
        }
        assert(sevs[sevs.len() - 1] == sevs.last());
        assert forall|i: int| 0 <= i < sevs.len() implies rank(#[trigger] sevs[i]) <= rank(
            worst(sevs).unwrap(),
        ) by {
            if i < sevs.len() - 1 {
                assert(sevs[i] == rest[i]);
            }
        }
    }
}

/// The overall severity of a set of cards: the gravest card's severity,
/// the last of equally grave ones, `green` where there is no card.
pub fn overall_severity(cards: &[HealthCard]) -> (res: String)
    ensures
        res@ == overall(cards@),
{
    let ghost sevs = severities(cards@);
    let mut best: Option<usize> = None;
    let mut best_rank: u8 = 0;
    let mut i: usize = 0;
    while i < cards.len()
        invariant
            i <= cards.len(),
            sevs == severities(cards@),
            match best {
                None => i == 0,
                Some(b) => b < i && worst(sevs.take(i as int)) == Some(cards@[b as int].severity@)
                    && best_rank as int == rank(cards@[b as int].severity@),
            },
        decreases cards.len() - i,
    {
        let r = severity_rank(cards[i].severity.as_str());
        assert(sevs.take(i + 1).drop_last() =~= sevs.take(i as int));
        assert(sevs.take(i + 1).last() == cards@[i as int].severity@);
        match best {
            None => {
                best = Some(i);
                best_rank = r;
            },
            Some(_) => {
                if r >= best_rank {
                    best = Some(i);
                    best_rank = r;
                }
            },
        }
        i += 1;
    }
    assert(sevs.take(cards.len() as int) =~= sevs);
    match best {
        Some(b) => cards[b].severity.clone(),
        None => concat_str(String::new(), "green"),
    }
}

/// The health answer for the active server.
#[derive(Debug, Clone, PartialEq, Eq)]
pub struct HealthResponse {
    pub server_type: String,
    pub server_name: String,
    pub server_running: bool,
    pub overall_severity: String,
    pub cards: Vec<HealthCard>,
    pub note: Option<String>,
}

/// The health answer where no server is active: no cards, gray, and a note.
pub fn no_active_server_health() -> (res: HealthResponse)
    ensures
        res.server_type@.len() == 0,
        res.server_name@.len() == 0,
        !res.server_running,
        res.overall_severity@ == "gray"@,
        res.cards@.len() == 0,
        opt_text(res.note) == Some("No active server."@),
{
    HealthResponse {
        server_type: String::new(),
        server_name: String::new(),
        server_running: false,
        overall_severity: concat_str(String::new(), "gray"),
        cards: Vec::new(),
        note: Some(concat_str(String::new(), "No active server.")),
    }
}

/// The health answer for the active server: the directory, Java, RAM,
/// last-startup, port and add-on cards in that order, the VM runtime card
/// last for a Bedrock server, and their overall severity.
pub fn health_response(
    server_type: String,
    server_name: String,
    server_running: bool,
    directory: CardCheck,
    java: CardCheck,
    ram: CardCheck,
    last_startup: CardCheck,
    port_card: HealthCard,
    component_jars: CardCheck,
    bedrock_runtime: Option<BedrockRuntimeState>,
) -> (res: HealthResponse)
    ensures
        res.server_type == server_type,
        res.server_name == server_name,
        res.server_running == server_running,
        res.note is None,
        res.cards@.len() == if bedrock_runtime is Some {
            7int
        } else {
            6int
        },
        presents_check(directory, res.cards@[0]),
        presents_check(java, res.cards@[1]),
        presents_check(ram, res.cards@[2]),
        presents_check(last_startup, res.cards@[3]),
        res.cards@[4] == port_card,
        presents_check(component_jars, res.cards@[5]),
        bedrock_runtime is Some ==> presents_runtime(bedrock_runtime.unwrap(), res.cards@[6]),
        res.overall_severity@ == overall(res.cards@),
{
    let mut cards: Vec<HealthCard> = Vec::new();
    cards.push(card_result_to_dto(directory));
    cards.push(card_result_to_dto(java));
    cards.push(card_result_to_dto(ram));
    cards.push(card_result_to_dto(last_startup));
    cards.push(port_card);
    cards.push(card_result_to_dto(component_jars));
    match bedrock_runtime {
        Some(runtime) => cards.push(bedrock_vm_runtime_card(runtime)),
        None => {},
    }
    let overall_severity = overall_severity(cards.as_slice());
    HealthResponse { server_type, server_name, server_running, overall_severity, cards, note: None }
}

/// The repairs that the repair route offers.
#[derive(Debug, Clone, Copy, PartialEq, Eq)]
pub enum RepairKind {
    Disable,
    Delete,
    Update,
    Install,
}

/// The repair that an action word names.
pub open spec fn repair_kind_of(action: Seq<char>) -> Option<RepairKind> {
    if action == "disable"@ {
        Some(RepairKind::Disable)
    } else if action == "delete"@ {
        Some(RepairKind::Delete)
    } else if action == "update"@ {
        Some(RepairKind::Update)
    } else if action == "install"@ {
        Some(RepairKind::Install)
    } else {
        None
    }
}

/// The active server as the repair route sees it.
#[derive(Debug, Clone, PartialEq, Eq)]
pub struct RepairTarget {
    /// The active server is the one running right now.
    pub running: bool,
    /// The server's flavor keeps add-ons in a folder.
    pub has_add_on_folder: bool,
    /// The ids of the problems recorded at its last startup, where there is
    /// a record.
    pub recorded_problem_ids: Option<Vec<String>>,
}

/// The index of the first recorded problem with the id `id`.
pub open spec fn problem_index(ids: Seq<String>, id: Seq<char>, from: int) -> Option<int>
    decreases ids.len() - from,
{
    if from < 0 || from >= ids.len() {
        None
    } else if ids[from]@ == id {
        Some(from)
    } else {
        problem_index(ids, id, from + 1)
    }
}

/// The recorded problem that a repair request names, if any.
pub open spec fn named_problem(target: RepairTarget, id: Seq<char>) -> Option<int> {
    match target.recorded_problem_ids {
        Some(ids) => problem_index(ids@, id, 0),
        None => None,
    }
}

/// Admits a repair request: the problem id must not be blank and the
/// action must be a repair; a server must be active and stopped; the
/// problem must be recorded; the flavor must keep add-ons. Each refusal
/// comes in that order, with its own answer. An admitted request gives the
/// repair and the index of the recorded problem.
pub fn admit_repair(problem_id: &str, action: &str, active: Option<&RepairTarget>) -> (res: Result<
    (RepairKind, usize),
    ApiError,
>)
    ensures
        trim(problem_id@).len() == 0 ==> (res matches Err(e) && is_error(
            e,
            BAD_REQUEST,
            "missing_problem_id"@,
            "problemId is required."@,
        )),
        trim(problem_id@).len() > 0 && repair_kind_of(action@) is None ==> (res matches Err(e)
            && is_error(
            e,
            BAD_REQUEST,
            "invalid_action"@,
            "action must be disable, delete, update, or install."@,
        )),
        trim(problem_id@).len() > 0 && repair_kind_of(action@) is Some ==> match active {
            None => res matches Err(e) && is_error(
                e,
                CONFLICT,
                "no_active_server"@,
                "No active server."@,
            ),
            Some(t) => if t.running {
                res matches Err(e) && is_error(e, CONFLICT, "server_running"@, "Server is running."@)
            } else if named_problem(*t, problem_id@) is None {
                res matches Err(e) && is_error(
                    e,
                    NOT_FOUND,
                    "problem_not_found"@,
                    "Problem not found."@,
                )
            } else if !t.has_add_on_folder {
                res matches Err(e) && is_error(
                    e,
                    BAD_REQUEST,
                    "action_unavailable"@,
                    "This server's flavor has no add-on folder."@,
                )
            } else {
                res == Ok::<(RepairKind, usize), ApiError>(
                    (repair_kind_of(action@).unwrap(), named_problem(*t, problem_id@).unwrap() as usize),
                )
            },
        },
{
    let id = chars_of(problem_id);
    if trim_vec(id.as_slice()).len() == 0 {
        return Err(invalid_body("missing_problem_id", "problemId is required."));
    }
    let a = chars_of(action);
    let kind = if is_literal(a.as_slice(), "disable") {
        RepairKind::Disable
    } else if is_literal(a.as_slice(), "delete") {
        RepairKind::Delete
    } else if is_literal(a.as_slice(), "update") {
        RepairKind::Update
    } else if is_literal(a.as_slice(), "install") {
        RepairKind::Install
    } else {
        return Err(invalid_body("invalid_action", "action must be disable, delete, update, or install."));
    };
    let target = match active {
        Some(t) => t,
        None => return Err(error_response(CONFLICT, "no_active_server", "No active server.")),
    };
    if target.running {
        return Err(error_response(CONFLICT, "server_running", "Server is running."));
    }
    let index = match &target.recorded_problem_ids {
        None => None,
        Some(ids) => find_problem(ids, id.as_slice()),
    };
    let index = match index {
        Some(i) => i,
        None => return Err(error_response(NOT_FOUND, "problem_not_found", "Problem not found.")),
    };
    if !target.has_add_on_folder {
        return Err(invalid_body("action_unavailable", "This server's flavor has no add-on folder."));
    }
    Ok((kind, index))
}

fn find_problem(ids: &Vec<String>, id: &[char]) -> (res: Option<usize>)
    ensures
        match problem_index(ids@, id@, 0) {
            Some(k) => res == Some(k as usize),
            None => res is None,
        },
{
    let mut i: usize = 0;
    while i < ids.len()
        invariant
            i <= ids.len(),
            problem_index(ids@, id@, 0) == problem_index(ids@, id@, i as int),
        decreases ids.len() - i,
    {
        let candidate = chars_of(ids[i].as_str());
        if crate::text::chars_eq(candidate.as_slice(), id) {
            return Some(i);
        }
        i += 1;
    }
    None
}

/// Why a repair failed.
#[derive(Debug, Clone, PartialEq, Eq)]
pub enum RepairFailure {
    /// The server started in the meantime.
    ServerRunning,
    /// The problem names nothing that the repair could act on.
    ActionUnavailable,
    /// The server's flavor keeps no add-ons.
    NoAddOnKind,
    /// Reading or writing the add-on folder failed.
    Io { message: String },
    /// The repair did not leave the expected files behind.
    VerificationFailed,
    /// No newer version of the add-on exists.
    NoUpdateAvailable,
    /// The missing dependency could not be identified confidently.
    NoConfidentMatch,
    /// A modpack manages the server's add-ons.
    PackManaged,
    /// Changing the add-ons failed.
    MutationFailed { message: String },
    /// The repair task did not run to completion.
    JoinFailed,
}

/// The answer to a failed repair.
pub fn health_repair_error_response(error: &RepairFailure) -> (res: ApiError)
    ensures
        match *error {
            RepairFailure::ServerRunning => is_error(
                res,
                CONFLICT,
                "server_running"@,
                "Server is running."@,
            ),
            RepairFailure::ActionUnavailable | RepairFailure::NoAddOnKind => is_error(
                res,
                BAD_REQUEST,
                "action_unavailable"@,
                "No repair target for this problem."@,
            ),
            RepairFailure::Io { message } => is_error(
                res,
                INTERNAL_SERVER_ERROR,
                "internal_error"@,
                message@,
            ),
            RepairFailure::VerificationFailed => is_error(
                res,
                INTERNAL_SERVER_ERROR,
                "internal_error"@,
                "The repair did not produce the expected on-disk state."@,
            ),
            RepairFailure::NoUpdateAvailable => is_error(
                res,
                BAD_REQUEST,
                "no_update_available"@,
                "No update is available for this add-on."@,
            ),
            RepairFailure::NoConfidentMatch => is_error(
                res,
                BAD_REQUEST,
                "no_confident_match"@,
                "Could not confidently identify this dependency on Modrinth."@,
            ),
            RepairFailure::PackManaged => is_error(
                res,
                CONFLICT,
                "conflict"@,
                "This server is managed by a modpack."@,
            ),
            RepairFailure::MutationFailed { message } => is_error(
                res,
                INTERNAL_SERVER_ERROR,
                "internal_error"@,
                message@,
            ),
            RepairFailure::JoinFailed => is_error(
                res,
                INTERNAL_SERVER_ERROR,
                "internal_error"@,
                "The repair task failed to run to completion."@,
            ),
        },
{
    match error {
        RepairFailure::ServerRunning => error_response(CONFLICT, "server_running", "Server is running."),
        RepairFailure::ActionUnavailable | RepairFailure::NoAddOnKind => invalid_body(
            "action_unavailable",
            "No repair target for this problem.",
        ),
        RepairFailure::Io { message } => error_response(
            INTERNAL_SERVER_ERROR,
            "internal_error",
            message.as_str(),
        ),
        RepairFailure::VerificationFailed => error_response(
            INTERNAL_SERVER_ERROR,
            "internal_error",
            "The repair did not produce the expected on-disk state.",
        ),
        RepairFailure::NoUpdateAvailable => invalid_body(
            "no_update_available",
            "No update is available for this add-on.",
        ),
        RepairFailure::NoConfidentMatch => invalid_body(
            "no_confident_match",
            "Could not confidently identify this dependency on Modrinth.",
        ),
        RepairFailure::PackManaged => error_response(
            CONFLICT,
            "conflict",
            "This server is managed by a modpack.",
        ),
        RepairFailure::MutationFailed { message } => error_response(
            INTERNAL_SERVER_ERROR,
            "internal_error",
            message.as_str(),
        ),
        RepairFailure::JoinFailed => error_response(
            INTERNAL_SERVER_ERROR,
            "internal_error",
            "The repair task failed to run to completion.",
        ),
    }
}

/// The answer once a verified repair tried to drop its problem from the
/// startup record: dropped, not found in the record, or not saved.
pub fn repair_record_outcome(removed: Result<bool, String>) -> (res: Result<(), ApiError>)
    ensures
        removed == Ok::<bool, String>(true) ==> res is Ok,
        removed == Ok::<bool, String>(false) ==> (res matches Err(e) && is_error(
            e,
            INTERNAL_SERVER_ERROR,
            "internal_error"@,
            "The repair succeeded on disk, but its problem record was not updated."@,
        )),
        removed matches Err(m) ==> (res matches Err(e) && is_error(
            e,
            INTERNAL_SERVER_ERROR,
            "internal_error"@,
            "The repair succeeded on disk, but its problem record could not be saved: "@ + m@,
        )),
{
    match removed {
        Ok(true) => Ok(()),
        Ok(false) => Err(
            error_response(
                INTERNAL_SERVER_ERROR,
                "internal_error",
                "The repair succeeded on disk, but its problem record was not updated.",
            ),
        ),
        Err(m) => {
            let text = concat_str(
                concat_str(
                    String::new(),
                    "The repair succeeded on disk, but its problem record could not be saved: ",
                ),
                m.as_str(),
            );
            Err(error_response(INTERNAL_SERVER_ERROR, "internal_error", text.as_str()))
        },
    }
}

/// The recorded problem ids without `id`, in order.
pub open spec fn ids_without(ids: Seq<String>, id: Seq<char>) -> Seq<Seq<char>>
    decreases ids.len(),
{
    if ids.len() == 0 {
        Seq::empty()
    } else {
        let rest = ids_without(ids.drop_last(), id);
        if ids.last()@ == id {
            rest
        } else {
            rest.push(ids.last()@)
        }
    }
}

/// The answer to a repair that was applied and dropped from the record.
#[derive(Debug, Clone, PartialEq, Eq)]
pub struct RepairApplied {
    pub success: bool,
    pub message: String,
    pub operation_id: Option<String>,
    /// The problems that a fresh read of the record still reports.
    pub remaining_problem_ids: Vec<String>,
}

/// The answer to an applied repair: a success, "Repair applied.", with no
/// operation, and the recorded problems without the repaired one.
pub fn repair_applied(recorded_ids: &Vec<String>, repaired: &str) -> (res: RepairApplied)
    ensures
        res.success,
        res.message@ == "Repair applied."@,
        res.operation_id is None,
        res.remaining_problem_ids.deep_view() == ids_without(recorded_ids@, repaired@),
{
    let wanted = chars_of(repaired);
    let mut out: Vec<String> = Vec::new();
    let mut i: usize = 0;
    while i < recorded_ids.len()
        invariant
            i <= recorded_ids.len(),
            wanted@ == repaired@,
            out.deep_view() == ids_without(recorded_ids@.take(i as int), repaired@),
        decreases recorded_ids.len() - i,
    {
        assert(recorded_ids@.take(i + 1).drop_last() =~= recorded_ids@.take(i as int));
        let id = chars_of(recorded_ids[i].as_str());
        if !chars_eq(id.as_slice(), wanted.as_slice()) {
            let ghost before = out.deep_view();
            out.push(recorded_ids[i].clone());
            assert(out.deep_view() =~= before.push(recorded_ids@[i as int]@));
        }
        i += 1;
    }
    assert(recorded_ids@.take(recorded_ids.len() as int) =~= recorded_ids@);
    RepairApplied {
        success: true,
        message: concat_str(String::new(), "Repair applied."),
        operation_id: None,
        remaining_problem_ids: out,
    }
}

/// Whether the recorded problems came from a start that otherwise
/// succeeded, and the note shown where the server never started: a soft
/// failure is a clean start that still recorded problems.
pub fn problems_summary(record_exists: bool, was_clean: bool, problem_count: usize) -> (res: (
    bool,
    Option<String>,
))
    ensures
        res.0 == (record_exists && was_clean && problem_count > 0),
        record_exists ==> res.1 is None,
        !record_exists ==> opt_text(res.1) == Some(
            "No startup record yet \u{2014} start this server at least once."@,
        ),
{
    let soft = record_exists && was_clean && problem_count > 0;
    let note = if record_exists {
        None
    } else {
        Some(concat_str(String::new(), "No startup record yet \u{2014} start this server at least once."))
    };
    (soft, note)
}

/// The answer of the problems route: the server, whether the recorded
/// problems came from a start that otherwise succeeded, the ids of the
/// recorded problems, and a note.
#[derive(Debug, Clone, PartialEq, Eq)]
pub struct HealthProblemsAnswer {
    pub server_type: String,
    pub server_running: bool,
    pub is_soft_fail: bool,
    pub problem_ids: Vec<String>,
    pub note: Option<String>,
}

/// The problems answer where no server is active: no server, nothing
/// running, no problems, and the note "No active server.".
pub fn no_active_server_problems() -> (res: HealthProblemsAnswer)
    ensures
        res.server_type@.len() == 0,
        !res.server_running,
        !res.is_soft_fail,
        res.problem_ids@.len() == 0,
        opt_text(res.note) == Some("No active server."@),
{
    HealthProblemsAnswer {
        server_type: String::new(),
        server_running: false,
        is_soft_fail: false,
        problem_ids: Vec::new(),
        note: Some(concat_str(String::new(), "No active server.")),
    }
}

/// The problems answer for the active server: the problems of its last
/// startup record (none without a record), a soft failure where a clean
/// start still recorded problems, and a note only where there is no
/// record yet.
pub fn health_problems(
    server_type: String,
    server_running: bool,
    record_exists: bool,
    was_clean: bool,
    problem_ids: Vec<String>,
) -> (res: HealthProblemsAnswer)
    ensures
        res.server_type == server_type,
        res.server_running == server_running,
        res.is_soft_fail == (record_exists && was_clean && problem_ids@.len() > 0),
        record_exists ==> res.problem_ids == problem_ids && res.note is None,
        !record_exists ==> res.problem_ids@.len() == 0 && opt_text(res.note) == Some(
            "No startup record yet \u{2014} start this server at least once."@,
        ),
{
    let ids = if record_exists {
        problem_ids
    } else {
        Vec::new()
    };
    let (soft, note) = problems_summary(record_exists, was_clean, ids.len());
    HealthProblemsAnswer { server_type, server_running, is_soft_fail: soft, problem_ids: ids, note }
}

/// The Java executables that the Java card probes: the configured path,
/// trimmed, where it is not blank, then `java` from the search path.
pub fn java_candidates(configured_java_path: &str) -> (res: Vec<String>)
    ensures
        trim(configured_java_path@).len() > 0 ==> res@.len() == 2 && res@[0]@ == trim(
            configured_java_path@,
        ) && res@[1]@ == "java"@,
        trim(configured_java_path@).len() == 0 ==> res@.len() == 1 && res@[0]@ == "java"@,
{
    let mut out: Vec<String> = Vec::new();
    let t = trim_vec(chars_of(configured_java_path).as_slice());
    if t.len() > 0 {
        out.push(string_of(t.as_slice()));
    }
    out.push(concat_str(String::new(), "java"));
    out
}

/// A candidate counts as present where it names a file that exists, or
/// where it is a bare name left to the search path.
pub fn candidate_present(path: &str, is_file: bool) -> (res: bool)
    ensures
        res == (path@.contains('/') && is_file || !path@.contains('/')),
{
    let c = chars_of(path);
    let mut has_slash = false;
    let mut i: usize = 0;
    while i < c.len()
        invariant
            i <= c.len(),
            c@ == path@,
            has_slash == (exists|k: int| 0 <= k < i && c@[k] == '/'),
        decreases c.len() - i,
    {
        if c[i] == '/' {
            has_slash = true;
        }
        i += 1;
    }
    proof {
        if has_slash {
            let k = choose|k: int| 0 <= k < c.len() && c@[k] == '/';
            assert(path@[k] == '/');
        } else {
            assert forall|k: int| 0 <= k < path@.len() implies path@[k] != '/' by {
                assert(c@[k] == path@[k]);
            }
        }
    }
    has_slash && is_file || !has_slash
}

/// The memory of a Linux host in whole GiB, from `/proc/meminfo`: the
/// first `MemTotal:` line whose value, without its `kB` unit, is a number
/// above zero.
pub open spec fn meminfo_gb(ls: Seq<Seq<char>>) -> Option<int>
    decreases ls.len(),
{
    if ls.len() == 0 {
        None
    } else if starts_with(ls[0], "MemTotal:"@) {
        let rest = trim(strip_suffixes(trim(ls[0].skip("MemTotal:"@.len() as int)), "kB"@));
        match parse_unsigned(rest, u64::MAX as int) {
            Some(kb) if kb > 0 => Some(kb / 1048576),
            _ => meminfo_gb(ls.drop_first()),
        }
    } else {
        meminfo_gb(ls.drop_first())
    }
}

/// `s` without every trailing repetition of `p` (`str::trim_end_matches`).
pub open spec fn strip_suffixes(s: Seq<char>, p: Seq<char>) -> Seq<char>
    decreases s.len(),
{
    if p.len() > 0 && crate::text::ends_with(s, p) {
        strip_suffixes(s.take(s.len() - p.len()), p)
    } else {
        s
    }
}

fn strip_suffixes_exec(s: &[char], p: &[char]) -> (res: Vec<char>)
    ensures
        res@ == strip_suffixes(s@, p@),
{
    let mut rest = slice_vec(s, 0, s.len());
    assert(rest@ =~= s@);
    if p.len() == 0 {
        return rest;
    }
    while crate::text::ends_with_exec(rest.as_slice(), p)
        invariant
            p.len() > 0,
            strip_suffixes(rest@, p@) == strip_suffixes(s@, p@),
        decreases rest.len(),
    {
        let n = rest.len();
        rest = slice_vec(rest.as_slice(), 0, n - p.len());
    }
    rest
}

/// The memory of a Linux host in whole GiB, from the text of
/// `/proc/meminfo`; 0 where no usable line is found.
pub fn linux_ram_gb(meminfo: &str) -> (res: i64)
    ensures
        match meminfo_gb(lines(meminfo@)) {
            Some(g) => res == g,
            None => res == 0,
        },
{
    let ls = lines_exec(chars_of(meminfo).as_slice());
    let prefix = chars_of("MemTotal:");
    let unit = chars_of("kB");
    let ghost all = lines(meminfo@);
    let mut i: usize = 0;
    assert(all.skip(0) =~= all);
    while i < ls.len()
        invariant
            all == lines(meminfo@),
            ls.deep_view() == all,
            prefix@ == "MemTotal:"@,
            unit@ == "kB"@,
            i <= ls.len(),
            meminfo_gb(all) == meminfo_gb(all.skip(i as int)),
        decreases ls.len() - i,
    {
        assert(ls.deep_view()[i as int] == ls@[i as int]@);
        assert(all.skip(i as int)[0] == all[i as int]);
        assert(all.skip(i as int).drop_first() =~= all.skip(i + 1));
        if starts_with_exec(ls[i].as_slice(), prefix.as_slice()) {
            let n = ls[i].len();
            let after = slice_vec(ls[i].as_slice(), prefix.len(), n);
            assert(after@ =~= all[i as int].skip("MemTotal:"@.len() as int));
            let t = trim_vec(after.as_slice());
            let stripped = strip_suffixes_exec(t.as_slice(), unit.as_slice());
            let rest = trim_vec(stripped.as_slice());
            match crate::text::parse_unsigned_exec(rest.as_slice(), u64::MAX) {
                Some(kb) => {
                    if kb > 0 {
                        return (kb / 1048576) as i64;
                    }
                },
                None => {},
            }
        }
        i += 1;
    }
    assert(all.skip(ls.len() as int).len() == 0);
    0
}

/// Whole GiB of a byte count.
pub fn bytes_to_gb(bytes: u64) -> (res: i64)
    ensures
        res == bytes / 1073741824,
{
    (bytes / 1073741824) as i64
}

} // verus!
