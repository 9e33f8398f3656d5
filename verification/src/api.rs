//! Error answers of the agent's HTTP routes and the permission check.
//!
//! Every refused request is answered with an HTTP status and an error body
//! holding a stable machine code and a human message.

use vstd::prelude::*;
use crate::text::concat_str;

verus! {

/// An error answer: the HTTP status, the machine code and the message.
#[derive(Debug, Clone, PartialEq, Eq)]
pub struct ApiError {
    pub status: u16,
    pub code: String,
    pub message: String,
}

/// `400 Bad Request`.
pub const BAD_REQUEST: u16 = 400;
/// `403 Forbidden`.
pub const FORBIDDEN: u16 = 403;
/// `404 Not Found`.
pub const NOT_FOUND: u16 = 404;
/// `409 Conflict`.
pub const CONFLICT: u16 = 409;
/// `500 Internal Server Error`.
pub const INTERNAL_SERVER_ERROR: u16 = 500;

/// `e` is the answer with this status, code and message.
pub open spec fn is_error(e: ApiError, status: u16, code: Seq<char>, message: Seq<char>) -> bool {
    e.status == status && e.code@ == code && e.message@ == message
}

/// The error answer with this status, code and message.
pub fn error_response(status: u16, code: &str, message: &str) -> (res: ApiError)
    ensures
        is_error(res, status, code@, message@),
{
    ApiError { status, code: code.to_owned(), message: message.to_owned() }
}

/// A `400 Bad Request` answer.
pub fn invalid_body(code: &str, message: &str) -> (res: ApiError)
    ensures
        is_error(res, BAD_REQUEST, code@, message@),
{
    error_response(BAD_REQUEST, code, message)
}

/// The areas a credential may be allowed to act on.
#[derive(Debug, Clone, Copy, PartialEq, Eq, Structural)]
pub enum Permission {
    Admin,
    Addons,
    Fleet,
    Players,
    ServerControl,
    Settings,
    Worlds,
}

/// A credential with `permissions` may act on `category`: it holds that
/// permission, or it is an administrator.
pub open spec fn permits(permissions: Seq<Permission>, category: Permission) -> bool {
    permissions.contains(category) || permissions.contains(Permission::Admin)
}

/// The `403 forbidden` answer of a credential that may not act.
pub open spec fn is_forbidden(e: ApiError) -> bool {
    is_error(e, FORBIDDEN, "forbidden"@, "This token is not allowed to perform that action."@)
}

/// The guard in front of a route: `None` where the credential may act on
/// `category`, else the `403 forbidden` answer.
pub fn require_permission(permissions: &[Permission], category: Permission) -> (res: Option<
    ApiError,
>)
    ensures
        permits(permissions@, category) ==> res is None,
        !permits(permissions@, category) ==> (res matches Some(e) && is_forbidden(e)),
{
    let mut i: usize = 0;
    while i < permissions.len()
        invariant
            i <= permissions.len(),
            forall|k: int| 0 <= k < i ==> permissions@[k] != category && permissions@[k]
                != Permission::Admin,
        decreases permissions.len() - i,
    {
        let p = permissions[i];
        if p == category || p == Permission::Admin {
            assert(permissions@.contains(permissions@[i as int]));
            return None;
        }
        i += 1;
    }
    Some(
        error_response(
            FORBIDDEN,
            "forbidden",
            "This token is not allowed to perform that action.",
        ),
    )
}

/// The `409` answer for a server whose world data is in a read-only
/// diagnostic state.
pub fn reconciliation_degraded_response(reason: &str) -> (res: ApiError)
    ensures
        res.status == CONFLICT,
        res.code@ == "world_reconciliation_degraded"@,
        res.message@ == "This server's world data could not be safely reconciled, so it is in a read-only diagnostic state: "@
            + reason@ + ". Fix the underlying issue and restart the agent."@,
{
    let mut text = concat_str(
        String::new(),
        "This server's world data could not be safely reconciled, so it is in a read-only diagnostic state: ",
    );
    text = concat_str(text, reason);
    text = concat_str(text, ". Fix the underlying issue and restart the agent.");
    ApiError {
        status: CONFLICT,
        code: concat_str(String::new(), "world_reconciliation_degraded"),
        message: text,
    }
}

/// The headers that every answer of the agent carries: a content security
/// policy that allows only the agent's own origin, no content sniffing and
/// no referrer.
pub fn security_headers() -> (res: Vec<(String, String)>)
    ensures
        res@.len() == 3,
        res@[0].0@ == "Content-Security-Policy"@,
        res@[0].1@ == "default-src 'self'; base-uri 'none'; object-src 'none'; frame-ancestors 'none'; form-action 'self'; script-src 'self'; style-src 'self'; img-src 'self' data: blob:; connect-src 'self'; worker-src 'self' blob:"@,
        res@[1].0@ == "X-Content-Type-Options"@,
        res@[1].1@ == "nosniff"@,
        res@[2].0@ == "Referrer-Policy"@,
        res@[2].1@ == "no-referrer"@,
{
    let mut headers: Vec<(String, String)> = Vec::new();
    headers.push(
        (
            concat_str(String::new(), "Content-Security-Policy"),
            concat_str(
                String::new(),
                "default-src 'self'; base-uri 'none'; object-src 'none'; frame-ancestors 'none'; form-action 'self'; script-src 'self'; style-src 'self'; img-src 'self' data: blob:; connect-src 'self'; worker-src 'self' blob:",
            ),
        ),
    );
    headers.push((concat_str(String::new(), "X-Content-Type-Options"), concat_str(String::new(), "nosniff")));
    headers.push((concat_str(String::new(), "Referrer-Policy"), concat_str(String::new(), "no-referrer")));
    headers
}

/// The routes that act on the server, each guarded by one permission.
#[derive(Debug, Clone, Copy, PartialEq, Eq, Structural)]
pub enum GuardedRoute {
    BackupSettingsUpdate,
    BackupNow,
    BackupRestore,
    BackupDelete,
    BedrockAllowlistChange,
    BrowserPairing,
    ConsoleCommand,
    RelativeTime,
    AddonInstall,
    AddonRemove,
    AddonUpdate,
    ModpackInspect,
    ModpackImport,
    ModpackManualFile,
    FileBrowse,
    FileRead,
    GeyserSettingsUpdate,
    HealthRepair,
    HostReset,
    ServerStart,
    ServerStop,
    ActiveServerSelect,
    DuckDnsUpdate,
}

/// The permission that each route asks of a credential: add-on and modpack
/// routes ask for add-ons; backups and restores for worlds, their settings
/// for settings; server start, stop, selection and console commands for
/// server control; files, pairing and the host reset for administration.
pub open spec fn route_category(route: GuardedRoute) -> Permission {
    match route {
        GuardedRoute::BackupSettingsUpdate => Permission::Settings,
        GuardedRoute::BackupNow => Permission::Worlds,
        GuardedRoute::BackupRestore => Permission::Worlds,
        GuardedRoute::BackupDelete => Permission::Worlds,
        GuardedRoute::BedrockAllowlistChange => Permission::Players,
        GuardedRoute::BrowserPairing => Permission::Admin,
        GuardedRoute::ConsoleCommand => Permission::ServerControl,
        GuardedRoute::RelativeTime => Permission::ServerControl,
        GuardedRoute::AddonInstall => Permission::Addons,
        GuardedRoute::AddonRemove => Permission::Addons,
        GuardedRoute::AddonUpdate => Permission::Addons,
        GuardedRoute::ModpackInspect => Permission::Addons,
        GuardedRoute::ModpackImport => Permission::Addons,
        GuardedRoute::ModpackManualFile => Permission::Addons,
        GuardedRoute::FileBrowse => Permission::Admin,
        GuardedRoute::FileRead => Permission::Admin,
        GuardedRoute::GeyserSettingsUpdate => Permission::Settings,
        GuardedRoute::HealthRepair => Permission::Settings,
        GuardedRoute::HostReset => Permission::Admin,
        GuardedRoute::ServerStart => Permission::ServerControl,
        GuardedRoute::ServerStop => Permission::ServerControl,
        GuardedRoute::ActiveServerSelect => Permission::ServerControl,
        GuardedRoute::DuckDnsUpdate => Permission::Settings,
    }
}

/// The permission that `route` asks of a credential.
pub fn required_permission(route: GuardedRoute) -> (res: Permission)
    ensures
        res == route_category(route),
{
    match route {
        GuardedRoute::BackupSettingsUpdate => Permission::Settings,
        GuardedRoute::BackupNow => Permission::Worlds,
        GuardedRoute::BackupRestore => Permission::Worlds,
        GuardedRoute::BackupDelete => Permission::Worlds,
        GuardedRoute::BedrockAllowlistChange => Permission::Players,
        GuardedRoute::BrowserPairing => Permission::Admin,
        GuardedRoute::ConsoleCommand => Permission::ServerControl,
        GuardedRoute::RelativeTime => Permission::ServerControl,
        GuardedRoute::AddonInstall => Permission::Addons,
        GuardedRoute::AddonRemove => Permission::Addons,
        GuardedRoute::AddonUpdate => Permission::Addons,
        GuardedRoute::ModpackInspect => Permission::Addons,
        GuardedRoute::ModpackImport => Permission::Addons,
        GuardedRoute::ModpackManualFile => Permission::Addons,
        GuardedRoute::FileBrowse => Permission::Admin,
        GuardedRoute::FileRead => Permission::Admin,
        GuardedRoute::GeyserSettingsUpdate => Permission::Settings,
        GuardedRoute::HealthRepair => Permission::Settings,
        GuardedRoute::HostReset => Permission::Admin,
        GuardedRoute::ServerStart => Permission::ServerControl,
        GuardedRoute::ServerStop => Permission::ServerControl,
        GuardedRoute::ActiveServerSelect => Permission::ServerControl,
        GuardedRoute::DuckDnsUpdate => Permission::Settings,
    }
}

/// The guard in front of `route`: `None` where the credential holds the
/// permission the route asks for, or administration; else `403 forbidden`.
pub fn guard_route(permissions: &[Permission], route: GuardedRoute) -> (res: Option<ApiError>)
    ensures
        permits(permissions@, route_category(route)) ==> res is None,
        !permits(permissions@, route_category(route)) ==> (res matches Some(e) && is_forbidden(e)),
{
    require_permission(permissions, required_permission(route))
}

} // verus!
