//! Browser and desktop pairing: which pairing requests are admitted, and
//! how each refusal of a pairing code is answered and audited.

use vstd::prelude::*;
use crate::api::{ApiError, BAD_REQUEST, CONFLICT, FORBIDDEN, INTERNAL_SERVER_ERROR, error_response, invalid_body, is_error};
use crate::text::{chars_of, concat_str, decimal, is_literal, string_of, trim, trim_vec};

verus! {

/// `401 Unauthorized`.
pub const UNAUTHORIZED: u16 = 401;
/// `410 Gone`.
pub const GONE: u16 = 410;
/// `429 Too Many Requests`.
pub const TOO_MANY_REQUESTS: u16 = 429;

/// What a credential may do.
#[derive(Debug, Clone, Copy, PartialEq, Eq)]
pub enum CredentialRole {
    Admin,
    Guest,
    Named,
}

/// The role that a role word names.
pub open spec fn role_of(role: Seq<char>) -> Option<CredentialRole> {
    if role == "admin"@ {
        Some(CredentialRole::Admin)
    } else if role == "guest"@ {
        Some(CredentialRole::Guest)
    } else if role == "named"@ {
        Some(CredentialRole::Named)
    } else {
        None
    }
}

/// The role that a role word names.
pub fn parse_role(role: &str) -> (res: Option<CredentialRole>)
    ensures
        res == role_of(role@),
{
    let r = chars_of(role);
    if is_literal(r.as_slice(), "admin") {
        Some(CredentialRole::Admin)
    } else if is_literal(r.as_slice(), "guest") {
        Some(CredentialRole::Guest)
    } else if is_literal(r.as_slice(), "named") {
        Some(CredentialRole::Named)
    } else {
        None
    }
}

/// A request to create a browser pairing code.
#[derive(Debug, Clone, PartialEq, Eq)]
pub struct PairingCreateRequest {
    pub client_kind: String,
    pub label: String,
    pub role: String,
    pub expires_at: Option<String>,
}

/// Admits a browser pairing request, in this order: it must be for a
/// browser; its role must be known; its label must not be blank; the
/// caller must not be rate limited; it must not ask for its own expiry.
/// Gives the role and the trimmed label.
pub fn admit_pairing_creation(request: &PairingCreateRequest, rate_limited: bool) -> (res: Result<
    (CredentialRole, String),
    ApiError,
>)
    ensures
        request.client_kind@ != "browser"@ ==> (res matches Err(e) && is_error(
            e,
            BAD_REQUEST,
            "invalid_client_kind"@,
            "This endpoint creates browser pairing codes only."@,
        )),
        request.client_kind@ == "browser"@ ==> if role_of(request.role@) is None {
            res matches Err(e) && is_error(
                e,
                BAD_REQUEST,
                "invalid_role"@,
                "The pairing role is not recognized."@,
            )
        } else if trim(request.label@).len() == 0 {
            res matches Err(e) && is_error(
                e,
                BAD_REQUEST,
                "label_empty"@,
                "The pairing label must not be blank."@,
            )
        } else if rate_limited {
            res matches Err(e) && is_error(e, TOO_MANY_REQUESTS, "rate_limited"@, "Try again later."@)
        } else if request.expires_at is Some {
            res matches Err(e) && is_error(
                e,
                BAD_REQUEST,
                "invalid_expiry"@,
                "Browser pairing expiry is managed by the agent session policy."@,
            )
        } else {
            res matches Ok((role, label)) && role == role_of(request.role@).unwrap() && label@
                == trim(request.label@)
        },
{
    let kind = chars_of(request.client_kind.as_str());
    if !is_literal(kind.as_slice(), "browser") {
        return Err(
            invalid_body("invalid_client_kind", "This endpoint creates browser pairing codes only."),
        );
    }
    let role = match parse_role(request.role.as_str()) {
        Some(role) => role,
        None => return Err(invalid_body("invalid_role", "The pairing role is not recognized.")),
    };
    let label = trim_vec(chars_of(request.label.as_str()).as_slice());
    if label.len() == 0 {
        return Err(invalid_body("label_empty", "The pairing label must not be blank."));
    }
    if rate_limited {
        return Err(error_response(TOO_MANY_REQUESTS, "rate_limited", "Try again later."));
    }
    if request.expires_at.is_some() {
        return Err(
            invalid_body(
                "invalid_expiry",
                "Browser pairing expiry is managed by the agent session policy.",
            ),
        );
    }
    Ok((role, string_of(label.as_slice())))
}

/// Why a pairing code was not redeemed.
#[derive(Debug, Clone, PartialEq, Eq)]
pub enum PairingError {
    Consumed,
    Expired,
    Store { message: String },
    Unauthorized,
}

/// The answer to a refused pairing code: a used code conflicts, an
/// expired one is gone, a store failure is internal, and an unknown code is
/// unauthorized, or rate limited where the browser failures of the caller
/// are.
pub open spec fn pairing_refusal(error: PairingError, rate_limited: bool, e: ApiError) -> bool {
    match error {
        PairingError::Consumed => is_error(
            e,
            CONFLICT,
            "pairing_consumed"@,
            "This pairing code was already used."@,
        ),
        PairingError::Expired => is_error(
            e,
            GONE,
            "pairing_expired"@,
            "This pairing code has expired."@,
        ),
        PairingError::Store { message } => is_error(e, INTERNAL_SERVER_ERROR, "internal_error"@, message@),
        PairingError::Unauthorized => if rate_limited {
            is_error(e, TOO_MANY_REQUESTS, "rate_limited"@, "Try again later."@)
        } else {
            is_error(e, UNAUTHORIZED, "unauthorized"@, "The pairing code is invalid."@)
        },
    }
}

/// The audit event of a refused browser pairing code, where one is
/// recorded: its status and event name.
pub open spec fn refusal_audit(error: PairingError, rate_limited: bool) -> Option<(u16, Seq<char>)> {
    match error {
        PairingError::Consumed => Some((CONFLICT, "pairing_consumed"@)),
        PairingError::Expired => Some((GONE, "pairing_expired"@)),
        PairingError::Store { .. } => None,
        PairingError::Unauthorized => if rate_limited {
            Some((TOO_MANY_REQUESTS, "rate_limited"@))
        } else {
            Some((UNAUTHORIZED, "unauthorized"@))
        },
    }
}

/// The answer to a refused pairing code, and the audit event recorded for
/// a browser exchange.
pub fn refuse_pairing(error: PairingError, rate_limited: bool) -> (res: (ApiError, Option<(u16, String)>))
    ensures
        pairing_refusal(error, rate_limited, res.0),
        match refusal_audit(error, rate_limited) {
            None => res.1 is None,
            Some((status, event)) => res.1 matches Some((s, ev)) && s == status && ev@ == event,
        },
{
    match error {
        PairingError::Consumed => (
            error_response(CONFLICT, "pairing_consumed", "This pairing code was already used."),
            Some((CONFLICT, concat_str(String::new(), "pairing_consumed"))),
        ),
        PairingError::Expired => (
            error_response(GONE, "pairing_expired", "This pairing code has expired."),
            Some((GONE, concat_str(String::new(), "pairing_expired"))),
        ),
        PairingError::Store { message } => (
            error_response(INTERNAL_SERVER_ERROR, "internal_error", message.as_str()),
            None,
        ),
        PairingError::Unauthorized => if rate_limited {
            (
                error_response(TOO_MANY_REQUESTS, "rate_limited", "Try again later."),
                Some((TOO_MANY_REQUESTS, concat_str(String::new(), "rate_limited"))),
            )
        } else {
            (
                error_response(UNAUTHORIZED, "unauthorized", "The pairing code is invalid."),
                Some((UNAUTHORIZED, concat_str(String::new(), "unauthorized"))),
            )
        },
    }
}

/// The answer where a browser pairing comes from another origin.
pub fn wrong_origin() -> (res: ApiError)
    ensures
        is_error(res, FORBIDDEN, "wrong_origin"@, "Browser pairing must use this agent origin."@),
{
    error_response(FORBIDDEN, "wrong_origin", "Browser pairing must use this agent origin.")
}

/// The answer where the browser session of a CSRF request is not valid.
pub fn csrf_refusal(store_failure: Option<&str>) -> (res: ApiError)
    ensures
        match store_failure {
            Some(m) => is_error(res, INTERNAL_SERVER_ERROR, "internal_error"@, m@),
            None => is_error(
                res,
                UNAUTHORIZED,
                "unauthorized"@,
                "The browser session is not valid."@,
            ),
        },
{
    match store_failure {
        Some(m) => error_response(INTERNAL_SERVER_ERROR, "internal_error", m),
        None => error_response(UNAUTHORIZED, "unauthorized", "The browser session is not valid."),
    }
}

/// A freshly created browser pairing code.
#[derive(Debug, Clone, PartialEq, Eq)]
pub struct PairingCreateResult {
    pub pairing_code: String,
    pub agent_host_id: String,
    pub client_kind: String,
    pub expires_at: String,
}

/// The answer that hands out a browser pairing code expiring at
/// `expires_at_secs` (Unix seconds).
pub fn pairing_created(pairing_code: String, expires_at_secs: u64) -> (res: PairingCreateResult)
    ensures
        res.pairing_code == pairing_code,
        res.agent_host_id@ == "browser-session-agent"@,
        res.client_kind@ == "browser"@,
        res.expires_at@ == decimal(expires_at_secs as nat),
{
    PairingCreateResult {
        pairing_code,
        agent_host_id: concat_str(String::new(), "browser-session-agent"),
        client_kind: concat_str(String::new(), "browser"),
        expires_at: crate::clock::unix_timestamp(expires_at_secs),
    }
}

} // verus!
