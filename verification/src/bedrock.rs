//! Bedrock players and allowlist routes: which requests are admitted and
//! what the roster answer holds where there is no Bedrock server.

use vstd::prelude::*;
use crate::api::{ApiError, BAD_REQUEST, CONFLICT, error_response, invalid_body, is_error};
use crate::text::{chars_of, concat_str, trim, trim_vec};

verus! {

/// Where the active server stands for a Bedrock route.
#[derive(Debug, Clone, Copy, PartialEq, Eq)]
pub enum BedrockTarget {
    NoActiveServer,
    NotBedrock,
    Bedrock,
}

/// Admits an allowlist read: the active server must be a Bedrock server.
pub fn admit_allowlist(target: BedrockTarget) -> (res: Result<(), ApiError>)
    ensures
        target == BedrockTarget::NoActiveServer ==> (res matches Err(e) && is_error(
            e,
            CONFLICT,
            "conflict"@,
            "No server is currently active."@,
        )),
        target == BedrockTarget::NotBedrock ==> (res matches Err(e) && is_error(
            e,
            CONFLICT,
            "not_bedrock"@,
            "The active server is not Bedrock."@,
        )),
        target == BedrockTarget::Bedrock ==> res is Ok,
{
    match target {
        BedrockTarget::NoActiveServer => Err(
            error_response(CONFLICT, "conflict", "No server is currently active."),
        ),
        BedrockTarget::NotBedrock => Err(
            error_response(CONFLICT, "not_bedrock", "The active server is not Bedrock."),
        ),
        BedrockTarget::Bedrock => Ok(()),
    }
}

/// Admits an allowlist change: the active server must be a Bedrock server,
/// and the action and player name must not be blank. Gives both.
pub fn admit_allowlist_change(
    target: BedrockTarget,
    action: Option<String>,
    name: Option<String>,
) -> (res: Result<(String, String), ApiError>)
    ensures
        target != BedrockTarget::Bedrock ==> res is Err,
        target == BedrockTarget::Bedrock ==> match action {
            Some(a) if trim(a@).len() > 0 => match name {
                Some(n) if trim(n@).len() > 0 => res == Ok::<(String, String), ApiError>((a, n)),
                _ => res matches Err(e) && is_error(
                    e,
                    BAD_REQUEST,
                    "missing_name"@,
                    "name is required."@,
                ),
            },
            _ => res matches Err(e) && is_error(
                e,
                BAD_REQUEST,
                "missing_action"@,
                "action is required."@,
            ),
        },
{
    match admit_allowlist(target) {
        Err(e) => return Err(e),
        Ok(()) => {},
    }
    let action = match action {
        Some(a) => if trim_vec(chars_of(a.as_str()).as_slice()).len() > 0 {
            a
        } else {
            return Err(invalid_body("missing_action", "action is required."));
        },
        None => return Err(invalid_body("missing_action", "action is required.")),
    };
    let name = match name {
        Some(n) => if trim_vec(chars_of(n.as_str()).as_slice()).len() > 0 {
            n
        } else {
            return Err(invalid_body("missing_name", "name is required."));
        },
        None => return Err(invalid_body("missing_name", "name is required.")),
    };
    Ok((action, name))
}

/// The note of a player roster that cannot be listed: no active server,
/// or a server that is not Bedrock.
pub fn roster_note(target: BedrockTarget) -> (res: Option<String>)
    ensures
        target == BedrockTarget::NoActiveServer ==> (res matches Some(n) && n@ == "no_active_server"@),
        target == BedrockTarget::NotBedrock ==> (res matches Some(n) && n@ == "not_bedrock"@),
        target == BedrockTarget::Bedrock ==> res is None,
{
    match target {
        BedrockTarget::NoActiveServer => Some(concat_str(String::new(), "no_active_server")),
        BedrockTarget::NotBedrock => Some(concat_str(String::new(), "not_bedrock")),
        BedrockTarget::Bedrock => None,
    }
}

/// A live Bedrock operation needs the runtime: where the active server is
/// a Bedrock server whose runtime is not available, the operation is
/// refused.
pub fn runtime_required(target: BedrockTarget, runtime_available: bool) -> (res: bool)
    ensures
        res == (target == BedrockTarget::Bedrock && !runtime_available),
{
    match target {
        BedrockTarget::Bedrock => !runtime_available,
        _ => false,
    }
}

} // verus!
