//! Console commands and relative Minecraft time: which requests are
//! admitted, the slash-free form of a Bedrock command, and the wait for
//! the runtime's answer to its time query.

use vstd::prelude::*;
use crate::api::{ApiError, BAD_REQUEST, CONFLICT, error_response, invalid_body, is_error};
use crate::text::{chars_of, concat_str, is_literal, slice_vec, string_of, trim, trim_vec};

verus! {

/// The command that asks the runtime for the absolute game time.
pub open spec fn time_query_command() -> Seq<char> {
    "time query gametime"@
}

/// The command that asks the runtime for the absolute game time.
pub fn relative_time_query() -> (res: &'static str)
    ensures
        res@ == time_query_command(),
{
    "time query gametime"
}

/// A Bedrock command without one leading slash, as the runtime takes it.
pub fn bedrock_canonical_command(command: &str) -> (res: String)
    ensures
        command@.len() > 0 && command@[0] == '/' ==> res@ == command@.drop_first(),
        !(command@.len() > 0 && command@[0] == '/') ==> res@ == command@,
{
    let c = chars_of(command);
    if c.len() > 0 && c[0] == '/' {
        let rest = slice_vec(c.as_slice(), 1, c.len());
        assert(rest@ =~= command@.drop_first());
        string_of(rest.as_slice())
    } else {
        command.to_owned()
    }
}

/// The named times of day.
#[derive(Debug, Clone, Copy, PartialEq, Eq)]
pub enum RelativeTimePreset {
    Dawn,
    Dusk,
    Night,
}

/// The preset that a preset word names.
pub open spec fn preset_of(raw: Seq<char>) -> Option<RelativeTimePreset> {
    if raw == "dawn"@ {
        Some(RelativeTimePreset::Dawn)
    } else if raw == "dusk"@ {
        Some(RelativeTimePreset::Dusk)
    } else if raw == "night"@ {
        Some(RelativeTimePreset::Night)
    } else {
        None
    }
}

/// Why a relative-time request was refused.
#[derive(Debug, Clone, PartialEq, Eq)]
pub enum TimeRequestRefusal {
    /// No server is active (answered as the lifecycle's own refusal).
    NoActiveServer,
    /// Any other refusal.
    Answer { error: ApiError },
}

/// Admits a relative-time request: the preset, trimmed, must be given and
/// name a time of day; a server must be active and running; a Bedrock
/// runtime must be available.
pub fn admit_relative_time(
    preset: Option<&str>,
    active: bool,
    running: bool,
    is_bedrock: bool,
    bedrock_runtime_available: bool,
) -> (res: Result<RelativeTimePreset, TimeRequestRefusal>)
    ensures
        match preset {
            None => res matches Err(TimeRequestRefusal::Answer { error }) && is_error(
                error,
                BAD_REQUEST,
                "missing_preset"@,
                "A relative time preset is required."@,
            ),
            Some(p) => if trim(p@).len() == 0 {
                res matches Err(TimeRequestRefusal::Answer { error }) && is_error(
                    error,
                    BAD_REQUEST,
                    "missing_preset"@,
                    "A relative time preset is required."@,
                )
            } else if preset_of(trim(p@)) is None {
                res matches Err(TimeRequestRefusal::Answer { error }) && is_error(
                    error,
                    BAD_REQUEST,
                    "invalid_preset"@,
                    "Relative time preset must be dawn, dusk, or night."@,
                )
            } else if !active {
                res == Err::<RelativeTimePreset, TimeRequestRefusal>(TimeRequestRefusal::NoActiveServer)
            } else if !running {
                res matches Err(TimeRequestRefusal::Answer { error }) && is_error(
                    error,
                    CONFLICT,
                    "server_not_running"@,
                    "Relative Minecraft time requires a running server."@,
                )
            } else if is_bedrock && !bedrock_runtime_available {
                res matches Err(TimeRequestRefusal::Answer { error }) && is_error(
                    error,
                    CONFLICT,
                    "capability_unavailable"@,
                    "The selected Bedrock runtime cannot perform relative Minecraft time."@,
                )
            } else {
                res == Ok::<RelativeTimePreset, TimeRequestRefusal>(preset_of(trim(p@)).unwrap())
            },
        },
{
    let p = match preset {
        Some(p) => trim_vec(chars_of(p).as_slice()),
        None => return Err(
            TimeRequestRefusal::Answer {
                error: invalid_body("missing_preset", "A relative time preset is required."),
            },
        ),
    };
    if p.len() == 0 {
        return Err(
            TimeRequestRefusal::Answer {
                error: invalid_body("missing_preset", "A relative time preset is required."),
            },
        );
    }
    let kind = if is_literal(p.as_slice(), "dawn") {
        RelativeTimePreset::Dawn
    } else if is_literal(p.as_slice(), "dusk") {
        RelativeTimePreset::Dusk
    } else if is_literal(p.as_slice(), "night") {
        RelativeTimePreset::Night
    } else {
        return Err(
            TimeRequestRefusal::Answer {
                error: invalid_body(
                    "invalid_preset",
                    "Relative time preset must be dawn, dusk, or night.",
                ),
            },
        );
    };
    if !active {
        return Err(TimeRequestRefusal::NoActiveServer);
    }
    if !running {
        return Err(
            TimeRequestRefusal::Answer {
                error: error_response(
                    CONFLICT,
                    "server_not_running",
                    "Relative Minecraft time requires a running server.",
                ),
            },
        );
    }
    if is_bedrock && !bedrock_runtime_available {
        return Err(
            TimeRequestRefusal::Answer {
                error: error_response(
                    CONFLICT,
                    "capability_unavailable",
                    "The selected Bedrock runtime cannot perform relative Minecraft time.",
                ),
            },
        );
    }
    Ok(kind)
}

/// One look at the runtime's answer to the time query.
#[derive(Debug, Clone, PartialEq, Eq)]
pub enum TimeQueryStep {
    /// A new observation came in with the absolute time.
    Answered { ticks: i64 },
    /// Nothing new yet: wait and look again.
    Wait,
    /// The runtime did not answer in time.
    TimedOut { error: ApiError },
}

/// One look at the runtime's answer: an observation newer than the one
/// before the query that holds the absolute time answers it; otherwise,
/// past the deadline the query timed out, and before it the console waits.
pub fn time_query_step(
    generation_before: u64,
    generation_now: u64,
    absolute_ticks: Option<i64>,
    past_deadline: bool,
) -> (res: TimeQueryStep)
    ensures
        generation_now != generation_before && absolute_ticks is Some ==> res
            == (TimeQueryStep::Answered { ticks: absolute_ticks.unwrap() }),
        !(generation_now != generation_before && absolute_ticks is Some) && past_deadline ==> (
        res matches TimeQueryStep::TimedOut { error } && is_error(
            error,
            CONFLICT,
            "capability_unavailable"@,
            "The selected runtime did not answer its Minecraft time query."@,
        )),
        !(generation_now != generation_before && absolute_ticks is Some) && !past_deadline ==> res
            == TimeQueryStep::Wait,
{
    if generation_now != generation_before {
        if let Some(ticks) = absolute_ticks {
            return TimeQueryStep::Answered { ticks };
        }
    }
    if past_deadline {
        return TimeQueryStep::TimedOut {
            error: error_response(
                CONFLICT,
                "capability_unavailable",
                "The selected runtime did not answer its Minecraft time query.",
            ),
        };
    }
    TimeQueryStep::Wait
}

} // verus!
