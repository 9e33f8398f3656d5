//! Short texts that the console shows for values the agent reports.

use vstd::prelude::*;
use crate::text::{chars_of, concat_str, is_literal};

verus! {

/// `ON`, `OFF`, or `unknown` where the agent did not say.
pub fn on_off(value: Option<bool>) -> (res: &'static str)
    ensures
        res@ == match value {
            Some(true) => "ON"@,
            Some(false) => "OFF"@,
            None => "unknown"@,
        },
{
    match value {
        Some(true) => "ON",
        Some(false) => "OFF",
        None => "unknown",
    }
}

/// A value, or `(not set)` where it is empty.
pub fn empty_as_default(value: &str) -> (res: &str)
    ensures
        value@.len() == 0 ==> res@ == "(not set)"@,
        value@.len() > 0 ==> res@ == value@,
{
    if value.is_empty() {
        "(not set)"
    } else {
        value
    }
}

/// A path below the server root, as the file browser titles it.
pub fn display_file_path(path: &str) -> (res: String)
    ensures
        path@.len() == 0 ==> res@ == "Server Root"@,
        path@.len() > 0 ==> res@ == "Server Root / "@ + path@,
{
    if path.is_empty() {
        concat_str(String::new(), "Server Root")
    } else {
        concat_str(concat_str(String::new(), "Server Root / "), path)
    }
}

/// The sentence for a note of the player roster; other notes stand as
/// they are.
pub fn player_note(note: &str) -> (res: &str)
    ensures
        note@ == "not_bedrock"@ ==> res@ == "online roster is only available for Bedrock servers"@,
        note@ == "no_active_server"@ ==> res@ == "no active server"@,
        note@ != "not_bedrock"@ && note@ != "no_active_server"@ ==> res@ == note@,
{
    let n = chars_of(note);
    proof {
        reveal_strlit("not_bedrock");
        reveal_strlit("no_active_server");
        assert("not_bedrock"@.len() != "no_active_server"@.len());
    }
    if is_literal(n.as_slice(), "not_bedrock") {
        "online roster is only available for Bedrock servers"
    } else if is_literal(n.as_slice(), "no_active_server") {
        "no active server"
    } else {
        note
    }
}

} // verus!
