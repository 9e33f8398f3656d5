//! Choosing the server that console commands act on: a selector names a
//! registered server by its id, by its exact name, or by its name in any
//! ASCII case, and must name exactly one.

use vstd::prelude::*;
use crate::error::CliError;
use crate::text::{chars_eq, chars_of, concat_str, string_of, to_ascii_lowercase, to_ascii_lowercase_exec, trim, trim_vec};
use crate::tui::server_editor::ServerSummary;

verus! {

/// How `{:?}` writes a string: quoted, with special characters escaped.
pub uninterp spec fn debug_text(s: Seq<char>) -> Seq<char>;

/// A string as `{:?}` writes it (`<str as Debug>::fmt`).
#[verifier::external_body]
fn debug_quoted(s: &str) -> (res: String)
    ensures
        res@ == debug_text(s@),
{
    format!("{s:?}")
}

/// The selector, trimmed; a blank or missing one is refused.
pub fn server_selector(selector: Option<&str>) -> (res: Result<String, CliError>)
    ensures
        match selector {
            Some(s) if trim(s@).len() > 0 => res matches Ok(t) && t@ == trim(s@),
            _ => res matches Err(CliError::Usage { message }) && message@
                == "server selector cannot be empty"@,
        },
{
    let refused = CliError::usage(concat_str(String::new(), "server selector cannot be empty"));
    match selector {
        Some(s) => {
            let t = trim_vec(chars_of(s).as_slice());
            if t.len() == 0 {
                Err(refused)
            } else {
                Ok(string_of(t.as_slice()))
            }
        },
        None => Err(refused),
    }
}

/// The indices among the first `n` servers whose name, folded to lower
/// case where `folded`, equals `name`.
pub open spec fn name_matches(servers: Seq<ServerSummary>, name: Seq<char>, folded: bool, n: int) -> Seq<int>
    decreases n,
{
    if n <= 0 {
        Seq::empty()
    } else {
        let s = servers[n - 1].name@;
        name_matches(servers, name, folded, n - 1) + if (if folded {
            to_ascii_lowercase(s)
        } else {
            s
        }) == name {
            seq![n - 1]
        } else {
            Seq::empty()
        }
    }
}

/// The index of the first server with this id.
pub open spec fn id_match(servers: Seq<ServerSummary>, id: Seq<char>, from: int) -> Option<int>
    decreases servers.len() - from,
{
    if from < 0 || from >= servers.len() {
        None
    } else if servers[from].id@ == id {
        Some(from)
    } else {
        id_match(servers, id, from + 1)
    }
}

/// Which server a selector resolves to, or the message that refuses it:
/// the first server with the selector as its id; else the only server with
/// it as its name; else the only server with it as its name in any ASCII
/// case. No servers at all, several matches, or none are refused.
pub open spec fn resolution(servers: Seq<ServerSummary>, selector: Seq<char>) -> Result<int, Seq<char>> {
    let exact = name_matches(servers, selector, false, servers.len() as int);
    let folded = name_matches(servers, to_ascii_lowercase(selector), true, servers.len() as int);
    if servers.len() == 0 {
        Err("the agent reports no imported servers"@)
    } else if id_match(servers, selector, 0) is Some {
        Ok(id_match(servers, selector, 0).unwrap())
    } else if exact.len() == 1 {
        Ok(exact[0])
    } else if exact.len() > 1 {
        Err("multiple servers are named "@ + debug_text(selector) + "; use the server id instead"@)
    } else if folded.len() == 1 {
        Ok(folded[0])
    } else if folded.len() > 1 {
        Err("multiple servers match "@ + debug_text(selector) + "; use the server id instead"@)
    } else {
        Err("no imported server matched "@ + debug_text(selector))
    }
}

proof fn lemma_id_match_bounds(servers: Seq<ServerSummary>, id: Seq<char>, from: int)
    ensures
        id_match(servers, id, from) matches Some(i) ==> from <= i < servers.len(),
    decreases servers.len() - from,
{
    if !(from < 0 || from >= servers.len()) && servers[from].id@ != id {
        lemma_id_match_bounds(servers, id, from + 1);
    }
}

proof fn lemma_name_matches_bounds(servers: Seq<ServerSummary>, name: Seq<char>, folded: bool, n: int)
    requires
        n <= servers.len(),
    ensures
        forall|k: int|
            0 <= k < name_matches(servers, name, folded, n).len() ==> 0 <= #[trigger] name_matches(
                servers,
                name,
                folded,
                n,
            )[k] < n,
    decreases n,
{
    if n > 0 {
        lemma_name_matches_bounds(servers, name, folded, n - 1);
        let prev = name_matches(servers, name, folded, n - 1);
        let all = name_matches(servers, name, folded, n);
        assert forall|k: int| 0 <= k < all.len() implies 0 <= #[trigger] all[k] < n by {
            if k < prev.len() {
                assert(all[k] == prev[k]);
            } else {
                assert(all[k] == n - 1);
            }
        }
    }
}

fn name_matches_exec(servers: &Vec<ServerSummary>, name: &[char], folded: bool) -> (res: Vec<usize>)
    ensures
        res@.len() == name_matches(servers@, name@, folded, servers@.len() as int).len(),
        forall|k: int|
            0 <= k < res@.len() ==> res@[k] as int == #[trigger] name_matches(
                servers@,
                name@,
                folded,
                servers@.len() as int,
            )[k],
{
    let mut out: Vec<usize> = Vec::new();
    let mut i: usize = 0;
    while i < servers.len()
        invariant
            i <= servers.len(),
            out@.len() == name_matches(servers@, name@, folded, i as int).len(),
            forall|k: int|
                0 <= k < out@.len() ==> out@[k] as int == #[trigger] name_matches(
                    servers@,
                    name@,
                    folded,
                    i as int,
                )[k],
        decreases servers.len() - i,
    {
        let n = chars_of(servers[i].name.as_str());
        let candidate = if folded {
            to_ascii_lowercase_exec(n.as_slice())
        } else {
            n
        };
        if chars_eq(candidate.as_slice(), name) {
            out.push(i);
        }
        i += 1;
    }
    out
}

fn id_match_exec(servers: &Vec<ServerSummary>, id: &[char]) -> (res: Option<usize>)
    ensures
        match res {
            Some(i) => id_match(servers@, id@, 0) == Some(i as int),
            None => id_match(servers@, id@, 0) is None,
        },
{
    let mut i: usize = 0;
    while i < servers.len()
        invariant
            i <= servers.len(),
            id_match(servers@, id@, 0) == id_match(servers@, id@, i as int),
        decreases servers.len() - i,
    {
        if chars_eq(chars_of(servers[i].id.as_str()).as_slice(), id) {
            return Some(i);
        }
        i += 1;
    }
    None
}

/// The registered server that `selector` names (see `resolution`).
pub fn resolve_server<'a>(servers: &'a Vec<ServerSummary>, selector: &str) -> (res: Result<
    &'a ServerSummary,
    CliError,
>)
    ensures
        match resolution(servers@, selector@) {
            Ok(i) => 0 <= i < servers@.len() && res == Ok::<&ServerSummary, CliError>(&servers@[i]),
            Err(m) => res matches Err(CliError::Usage { message }) && message@ == m,
        },
{
    let sel = chars_of(selector);
    proof {
        lemma_id_match_bounds(servers@, selector@, 0);
        lemma_name_matches_bounds(servers@, selector@, false, servers@.len() as int);
        lemma_name_matches_bounds(servers@, to_ascii_lowercase(selector@), true, servers@.len() as int);
    }
    if servers.len() == 0 {
        return Err(CliError::usage(concat_str(String::new(), "the agent reports no imported servers")));
    }
    if let Some(i) = id_match_exec(servers, sel.as_slice()) {
        return Ok(&servers[i]);
    }
    let exact = name_matches_exec(servers, sel.as_slice(), false);
    if exact.len() == 1 {
        return Ok(&servers[exact[0]]);
    }
    if exact.len() > 1 {
        let t = concat_str(String::new(), "multiple servers are named ");
        let t = concat_str(t, debug_quoted(selector).as_str());
        return Err(CliError::usage(concat_str(t, "; use the server id instead")));
    }
    let folded_selector = to_ascii_lowercase_exec(sel.as_slice());
    let folded = name_matches_exec(servers, folded_selector.as_slice(), true);
    if folded.len() == 1 {
        return Ok(&servers[folded[0]]);
    }
    if folded.len() > 1 {
        let t = concat_str(String::new(), "multiple servers match ");
        let t = concat_str(t, debug_quoted(selector).as_str());
        return Err(CliError::usage(concat_str(t, "; use the server id instead")));
    }
    Err(
        CliError::usage(
            concat_str(concat_str(String::new(), "no imported server matched "), debug_quoted(selector).as_str()),
        ),
    )
}

} // verus!
