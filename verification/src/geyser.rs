//! The Geyser bridge settings of a Java server: what the settings answer
//! holds and which changes are admitted.

use vstd::prelude::*;
use crate::api::{ApiError, CONFLICT, error_response, is_error};
use crate::text::concat_str;

verus! {

/// The Geyser settings answer.
#[derive(Debug, Clone, PartialEq, Eq)]
pub struct GeyserConfig {
    pub server_name: String,
    pub server_type: String,
    pub is_geyser_installed: bool,
    pub address: Option<String>,
    pub port: Option<i64>,
    pub config_file_exists: bool,
    pub note: Option<String>,
}

/// The settings answer where there is nothing to show, with a note.
pub fn empty_response(note: &str) -> (res: GeyserConfig)
    ensures
        res.server_name@.len() == 0,
        res.server_type@ == "java"@,
        !res.is_geyser_installed,
        res.address is None,
        res.port is None,
        !res.config_file_exists,
        res.note matches Some(n) && n@ == note@,
{
    GeyserConfig {
        server_name: String::new(),
        server_type: concat_str(String::new(), "java"),
        is_geyser_installed: false,
        address: None,
        port: None,
        config_file_exists: false,
        note: Some(note.to_owned()),
    }
}

/// The settings answer of a Java server: the note says where Geyser is not
/// installed.
pub fn geyser_config(
    server_name: String,
    installed: bool,
    address: Option<String>,
    port: Option<u16>,
    config_file_exists: bool,
) -> (res: GeyserConfig)
    ensures
        res.server_name == server_name,
        res.server_type@ == "java"@,
        res.is_geyser_installed == installed,
        res.address == address,
        res.port == match port {
            Some(p) => Some(p as i64),
            None => None::<i64>,
        },
        res.config_file_exists == config_file_exists,
        installed ==> res.note is None,
        !installed ==> (res.note matches Some(n) && n@ == "geyser_not_installed"@),
{
    GeyserConfig {
        server_name,
        server_type: concat_str(String::new(), "java"),
        is_geyser_installed: installed,
        address,
        port: match port {
            Some(p) => Some(p as i64),
            None => None,
        },
        config_file_exists,
        note: if installed {
            None
        } else {
            Some(concat_str(String::new(), "geyser_not_installed"))
        },
    }
}

/// Admits a change of the Geyser settings: a server must be active, a
/// Java server, with Geyser installed.
pub fn admit_geyser_update(active: bool, is_java: bool, installed: bool) -> (res: Result<(), ApiError>)
    ensures
        !active ==> (res matches Err(e) && is_error(
            e,
            CONFLICT,
            "no_active_server"@,
            "No active server."@,
        )),
        active && !is_java ==> (res matches Err(e) && is_error(
            e,
            CONFLICT,
            "not_supported"@,
            "Geyser is available only for Java servers."@,
        )),
        active && is_java && !installed ==> (res matches Err(e) && is_error(
            e,
            CONFLICT,
            "not_installed"@,
            "Geyser is not installed for this server."@,
        )),
        active && is_java && installed ==> res is Ok,
{
    if !active {
        return Err(error_response(CONFLICT, "no_active_server", "No active server."));
    }
    if !is_java {
        return Err(
            error_response(CONFLICT, "not_supported", "Geyser is available only for Java servers."),
        );
    }
    if !installed {
        return Err(
            error_response(CONFLICT, "not_installed", "Geyser is not installed for this server."),
        );
    }
    Ok(())
}

} // verus!
