//! Backup routes: which restore and delete requests are admitted, what the
//! backup settings answer holds, and how a backup is listed.

use vstd::prelude::*;
use crate::api::{ApiError, BAD_REQUEST, CONFLICT, NOT_FOUND, error_response, invalid_body, is_error};
use crate::clock::{iso8601_from_unix_secs, timestamp_text};
use crate::text::{chars_of, chars_eq, concat_str};

verus! {

/// The interval choices, in minutes, that the backup settings offer.
pub open spec fn interval_options_spec() -> Seq<i64> {
    seq![15i64, 30, 60, 120, 240]
}

/// The interval choices, in minutes, that the backup settings offer.
pub fn interval_options() -> (res: Vec<i64>)
    ensures
        res@ == interval_options_spec(),
{
    let res = vec![15i64, 30, 60, 120, 240];
    assert(res@ =~= interval_options_spec());
    res
}

/// A stored backup as far as the routes read it.
#[derive(Debug, Clone, PartialEq, Eq)]
pub struct BackupRecord {
    pub filename: String,
    pub slot_id: Option<String>,
    pub verified: bool,
}

/// The index of the first backup with this file name.
pub open spec fn backup_index(entries: Seq<BackupRecord>, id: Seq<char>, from: int) -> Option<int>
    decreases entries.len() - from,
{
    if from < 0 || from >= entries.len() {
        None
    } else if entries[from].filename@ == id {
        Some(from)
    } else {
        backup_index(entries, id, from + 1)
    }
}

proof fn lemma_backup_index_bounds(entries: Seq<BackupRecord>, id: Seq<char>, from: int)
    ensures
        backup_index(entries, id, from) matches Some(k) ==> from <= k < entries.len()
            && entries[k].filename@ == id,
    decreases entries.len() - from,
{
    if 0 <= from < entries.len() && entries[from].filename@ != id {
        lemma_backup_index_bounds(entries, id, from + 1);
    }
}

fn find_backup(entries: &Vec<BackupRecord>, id: &str) -> (res: Option<usize>)
    ensures
        res matches Some(k) ==> k < entries.len(),
        match backup_index(entries@, id@, 0) {
            Some(k) => res == Some(k as usize),
            None => res is None,
        },
{
    let wanted = chars_of(id);
    let mut i: usize = 0;
    while i < entries.len()
        invariant
            i <= entries.len(),
            wanted@ == id@,
            backup_index(entries@, id@, 0) == backup_index(entries@, id@, i as int),
        decreases entries.len() - i,
    {
        let name = chars_of(entries[i].filename.as_str());
        if chars_eq(name.as_slice(), wanted.as_slice()) {
            return Some(i);
        }
        i += 1;
    }
    None
}

/// The answer where a named backup does not exist.
pub open spec fn is_backup_not_found(e: ApiError) -> bool {
    is_error(e, NOT_FOUND, "backup_not_found"@, "No such backup."@)
}

/// Admits a restore of the backup `backup_id`, in the order the checks are
/// pinned: the backup must exist; the server must be a Java server; it
/// must be stopped; a backup of a slot may only be restored into that slot
/// where one is active. Gives the index of the backup.
pub fn admit_restore(
    entries: &Vec<BackupRecord>,
    backup_id: &str,
    is_bedrock: bool,
    running: bool,
    active_slot_id: Option<&str>,
) -> (res: Result<usize, ApiError>)
    ensures
        match backup_index(entries@, backup_id@, 0) {
            None => res matches Err(e) && is_backup_not_found(e),
            Some(k) => if is_bedrock {
                res matches Err(e) && is_error(
                    e,
                    CONFLICT,
                    "capability_unavailable"@,
                    "Live-world restore is currently supported for Java servers only."@,
                )
            } else if running {
                res matches Err(e) && is_error(e, CONFLICT, "conflict"@, "Server is running."@)
            } else if entries@[k].slot_id is Some && active_slot_id is Some
                && entries@[k].slot_id.unwrap()@ != active_slot_id.unwrap()@ {
                res matches Err(e) && is_error(
                    e,
                    CONFLICT,
                    "conflict"@,
                    "Backup belongs to a different slot than the active one."@,
                )
            } else {
                res == Ok::<usize, ApiError>(k as usize)
            },
        },
{
    proof {
        lemma_backup_index_bounds(entries@, backup_id@, 0);
    }
    let k = match find_backup(entries, backup_id) {
        Some(k) => k,
        None => return Err(error_response(NOT_FOUND, "backup_not_found", "No such backup.")),
    };
    if is_bedrock {
        return Err(
            error_response(
                CONFLICT,
                "capability_unavailable",
                "Live-world restore is currently supported for Java servers only.",
            ),
        );
    }
    if running {
        return Err(error_response(CONFLICT, "conflict", "Server is running."));
    }
    match (&entries[k].slot_id, active_slot_id) {
        (Some(backup_slot), Some(active)) => {
            let a = chars_of(backup_slot.as_str());
            let b = chars_of(active);
            if !chars_eq(a.as_slice(), b.as_slice()) {
                return Err(
                    error_response(
                        CONFLICT,
                        "conflict",
                        "Backup belongs to a different slot than the active one.",
                    ),
                );
            }
        },
        _ => {},
    }
    Ok(k)
}

/// The number of verified backups among `entries`.
pub open spec fn verified_count(entries: Seq<BackupRecord>) -> nat
    decreases entries.len(),
{
    if entries.len() == 0 {
        0
    } else {
        verified_count(entries.drop_last()) + if entries.last().verified {
            1nat
        } else {
            0nat
        }
    }
}

/// Admits a delete of the backup `backup_id`: the backup must exist, and
/// the last remaining verified backup is never deleted. Gives the index of
/// the backup.
pub fn admit_delete(entries: &Vec<BackupRecord>, backup_id: &str) -> (res: Result<usize, ApiError>)
    ensures
        match backup_index(entries@, backup_id@, 0) {
            None => res matches Err(e) && is_backup_not_found(e),
            Some(k) => if entries@[k].verified && verified_count(entries@) <= 1 {
                res matches Err(e) && is_error(
                    e,
                    CONFLICT,
                    "sole_verified_backup"@,
                    "Cannot delete the last remaining verified backup."@,
                )
            } else {
                res == Ok::<usize, ApiError>(k as usize)
            },
        },
{
    proof {
        lemma_backup_index_bounds(entries@, backup_id@, 0);
    }
    let k = match find_backup(entries, backup_id) {
        Some(k) => k,
        None => return Err(error_response(NOT_FOUND, "backup_not_found", "No such backup.")),
    };
    if entries[k].verified {
        let mut count: usize = 0;
        let mut i: usize = 0;
        while i < entries.len()
            invariant
                i <= entries.len(),
                count == verified_count(entries@.take(i as int)),
                count <= i,
            decreases entries.len() - i,
        {
            assert(entries@.take(i + 1).drop_last() =~= entries@.take(i as int));
            if entries[i].verified {
                count += 1;
            }
            i += 1;
        }
        assert(entries@.take(entries.len() as int) =~= entries@);
        if count <= 1 {
            return Err(
                error_response(
                    CONFLICT,
                    "sole_verified_backup",
                    "Cannot delete the last remaining verified backup.",
                ),
            );
        }
    }
    Ok(k)
}

/// A change of the automatic-backup settings must change something.
pub fn admit_config_update(
    enabled: Option<bool>,
    interval_minutes: Option<i64>,
    max_count: Option<i64>,
) -> (res: Result<(), ApiError>)
    ensures
        enabled is None && interval_minutes is None && max_count is None ==> (res matches Err(e)
            && is_error(e, BAD_REQUEST, "no_changes"@, "At least one field must be present."@)),
        !(enabled is None && interval_minutes is None && max_count is None) ==> res is Ok,
{
    if enabled.is_none() && interval_minutes.is_none() && max_count.is_none() {
        return Err(invalid_body("no_changes", "At least one field must be present."));
    }
    Ok(())
}

/// The automatic-backup settings of the active server.
#[derive(Debug, Clone, PartialEq, Eq)]
pub struct BackupConfig {
    pub server_name: String,
    pub auto_backup_enabled: bool,
    pub auto_backup_interval_minutes: i64,
    pub auto_backup_max_count: i64,
    pub interval_options: Vec<i64>,
    pub note: Option<String>,
}

/// The settings shown where no server is active: disabled, every 30
/// minutes, ten kept, with a note.
pub fn default_backup_config() -> (res: BackupConfig)
    ensures
        res.server_name@.len() == 0,
        !res.auto_backup_enabled,
        res.auto_backup_interval_minutes == 30,
        res.auto_backup_max_count == 10,
        res.interval_options@ == interval_options_spec(),
        res.note matches Some(n) && n@ == "no_active_server"@,
{
    BackupConfig {
        server_name: String::new(),
        auto_backup_enabled: false,
        auto_backup_interval_minutes: 30,
        auto_backup_max_count: 10,
        interval_options: interval_options(),
        note: Some(concat_str(String::new(), "no_active_server")),
    }
}

/// The settings of the active server.
pub fn backup_config(
    server_name: String,
    enabled: bool,
    interval_minutes: i64,
    max_count: i64,
) -> (res: BackupConfig)
    ensures
        res.server_name == server_name,
        res.auto_backup_enabled == enabled,
        res.auto_backup_interval_minutes == interval_minutes,
        res.auto_backup_max_count == max_count,
        res.interval_options@ == interval_options_spec(),
        res.note is None,
{
    BackupConfig {
        server_name,
        auto_backup_enabled: enabled,
        auto_backup_interval_minutes: interval_minutes,
        auto_backup_max_count: max_count,
        interval_options: interval_options(),
        note: None,
    }
}

/// The answer that a restore was started.
#[derive(Debug, Clone, PartialEq, Eq)]
pub struct RestoreStarted {
    pub status: u16,
    pub result: String,
    pub operation_id: Option<String>,
}

/// The answer that an admitted restore was started: `200`, with the result
/// `restore_started` and the operation that carries it on.
pub fn restore_accepted(operation_id: String) -> (res: RestoreStarted)
    ensures
        res.status == 200,
        res.result@ == "restore_started"@,
        res.operation_id == Some(operation_id),
{
    RestoreStarted {
        status: 200,
        result: concat_str(String::new(), "restore_started"),
        operation_id: Some(operation_id),
    }
}

/// How a restore that was started came out.
#[derive(Debug, Clone, PartialEq, Eq)]
pub enum RestoreOutcome {
    Restored,
    Cancelled,
    BedrockNotSupported { message: String },
    Failed { message: String },
    Panicked,
}

/// How the restore's operation is finished.
#[derive(Debug, Clone, PartialEq, Eq)]
pub enum OperationFinish {
    Succeed { message: String, result: String },
    Cancel { message: String },
    Fail { code: String, message: String },
}

/// How the restore's operation is finished for each outcome.
pub fn restore_finish(outcome: RestoreOutcome) -> (res: OperationFinish)
    ensures
        match outcome {
            RestoreOutcome::Restored => res matches OperationFinish::Succeed { message, result }
                && message@ == "Restore complete."@ && result@ == "restored"@,
            RestoreOutcome::Cancelled => res matches OperationFinish::Cancel { message } && message@
                == "Restore cancelled."@,
            RestoreOutcome::BedrockNotSupported { message: m } => res matches OperationFinish::Fail {
                code,
                message,
            } && code@ == "capability_unavailable"@ && message == m,
            RestoreOutcome::Failed { message: m } => res matches OperationFinish::Fail {
                code,
                message,
            } && code@ == "restore_error"@ && message == m,
            RestoreOutcome::Panicked => res matches OperationFinish::Fail { code, message } && code@
                == "internal_error"@ && message@ == "Restore task panicked."@,
        },
{
    match outcome {
        RestoreOutcome::Restored => OperationFinish::Succeed {
            message: concat_str(String::new(), "Restore complete."),
            result: concat_str(String::new(), "restored"),
        },
        RestoreOutcome::Cancelled => OperationFinish::Cancel {
            message: concat_str(String::new(), "Restore cancelled."),
        },
        RestoreOutcome::BedrockNotSupported { message } => OperationFinish::Fail {
            code: concat_str(String::new(), "capability_unavailable"),
            message,
        },
        RestoreOutcome::Failed { message } => OperationFinish::Fail {
            code: concat_str(String::new(), "restore_error"),
            message,
        },
        RestoreOutcome::Panicked => OperationFinish::Fail {
            code: concat_str(String::new(), "internal_error"),
            message: concat_str(String::new(), "Restore task panicked."),
        },
    }
}

/// A stored backup as the backup list shows it.
#[derive(Debug, Clone, PartialEq, Eq)]
pub struct BackupItem {
    pub id: String,
    pub display_name: String,
    pub file_size: Option<i64>,
    pub modification_date: Option<String>,
    pub is_automatic: bool,
    pub slot_id: Option<String>,
    pub slot_name: Option<String>,
    pub trigger_reason: String,
}

/// A backup as the list shows it: its file name as its id, its size, and
/// its modification time as a UTC timestamp.
pub fn to_item_dto(
    filename: String,
    display_name: String,
    file_size: Option<u64>,
    modified_secs: Option<u64>,
    is_automatic: bool,
    slot_id: Option<String>,
    slot_name: Option<String>,
    trigger_reason: String,
) -> (res: BackupItem)
    requires
        file_size matches Some(n) ==> n <= i64::MAX,
    ensures
        res.id == filename,
        res.display_name == display_name,
        res.file_size == match file_size {
            Some(n) => Some(n as i64),
            None => None::<i64>,
        },
        match modified_secs {
            Some(s) => res.modification_date matches Some(d) && d@ == timestamp_text(s as nat),
            None => res.modification_date is None,
        },
        res.is_automatic == is_automatic,
        res.slot_id == slot_id,
        res.slot_name == slot_name,
        res.trigger_reason == trigger_reason,
{
    BackupItem {
        id: filename,
        display_name,
        file_size: match file_size {
            Some(n) => Some(n as i64),
            None => None,
        },
        modification_date: match modified_secs {
            Some(s) => Some(iso8601_from_unix_secs(s)),
            None => None,
        },
        is_automatic,
        slot_id,
        slot_name,
        trigger_reason,
    }
}

} // verus!
