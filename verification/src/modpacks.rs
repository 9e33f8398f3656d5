//! Modpack imports and add-on installs: which requests are admitted and in
//! which order, how an import ends or pauses for files that must be
//! supplied by hand, the imports that wait for such files, and how each
//! file completes its import.

use vstd::prelude::*;
use vstd::string::StringSliceAdditionalSpecFns;
use crate::api::{
    ApiError, BAD_REQUEST, CONFLICT, INTERNAL_SERVER_ERROR, NOT_FOUND, Permission, error_response,
    invalid_body, is_error, is_forbidden, permits, require_permission,
};
use crate::components::{
    AddonMutationFailure, OperationEnd, failure_end, failure_to_end, is_no_active_server,
};
use crate::staging::{
    PendingImport, PendingManualFile, StagedEntry, StagedUploadPurpose, StagingStore, entry_index,
    find_import, find_manual_file, import_index, is_unknown_upload, lemma_import_index,
    lemma_manual_file_index, manual_file_index, redeemable,
};
use crate::text::{chars_of, concat_str, decimal, decimal_exec, is_literal, string_of, trim, trim_vec, words};

verus! {

/// Whether an import replaces the installed add-ons: `import` adds to
/// them, `replace` replaces them, any other action is refused.
pub fn parse_import_action(action: &str) -> (res: Result<bool, ApiError>)
    ensures
        action@ == "import"@ ==> res == Ok::<bool, ApiError>(false),
        action@ == "replace"@ ==> res == Ok::<bool, ApiError>(true),
        action@ != "import"@ && action@ != "replace"@ ==> (res matches Err(e) && is_error(
            e,
            BAD_REQUEST,
            "invalid_action"@,
            "action must be import or replace."@,
        )),
{
    let a = chars_of(action);
    proof {
        reveal_strlit("import");
        reveal_strlit("replace");
        assert("import"@.len() != "replace"@.len());
    }
    if is_literal(a.as_slice(), "import") {
        Ok(false)
    } else if is_literal(a.as_slice(), "replace") {
        Ok(true)
    } else {
        Err(invalid_body("invalid_action", "action must be import or replace."))
    }
}

/// A CurseForge pack needs a saved, non-blank API key; other packs need
/// none. `saved_key` is what the secret store gave back.
pub fn check_curseforge_key(is_curseforge: bool, saved_key: Result<Option<String>, String>) -> (res:
    Result<(), ApiError>)
    ensures
        !is_curseforge ==> res is Ok,
        is_curseforge ==> match saved_key {
            Err(m) => res matches Err(e) && is_error(e, INTERNAL_SERVER_ERROR, "internal_error"@, m@),
            Ok(Some(k)) => if trim(k@).len() > 0 {
                res is Ok
            } else {
                res matches Err(e) && is_error(
                    e,
                    BAD_REQUEST,
                    "missing_curseforge_api_key"@,
                    "This CurseForge modpack needs an API key. Save one in MSC Settings, then retry the import."@,
                )
            },
            Ok(None) => res matches Err(e) && is_error(
                e,
                BAD_REQUEST,
                "missing_curseforge_api_key"@,
                "This CurseForge modpack needs an API key. Save one in MSC Settings, then retry the import."@,
            ),
        },
{
    if !is_curseforge {
        return Ok(());
    }
    let configured = match saved_key {
        Err(m) => return Err(error_response(INTERNAL_SERVER_ERROR, "internal_error", m.as_str())),
        Ok(Some(k)) => trim_vec(chars_of(k.as_str()).as_slice()).len() > 0,
        Ok(None) => false,
    };
    if !configured {
        return Err(
            invalid_body(
                "missing_curseforge_api_key",
                "This CurseForge modpack needs an API key. Save one in MSC Settings, then retry the import.",
            ),
        );
    }
    Ok(())
}

/// How an import went.
#[derive(Debug, Clone, PartialEq, Eq)]
pub enum ImportReport {
    /// The pack was imported, except for `blocked_files` that must be
    /// supplied by hand; `cancelled` where the operator stopped it.
    Imported {
        blocked_files: Vec<PendingManualFile>,
        pack_name: String,
        pack_version: String,
        cancelled: bool,
    },
    /// The import failed.
    Failed { message: String },
}

/// How the import's operation is left.
#[derive(Debug, Clone, PartialEq, Eq)]
pub enum ImportFinish {
    Cancel { message: String },
    Succeed { message: String, pack_name: String, pack_version: String },
    /// The operation stays open until the files are supplied.
    AwaitFiles { files: Vec<PendingManualFile> },
    Fail { code: String, message: String },
}

/// What an import answers, and how its operation is left: a cancelled
/// import is cancelled; one without blocked files succeeds; one with them
/// waits for them; a failed one fails. The answer is accepted in every
/// case, naming the files that must be supplied.
pub fn import_outcome(report: ImportReport) -> (res: (ImportFinish, String, Vec<PendingManualFile>))
    ensures
        match report {
            ImportReport::Failed { message } => res.0 == (ImportFinish::Fail {
                code: res.0->Fail_code,
                message,
            }) && res.0->Fail_code@ == "internal_error"@ && res.1@ == "Import started."@
                && res.2@.len() == 0,
            ImportReport::Imported { blocked_files, pack_name, pack_version, cancelled } => {
                &&& if cancelled {
                    res.0 matches ImportFinish::Cancel { message } && message@
                        == "Modpack import cancelled."@
                } else if blocked_files@.len() == 0 {
                    res.0 matches ImportFinish::Succeed { message, pack_name: n, pack_version: v }
                        && message@ == "Imported modpack."@ && n == pack_name && v == pack_version
                } else {
                    res.0 matches ImportFinish::AwaitFiles { files } && files@ == blocked_files@
                }
                &&& res.1@ == if blocked_files@.len() == 0 {
                    "Import started."@
                } else {
                    "Import paused: "@ + decimal(blocked_files@.len()) + " file(s) need manual completion."@
                }
                &&& res.2 == blocked_files
            },
        },
{
    match report {
        ImportReport::Failed { message } => (
            ImportFinish::Fail { code: concat_str(String::new(), "internal_error"), message },
            concat_str(String::new(), "Import started."),
            Vec::new(),
        ),
        ImportReport::Imported { blocked_files, pack_name, pack_version, cancelled } => {
            let n = blocked_files.len();
            let text = if n == 0 {
                concat_str(String::new(), "Import started.")
            } else {
                let t = concat_str(String::new(), "Import paused: ");
                let t = concat_str(t, string_of(decimal_exec(n as u64).as_slice()).as_str());
                concat_str(t, " file(s) need manual completion.")
            };
            let finish = if cancelled {
                ImportFinish::Cancel { message: concat_str(String::new(), "Modpack import cancelled.") }
            } else if n == 0 {
                ImportFinish::Succeed {
                    message: concat_str(String::new(), "Imported modpack."),
                    pack_name,
                    pack_version,
                }
            } else {
                ImportFinish::AwaitFiles { files: clone_files(&blocked_files) }
            };
            (finish, text, blocked_files)
        },
    }
}

fn clone_files(files: &Vec<PendingManualFile>) -> (res: Vec<PendingManualFile>)
    ensures
        res@ == files@,
{
    let mut out: Vec<PendingManualFile> = Vec::new();
    let mut i: usize = 0;
    while i < files.len()
        invariant
            i <= files.len(),
            out@ == files@.take(i as int),
        decreases files.len() - i,
    {
        let f = PendingManualFile {
            file_id: files[i].file_id,
            expected_byte_size: files[i].expected_byte_size,
        };
        out.push(f);
        assert(out@ =~= files@.take(i + 1));
        i += 1;
    }
    assert(out@ =~= files@);
    out
}

/// What completing one manual file answers.
#[derive(Debug, Clone, PartialEq, Eq)]
pub struct ManualFileResult {
    pub message: String,
    pub remaining: usize,
    pub all_files_resolved: bool,
}

/// Records that the manual file at `index` of a paused import was supplied:
/// it leaves the import's list; the import is resolved once the list is
/// empty.
pub fn complete_manual_file(import: &mut PendingImport, index: usize) -> (res: ManualFileResult)
    requires
        index < old(import).remaining_manual_files@.len(),
    ensures
        final(import).operation_id == old(import).operation_id,
        final(import).remaining_manual_files@ == old(import).remaining_manual_files@.remove(
            index as int,
        ),
        res.remaining == final(import).remaining_manual_files@.len(),
        res.all_files_resolved == (res.remaining == 0),
        res.message@ == if res.all_files_resolved {
            "File accepted; import resumed."@
        } else {
            "File accepted; waiting for the remaining manual files."@
        },
{
    import.remaining_manual_files.remove(index);
    let remaining = import.remaining_manual_files.len();
    let all = remaining == 0;
    ManualFileResult {
        message: if all {
            concat_str(String::new(), "File accepted; import resumed.")
        } else {
            concat_str(String::new(), "File accepted; waiting for the remaining manual files.")
        },
        remaining,
        all_files_resolved: all,
    }
}

/// The warnings of an inspected pack: one naming how many files must be
/// supplied by hand, where any must.
pub fn inspection_warnings(manual_count: usize) -> (res: Vec<String>)
    ensures
        manual_count == 0 ==> res@.len() == 0,
        manual_count > 0 ==> res@.len() == 1 && res@[0]@ == decimal(manual_count as nat)
            + " file(s) require manual completion before import can finish."@,
{
    let mut out: Vec<String> = Vec::new();
    if manual_count > 0 {
        let t = string_of(decimal_exec(manual_count as u64).as_slice());
        out.push(concat_str(t, " file(s) require manual completion before import can finish."));
    }
    out
}

/// The loader named by a pinned build label: its first word.
pub fn loader_name(build_label: Option<&str>) -> (res: Option<String>)
    ensures
        match build_label {
            None => res is None,
            Some(l) => if words(l@).len() == 0 {
                res is None
            } else {
                res matches Some(n) && n@ == words(l@)[0]
            },
        },
{
    match build_label {
        None => None,
        Some(l) => {
            let ws = crate::text::words_exec(chars_of(l).as_slice());
            if ws.len() == 0 {
                None
            } else {
                proof {
                    assert(ws.deep_view()[0] == ws@[0]@);
                }
                Some(string_of(ws[0].as_slice()))
            }
        },
    }
}

/// Where an add-on install takes its jar from.
#[derive(Debug, Clone, PartialEq, Eq)]
pub enum InstallSource {
    /// A jar that was uploaded to the staged upload `id`.
    StagedUpload { id: String },
    /// A catalog project, at `version_id` where one is named.
    Catalog { project_id: String, version_id: Option<String> },
}

/// Where an add-on install takes its jar from: a staged upload where one is
/// named, else a catalog project, which must not be blank; a blank version
/// id names no version.
pub fn plan_install(staged_upload_id: Option<&str>, project_id: Option<&str>, version_id: Option<&str>) -> (res:
    Result<InstallSource, ApiError>)
    ensures
        match staged_upload_id {
            Some(id) => res matches Ok(InstallSource::StagedUpload { id: i }) && i@ == id@,
            None => match project_id {
                Some(p) => if trim(p@).len() > 0 {
                    res matches Ok(InstallSource::Catalog { project_id: q, version_id: v }) && q@
                        == p@ && match version_id {
                        Some(vid) => if trim(vid@).len() > 0 {
                            v matches Some(x) && x@ == vid@
                        } else {
                            v is None
                        },
                        None => v is None,
                    }
                } else {
                    res matches Err(e) && is_error(
                        e,
                        BAD_REQUEST,
                        "missing_project_id"@,
                        "projectId is required."@,
                    )
                },
                None => res matches Err(e) && is_error(
                    e,
                    BAD_REQUEST,
                    "missing_project_id"@,
                    "projectId is required."@,
                ),
            },
        },
{
    if let Some(id) = staged_upload_id {
        return Ok(InstallSource::StagedUpload { id: id.to_owned() });
    }
    let project = match project_id {
        Some(p) => if trim_vec(chars_of(p).as_slice()).len() > 0 {
            p
        } else {
            return Err(invalid_body("missing_project_id", "projectId is required."));
        },
        None => return Err(invalid_body("missing_project_id", "projectId is required.")),
    };
    let version = match version_id {
        Some(v) => if trim_vec(chars_of(v).as_slice()).len() > 0 {
            Some(v.to_owned())
        } else {
            None
        },
        None => None,
    };
    Ok(InstallSource::Catalog { project_id: project.to_owned(), version_id: version })
}

/// The file name of an uploaded jar, `uploaded.jar` where it has none.
pub fn uploaded_file_name(name: Option<&str>) -> (res: String)
    ensures
        match name {
            Some(n) => res@ == n@,
            None => res@ == "uploaded.jar"@,
        },
{
    match name {
        Some(n) => n.to_owned(),
        None => concat_str(String::new(), "uploaded.jar"),
    }
}

/// The Modrinth route of one project version.
pub fn modrinth_version_path(version_id: &str) -> (res: String)
    ensures
        res@ == "version/"@ + crate::components::percent_encoded(version_id.spec_bytes()),
{
    concat_str(
        concat_str(String::new(), "version/"),
        crate::components::modrinth_path_segment(version_id).as_str(),
    )
}

/// The answer that an install started.
#[derive(Debug, Clone, PartialEq, Eq)]
pub struct InstallResult {
    pub status: u16,
    pub success: bool,
    pub message: String,
    pub project_id: Option<String>,
    pub operation_id: Option<String>,
}

/// The answer that an install started: accepted, with its operation.
pub fn install_result(project_id: Option<String>, operation_id: &str, message: &str) -> (res:
    InstallResult)
    ensures
        res.status == 202,
        res.success,
        res.message@ == message@,
        res.project_id == project_id,
        res.operation_id matches Some(o) && o@ == operation_id@,
{
    InstallResult {
        status: 202,
        success: true,
        message: message.to_owned(),
        project_id,
        operation_id: Some(operation_id.to_owned()),
    }
}

/// What kind of archive an inspected pack is, with what the logic reads of
/// its manifest.
#[derive(Debug, Clone, PartialEq, Eq)]
pub enum InspectedFormat {
    /// A Modrinth pack.
    Mrpack { name: String, version_id: String, file_count: usize },
    /// A CurseForge pack.
    CurseForge { name: String, version_id: String, file_count: usize },
    /// A zip of jars without a manifest.
    PlainJarZip { jar_count: usize },
}

/// The game version a pack pins, with its loader.
#[derive(Debug, Clone, PartialEq, Eq)]
pub struct PinnedVersion {
    pub mc_version: String,
    pub build_label: Option<String>,
    pub loader_version: Option<String>,
}

/// A file the pack's distributor does not allow to be downloaded for the
/// user.
#[derive(Debug, Clone, PartialEq, Eq)]
pub struct ManualDownload {
    pub file_name: String,
    pub mod_name: String,
}

/// What inspecting a staged pack found.
#[derive(Debug, Clone, PartialEq, Eq)]
pub struct ModpackInspection {
    pub format: InspectedFormat,
    pub pinned_version: Option<PinnedVersion>,
    pub manual_downloads: Vec<ManualDownload>,
}

/// A file to be supplied by hand, as the inspection answer lists it.
#[derive(Debug, Clone, PartialEq, Eq)]
pub struct ModpackManualFile {
    pub file_id: String,
    pub file_name: String,
    pub project_name: String,
}

/// The answer to an inspection.
#[derive(Debug, Clone, PartialEq, Eq)]
pub struct ModpackInspectionResult {
    pub success: bool,
    pub message: String,
    pub format: String,
    pub pack_name: Option<String>,
    pub pack_version: Option<String>,
    pub minecraft_version: Option<String>,
    pub loader_name: Option<String>,
    pub loader_version: Option<String>,
    pub file_count: i64,
    pub client_only_file_count: i64,
    pub manual_files: Vec<ModpackManualFile>,
    pub warnings: Vec<String>,
}

/// A count as the answer carries it: 0 where it does not fit an `i64`.
pub open spec fn count_field(n: nat) -> int {
    if n <= i64::MAX {
        n as int
    } else {
        0
    }
}

fn count_field_exec(n: usize) -> (res: i64)
    ensures
        res == count_field(n as nat),
{
    if n as u64 <= i64::MAX as u64 {
        n as i64
    } else {
        0
    }
}

/// The name, version, file count and format name of an inspected pack.
pub open spec fn format_view(f: InspectedFormat) -> (Seq<char>, Option<Seq<char>>, Option<Seq<char>>, nat) {
    match f {
        InspectedFormat::Mrpack { name, version_id, file_count } => (
            "mrpack"@,
            Some(name@),
            Some(version_id@),
            file_count as nat,
        ),
        InspectedFormat::CurseForge { name, version_id, file_count } => (
            "curseforge"@,
            Some(name@),
            Some(version_id@),
            file_count as nat,
        ),
        InspectedFormat::PlainJarZip { jar_count } => ("plain-jar-zip"@, None, None, jar_count as nat),
    }
}

/// The view of an optional string.
pub open spec fn text_option(o: Option<String>) -> Option<Seq<char>> {
    match o {
        Some(s) => Some(s@),
        None => None,
    }
}

/// The answer to an inspection: the pack's format, name and version; the
/// game version, loader (the first word of the build label) and loader
/// version that it pins; how many files it holds; and the files that must
/// be supplied by hand, each named by its file name, with a warning that
/// counts them.
pub fn modpack_inspection_response(inspection: &ModpackInspection) -> (res: ModpackInspectionResult)
    ensures
        res.success,
        res.message@ == "Modpack inspected."@,
        res.format@ == format_view(inspection.format).0,
        text_option(res.pack_name) == format_view(inspection.format).1,
        text_option(res.pack_version) == format_view(inspection.format).2,
        res.file_count == count_field(format_view(inspection.format).3),
        res.client_only_file_count == 0,
        match inspection.pinned_version {
            Some(p) => res.minecraft_version == Some(p.mc_version) && res.loader_version
                == p.loader_version && match p.build_label {
                Some(l) => if words(l@).len() == 0 {
                    res.loader_name is None
                } else {
                    res.loader_name matches Some(n) && n@ == words(l@)[0]
                },
                None => res.loader_name is None,
            },
            None => res.minecraft_version is None && res.loader_name is None && res.loader_version is None,
        },
        res.manual_files@.len() == inspection.manual_downloads@.len(),
        forall|i: int|
            0 <= i < res.manual_files@.len() ==> {
                let m = #[trigger] res.manual_files@[i];
                let d = inspection.manual_downloads@[i];
                m.file_id@ == d.file_name@ && m.file_name@ == d.file_name@ && m.project_name@
                    == d.mod_name@
            },
        inspection.manual_downloads@.len() == 0 ==> res.warnings@.len() == 0,
        inspection.manual_downloads@.len() > 0 ==> res.warnings@.len() == 1 && res.warnings@[0]@
            == decimal(inspection.manual_downloads@.len()) + " file(s) require manual completion before import can finish."@,
{
    let (format, pack_name, pack_version, count) = match &inspection.format {
        InspectedFormat::Mrpack { name, version_id, file_count } => (
            concat_str(String::new(), "mrpack"),
            Some(name.clone()),
            Some(version_id.clone()),
            *file_count,
        ),
        InspectedFormat::CurseForge { name, version_id, file_count } => (
            concat_str(String::new(), "curseforge"),
            Some(name.clone()),
            Some(version_id.clone()),
            *file_count,
        ),
        InspectedFormat::PlainJarZip { jar_count } => (
            concat_str(String::new(), "plain-jar-zip"),
            None,
            None,
            *jar_count,
        ),
    };
    let (minecraft_version, loader, loader_version) = match &inspection.pinned_version {
        Some(p) => (
            Some(p.mc_version.clone()),
            match &p.build_label {
                Some(l) => loader_name(Some(l.as_str())),
                None => None,
            },
            p.loader_version.clone(),
        ),
        None => (None, None, None),
    };
    let mut manual: Vec<ModpackManualFile> = Vec::new();
    let mut i: usize = 0;
    while i < inspection.manual_downloads.len()
        invariant
            i <= inspection.manual_downloads.len(),
            manual@.len() == i,
            forall|k: int|
                0 <= k < i ==> {
                    let m = #[trigger] manual@[k];
                    let d = inspection.manual_downloads@[k];
                    m.file_id@ == d.file_name@ && m.file_name@ == d.file_name@ && m.project_name@
                        == d.mod_name@
                },
        decreases inspection.manual_downloads.len() - i,
    {
        let d = &inspection.manual_downloads[i];
        manual.push(
            ModpackManualFile {
                file_id: d.file_name.clone(),
                file_name: d.file_name.clone(),
                project_name: d.mod_name.clone(),
            },
        );
        i += 1;
    }
    ModpackInspectionResult {
        success: true,
        message: concat_str(String::new(), "Modpack inspected."),
        format,
        pack_name,
        pack_version,
        minecraft_version,
        loader_name: loader,
        loader_version,
        file_count: count_field_exec(count),
        client_only_file_count: 0,
        manual_files: manual,
        warnings: inspection_warnings(inspection.manual_downloads.len()),
    }
}

/// The answer where a CurseForge pack has no usable API key.
pub open spec fn is_missing_key(e: ApiError) -> bool {
    is_error(
        e,
        BAD_REQUEST,
        "missing_curseforge_api_key"@,
        "This CurseForge modpack needs an API key. Save one in MSC Settings, then retry the import."@,
    )
}

/// The secret store gave back a usable key: present and not blank.
pub open spec fn key_usable(saved_key: Result<Option<String>, String>) -> bool {
    saved_key matches Ok(Some(k)) && trim(k@).len() > 0
}

/// Admits a modpack import, in the order the checks are made: the
/// credential must hold the add-on permission, a server must be active,
/// the action must be `import` or `replace`, and the staged upload must be
/// an unexpired modpack archive. The upload is only looked at here, not
/// redeemed. Gives whether the import replaces the installed add-ons.
pub fn admit_import(
    permissions: &[Permission],
    active: bool,
    action: &str,
    store: &StagingStore,
    upload_id: &str,
    now: u64,
) -> (res: Result<bool, ApiError>)
    ensures
        !permits(permissions@, Permission::Addons) ==> (res matches Err(e) && is_forbidden(e)),
        permits(permissions@, Permission::Addons) && !active ==> (res matches Err(e)
            && is_no_active_server(e)),
        permits(permissions@, Permission::Addons) && active && action@ != "import"@ && action@
            != "replace"@ ==> (res matches Err(e) && is_error(
            e,
            BAD_REQUEST,
            "invalid_action"@,
            "action must be import or replace."@,
        )),
        permits(permissions@, Permission::Addons) && active && (action@ == "import"@ || action@
            == "replace"@) ==> match entry_index(store.entries(), upload_id@, 0) {
            None => res matches Err(e) && is_unknown_upload(e),
            Some(k) => if redeemable(store.entries()[k], now, StagedUploadPurpose::ModpackArchive) {
                res == Ok::<bool, ApiError>(action@ == "replace"@)
            } else {
                res matches Err(e) && is_unknown_upload(e)
            },
        },
{
    if let Some(e) = require_permission(permissions, Permission::Addons) {
        return Err(e);
    }
    if !active {
        return Err(error_response(CONFLICT, "no_active_server", "No active server."));
    }
    proof {
        reveal_strlit("import");
        reveal_strlit("replace");
    }
    let replace = match parse_import_action(action) {
        Ok(r) => r,
        Err(e) => return Err(e),
    };
    match store.check(upload_id, now, StagedUploadPurpose::ModpackArchive) {
        Err(e) => Err(e),
        Ok(_) => Ok(replace),
    }
}

/// Redeems the staged archive of an admitted import, once the archive was
/// inspected: a CurseForge pack first needs a usable API key, and where it
/// has none the upload stays staged; otherwise the upload leaves staging,
/// and an upload that is gone by now is unknown.
pub fn redeem_import_upload(
    store: &mut StagingStore,
    upload_id: &str,
    is_curseforge: bool,
    saved_key: Result<Option<String>, String>,
) -> (res: Result<StagedEntry, ApiError>)
    ensures
        is_curseforge && !key_usable(saved_key) ==> final(store).entries() == old(store).entries()
            && match saved_key {
            Err(m) => res matches Err(e) && is_error(e, INTERNAL_SERVER_ERROR, "internal_error"@, m@),
            Ok(_) => res matches Err(e) && is_missing_key(e),
        },
        !is_curseforge || key_usable(saved_key) ==> match entry_index(
            old(store).entries(),
            upload_id@,
            0,
        ) {
            None => (res matches Err(e) && is_unknown_upload(e)) && final(store).entries() == old(
                store,
            ).entries(),
            Some(k) => res == Ok::<StagedEntry, ApiError>(old(store).entries()[k])
                && final(store).entries() == old(store).entries().remove(k),
        },
        !is_curseforge || key_usable(saved_key) ==> entry_index(final(store).entries(), upload_id@, 0)
            is None,
{
    match check_curseforge_key(is_curseforge, saved_key) {
        Err(e) => return Err(e),
        Ok(()) => {},
    }
    match store.take(upload_id) {
        None => Err(
            error_response(NOT_FOUND, "not_found", "Unknown or already-redeemed staged upload."),
        ),
        Some(entry) => Ok(entry),
    }
}

/// The answer that an add-on install was accepted: `202`, with the message
/// "Install started." and the operation that carries it on.
pub fn install_accepted(project_id: Option<String>, operation_id: &str) -> (res: InstallResult)
    ensures
        res.status == 202,
        res.success,
        res.message@ == "Install started."@,
        res.project_id == project_id,
        res.operation_id matches Some(o) && o@ == operation_id@,
{
    install_result(project_id, operation_id, "Install started.")
}

/// Why an add-on install failed.
#[derive(Debug, Clone, PartialEq, Eq)]
pub enum InstallFailure {
    /// The catalog could not be asked; `message` is the error's text.
    ProviderUnavailable { message: String },
    /// The catalog has no version for this server.
    NoCompatibleVersion,
    /// Writing the add-on failed.
    Mutation { failure: AddonMutationFailure },
}

/// How an add-on install ends its operation: it succeeds with "Installed
/// add-on.", or fails with `provider_unavailable`, `no_compatible_version`,
/// `conflict` on a server that a modpack manages, or `internal_error`.
pub fn install_finish(outcome: Result<(), InstallFailure>) -> (res: OperationEnd)
    ensures
        match outcome {
            Ok(()) => res matches OperationEnd::Succeeded { message } && message@
                == "Installed add-on."@,
            Err(InstallFailure::ProviderUnavailable { message }) => res == (OperationEnd::Failed {
                code: res->Failed_code,
                message,
            }) && res->Failed_code@ == "provider_unavailable"@,
            Err(InstallFailure::NoCompatibleVersion) => res matches OperationEnd::Failed {
                code,
                message,
            } && code@ == "no_compatible_version"@ && message@ == "No compatible version was found."@,
            Err(InstallFailure::Mutation { failure }) => failure_end(failure, res),
        },
{
    match outcome {
        Ok(()) => OperationEnd::Succeeded { message: concat_str(String::new(), "Installed add-on.") },
        Err(InstallFailure::ProviderUnavailable { message }) => OperationEnd::Failed {
            code: concat_str(String::new(), "provider_unavailable"),
            message,
        },
        Err(InstallFailure::NoCompatibleVersion) => OperationEnd::Failed {
            code: concat_str(String::new(), "no_compatible_version"),
            message: concat_str(String::new(), "No compatible version was found."),
        },
        Err(InstallFailure::Mutation { failure }) => failure_to_end(failure),
    }
}

/// No operation id occurs twice.
pub open spec fn distinct_operations(s: Seq<PendingImport>) -> bool {
    forall|i: int, j: int|
        0 <= i < j < s.len() ==> #[trigger] s[i].operation_id@ != #[trigger] s[j].operation_id@
}

proof fn lemma_remove_keeps_distinct_operations(s: Seq<PendingImport>, k: int)
    requires
        distinct_operations(s),
        0 <= k < s.len(),
    ensures
        distinct_operations(s.remove(k)),
        forall|i: int|
            0 <= i < s.remove(k).len() ==> s.remove(k)[i].operation_id@ != s[k].operation_id@,
{
    let r = s.remove(k);
    assert forall|i: int, j: int| 0 <= i < j < r.len() implies #[trigger] r[i].operation_id@
        != #[trigger] r[j].operation_id@ by {
        let a = if i < k {
            i
        } else {
            i + 1
        };
        let b = if j < k {
            j
        } else {
            j + 1
        };
        assert(r[i] == s[a]);
        assert(r[j] == s[b]);
    }
    assert forall|i: int| 0 <= i < r.len() implies r[i].operation_id@ != s[k].operation_id@ by {
        let a = if i < k {
            i
        } else {
            i + 1
        };
        assert(r[i] == s[a]);
    }
}

/// The modpack imports that wait for files supplied by hand, each under a
/// distinct operation id.
pub struct PendingImports {
    imports: Vec<PendingImport>,
}

impl PendingImports {
    #[verifier::type_invariant]
    spec fn well_formed(&self) -> bool {
        distinct_operations(self.imports@)
    }

    /// The waiting imports.
    pub closed spec fn entries(&self) -> Seq<PendingImport> {
        self.imports@
    }

    /// No import waits.
    pub fn new() -> (res: Self)
        ensures
            res.entries() == Seq::<PendingImport>::empty(),
    {
        PendingImports { imports: Vec::new() }
    }

    /// The waiting imports, in order.
    pub fn as_vec(&self) -> (res: &Vec<PendingImport>)
        ensures
            res@ == self.entries(),
    {
        &self.imports
    }

    /// Records an import that waits for files: it replaces the one with the
    /// same operation id, else it is added.
    pub fn put(&mut self, import: PendingImport)
        ensures
            match import_index(old(self).entries(), import.operation_id@, 0) {
                Some(k) => final(self).entries() == old(self).entries().update(k, import),
                None => final(self).entries() == old(self).entries().push(import),
            },
    {
        proof {
            use_type_invariant(&*self);
            lemma_import_index(self.imports@, import.operation_id@, 0);
        }
        let found = find_import(&self.imports, import.operation_id.as_str());
        let mut imports: Vec<PendingImport> = Vec::new();
        std::mem::swap(&mut imports, &mut self.imports);
        let ghost before = imports@;
        match found {
            Some(k) => {
                imports.set(k, import);
                assert forall|i: int, j: int| 0 <= i < j < imports@.len() implies #[trigger] imports@[i].operation_id@
                    != #[trigger] imports@[j].operation_id@ by {
                    assert(before[i].operation_id@ != before[j].operation_id@);
                }
            },
            None => {
                imports.push(import);
                assert forall|i: int, j: int| 0 <= i < j < imports@.len() implies #[trigger] imports@[i].operation_id@
                    != #[trigger] imports@[j].operation_id@ by {
                    if j == before.len() {
                        assert(before[i].operation_id@ != import.operation_id@);
                    } else {
                        assert(imports@[i] == before[i] && imports@[j] == before[j]);
                    }
                }
            },
        }
        self.imports = imports;
    }
}

fn copy_import(src: &PendingImport) -> (res: PendingImport)
    ensures
        res.operation_id == src.operation_id,
        res.remaining_manual_files@ == src.remaining_manual_files@,
{
    PendingImport {
        operation_id: src.operation_id.clone(),
        remaining_manual_files: clone_files(&src.remaining_manual_files),
    }
}

/// The staged upload with this id, where it can be redeemed at `now` for
/// `purpose`.
pub open spec fn redeemed(
    entries: Seq<StagedEntry>,
    id: Seq<char>,
    now: u64,
    purpose: StagedUploadPurpose,
) -> Option<StagedEntry> {
    match entry_index(entries, id, 0) {
        Some(k) => if redeemable(entries[k], now, purpose) {
            Some(entries[k])
        } else {
            None
        },
        None => None,
    }
}

/// Admits a file supplied by hand for a paused import, in the order the
/// checks are made: the credential must hold the add-on permission; the
/// staged upload is then redeemed, so it leaves staging whatever follows,
/// and must be an unexpired manual file; a pending import must have this
/// operation id; it must still wait for a file with this id. Gives the
/// upload, the index of the import and that of the file.
pub fn admit_manual_file(
    permissions: &[Permission],
    store: &mut StagingStore,
    pending: &PendingImports,
    upload_id: &str,
    now: u64,
    operation_id: &str,
    file_id: &str,
) -> (res: Result<(StagedEntry, usize, usize), ApiError>)
    ensures
        !permits(permissions@, Permission::Addons) ==> (res matches Err(e) && is_forbidden(e))
            && final(store).entries() == old(store).entries(),
        permits(permissions@, Permission::Addons) ==> {
            &&& match entry_index(old(store).entries(), upload_id@, 0) {
                None => final(store).entries() == old(store).entries(),
                Some(k) => final(store).entries() == old(store).entries().remove(k),
            }
            &&& entry_index(final(store).entries(), upload_id@, 0) is None
            &&& match redeemed(
                old(store).entries(),
                upload_id@,
                now,
                StagedUploadPurpose::CurseforgeManualFile,
            ) {
                None => res matches Err(e) && is_unknown_upload(e),
                Some(entry) => match import_index(pending.entries(), operation_id@, 0) {
                    None => res matches Err(e) && is_error(
                        e,
                        NOT_FOUND,
                        "not_found"@,
                        "No pending modpack import matched that operation."@,
                    ),
                    Some(i) => match manual_file_index(
                        pending.entries()[i].remaining_manual_files@,
                        file_id@,
                        0,
                    ) {
                        None => res matches Err(e) && is_error(
                            e,
                            NOT_FOUND,
                            "not_found"@,
                            "No pending manual file matched that fileId."@,
                        ),
                        Some(j) => res == Ok::<(StagedEntry, usize, usize), ApiError>(
                            (entry, i as usize, j as usize),
                        ),
                    },
                },
            }
        },
        res matches Ok((_, i, j)) ==> i < pending.entries().len() && j < pending.entries()[i as int].remaining_manual_files@.len(),
{
    if let Some(e) = require_permission(permissions, Permission::Addons) {
        return Err(e);
    }
    let entry = match store.redeem(upload_id, now, StagedUploadPurpose::CurseforgeManualFile) {
        Ok(entry) => entry,
        Err(e) => return Err(e),
    };
    let imports = pending.as_vec();
    proof {
        lemma_import_index(imports@, operation_id@, 0);
    }
    let i = match find_import(imports, operation_id) {
        Some(i) => i,
        None => return Err(
            error_response(NOT_FOUND, "not_found", "No pending modpack import matched that operation."),
        ),
    };
    proof {
        lemma_manual_file_index(imports@[i as int].remaining_manual_files@, file_id@, 0);
    }
    let j = match find_manual_file(&imports[i].remaining_manual_files, file_id) {
        Some(j) => j,
        None => return Err(
            error_response(NOT_FOUND, "not_found", "No pending manual file matched that fileId."),
        ),
    };
    Ok((entry, i, j))
}

/// What completing a manual file answers: the result, the files that are
/// still missing, and how the import's operation ends where it is resolved.
pub type ManualFileAnswer = (ManualFileResult, Vec<PendingManualFile>, Option<OperationEnd>);

/// Records how supplying the manual file at `file` of the pending import at
/// `import` went. A failed completion is refused with its text and changes
/// nothing. Otherwise the file leaves the import's list; where none is
/// left, the import leaves the pending imports and its operation succeeds
/// with "Imported modpack.".
pub fn finish_manual_file(
    pending: &mut PendingImports,
    import: usize,
    file: usize,
    completion: Result<(), String>,
) -> (res: Result<ManualFileAnswer, ApiError>)
    requires
        import < old(pending).entries().len(),
        file < old(pending).entries()[import as int].remaining_manual_files@.len(),
    ensures
        completion matches Err(m) ==> (res matches Err(e) && is_error(
            e,
            BAD_REQUEST,
            "invalid_body"@,
            m@,
        )) && final(pending).entries() == old(pending).entries(),
        completion is Ok ==> {
            let before = old(pending).entries()[import as int];
            let rest = before.remaining_manual_files@.remove(file as int);
            &&& res matches Ok((r, files, end))
            &&& files@ == rest
            &&& r.remaining == rest.len()
            &&& r.all_files_resolved == (rest.len() == 0)
            &&& r.message@ == if rest.len() == 0 {
                "File accepted; import resumed."@
            } else {
                "File accepted; waiting for the remaining manual files."@
            }
            &&& if rest.len() == 0 {
                &&& final(pending).entries() == old(pending).entries().remove(import as int)
                &&& import_index(final(pending).entries(), before.operation_id@, 0) is None
                &&& end matches Some(OperationEnd::Succeeded { message }) && message@
                    == "Imported modpack."@
            } else {
                &&& final(pending).entries().len() == old(pending).entries().len()
                &&& forall|k: int|
                    0 <= k < old(pending).entries().len() && k != import
                        ==> final(pending).entries()[k] == old(pending).entries()[k]
                &&& final(pending).entries()[import as int].operation_id == before.operation_id
                &&& final(pending).entries()[import as int].remaining_manual_files@ == rest
                &&& end is None
            }
        },
{
    proof {
        use_type_invariant(&*pending);
    }
    match completion {
        Err(m) => return Err(invalid_body("invalid_body", m.as_str())),
        Ok(()) => {},
    }
    let mut imports: Vec<PendingImport> = Vec::new();
    std::mem::swap(&mut imports, &mut pending.imports);
    let ghost before = imports@;
    let mut imp = copy_import(&imports[import]);
    let r = complete_manual_file(&mut imp, file);
    let files = clone_files(&imp.remaining_manual_files);
    if r.all_files_resolved {
        proof {
            lemma_remove_keeps_distinct_operations(before, import as int);
            lemma_import_index(before.remove(import as int), before[import as int].operation_id@, 0);
        }
        imports.remove(import);
        pending.imports = imports;
        let end = OperationEnd::Succeeded { message: concat_str(String::new(), "Imported modpack.") };
        Ok((r, files, Some(end)))
    } else {
        imports.set(import, imp);
        assert forall|i: int, j: int| 0 <= i < j < imports@.len() implies #[trigger] imports@[i].operation_id@
            != #[trigger] imports@[j].operation_id@ by {
            assert(before[i].operation_id@ != before[j].operation_id@);
        }
        pending.imports = imports;
        Ok((r, files, None))
    }
}

} // verus!
