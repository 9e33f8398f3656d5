//! Add-on and component routes: what an add-on update request asks for,
//! how its outcome is answered, how a client export is selected, and the
//! names and path segments the routes use.

use vstd::prelude::*;
use vstd::string::StringSliceAdditionalSpecFns;
use crate::api::{
    ApiError, BAD_REQUEST, CONFLICT, INTERNAL_SERVER_ERROR, NOT_FOUND, Permission, error_response,
    invalid_body, is_error, is_forbidden, permits, require_permission,
};
use crate::text::{
    chars_of, chars_eq, concat_str, decimal, split, split_exec, string_of, trim, trim_vec,
};

verus! {

/// Where an installed add-on stands against its provider.
#[derive(Debug, Clone, Copy, PartialEq, Eq)]
pub enum AddonUpdateBucket {
    UpdateAvailable,
    NoCompatibleVersion,
    UpToDate,
    Unlinked,
}

/// The name of an update bucket.
pub open spec fn bucket_name(bucket: AddonUpdateBucket) -> Seq<char> {
    match bucket {
        AddonUpdateBucket::UpdateAvailable => "updateAvailable"@,
        AddonUpdateBucket::NoCompatibleVersion => "noCompatibleVersion"@,
        AddonUpdateBucket::UpToDate => "upToDate"@,
        AddonUpdateBucket::Unlinked => "unlinked"@,
    }
}

/// The name of an update bucket.
pub fn addon_bucket_name(bucket: AddonUpdateBucket) -> (res: &'static str)
    ensures
        res@ == bucket_name(bucket),
{
    match bucket {
        AddonUpdateBucket::UpdateAvailable => "updateAvailable",
        AddonUpdateBucket::NoCompatibleVersion => "noCompatibleVersion",
        AddonUpdateBucket::UpToDate => "upToDate",
        AddonUpdateBucket::Unlinked => "unlinked",
    }
}

/// Whether players need an add-on on their own client.
#[derive(Debug, Clone, Copy, PartialEq, Eq)]
pub enum ClientSideStatus {
    Required,
    Optional,
    ServerOnly,
    Unknown,
}

/// The name of a client-side status.
pub fn client_status_name(status: ClientSideStatus) -> (res: &'static str)
    ensures
        res@ == match status {
            ClientSideStatus::Required => "required"@,
            ClientSideStatus::Optional => "optional"@,
            ClientSideStatus::ServerOnly => "server_only"@,
            ClientSideStatus::Unknown => "unknown"@,
        },
{
    match status {
        ClientSideStatus::Required => "required",
        ClientSideStatus::Optional => "optional",
        ClientSideStatus::ServerOnly => "server_only",
        ClientSideStatus::Unknown => "unknown",
    }
}

/// What kind of add-ons a server flavor loads.
#[derive(Debug, Clone, Copy, PartialEq, Eq)]
pub enum AddOnKind {
    Mod,
    Plugin,
}

/// The name of an add-on kind.
pub fn add_on_kind_name(kind: AddOnKind) -> (res: &'static str)
    ensures
        res@ == match kind {
            AddOnKind::Mod => "mod"@,
            AddOnKind::Plugin => "plugin"@,
        },
{
    match kind {
        AddOnKind::Mod => "mod",
        AddOnKind::Plugin => "plugin",
    }
}

/// The Java server flavors.
#[derive(Debug, Clone, Copy, PartialEq, Eq)]
pub enum JavaFlavor {
    Vanilla,
    Paper,
    Purpur,
    Spigot,
    Pufferfish,
    Fabric,
    Quilt,
    Forge,
    NeoForge,
}

/// A flavor that loads Bukkit-style plugins.
pub open spec fn paper_like(flavor: JavaFlavor) -> bool {
    flavor is Paper || flavor is Purpur || flavor is Spigot || flavor is Pufferfish
}

/// A flavor that loads Bukkit-style plugins.
pub fn is_paper_like(flavor: JavaFlavor) -> (res: bool)
    ensures
        res == paper_like(flavor),
{
    match flavor {
        JavaFlavor::Paper | JavaFlavor::Purpur | JavaFlavor::Spigot | JavaFlavor::Pufferfish => true,
        _ => false,
    }
}

/// The ids of a `selected=a,b,c` query: the comma-separated pieces,
/// trimmed, without empty ones.
pub open spec fn selected_ids(raw: Seq<char>) -> Seq<Seq<char>> {
    split(raw, ',').map_values(|p: Seq<char>| trim(p)).filter(|p: Seq<char>| p.len() > 0)
}

/// The ids of a `selected=` query, where there is one.
pub fn parse_selected_ids(selected: Option<&str>) -> (res: Option<Vec<String>>)
    ensures
        match selected {
            None => res is None,
            Some(raw) => res matches Some(ids) && ids@.map_values(|s: String| s@) == selected_ids(
                raw@,
            ),
        },
{
    let raw = match selected {
        Some(raw) => raw,
        None => return None,
    };
    let parts = split_exec(chars_of(raw).as_slice(), ',');
    let ghost trimmed = split(raw@, ',').map_values(|p: Seq<char>| trim(p));
    let mut ids: Vec<String> = Vec::new();
    let mut i: usize = 0;
    while i < parts.len()
        invariant
            i <= parts.len(),
            parts.deep_view() == split(raw@, ','),
            trimmed == split(raw@, ',').map_values(|p: Seq<char>| trim(p)),
            ids@.map_values(|s: String| s@) == trimmed.take(i as int).filter(
                |p: Seq<char>| p.len() > 0,
            ),
        decreases parts.len() - i,
    {
        assert(parts.deep_view()[i as int] == parts@[i as int]@);
        let t = trim_vec(parts[i].as_slice());
        assert(trimmed.take(i + 1).drop_last() =~= trimmed.take(i as int));
        assert(trimmed.take(i + 1).last() == t@);
        proof {
            trimmed.take(i as int).lemma_filter_push(t@, |p: Seq<char>| p.len() > 0);
            assert(trimmed.take(i as int).push(t@) =~= trimmed.take(i + 1));
        }
        if t.len() > 0 {
            let ghost before = ids@;
            ids.push(string_of(t.as_slice()));
            assert(ids@.map_values(|s: String| s@) =~= before.map_values(|s: String| s@).push(t@));
        }
        i += 1;
    }
    assert(trimmed.take(parts.len() as int) =~= trimmed);
    Some(ids)
}

/// An ASCII letter or digit, or one of `-_.~`: left as it is in a path.
pub open spec fn unreserved(b: u8) -> bool {
    (48 <= b <= 57) || (65 <= b <= 90) || (97 <= b <= 122) || b == 45 || b == 95 || b == 46 || b
        == 126
}

/// The upper-case hexadecimal digit of a value below 16.
pub open spec fn upper_hex(v: int) -> char {
    if v < 10 {
        (48 + v) as char
    } else {
        (55 + v) as char
    }
}

/// The bytes of a text made safe for a URL path: unreserved bytes kept,
/// every other byte written `%XX`.
pub open spec fn percent_encoded(bytes: Seq<u8>) -> Seq<char>
    decreases bytes.len(),
{
    if bytes.len() == 0 {
        Seq::empty()
    } else {
        let b = bytes.last();
        percent_encoded(bytes.drop_last()) + if unreserved(b) {
            seq![b as char]
        } else {
            seq!['%', upper_hex(b as int / 16), upper_hex(b as int % 16)]
        }
    }
}

fn upper_hex_char(v: u8) -> (res: char)
    requires
        v < 16,
    ensures
        res == upper_hex(v as int),
{
    if v < 10 {
        (48 + v) as char
    } else {
        (55 + v) as char
    }
}

/// A project id or slug made safe for a Modrinth URL path.
pub fn modrinth_path_segment(value: &str) -> (res: String)
    ensures
        res@ == percent_encoded(value.spec_bytes()),
{
    let bytes = value.as_bytes();
    let mut encoded = String::new();
    let mut i: usize = 0;
    while i < bytes.len()
        invariant
            i <= bytes.len(),
            bytes@ == value.spec_bytes(),
            encoded@ == percent_encoded(bytes@.take(i as int)),
        decreases bytes.len() - i,
    {
        let b = bytes[i];
        assert(bytes@.take(i + 1).drop_last() =~= bytes@.take(i as int));
        assert(bytes@.take(i + 1).last() == b);
        if (48 <= b && b <= 57) || (65 <= b && b <= 90) || (97 <= b && b <= 122) || b == 45 || b
            == 95 || b == 46 || b == 126 {
            crate::text::push_char(&mut encoded, b as char);
        } else {
            crate::text::push_char(&mut encoded, '%');
            crate::text::push_char(&mut encoded, upper_hex_char(b / 16));
            crate::text::push_char(&mut encoded, upper_hex_char(b % 16));
        }
        assert(encoded@ =~= percent_encoded(bytes@.take(i + 1)));
        i += 1;
    }
    assert(bytes@.take(bytes.len() as int) =~= bytes@);
    encoded
}

/// An add-on update request.
#[derive(Debug, Clone, PartialEq, Eq)]
pub struct ComponentUpdateRequest {
    pub enabled: Option<bool>,
    pub jar_stem: Option<String>,
    pub link_project_id: Option<String>,
    pub source_url: Option<String>,
    pub remove_source: Option<bool>,
    pub update_all: Option<bool>,
}

/// What an add-on update request asks for.
#[derive(Debug, Clone, PartialEq, Eq)]
pub enum ComponentUpdatePlan {
    /// Enable or disable a jar by renaming `current_name` to `target_name`.
    Toggle { enabled: bool, jar_stem: String, current_name: String, target_name: String },
    /// Link a jar to a provider project.
    Link { project_id: String, jar_stem: String, installed_file_name: String },
    /// Record where a plugin is updated from.
    SetSource { jar_stem: String, url: String },
    /// Forget where a plugin is updated from.
    RemoveSource { jar_stem: String },
    /// Update every add-on that has an update.
    UpdateAll,
    /// Update one add-on.
    UpdateOne { jar_stem: String },
}

/// The jar stem of a request, where it is not blank.
pub open spec fn given_stem(request: ComponentUpdateRequest) -> Option<Seq<char>> {
    match request.jar_stem {
        Some(s) => if trim(s@).len() > 0 {
            Some(s@)
        } else {
            None
        },
        None => None,
    }
}

/// The answer to a request that needs a jar stem and has none.
pub open spec fn is_missing_stem(e: ApiError) -> bool {
    is_error(e, BAD_REQUEST, "missing_jar_stem"@, "jarStem is required."@)
}

/// `res` is what `request` asks for: an `enabled` flag toggles, a project
/// id links, a source URL or its removal edits the plugin sources, the
/// `updateAll` flag updates everything, and otherwise one add-on is
/// updated; all but the bulk update need a jar stem that is not blank.
pub open spec fn update_plan(request: ComponentUpdateRequest, res: Result<ComponentUpdatePlan, ApiError>) -> bool {
    let remove = request.remove_source == Some(true);
    if request.enabled is Some {
        match given_stem(request) {
            None => res matches Err(e) && is_missing_stem(e),
            Some(stem) => res matches Ok(
                ComponentUpdatePlan::Toggle { enabled, jar_stem, current_name, target_name },
            ) && enabled == request.enabled.unwrap() && jar_stem@ == stem && current_name@ == (
            if enabled {
                stem + ".jar.disabled"@
            } else {
                stem + ".jar"@
            }) && target_name@ == (if enabled {
                stem + ".jar"@
            } else {
                stem + ".jar.disabled"@
            }),
        }
    } else if request.link_project_id is Some {
        match given_stem(request) {
            None => res matches Err(e) && is_missing_stem(e),
            Some(stem) => res matches Ok(
                ComponentUpdatePlan::Link { project_id, jar_stem, installed_file_name },
            ) && project_id == request.link_project_id.unwrap() && jar_stem@ == stem
                && installed_file_name@ == stem + ".jar"@,
        }
    } else if request.source_url is Some || remove {
        match given_stem(request) {
            None => res matches Err(e) && is_missing_stem(e),
            Some(stem) => if remove {
                res matches Ok(ComponentUpdatePlan::RemoveSource { jar_stem }) && jar_stem@ == stem
            } else {
                res matches Ok(ComponentUpdatePlan::SetSource { jar_stem, url }) && jar_stem@ == stem
                    && url == request.source_url.unwrap()
            },
        }
    } else if request.update_all == Some(true) {
        res == Ok::<ComponentUpdatePlan, ApiError>(ComponentUpdatePlan::UpdateAll)
    } else {
        match given_stem(request) {
            None => res matches Err(e) && is_missing_stem(e),
            Some(stem) => res matches Ok(ComponentUpdatePlan::UpdateOne { jar_stem })
                && jar_stem@ == stem,
        }
    }
}

fn stem_of(request: &ComponentUpdateRequest) -> (res: Result<String, ApiError>)
    ensures
        match given_stem(*request) {
            None => res matches Err(e) && is_missing_stem(e),
            Some(stem) => res matches Ok(s) && s@ == stem,
        },
{
    match &request.jar_stem {
        Some(s) => if trim_vec(chars_of(s.as_str()).as_slice()).len() > 0 {
            Ok(s.clone())
        } else {
            Err(invalid_body("missing_jar_stem", "jarStem is required."))
        },
        None => Err(invalid_body("missing_jar_stem", "jarStem is required.")),
    }
}

/// What an add-on update request asks for.
pub fn plan_component_update(request: &ComponentUpdateRequest) -> (res: Result<ComponentUpdatePlan, ApiError>)
    ensures
        update_plan(*request, res),
{
    let remove = match request.remove_source {
        Some(r) => r,
        None => false,
    };
    if let Some(enabled) = request.enabled {
        let stem = match stem_of(request) {
            Ok(s) => s,
            Err(e) => return Err(e),
        };
        let disabled_name = concat_str(stem.clone(), ".jar.disabled");
        let enabled_name = concat_str(stem.clone(), ".jar");
        let (current_name, target_name) = if enabled {
            (disabled_name, enabled_name)
        } else {
            (enabled_name, disabled_name)
        };
        return Ok(ComponentUpdatePlan::Toggle { enabled, jar_stem: stem, current_name, target_name });
    }
    if let Some(project_id) = &request.link_project_id {
        let stem = match stem_of(request) {
            Ok(s) => s,
            Err(e) => return Err(e),
        };
        let installed_file_name = concat_str(stem.clone(), ".jar");
        return Ok(
            ComponentUpdatePlan::Link {
                project_id: project_id.clone(),
                jar_stem: stem,
                installed_file_name,
            },
        );
    }
    if request.source_url.is_some() || remove {
        let stem = match stem_of(request) {
            Ok(s) => s,
            Err(e) => return Err(e),
        };
        if remove {
            return Ok(ComponentUpdatePlan::RemoveSource { jar_stem: stem });
        }
        let url = match &request.source_url {
            Some(u) => u.clone(),
            None => return Ok(ComponentUpdatePlan::RemoveSource { jar_stem: stem }),
        };
        return Ok(ComponentUpdatePlan::SetSource { jar_stem: stem, url });
    }
    if request.update_all == Some(true) {
        return Ok(ComponentUpdatePlan::UpdateAll);
    }
    let stem = match stem_of(request) {
        Ok(s) => s,
        Err(e) => return Err(e),
    };
    Ok(ComponentUpdatePlan::UpdateOne { jar_stem: stem })
}

/// A toggle whose jar already has the requested name: the server is not
/// pack-managed, the current name is gone and the target name exists.
pub fn toggle_already_applied(pack_managed: bool, current_exists: bool, target_exists: bool) -> (res:
    bool)
    ensures
        res == (!pack_managed && !current_exists && target_exists),
{
    !pack_managed && !current_exists && target_exists
}

/// The answer to an add-on update.
#[derive(Debug, Clone, PartialEq, Eq)]
pub struct UpdateResult {
    /// `202 Accepted` where an operation follows it, else `200 OK`.
    pub status: u16,
    pub result: String,
    pub jar_stem: Option<String>,
    pub count: i64,
    pub operation_id: Option<String>,
}

/// The answer to an add-on update: accepted where an operation follows it.
pub fn update_result(result: &str, jar_stem: Option<String>, count: i64, operation_id: Option<String>) -> (res:
    UpdateResult)
    ensures
        res.status == if operation_id is Some {
            202u16
        } else {
            200u16
        },
        res.result@ == result@,
        res.jar_stem == jar_stem,
        res.count == count,
        res.operation_id == operation_id,
{
    UpdateResult {
        status: if operation_id.is_some() {
            202
        } else {
            200
        },
        result: result.to_owned(),
        jar_stem,
        count,
        operation_id,
    }
}

/// The result word of a toggle.
pub fn toggle_result(enabled: bool) -> (res: &'static str)
    ensures
        res@ == if enabled {
            "enabled"@
        } else {
            "disabled"@
        },
{
    if enabled {
        "enabled"
    } else {
        "disabled"
    }
}

/// The code with which a failed add-on change ends its operation: a
/// modpack-managed server is a conflict, anything else an internal error.
pub fn mutation_failure_code(pack_managed: bool) -> (res: &'static str)
    ensures
        res@ == if pack_managed {
            "conflict"@
        } else {
            "internal_error"@
        },
{
    if pack_managed {
        "conflict"
    } else {
        "internal_error"
    }
}

/// An add-on of the update plan, as far as the route reads it.
#[derive(Debug, Clone, PartialEq, Eq)]
pub struct PlanItem {
    pub jar_stem: String,
    pub has_update: bool,
}

/// The indices of the add-ons that have an update, in order.
pub fn items_with_updates(items: &Vec<PlanItem>) -> (res: Vec<usize>)
    ensures
        forall|k: int| 0 <= k < res@.len() ==> #[trigger] res@[k] < items@.len() && items@[res@[k] as int].has_update,
        forall|i: int| 0 <= i < items@.len() && #[trigger] items@[i].has_update ==> res@.contains(i as usize),
        forall|a: int, b: int| 0 <= a < b < res@.len() ==> #[trigger] res@[a] < #[trigger] res@[b],
{
    let mut out: Vec<usize> = Vec::new();
    let mut i: usize = 0;
    while i < items.len()
        invariant
            i <= items.len(),
            forall|k: int| 0 <= k < out@.len() ==> #[trigger] out@[k] < i && items@[out@[k] as int].has_update,
            forall|j: int| 0 <= j < i && #[trigger] items@[j].has_update ==> out@.contains(j as usize),
            forall|a: int, b: int| 0 <= a < b < out@.len() ==> #[trigger] out@[a] < #[trigger] out@[b],
        decreases items.len() - i,
    {
        if items[i].has_update {
            let ghost before = out@;
            out.push(i);
            assert forall|j: int| 0 <= j < i + 1 && #[trigger] items@[j].has_update implies out@.contains(
                j as usize,
            ) by {
                if j < i {
                    assert(before.contains(j as usize));
                    let w = choose|w: int| 0 <= w < before.len() && before[w] == j as usize;
                    assert(out@[w] == j as usize);
                } else {
                    assert(out@[out@.len() - 1] == i);
                }
            }
        }
        i += 1;
    }
    out
}

/// The index of the first add-on of the plan with this jar stem.
pub open spec fn item_index(items: Seq<PlanItem>, stem: Seq<char>, from: int) -> Option<int>
    decreases items.len() - from,
{
    if from < 0 || from >= items.len() {
        None
    } else if items[from].jar_stem@ == stem {
        Some(from)
    } else {
        item_index(items, stem, from + 1)
    }
}

/// The add-on that a single update names: it must be in the plan, and an
/// add-on without an update answers that none is available.
pub fn single_update_target(items: &Vec<PlanItem>, jar_stem: &str) -> (res: Result<
    usize,
    Result<UpdateResult, ApiError>,
>)
    ensures
        match item_index(items@, jar_stem@, 0) {
            None => res matches Err(Err(e)) && is_error(
                e,
                NOT_FOUND,
                "not_found"@,
                "Add-on not found."@,
            ),
            Some(k) => if items@[k].has_update {
                res == Ok::<usize, Result<UpdateResult, ApiError>>(k as usize)
            } else {
                res matches Err(Ok(r)) && r.status == 200 && r.result@ == "no_updates_available"@
                    && (r.jar_stem matches Some(s) && s@ == jar_stem@) && r.count == 0
                    && r.operation_id is None
            },
        },
{
    let wanted = chars_of(jar_stem);
    let mut i: usize = 0;
    while i < items.len()
        invariant
            i <= items.len(),
            wanted@ == jar_stem@,
            item_index(items@, jar_stem@, 0) == item_index(items@, jar_stem@, i as int),
        decreases items.len() - i,
    {
        let stem = chars_of(items[i].jar_stem.as_str());
        if chars_eq(stem.as_slice(), wanted.as_slice()) {
            if items[i].has_update {
                return Ok(i);
            }
            return Err(Ok(update_result("no_updates_available", Some(jar_stem.to_owned()), 0, None)));
        }
        i += 1;
    }
    Err(Err(error_response(NOT_FOUND, "not_found", "Add-on not found.")))
}

/// The answer where no server is active.
pub open spec fn is_no_active_server(e: ApiError) -> bool {
    is_error(e, CONFLICT, "no_active_server"@, "No active server."@)
}

/// The answer where the active server's flavor keeps no add-ons.
pub open spec fn is_no_add_ons(e: ApiError) -> bool {
    is_error(e, CONFLICT, "not_supported"@, "This server's flavor has no add-ons."@)
}

/// Admits a change to the active server's add-ons, in the order the checks
/// are made: the credential must hold the add-on permission, a server must
/// be active, and its flavor must keep add-ons.
pub fn admit_addon_change(permissions: &[Permission], active: bool, has_add_on_dir: bool) -> (res:
    Result<(), ApiError>)
    ensures
        !permits(permissions@, Permission::Addons) ==> (res matches Err(e) && is_forbidden(e)),
        permits(permissions@, Permission::Addons) && !active ==> (res matches Err(e)
            && is_no_active_server(e)),
        permits(permissions@, Permission::Addons) && active && !has_add_on_dir ==> (res matches Err(
            e,
        ) && is_no_add_ons(e)),
        permits(permissions@, Permission::Addons) && active && has_add_on_dir ==> res is Ok,
{
    if let Some(e) = require_permission(permissions, Permission::Addons) {
        return Err(e);
    }
    if !active {
        return Err(error_response(CONFLICT, "no_active_server", "No active server."));
    }
    if !has_add_on_dir {
        return Err(error_response(CONFLICT, "not_supported", "This server's flavor has no add-ons."));
    }
    Ok(())
}

/// Admits an add-on update request and says what it asks for: the add-on
/// change must be admitted first (permission, an active server, a flavor
/// with add-ons), and only then is the request itself read.
pub fn admit_component_update(
    permissions: &[Permission],
    active: bool,
    has_add_on_dir: bool,
    request: &ComponentUpdateRequest,
) -> (res: Result<ComponentUpdatePlan, ApiError>)
    ensures
        !permits(permissions@, Permission::Addons) ==> (res matches Err(e) && is_forbidden(e)),
        permits(permissions@, Permission::Addons) && !active ==> (res matches Err(e)
            && is_no_active_server(e)),
        permits(permissions@, Permission::Addons) && active && !has_add_on_dir ==> (res matches Err(
            e,
        ) && is_no_add_ons(e)),
        permits(permissions@, Permission::Addons) && active && has_add_on_dir ==> update_plan(
            *request,
            res,
        ),
{
    match admit_addon_change(permissions, active, has_add_on_dir) {
        Err(e) => Err(e),
        Ok(()) => plan_component_update(request),
    }
}

/// The answer to an update that changed add-ons without an operation.
pub open spec fn is_done_answer(r: UpdateResult, result: Seq<char>, jar_stem: Seq<char>) -> bool {
    &&& r.status == 200
    &&& r.result@ == result
    &&& r.jar_stem matches Some(s) && s@ == jar_stem
    &&& r.count == 1
    &&& r.operation_id is None
}

/// The result word of a toggle.
pub open spec fn toggle_word(enabled: bool) -> Seq<char> {
    if enabled {
        "enabled"@
    } else {
        "disabled"@
    }
}

/// The answer to an enable or disable that is already in effect, where it
/// is: the jar already has the requested name on a server that no modpack
/// manages. Then nothing is renamed and the request succeeds as it would
/// after the rename; `None` where the rename must be made.
pub fn toggle_in_effect(
    enabled: bool,
    jar_stem: &str,
    pack_managed: bool,
    current_exists: bool,
    target_exists: bool,
) -> (res: Option<UpdateResult>)
    ensures
        res is Some <==> (!pack_managed && !current_exists && target_exists),
        res matches Some(r) ==> is_done_answer(r, toggle_word(enabled), jar_stem@),
{
    if toggle_already_applied(pack_managed, current_exists, target_exists) {
        Some(update_result(toggle_result(enabled), Some(jar_stem.to_owned()), 1, None))
    } else {
        None
    }
}

/// Why a change to the add-on files failed.
#[derive(Debug, Clone, PartialEq, Eq)]
pub enum AddonMutationFailure {
    /// A modpack manages the server's add-ons; `message` is the error's text.
    PackManaged { message: String },
    /// Any other failure, with its text.
    Failed { message: String },
}

/// The answer once a toggle's rename was tried: done, refused on a server
/// that a modpack manages, or failed with the failure's text.
pub fn toggle_finish(enabled: bool, jar_stem: String, outcome: Result<(), AddonMutationFailure>) -> (res:
    Result<UpdateResult, ApiError>)
    ensures
        match outcome {
            Ok(()) => res matches Ok(r) && is_done_answer(r, toggle_word(enabled), jar_stem@),
            Err(AddonMutationFailure::PackManaged { .. }) => res matches Err(e) && is_error(
                e,
                CONFLICT,
                "conflict"@,
                "This server is managed by a modpack."@,
            ),
            Err(AddonMutationFailure::Failed { message }) => res matches Err(e) && is_error(
                e,
                INTERNAL_SERVER_ERROR,
                "internal_error"@,
                message@,
            ),
        },
{
    match outcome {
        Ok(()) => Ok(update_result(toggle_result(enabled), Some(jar_stem), 1, None)),
        Err(AddonMutationFailure::PackManaged { .. }) => Err(
            error_response(CONFLICT, "conflict", "This server is managed by a modpack."),
        ),
        Err(AddonMutationFailure::Failed { message }) => Err(
            error_response(INTERNAL_SERVER_ERROR, "internal_error", message.as_str()),
        ),
    }
}

/// The answer once a link of a jar to a catalog project was saved, or
/// could not be.
pub fn link_finish(jar_stem: String, saved: bool) -> (res: Result<UpdateResult, ApiError>)
    ensures
        saved ==> (res matches Ok(r) && is_done_answer(r, "linked"@, jar_stem@)),
        !saved ==> (res matches Err(e) && is_error(
            e,
            INTERNAL_SERVER_ERROR,
            "internal_error"@,
            "Could not persist add-on link."@,
        )),
{
    if saved {
        Ok(update_result("linked", Some(jar_stem), 1, None))
    } else {
        Err(error_response(INTERNAL_SERVER_ERROR, "internal_error", "Could not persist add-on link."))
    }
}

/// The answer once a plugin's update source was set or removed, or could
/// not be saved (a URL of no known kind cannot be).
pub fn source_finish(jar_stem: String, removed: bool, saved: bool) -> (res: Result<
    UpdateResult,
    ApiError,
>)
    ensures
        saved ==> (res matches Ok(r) && is_done_answer(
            r,
            if removed {
                "source_removed"@
            } else {
                "source_set"@
            },
            jar_stem@,
        )),
        !saved ==> (res matches Err(e) && is_error(
            e,
            INTERNAL_SERVER_ERROR,
            "internal_error"@,
            "Could not persist plugin source."@,
        )),
{
    if !saved {
        return Err(
            error_response(INTERNAL_SERVER_ERROR, "internal_error", "Could not persist plugin source."),
        );
    }
    let word = if removed {
        "source_removed"
    } else {
        "source_set"
    };
    Ok(update_result(word, Some(jar_stem), 1, None))
}

/// No add-on of the plan has an update.
pub open spec fn none_updatable(items: Seq<PlanItem>) -> bool {
    forall|i: int| 0 <= i < items.len() ==> !(#[trigger] items[i]).has_update
}

/// What a bulk update does: update the add-ons that have an update, in
/// order, or, where none has, answer at once that no update is available,
/// with no jar stem, a count of zero and no operation.
pub fn update_all_targets(items: &Vec<PlanItem>) -> (res: Result<Vec<usize>, UpdateResult>)
    ensures
        res is Err <==> none_updatable(items@),
        res matches Err(r) ==> r.status == 200 && r.result@ == "no_updates_available"@
            && r.jar_stem is None && r.count == 0 && r.operation_id is None,
        res matches Ok(idx) ==> {
            &&& idx@.len() > 0
            &&& forall|k: int| 0 <= k < idx@.len() ==> #[trigger] idx@[k] < items@.len()
                && items@[idx@[k] as int].has_update
            &&& forall|i: int| 0 <= i < items@.len() && #[trigger] items@[i].has_update
                ==> idx@.contains(i as usize)
            &&& forall|a: int, b: int| 0 <= a < b < idx@.len() ==> #[trigger] idx@[a]
                < #[trigger] idx@[b]
        },
{
    let idx = items_with_updates(items);
    if idx.len() == 0 {
        proof {
            assert forall|i: int| 0 <= i < items@.len() implies !(#[trigger] items@[i]).has_update by {
                if items@[i].has_update {
                    assert(idx@.contains(i as usize));
                }
            }
        }
        return Err(update_result("no_updates_available", None, 0, None));
    }
    proof {
        let k = idx@[0] as int;
        assert(items@[k].has_update);
    }
    Ok(idx)
}

/// How an add-on operation ends.
#[derive(Debug, Clone, PartialEq, Eq)]
pub enum OperationEnd {
    Succeeded { message: String },
    Failed { code: String, message: String },
}

/// The code and text with which a failed add-on change ends its
/// operation: a server that a modpack manages is a conflict, anything else
/// an internal error.
pub open spec fn failure_end(f: AddonMutationFailure, end: OperationEnd) -> bool {
    match f {
        AddonMutationFailure::PackManaged { message } => end == (OperationEnd::Failed {
            code: end->Failed_code,
            message,
        }) && end->Failed_code@ == "conflict"@,
        AddonMutationFailure::Failed { message } => end == (OperationEnd::Failed {
            code: end->Failed_code,
            message,
        }) && end->Failed_code@ == "internal_error"@,
    }
}

fn copy_failure(f: &AddonMutationFailure) -> (res: AddonMutationFailure)
    ensures
        res == *f,
{
    match f {
        AddonMutationFailure::PackManaged { message } => AddonMutationFailure::PackManaged {
            message: message.clone(),
        },
        AddonMutationFailure::Failed { message } => AddonMutationFailure::Failed {
            message: message.clone(),
        },
    }
}

pub(crate) fn failure_to_end(f: AddonMutationFailure) -> (res: OperationEnd)
    ensures
        failure_end(f, res),
{
    match f {
        AddonMutationFailure::PackManaged { message } => OperationEnd::Failed {
            code: concat_str(String::new(), mutation_failure_code(true)),
            message,
        },
        AddonMutationFailure::Failed { message } => OperationEnd::Failed {
            code: concat_str(String::new(), mutation_failure_code(false)),
            message,
        },
    }
}

/// How a single add-on update ends its operation, and the answer that was
/// given when it started: accepted, naming the add-on, with a count of one.
pub fn update_one_finish(jar_stem: String, operation_id: String, outcome: Result<
    (),
    AddonMutationFailure,
>) -> (res: (OperationEnd, UpdateResult))
    ensures
        match outcome {
            Ok(()) => res.0 matches OperationEnd::Succeeded { message } && message@
                == "Updated add-on."@,
            Err(f) => failure_end(f, res.0),
        },
        res.1.status == 202,
        res.1.result@ == "update_started"@,
        res.1.jar_stem == Some(jar_stem),
        res.1.count == 1,
        res.1.operation_id == Some(operation_id),
{
    let end = match outcome {
        Ok(()) => OperationEnd::Succeeded { message: concat_str(String::new(), "Updated add-on.") },
        Err(f) => failure_to_end(f),
    };
    (end, update_result("update_started", Some(jar_stem), 1, Some(operation_id)))
}

/// The number of updates among `outcomes` that succeeded.
pub open spec fn succeeded_count(outcomes: Seq<Result<(), AddonMutationFailure>>) -> nat
    decreases outcomes.len(),
{
    if outcomes.len() == 0 {
        0
    } else {
        succeeded_count(outcomes.drop_last()) + if outcomes.last() is Ok {
            1nat
        } else {
            0nat
        }
    }
}

/// The index of the first update among `outcomes` that failed.
pub open spec fn first_failure(outcomes: Seq<Result<(), AddonMutationFailure>>, from: int) -> Option<int>
    decreases outcomes.len() - from,
{
    if from < 0 || from >= outcomes.len() {
        None
    } else if outcomes[from] is Err {
        Some(from)
    } else {
        first_failure(outcomes, from + 1)
    }
}

proof fn lemma_first_failure(outcomes: Seq<Result<(), AddonMutationFailure>>, from: int)
    requires
        0 <= from,
    ensures
        first_failure(outcomes, from) matches Some(k) ==> from <= k < outcomes.len()
            && outcomes[k] is Err,
    decreases outcomes.len() - from,
{
    if from < outcomes.len() && outcomes[from] is Ok {
        lemma_first_failure(outcomes, from + 1);
    }
}

/// How a bulk update ends its operation, and the answer that was given
/// when it started: the first failure, where one came, fails the
/// operation; otherwise it succeeds. The answer is accepted, names no
/// add-on, and counts the updates that succeeded.
pub fn update_all_finish(operation_id: String, outcomes: &Vec<Result<(), AddonMutationFailure>>) -> (res: (
    OperationEnd,
    UpdateResult,
))
    ensures
        match first_failure(outcomes@, 0) {
            None => res.0 matches OperationEnd::Succeeded { message } && message@
                == "Updated add-ons."@,
            Some(k) => failure_end(outcomes@[k]->Err_0, res.0),
        },
        res.1.status == 202,
        res.1.result@ == "update_started"@,
        res.1.jar_stem is None,
        res.1.count == if succeeded_count(outcomes@) <= i64::MAX {
            succeeded_count(outcomes@) as int
        } else {
            0
        },
        res.1.operation_id == Some(operation_id),
{
    proof {
        lemma_first_failure(outcomes@, 0);
    }
    let mut updated: usize = 0;
    let mut failure: Option<usize> = None;
    let mut i: usize = 0;
    while i < outcomes.len()
        invariant
            i <= outcomes.len(),
            updated == succeeded_count(outcomes@.take(i as int)),
            updated <= i,
            match failure {
                None => first_failure(outcomes@, 0) == first_failure(outcomes@, i as int),
                Some(k) => first_failure(outcomes@, 0) == Some(k as int),
            },
        decreases outcomes.len() - i,
    {
        assert(outcomes@.take(i + 1).drop_last() =~= outcomes@.take(i as int));
        match &outcomes[i] {
            Ok(()) => {
                updated = updated + 1;
            },
            Err(_) => {
                if failure.is_none() {
                    failure = Some(i);
                }
            },
        }
        i += 1;
    }
    assert(outcomes@.take(outcomes.len() as int) =~= outcomes@);
    let end = match failure {
        None => OperationEnd::Succeeded { message: concat_str(String::new(), "Updated add-ons.") },
        Some(k) => match &outcomes[k] {
            Err(f) => failure_to_end(copy_failure(f)),
            Ok(()) => OperationEnd::Succeeded { message: concat_str(String::new(), "Updated add-ons.") },
        },
    };
    let count: i64 = if (updated as u64) <= (i64::MAX as u64) {
        updated as i64
    } else {
        0
    };
    (end, update_result("update_started", None, count, Some(operation_id)))
}

/// The file name of a client export archive of the server `server_id`.
pub fn client_export_zip_name(server_id: &str) -> (res: String)
    ensures
        res@ == server_id@ + "-client-export.zip"@,
{
    concat_str(server_id.to_owned(), "-client-export.zip")
}

/// How many export items are selected, and the note shown where none is.
pub fn selection_summary(selected: &Vec<bool>) -> (res: (usize, Option<String>))
    ensures
        res.0 == selected@.filter(|b: bool| b).len(),
        res.0 == 0 ==> (res.1 matches Some(n) && n@ == "nothing_selected"@),
        res.0 > 0 ==> res.1 is None,
{
    let mut count: usize = 0;
    let mut i: usize = 0;
    while i < selected.len()
        invariant
            i <= selected.len(),
            count == selected@.take(i as int).filter(|b: bool| b).len(),
            count <= i,
        decreases selected.len() - i,
    {
        proof {
            selected@.take(i as int).lemma_filter_push(selected@[i as int], |b: bool| b);
            assert(selected@.take(i as int).push(selected@[i as int]) =~= selected@.take(i + 1));
        }
        if selected[i] {
            count += 1;
        }
        i += 1;
    }
    assert(selected@.take(selected.len() as int) =~= selected@);
    let note = if count == 0 {
        Some(concat_str(String::new(), "nothing_selected"))
    } else {
        None
    };
    (count, note)
}

/// A helper plugin's installed version, as its jar reports it.
#[derive(Debug, Clone, PartialEq, Eq)]
pub struct PluginMetadata {
    pub version: String,
    pub build: Option<u64>,
}

/// A helper plugin found (or not) in the server's plugin folder.
#[derive(Debug, Clone, PartialEq, Eq)]
pub struct HelperInstall {
    pub installed: bool,
    /// What its jar reports, where it could be read.
    pub metadata: Option<PluginMetadata>,
}

/// One component of a server as the components answer lists it.
#[derive(Debug, Clone, PartialEq, Eq)]
pub struct ComponentStatus {
    pub name: String,
    pub installed_build: Option<u64>,
    pub latest_build: Option<u64>,
    pub installed_version: Option<String>,
    pub latest_version: Option<String>,
    pub is_up_to_date: bool,
    pub installed_label: Option<String>,
    pub updatable: Option<bool>,
    pub note: Option<String>,
}

/// What a server's component list reads of the server.
#[derive(Debug, Clone, PartialEq, Eq)]
pub struct ComponentServer {
    pub is_java: bool,
    /// The Java flavor's name.
    pub flavor_name: String,
    pub minecraft_version: Option<String>,
    pub server_build: Option<String>,
    pub geyser: HelperInstall,
    pub floodgate: HelperInstall,
}

/// The label of the installed server: version and build where both are
/// known.
pub open spec fn server_label(version: Option<String>, build: Option<String>) -> Option<Seq<char>> {
    match (version, build) {
        (Some(v), Some(b)) => Some(v@ + " · "@ + b@),
        (Some(v), None) => Some(v@),
        (None, Some(b)) => Some(b@),
        (None, None) => None,
    }
}

/// The row of an installed helper: what its jar reports (its build number,
/// else its version, else just `installed`), never up to date, never
/// updatable, with the note that no update information exists.
pub open spec fn helper_row(name: Seq<char>, metadata: Option<PluginMetadata>, row: ComponentStatus) -> bool {
    &&& row.name@ == name
    &&& row.latest_build is None
    &&& row.latest_version is None
    &&& !row.is_up_to_date
    &&& row.updatable == Some(false)
    &&& row.note matches Some(n) && n@ == "update_information_unavailable"@
    &&& match metadata {
        Some(m) => row.installed_build == m.build && row.installed_version == Some(m.version)
            && (row.installed_label matches Some(l) && l@ == match m.build {
            Some(b) => decimal(b as nat),
            None => m.version@,
        }),
        None => row.installed_build is None && row.installed_version is None && (
        row.installed_label matches Some(l) && l@ == "installed"@),
    }
}

/// The row of the server itself: its flavor, with the installed version as
/// both installed and latest, up to date and updatable.
pub open spec fn server_row(server: ComponentServer, row: ComponentStatus) -> bool {
    &&& row.name == server.flavor_name
    &&& row.installed_build is None
    &&& row.latest_build is None
    &&& row.installed_version == server.minecraft_version
    &&& row.latest_version == server.minecraft_version
    &&& row.is_up_to_date
    &&& match server_label(server.minecraft_version, server.server_build) {
        Some(l) => row.installed_label matches Some(x) && x@ == l,
        None => row.installed_label is None,
    }
    &&& row.updatable == Some(true)
    &&& row.note is None
}

fn helper_row_exec(name: &str, metadata: &Option<PluginMetadata>) -> (res: ComponentStatus)
    ensures
        helper_row(name@, *metadata, res),
{
    let (build, version, label) = match metadata {
        Some(m) => (
            m.build,
            Some(m.version.clone()),
            match m.build {
                Some(b) => string_of(crate::text::decimal_exec(b).as_slice()),
                None => m.version.clone(),
            },
        ),
        None => (None, None, concat_str(String::new(), "installed")),
    };
    ComponentStatus {
        name: name.to_owned(),
        installed_build: build,
        latest_build: None,
        installed_version: version,
        latest_version: None,
        is_up_to_date: false,
        installed_label: Some(label),
        updatable: Some(false),
        note: Some(concat_str(String::new(), "update_information_unavailable")),
    }
}

/// The components of a server: nothing for a Bedrock server; for a Java
/// server the server itself, then Geyser and Floodgate where installed.
pub fn component_rows(server: &ComponentServer) -> (res: Vec<ComponentStatus>)
    ensures
        !server.is_java ==> res@.len() == 0,
        server.is_java ==> {
            let n = 1 + (if server.geyser.installed {
                1int
            } else {
                0int
            }) + (if server.floodgate.installed {
                1int
            } else {
                0int
            });
            &&& res@.len() == n
            &&& server_row(*server, res@[0])
            &&& server.geyser.installed ==> helper_row("Geyser"@, server.geyser.metadata, res@[1])
            &&& server.floodgate.installed ==> helper_row(
                "Floodgate"@,
                server.floodgate.metadata,
                res@[n - 1],
            )
        },
{
    let mut rows: Vec<ComponentStatus> = Vec::new();
    if !server.is_java {
        return rows;
    }
    let label = match (&server.minecraft_version, &server.server_build) {
        (Some(v), Some(b)) => Some(concat_str(concat_str(v.clone(), " · "), b.as_str())),
        (Some(v), None) => Some(v.clone()),
        (None, Some(b)) => Some(b.clone()),
        (None, None) => None,
    };
    rows.push(
        ComponentStatus {
            name: server.flavor_name.clone(),
            installed_build: None,
            latest_build: None,
            installed_version: server.minecraft_version.clone(),
            latest_version: server.minecraft_version.clone(),
            is_up_to_date: true,
            installed_label: label,
            updatable: Some(true),
            note: None,
        },
    );
    if server.geyser.installed {
        rows.push(helper_row_exec("Geyser", &server.geyser.metadata));
    }
    if server.floodgate.installed {
        rows.push(helper_row_exec("Floodgate", &server.floodgate.metadata));
    }
    rows
}

/// A Java flavor as the catalog search reads it: its name and the kind of
/// add-on it loads, if any.
#[derive(Debug, Clone, PartialEq, Eq)]
pub struct CatalogFlavor {
    pub raw_name: String,
    pub add_on_kind: Option<AddOnKind>,
}

/// One project found in the catalog.
#[derive(Debug, Clone, PartialEq, Eq)]
pub struct CatalogHit {
    pub project_id: String,
    pub slug: String,
    pub title: String,
    pub description: String,
    pub author: String,
    pub downloads: u64,
    pub icon_url: Option<String>,
    pub is_client_only: bool,
}

/// One project of the search answer.
#[derive(Debug, Clone, PartialEq, Eq)]
pub struct CatalogItem {
    pub hit: CatalogHit,
    /// `mod` or `plugin`.
    pub project_type: String,
}

/// The answer to a catalog search.
#[derive(Debug, Clone, PartialEq, Eq)]
pub struct CatalogSearchResponse {
    pub supports_addons: bool,
    pub addon_kind: Option<String>,
    pub loader_name: Option<String>,
    pub game_version: Option<String>,
    pub results: Vec<CatalogItem>,
    pub note: Option<String>,
}

/// What a catalog search runs against: the flavor, its game version and
/// the kind of add-on searched for.
#[derive(Debug, Clone, PartialEq, Eq)]
pub struct CatalogTarget {
    pub flavor: CatalogFlavor,
    pub minecraft_version: Option<String>,
    pub kind: AddOnKind,
}

/// The name of an add-on kind.
pub open spec fn kind_name(kind: AddOnKind) -> Seq<char> {
    match kind {
        AddOnKind::Mod => "mod"@,
        AddOnKind::Plugin => "plugin"@,
    }
}

/// What a search runs against: a flavor named in the request (with the
/// requested game version) where it names a known one, else the active
/// server's flavor and version. Without either, or for a flavor without
/// add-ons, the answer says so and lists nothing.
pub fn catalog_target(
    requested: Option<CatalogFlavor>,
    requested_version: Option<String>,
    active: Option<(CatalogFlavor, Option<String>)>,
) -> (res: Result<CatalogTarget, CatalogSearchResponse>)
    ensures
        ({
            let chosen = match requested {
                Some(f) => Some((f, requested_version)),
                None => active,
            };
            match chosen {
                None => res matches Err(r) && !r.supports_addons && r.addon_kind is None
                    && r.loader_name is None && r.game_version is None && r.results@.len() == 0
                    && (r.note matches Some(n) && n@ == "No active server."@),
                Some((f, v)) => match f.add_on_kind {
                    None => res matches Err(r) && !r.supports_addons && r.addon_kind is None
                        && r.loader_name is None && r.game_version == v && r.results@.len() == 0
                        && (r.note matches Some(n) && n@ == "This server flavor has no add-ons."@),
                    Some(k) => res == Ok::<CatalogTarget, CatalogSearchResponse>(
                        CatalogTarget { flavor: f, minecraft_version: v, kind: k },
                    ),
                },
            }
        }),
{
    let (flavor, version) = match requested {
        Some(f) => (f, requested_version),
        None => match active {
            Some((f, v)) => (f, v),
            None => {
                return Err(
                    CatalogSearchResponse {
                        supports_addons: false,
                        addon_kind: None,
                        loader_name: None,
                        game_version: None,
                        results: Vec::new(),
                        note: Some(concat_str(String::new(), "No active server.")),
                    },
                );
            },
        },
    };
    match flavor.add_on_kind {
        None => Err(
            CatalogSearchResponse {
                supports_addons: false,
                addon_kind: None,
                loader_name: None,
                game_version: version,
                results: Vec::new(),
                note: Some(concat_str(String::new(), "This server flavor has no add-ons.")),
            },
        ),
        Some(k) => Ok(CatalogTarget { flavor, minecraft_version: version, kind: k }),
    }
}

/// The answer to a search that ran: the target's kind, loader and game
/// version, then either the projects found, each typed with the kind, or
/// no projects and the provider's failure as the note.
pub fn catalog_search_response(target: CatalogTarget, outcome: Result<Vec<CatalogHit>, String>) -> (res:
    CatalogSearchResponse)
    ensures
        res.supports_addons,
        res.addon_kind matches Some(k) && k@ == kind_name(target.kind),
        res.loader_name == Some(target.flavor.raw_name),
        res.game_version == target.minecraft_version,
        match outcome {
            Err(m) => res.results@.len() == 0 && res.note == Some(m),
            Ok(hits) => res.note is None && res.results@.len() == hits@.len() && forall|i: int|
                0 <= i < hits@.len() ==> #[trigger] res.results@[i].hit == hits@[i]
                    && res.results@[i].project_type@ == kind_name(target.kind),
        },
{
    let kind = add_on_kind_name(target.kind);
    let (results, note) = match outcome {
        Err(m) => (Vec::new(), Some(m)),
        Ok(hits) => {
            let mut items: Vec<CatalogItem> = Vec::new();
            let mut rest = hits;
            let ghost all = rest@;
            while rest.len() > 0
                invariant
                    rest@ == all.skip(items@.len() as int),
                    items@.len() <= all.len(),
                    forall|k: int|
                        0 <= k < items@.len() ==> #[trigger] items@[k].hit == all[k]
                            && items@[k].project_type@ == kind_name(target.kind),
                    kind@ == kind_name(target.kind),
                decreases rest.len(),
            {
                let ghost done = items@.len();
                let hit = rest.remove(0);
                assert(rest@ =~= all.skip((done + 1) as int));
                items.push(CatalogItem { hit, project_type: kind.to_owned() });
            }
            assert(items@.len() == all.len());
            (items, None)
        },
    };
    CatalogSearchResponse {
        supports_addons: true,
        addon_kind: Some(kind.to_owned()),
        loader_name: Some(target.flavor.raw_name),
        game_version: target.minecraft_version,
        results,
        note,
    }
}

/// An installed add-on as the update check resolved it.
#[derive(Debug, Clone, PartialEq, Eq)]
pub struct AddonPlanEntry {
    pub jar_stem: String,
    pub display_name: String,
    pub is_enabled: bool,
    pub project_id: Option<String>,
    pub current_version: Option<String>,
    pub available_version_label: Option<String>,
    pub bucket: AddonUpdateBucket,
}

/// An installed add-on as the add-ons answer lists it.
#[derive(Debug, Clone, PartialEq, Eq)]
pub struct AddonItem {
    pub jar_stem: String,
    pub display_name: String,
    pub is_enabled: bool,
    pub project_id: Option<String>,
    pub current_version: Option<String>,
    pub available_version: Option<String>,
    pub bucket: String,
    pub icon_url: Option<String>,
}

/// The answer listing the active server's add-ons.
#[derive(Debug, Clone, PartialEq, Eq)]
pub struct AddonsResponse {
    pub addons: Vec<AddonItem>,
    pub is_resolving: bool,
    pub server_supports_addons: bool,
    pub pack_managed: Option<bool>,
    pub pack_name: Option<String>,
    pub note: Option<String>,
}

/// What the add-ons answer reads of the active server.
#[derive(Debug, Clone, PartialEq, Eq)]
pub struct AddonServer {
    /// The server's add-ons come from a modpack.
    pub pack_managed: bool,
    pub pack_name: Option<String>,
    /// The server's flavor keeps add-ons in a folder.
    pub has_add_on_folder: bool,
}

/// The add-ons answer where nothing can be listed: no active server, or a
/// flavor without add-ons. `None` where the add-ons are to be resolved.
pub fn addons_unavailable(active: Option<&AddonServer>) -> (res: Option<AddonsResponse>)
    ensures
        match active {
            None => res matches Some(r) && r.addons@.len() == 0 && !r.is_resolving
                && !r.server_supports_addons && r.pack_managed is None && r.pack_name is None && (
            r.note matches Some(n) && n@ == "No active server."@),
            Some(s) => if s.has_add_on_folder {
                res is None
            } else {
                res matches Some(r) && r.addons@.len() == 0 && !r.is_resolving
                    && !r.server_supports_addons && r.pack_managed == Some(s.pack_managed)
                    && r.pack_name == s.pack_name && (r.note matches Some(n) && n@
                    == "This server flavor has no add-ons."@)
            },
        },
{
    match active {
        None => Some(
            AddonsResponse {
                addons: Vec::new(),
                is_resolving: false,
                server_supports_addons: false,
                pack_managed: None,
                pack_name: None,
                note: Some(concat_str(String::new(), "No active server.")),
            },
        ),
        Some(s) => if s.has_add_on_folder {
            None
        } else {
            Some(
                AddonsResponse {
                    addons: Vec::new(),
                    is_resolving: false,
                    server_supports_addons: false,
                    pack_managed: Some(s.pack_managed),
                    pack_name: s.pack_name.clone(),
                    note: Some(concat_str(String::new(), "This server flavor has no add-ons.")),
                },
            )
        },
    }
}

/// The add-on as the answer lists it.
pub open spec fn addon_item_of(e: AddonPlanEntry, item: AddonItem) -> bool {
    &&& item.jar_stem == e.jar_stem
    &&& item.display_name == e.display_name
    &&& item.is_enabled == e.is_enabled
    &&& item.project_id == e.project_id
    &&& item.current_version == e.current_version
    &&& item.available_version == e.available_version_label
    &&& item.bucket@ == bucket_name(e.bucket)
    &&& item.icon_url is None
}

/// The add-ons answer of a server whose add-ons were resolved: every add-on
/// in the order of the plan, with its update bucket named.
pub fn addons_response(server: AddonServer, entries: Vec<AddonPlanEntry>) -> (res: AddonsResponse)
    ensures
        res.addons@.len() == entries@.len(),
        forall|i: int| 0 <= i < entries@.len() ==> addon_item_of(entries@[i], #[trigger] res.addons@[i]),
        !res.is_resolving,
        res.server_supports_addons,
        res.pack_managed == Some(server.pack_managed),
        res.pack_name == server.pack_name,
        res.note is None,
{
    let mut addons: Vec<AddonItem> = Vec::new();
    let mut rest = entries;
    let ghost all = rest@;
    while rest.len() > 0
        invariant
            rest@ == all.skip(addons@.len() as int),
            addons@.len() <= all.len(),
            forall|k: int| 0 <= k < addons@.len() ==> addon_item_of(all[k], #[trigger] addons@[k]),
        decreases rest.len(),
    {
        let ghost done = addons@.len();
        let e = rest.remove(0);
        assert(rest@ =~= all.skip((done + 1) as int));
        let bucket = addon_bucket_name(e.bucket).to_owned();
        addons.push(
            AddonItem {
                jar_stem: e.jar_stem,
                display_name: e.display_name,
                is_enabled: e.is_enabled,
                project_id: e.project_id,
                current_version: e.current_version,
                available_version: e.available_version_label,
                bucket,
                icon_url: None,
            },
        );
    }
    AddonsResponse {
        addons,
        is_resolving: false,
        server_supports_addons: true,
        pack_managed: Some(server.pack_managed),
        pack_name: server.pack_name,
        note: None,
    }
}

} // verus!
