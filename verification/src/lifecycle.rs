//! The agent's registry of managed servers, as far as its routes decide on
//! it: each server's world-reconciliation status, the guard in front of the
//! world and backup mutations, and the summary of a registered server.

use vstd::prelude::*;
use crate::api::{
    ApiError, CONFLICT, INTERNAL_SERVER_ERROR, NOT_FOUND, error_response, is_error,
    reconciliation_degraded_response,
};
use crate::health::first_value;
use crate::text::{
    chars_of, concat_str, lines, lines_exec, parse_i64, parse_signed, slice_vec, starts_with_exec,
    trim, trim_vec,
};

verus! {

/// Where a server's world data stands after the agent's startup
/// reconciliation.
#[derive(Debug, Clone, PartialEq, Eq)]
pub enum ReconciliationStatus {
    /// Registered, but its world data has not passed reconciliation yet.
    Reconciling,
    /// Reconciled: world and backup mutations are open.
    Ready,
    /// Reconciliation failed; `reason` is the first failure met.
    Degraded { reason: String },
}

/// The reason given for a server that the registry knows nothing of.
pub open spec fn unknown_server_reason() -> Seq<char> {
    "no reconciliation state exists for this server"@
}

/// The reconciliation status of every server, at most one per server id.
pub struct ReconciliationRegistry {
    entries: Vec<(String, ReconciliationStatus)>,
}

/// The status recorded for `id` in `entries`, if any.
pub open spec fn status_in(entries: Seq<(String, ReconciliationStatus)>, id: Seq<char>) -> Option<
    ReconciliationStatus,
>
    decreases entries.len(),
{
    if entries.len() == 0 {
        None
    } else if entries.last().0@ == id {
        Some(entries.last().1)
    } else {
        status_in(entries.drop_last(), id)
    }
}

impl ReconciliationRegistry {
    /// No server id occurs twice.
    #[verifier::type_invariant]
    spec fn ids_distinct(self) -> bool {
        forall|i: int, j: int|
            0 <= i < j < self.entries@.len() ==> #[trigger] self.entries@[i].0@
                != #[trigger] self.entries@[j].0@
    }

    /// The status recorded for each server id.
    pub closed spec fn recorded(self, id: Seq<char>) -> Option<ReconciliationStatus> {
        status_in(self.entries@, id)
    }

    /// A registry that knows no server.
    pub fn new() -> (res: Self)
        ensures
            forall|id: Seq<char>| #[trigger] res.recorded(id) is None,
    {
        ReconciliationRegistry { entries: Vec::new() }
    }

    fn position(&self, id: &[char]) -> (res: Option<usize>)
        ensures
            match res {
                Some(k) => k < self.entries@.len() && self.entries@[k as int].0@ == id@,
                None => forall|k: int| 0 <= k < self.entries@.len() ==> #[trigger] self.entries@[k].0@ != id@,
            },
    {
        let mut i: usize = 0;
        while i < self.entries.len()
            invariant
                i <= self.entries@.len(),
                forall|k: int| 0 <= k < i ==> #[trigger] self.entries@[k].0@ != id@,
            decreases self.entries@.len() - i,
        {
            let key = chars_of(self.entries[i].0.as_str());
            if crate::text::chars_eq(key.as_slice(), id) {
                return Some(i);
            }
            i += 1;
        }
        None
    }

    /// The status of the server `server_id`; a server the registry knows
    /// nothing of counts as degraded.
    pub fn status(&self, server_id: &str) -> (res: ReconciliationStatus)
        ensures
            match self.recorded(server_id@) {
                Some(s) => res == s,
                None => res matches ReconciliationStatus::Degraded { reason } && reason@
                    == unknown_server_reason(),
            },
    {
        proof {
            use_type_invariant(self);
        }
        let id = chars_of(server_id);
        match self.position(id.as_slice()) {
            Some(k) => {
                proof {
                    lemma_status_at(self.entries@, k as int, server_id@);
                }
                copy_status(&self.entries[k].1)
            },
            None => {
                proof {
                    lemma_status_absent(self.entries@, server_id@);
                }
                ReconciliationStatus::Degraded {
                    reason: concat_str(
                        String::new(),
                        "no reconciliation state exists for this server",
                    ),
                }
            },
        }
    }

    /// Records `status` for the server `server_id`, replacing what was
    /// recorded for it.
    pub fn set(&mut self, server_id: String, status: ReconciliationStatus)
        ensures
            final(self).recorded(server_id@) == Some(status),
            forall|other: Seq<char>| other != server_id@ ==> #[trigger] final(self).recorded(other)
                == old(self).recorded(other),
    {
        proof {
            use_type_invariant(&*self);
        }
        let id = chars_of(server_id.as_str());
        let ghost before = self.entries@;
        match self.position(id.as_slice()) {
            Some(k) => {
                let mut entries = Vec::new();
                std::mem::swap(&mut entries, &mut self.entries);
                entries.set(k, (server_id, status));
                proof {
                    assert forall|i: int, j: int|
                        0 <= i < j < entries@.len() implies #[trigger] entries@[i].0@
                        != #[trigger] entries@[j].0@ by {
                        assert(before[i].0@ != before[j].0@);
                    }
                    lemma_status_after_replace(before, entries@, k as int);
                }
                self.entries = entries;
            },
            None => {
                let mut entries = Vec::new();
                std::mem::swap(&mut entries, &mut self.entries);
                entries.push((server_id, status));
                proof {
                    assert(entries@.drop_last() =~= before);
                    assert forall|i: int, j: int|
                        0 <= i < j < entries@.len() implies #[trigger] entries@[i].0@
                        != #[trigger] entries@[j].0@ by {
                        if j < before.len() {
                            assert(before[i].0@ != before[j].0@);
                        } else {
                            assert(entries@[i] == before[i]);
                        }
                    }
                }
                self.entries = entries;
            },
        }
    }
}

fn copy_status(status: &ReconciliationStatus) -> (res: ReconciliationStatus)
    ensures
        res == *status,
{
    match status {
        ReconciliationStatus::Reconciling => ReconciliationStatus::Reconciling,
        ReconciliationStatus::Ready => ReconciliationStatus::Ready,
        ReconciliationStatus::Degraded { reason } => ReconciliationStatus::Degraded {
            reason: reason.clone(),
        },
    }
}

proof fn lemma_status_at(entries: Seq<(String, ReconciliationStatus)>, k: int, id: Seq<char>)
    requires
        0 <= k < entries.len(),
        entries[k].0@ == id,
        forall|i: int, j: int|
            0 <= i < j < entries.len() ==> #[trigger] entries[i].0@ != #[trigger] entries[j].0@,
    ensures
        status_in(entries, id) == Some(entries[k].1),
    decreases entries.len(),
{
    if k < entries.len() - 1 {
        assert(entries.last().0@ != id) by {
            assert(entries[k].0@ != entries[entries.len() - 1].0@);
        }
        let rest = entries.drop_last();
        assert forall|i: int, j: int| 0 <= i < j < rest.len() implies #[trigger] rest[i].0@
            != #[trigger] rest[j].0@ by {
            assert(entries[i].0@ != entries[j].0@);
        }
        lemma_status_at(rest, k, id);
    }
}

proof fn lemma_status_absent(entries: Seq<(String, ReconciliationStatus)>, id: Seq<char>)
    requires
        forall|k: int| 0 <= k < entries.len() ==> #[trigger] entries[k].0@ != id,
    ensures
        status_in(entries, id) is None,
    decreases entries.len(),
{
    if entries.len() > 0 {
        assert(entries[entries.len() - 1].0@ != id);
        let rest = entries.drop_last();
        assert forall|k: int| 0 <= k < rest.len() implies #[trigger] rest[k].0@ != id by {
            assert(rest[k] == entries[k]);
        }
        lemma_status_absent(rest, id);
    }
}

proof fn lemma_status_after_replace(
    before: Seq<(String, ReconciliationStatus)>,
    after: Seq<(String, ReconciliationStatus)>,
    k: int,
)
    requires
        0 <= k < before.len(),
        after.len() == before.len(),
        after[k].0@ == before[k].0@,
        forall|i: int| 0 <= i < before.len() && i != k ==> #[trigger] after[i] == before[i],
        forall|i: int, j: int|
            0 <= i < j < after.len() ==> #[trigger] after[i].0@ != #[trigger] after[j].0@,
    ensures
        status_in(after, after[k].0@) == Some(after[k].1),
        forall|other: Seq<char>|
            other != after[k].0@ ==> #[trigger] status_in(after, other) == status_in(before, other),
    decreases before.len(),
{
    lemma_status_at(after, k, after[k].0@);
    assert forall|other: Seq<char>| other != after[k].0@ implies #[trigger] status_in(after, other)
        == status_in(before, other) by {
        lemma_status_same_except(before, after, k, other);
    }
}

proof fn lemma_status_same_except(
    before: Seq<(String, ReconciliationStatus)>,
    after: Seq<(String, ReconciliationStatus)>,
    k: int,
    other: Seq<char>,
)
    requires
        after.len() == before.len(),
        0 <= k < before.len() ==> after[k].0@ == before[k].0@ && other != after[k].0@,
        forall|i: int| 0 <= i < before.len() && i != k ==> #[trigger] after[i] == before[i],
    ensures
        status_in(after, other) == status_in(before, other),
    decreases before.len(),
{
    if before.len() > 0 {
        let n = before.len() - 1;
        if n != k {
            assert(after[n] == before[n]);
        }
        let b = before.drop_last();
        let a = after.drop_last();
        assert forall|i: int| 0 <= i < b.len() && i != k implies #[trigger] a[i] == b[i] by {
            assert(a[i] == after[i]);
            assert(b[i] == before[i]);
        }
        if 0 <= k < b.len() {
            assert(a[k] == after[k]);
            assert(b[k] == before[k]);
        }
        lemma_status_same_except(b, a, k, other);
    }
}

/// The answer where no server is active.
pub fn no_active_server() -> (res: ApiError)
    ensures
        is_error(res, CONFLICT, "conflict"@, "No server is currently active."@),
{
    error_response(CONFLICT, "conflict", "No server is currently active.")
}

/// The guard in front of every world and backup mutation: a server must be
/// active, and one whose reconciliation failed is refused with its reason.
pub fn mutation_guard(active: bool, status: &ReconciliationStatus) -> (res: Result<(), ApiError>)
    ensures
        !active ==> (res matches Err(e) && is_error(
            e,
            CONFLICT,
            "conflict"@,
            "No server is currently active."@,
        )),
        active && status is Degraded ==> (res matches Err(e) && e.status == CONFLICT && e.code@
            == "world_reconciliation_degraded"@ && e.message@
            == "This server's world data could not be safely reconciled, so it is in a read-only diagnostic state: "@
            + status->reason@ + ". Fix the underlying issue and restart the agent."@),
        active && !(status is Degraded) ==> res is Ok,
{
    if !active {
        return Err(no_active_server());
    }
    match status {
        ReconciliationStatus::Degraded { reason } => Err(
            reconciliation_degraded_response(reason.as_str()),
        ),
        _ => Ok(()),
    }
}

/// A failure to load or save the agent's application config.
#[derive(Debug, Clone, PartialEq, Eq)]
pub enum AgentAppConfigError {
    Load(String),
    Save(String),
}

impl AgentAppConfigError {
    /// The failure's message.
    pub fn message(&self) -> (res: String)
        ensures
            res@ == match *self {
                AgentAppConfigError::Load(m) => m@,
                AgentAppConfigError::Save(m) => m@,
            },
    {
        match self {
            AgentAppConfigError::Load(m) => m.clone(),
            AgentAppConfigError::Save(m) => m.clone(),
        }
    }
}

/// A failed change of the application config: the change itself refused,
/// or the changed config could not be saved.
#[derive(Debug, Clone, PartialEq, Eq)]
pub enum TryMutateError<E> {
    Domain(E),
    Save(AgentAppConfigError),
}

/// What a start or stop request answers.
#[derive(Debug, Clone, PartialEq, Eq)]
pub struct LifecycleActionResult {
    pub active_server_id: Option<String>,
    pub operation_id: Option<String>,
}

/// A registered server as the server list shows it.
#[derive(Debug, Clone, PartialEq, Eq)]
pub struct RegisteredServerDtoParts {
    pub id: String,
    pub name: String,
    pub directory: String,
    pub server_type: String,
    pub java_flavor: Option<String>,
    pub game_port: Option<i64>,
    pub bedrock_port: Option<i64>,
    pub first_start_required: bool,
    pub playit_enabled: bool,
    pub xbox_broadcast_enabled: bool,
}

/// A registered server's configuration, as far as the server list reads it.
#[derive(Debug, Clone, PartialEq, Eq)]
pub struct ServerRecord {
    pub id: String,
    pub display_name: String,
    pub server_dir: String,
    pub is_java: bool,
    /// The server type's name (`java` or `bedrock`).
    pub server_type: String,
    /// The Java flavor's name.
    pub java_flavor: String,
    pub bedrock_port: Option<i64>,
    pub playit_enabled: bool,
    pub xbox_broadcast_enabled: bool,
}

/// The game port that a Java server's `server.properties` sets: the first
/// `server-port=` line's value, trimmed, where it parses as an `i64`.
pub open spec fn properties_game_port(contents: Option<Seq<char>>) -> Option<int> {
    match contents {
        Some(c) => match first_value(lines(c), "server-port="@) {
            Some(v) => parse_signed(trim(v), i64::MIN as int, i64::MAX as int),
            None => None,
        },
        None => None,
    }
}

/// The game port that a Java server's `server.properties` sets.
pub fn java_server_port(properties: Option<&str>) -> (res: Option<i64>)
    ensures
        match properties_game_port(
            match properties {
                Some(p) => Some(p@),
                None => None,
            },
        ) {
            Some(v) => res == Some(v as i64),
            None => res is None,
        },
{
    let contents = match properties {
        Some(p) => p,
        None => return None,
    };
    let ls = lines_exec(chars_of(contents).as_slice());
    let prefix = chars_of("server-port=");
    let ghost all = lines(contents@);
    let mut i: usize = 0;
    assert(all.skip(0) =~= all);
    while i < ls.len()
        invariant
            properties == Some(contents),
            all == lines(contents@),
            ls.deep_view() == all,
            prefix@ == "server-port="@,
            i <= ls.len(),
            first_value(all, "server-port="@) == first_value(all.skip(i as int), "server-port="@),
        decreases ls.len() - i,
    {
        assert(ls.deep_view()[i as int] == ls@[i as int]@);
        assert(all.skip(i as int)[0] == all[i as int]);
        assert(all.skip(i as int).drop_first() =~= all.skip(i + 1));
        if starts_with_exec(ls[i].as_slice(), prefix.as_slice()) {
            let n = ls[i].len();
            let value = slice_vec(ls[i].as_slice(), prefix.len(), n);
            assert(value@ =~= all[i as int].skip(prefix@.len() as int));
            let t = trim_vec(value.as_slice());
            return parse_i64(t.as_slice());
        }
        i += 1;
    }
    assert(all.skip(ls.len() as int).len() == 0);
    None
}

/// The server list's summary of a registered server: the Java flavor and
/// the Geyser port only for a Java server; the game port from a Java
/// server's `server.properties`, or a Bedrock server's configured port.
pub fn registered_server_parts(
    server: ServerRecord,
    properties: Option<&str>,
    first_start_required: bool,
) -> (res: RegisteredServerDtoParts)
    ensures
        res.id == server.id,
        res.name == server.display_name,
        res.directory == server.server_dir,
        res.server_type == server.server_type,
        server.is_java ==> res.java_flavor == Some(server.java_flavor),
        !server.is_java ==> res.java_flavor is None,
        server.is_java ==> match properties_game_port(
            match properties {
                Some(p) => Some(p@),
                None => None,
            },
        ) {
            Some(v) => res.game_port == Some(v as i64),
            None => res.game_port is None,
        },
        !server.is_java ==> res.game_port == server.bedrock_port,
        server.is_java ==> res.bedrock_port == server.bedrock_port,
        !server.is_java ==> res.bedrock_port is None,
        res.first_start_required == first_start_required,
        res.playit_enabled == server.playit_enabled,
        res.xbox_broadcast_enabled == server.xbox_broadcast_enabled,
{
    let ServerRecord {
        id,
        display_name,
        server_dir,
        is_java,
        server_type,
        java_flavor,
        bedrock_port,
        playit_enabled,
        xbox_broadcast_enabled,
    } = server;
    let game_port = if is_java {
        java_server_port(properties)
    } else {
        bedrock_port
    };
    RegisteredServerDtoParts {
        id,
        name: display_name,
        directory: server_dir,
        server_type,
        java_flavor: if is_java {
            Some(java_flavor)
        } else {
            None
        },
        game_port,
        bedrock_port: if is_java {
            bedrock_port
        } else {
            None
        },
        first_start_required,
        playit_enabled,
        xbox_broadcast_enabled,
    }
}

/// One line of the server console.
#[derive(Debug, Clone, PartialEq, Eq)]
pub struct ConsoleLine {
    pub source: String,
    pub server_id: Option<String>,
    pub text: String,
}

/// Where the lifecycle service writes its own console lines.
pub struct AgentConsoleSink {
    pub lines: Vec<ConsoleLine>,
}

impl AgentConsoleSink {
    /// Appends a line of the agent's own, marked as a system line.
    pub fn append_system_line(&mut self, line: &str)
        ensures
            final(self).lines@.len() == old(self).lines@.len() + 1,
            final(self).lines@.drop_last() == old(self).lines@,
            final(self).lines@.last().source@ == "system"@,
            final(self).lines@.last().server_id is None,
            final(self).lines@.last().text@ == line@,
    {
        self.push(ConsoleLine {
            source: concat_str(String::new(), "system"),
            server_id: None,
            text: line.to_owned(),
        });
    }

    fn push(&mut self, line: ConsoleLine)
        ensures
            final(self).lines@ == old(self).lines@.push(line),
    {
        self.lines.push(line);
    }
}

/// The reconciliation status that a server's startup checks leave: ready
/// where every check passed, else degraded with the first failure, each
/// named by the check that failed.
pub fn reconciliation_outcome(
    world: Option<&str>,
    activation: Option<&str>,
    restore: Option<&str>,
    replacement: Option<&str>,
) -> (res: ReconciliationStatus)
    ensures
        match (world, activation, restore, replacement) {
            (Some(e), _, _, _) => res matches ReconciliationStatus::Degraded { reason } && reason@
                == "world reconciliation failed: "@ + e@,
            (None, Some(e), _, _) => res matches ReconciliationStatus::Degraded { reason } && reason@
                == "interrupted activation recovery failed: "@ + e@,
            (None, None, Some(e), _) => res matches ReconciliationStatus::Degraded { reason }
                && reason@ == "interrupted restore recovery failed: "@ + e@,
            (None, None, None, Some(e)) => res matches ReconciliationStatus::Degraded { reason }
                && reason@ == "interrupted world replacement recovery failed: "@ + e@,
            (None, None, None, None) => res == ReconciliationStatus::Ready,
        },
{
    let (prefix, error) = match (world, activation, restore, replacement) {
        (Some(e), _, _, _) => ("world reconciliation failed: ", e),
        (None, Some(e), _, _) => ("interrupted activation recovery failed: ", e),
        (None, None, Some(e), _) => ("interrupted restore recovery failed: ", e),
        (None, None, None, Some(e)) => ("interrupted world replacement recovery failed: ", e),
        (None, None, None, None) => return ReconciliationStatus::Ready,
    };
    ReconciliationStatus::Degraded { reason: concat_str(concat_str(String::new(), prefix), error) }
}

/// Why a server could not become the active one.
#[derive(Debug, Clone, PartialEq, Eq)]
pub enum SelectionRefusal {
    /// Its world data is not reconciled.
    Reconciliation { reason: String },
    /// No such server is registered.
    ServerNotFound,
    /// Another server is running, or the Bedrock runtime is bound to one.
    AlreadyRunning,
}

/// Admits making `server_id` the active server: its world data must be
/// reconciled; it must be registered; and where it replaces another active
/// server, nothing may be running. Gives the previous server whose helpers
/// are stopped, where the active server changes.
pub fn admit_selection(
    status: &ReconciliationStatus,
    registered: bool,
    previous: Option<&str>,
    server_id: &str,
    running: bool,
    bedrock_bound_elsewhere: bool,
) -> (res: Result<Option<String>, SelectionRefusal>)
    ensures
        match *status {
            ReconciliationStatus::Reconciling => res matches Err(SelectionRefusal::Reconciliation { reason })
                && reason@ == "world reconciliation is still in progress"@,
            ReconciliationStatus::Degraded { reason: r } => res == Err::<Option<String>, SelectionRefusal>(
                SelectionRefusal::Reconciliation { reason: r },
            ),
            ReconciliationStatus::Ready => if !registered {
                res == Err::<Option<String>, SelectionRefusal>(SelectionRefusal::ServerNotFound)
            } else {
                let changing = !(previous matches Some(p) && p@ == server_id@);
                if changing && (running || bedrock_bound_elsewhere) {
                    res == Err::<Option<String>, SelectionRefusal>(SelectionRefusal::AlreadyRunning)
                } else if changing && previous is Some {
                    res matches Ok(Some(p)) && p@ == previous.unwrap()@
                } else {
                    res == Ok::<Option<String>, SelectionRefusal>(None)
                }
            },
        },
{
    match status {
        ReconciliationStatus::Ready => {},
        ReconciliationStatus::Reconciling => {
            return Err(
                SelectionRefusal::Reconciliation {
                    reason: concat_str(String::new(), "world reconciliation is still in progress"),
                },
            );
        },
        ReconciliationStatus::Degraded { reason } => {
            return Err(SelectionRefusal::Reconciliation { reason: reason.clone() });
        },
    }
    if !registered {
        return Err(SelectionRefusal::ServerNotFound);
    }
    let changing = match previous {
        Some(p) => !crate::text::chars_eq(chars_of(p).as_slice(), chars_of(server_id).as_slice()),
        None => true,
    };
    if changing && (running || bedrock_bound_elsewhere) {
        return Err(SelectionRefusal::AlreadyRunning);
    }
    if changing {
        match previous {
            Some(p) => Ok(Some(p.to_owned())),
            None => Ok(None),
        }
    } else {
        Ok(None)
    }
}

/// The kinds of failure of the server lifecycle.
#[derive(Debug, Clone, Copy, PartialEq, Eq)]
pub enum LifecycleErrorKind {
    NoActiveServer,
    ServerNotRunning,
    ServerNotFound,
    AlreadyInState,
    IllegalTransition,
    WrongActiveServer,
    Repository,
    Process,
}

/// A failure of the server lifecycle with its message.
#[derive(Debug, Clone, PartialEq, Eq)]
pub struct LifecycleError {
    pub kind: LifecycleErrorKind,
    pub message: String,
}

/// The status and code that answer a lifecycle failure: a missing server is
/// `404`, a store or process failure `500`, every other failure a `409`
/// conflict.
pub open spec fn lifecycle_status_code(kind: LifecycleErrorKind) -> (u16, Seq<char>) {
    match kind {
        LifecycleErrorKind::ServerNotFound => (NOT_FOUND, "not_found"@),
        LifecycleErrorKind::Repository | LifecycleErrorKind::Process => (
            INTERNAL_SERVER_ERROR,
            "internal_error"@,
        ),
        _ => (CONFLICT, "conflict"@),
    }
}

/// The answer to a lifecycle failure, carrying its message.
pub fn lifecycle_error_response(error: LifecycleError) -> (res: ApiError)
    ensures
        is_error(
            res,
            lifecycle_status_code(error.kind).0,
            lifecycle_status_code(error.kind).1,
            error.message@,
        ),
{
    match error.kind {
        LifecycleErrorKind::NoActiveServer | LifecycleErrorKind::ServerNotRunning => error_response(
            CONFLICT,
            "conflict",
            error.message.as_str(),
        ),
        LifecycleErrorKind::ServerNotFound => error_response(NOT_FOUND, "not_found", error.message.as_str()),
        LifecycleErrorKind::AlreadyInState
        | LifecycleErrorKind::IllegalTransition
        | LifecycleErrorKind::WrongActiveServer => error_response(
            CONFLICT,
            "conflict",
            error.message.as_str(),
        ),
        LifecycleErrorKind::Repository | LifecycleErrorKind::Process => error_response(
            INTERNAL_SERVER_ERROR,
            "internal_error",
            error.message.as_str(),
        ),
    }
}

/// A failure of a lifecycle route.
#[derive(Debug, Clone, PartialEq, Eq)]
pub enum LifecycleRouteError {
    Lifecycle(LifecycleError),
    /// The operation store refused; `answer` is how the operation routes
    /// answer that refusal.
    Operation { answer: ApiError },
    /// The Bedrock runtime failed. Where the runtime is not available,
    /// `unavailable` is its capability error; otherwise `message` says what
    /// failed.
    BedrockRuntime { available: bool, unavailable: ApiError, message: String },
    /// The Java executable failed the required-version check before
    /// anything was started.
    UnusableJavaRuntime { message: String },
}

/// The answer to a failed lifecycle route.
pub fn lifecycle_route_error_response(error: LifecycleRouteError) -> (res: ApiError)
    ensures
        match error {
            LifecycleRouteError::Lifecycle(e) => is_error(
                res,
                lifecycle_status_code(e.kind).0,
                lifecycle_status_code(e.kind).1,
                e.message@,
            ),
            LifecycleRouteError::Operation { answer } => res == answer,
            LifecycleRouteError::BedrockRuntime { available, unavailable, message } => if !available {
                res.status == CONFLICT && res.code == unavailable.code && res.message
                    == unavailable.message
            } else {
                is_error(res, CONFLICT, "bedrock_runtime_error"@, message@)
            },
            LifecycleRouteError::UnusableJavaRuntime { message } => is_error(
                res,
                CONFLICT,
                "unusable_java_runtime"@,
                message@,
            ),
        },
{
    match error {
        LifecycleRouteError::Lifecycle(e) => lifecycle_error_response(e),
        LifecycleRouteError::Operation { answer } => answer,
        LifecycleRouteError::BedrockRuntime { available, unavailable, message } => {
            if !available {
                ApiError { status: CONFLICT, code: unavailable.code, message: unavailable.message }
            } else {
                error_response(CONFLICT, "bedrock_runtime_error", message.as_str())
            }
        },
        LifecycleRouteError::UnusableJavaRuntime { message } => error_response(
            CONFLICT,
            "unusable_java_runtime",
            message.as_str(),
        ),
    }
}

/// Why the active server could not be changed.
#[derive(Debug, Clone, PartialEq, Eq)]
pub enum ActiveServerSelectionError {
    Lifecycle(LifecycleError),
    Reconciliation { reason: String },
}

/// The answer to a refused change of the active server: a lifecycle
/// failure as such, a server whose world data is not reconciled as the
/// read-only diagnostic answer.
pub fn active_server_selection_error_response(error: ActiveServerSelectionError) -> (res: ApiError)
    ensures
        match error {
            ActiveServerSelectionError::Lifecycle(e) => is_error(
                res,
                lifecycle_status_code(e.kind).0,
                lifecycle_status_code(e.kind).1,
                e.message@,
            ),
            ActiveServerSelectionError::Reconciliation { reason } => res.status == CONFLICT
                && res.code@ == "world_reconciliation_degraded"@ && res.message@
                == "This server's world data could not be safely reconciled, so it is in a read-only diagnostic state: "@
                + reason@ + ". Fix the underlying issue and restart the agent."@,
        },
{
    match error {
        ActiveServerSelectionError::Lifecycle(e) => lifecycle_error_response(e),
        ActiveServerSelectionError::Reconciliation { reason } => reconciliation_degraded_response(
            reason.as_str(),
        ),
    }
}

/// The phase of a server's first start.
#[derive(Debug, Clone, Copy, PartialEq, Eq)]
pub enum FirstStartPhase {
    /// Pass one: the server generates its files, then waits for setup.
    WaitingForSetup,
    /// Pass two: the server runs with the chosen connections.
    PassTwo,
    /// Every pass is done.
    Complete,
}

/// What the first-start coordinator knows of a server's first start when
/// its process ends.
#[derive(Debug, Clone, PartialEq, Eq)]
pub struct FirstStartFacts {
    pub server_id: String,
    pub phase: FirstStartPhase,
    /// The server reported that it is ready.
    pub server_ready: bool,
    /// Pass one found that a second pass is needed.
    pub needs_second_pass: bool,
    /// The first start ran into its safety limit.
    pub safety_cap_reached: bool,
}

/// What the end of the server process leads to.
#[derive(Debug, Clone, PartialEq, Eq)]
pub enum TerminationStep {
    /// No first start runs: the lifecycle operation finishes.
    Finish { success: bool, message: String },
    /// Pass one is done; the first start waits for the transport choices.
    /// The lifecycle operation succeeds with `result`.
    PassOneDone { progress: String, message: String, result: Vec<(String, String)> },
    /// The first start is done; the lifecycle operation succeeds once the
    /// completion is recorded (see `first_start_done_result`).
    FirstStartDone { server_id: String, safety_cap: bool, message: String },
    /// The process ended before the first start could finish; the first
    /// start is dropped and the operation fails.
    Abandoned { message: String },
}

/// The texts of a list of key/value pairs.
pub open spec fn pair_texts(v: Seq<(String, String)>) -> Seq<(Seq<char>, Seq<char>)> {
    Seq::new(v.len(), |i: int| (v[i].0@, v[i].1@))
}

/// What the end of the server process leads to: without a first start, the
/// operation finishes (successfully only for a clean stop); a first start
/// that is ready at the end of pass one moves on to its setup choices; one
/// that is ready (or at its safety limit) in pass two or later is done; any
/// other first start is abandoned.
pub fn termination_step(first_start: Option<FirstStartFacts>, clean_stop_success: bool) -> (res: TerminationStep)
    requires
        first_start matches Some(f) ==> !(f.phase == FirstStartPhase::WaitingForSetup && f.server_ready
            && !f.needs_second_pass),
    ensures
        match first_start {
            None => res matches TerminationStep::Finish { success, message } && success
                == clean_stop_success && message@ == if clean_stop_success {
                "Bedrock server stopped."@
            } else {
                "Java process exited before readiness."@
            },
            Some(f) => if f.phase == FirstStartPhase::WaitingForSetup && f.server_ready {
                res matches TerminationStep::PassOneDone { progress, message, result } && progress@
                    == "Pass one is complete. Waiting for the first-start transport choices."@
                    && message@ == "First-start pass one complete."@ && pair_texts(result@) == seq![
                    ("firstStartNeedsPass2"@, "true"@),
                    ("firstStartPass1Complete"@, "true"@),
                    ("firstStartServerId"@, f.server_id@),
                ]
            } else if f.phase != FirstStartPhase::WaitingForSetup && (f.server_ready
                || f.safety_cap_reached) {
                res matches TerminationStep::FirstStartDone { server_id, safety_cap, message }
                    && server_id == f.server_id && safety_cap == f.safety_cap_reached && message@
                    == if f.safety_cap_reached {
                    "First-start safety limit reached; server stopped."@
                } else {
                    "First-start setup complete; server stopped."@
                }
            } else {
                res matches TerminationStep::Abandoned { message } && message@
                    == "The first-start server process exited before completion; initiation remains available on the next Start."@
            },
        },
{
    match first_start {
        None => TerminationStep::Finish {
            success: clean_stop_success,
            message: concat_str(
                String::new(),
                if clean_stop_success {
                    "Bedrock server stopped."
                } else {
                    "Java process exited before readiness."
                },
            ),
        },
        Some(f) => {
            let waiting = match f.phase {
                FirstStartPhase::WaitingForSetup => true,
                _ => false,
            };
            if waiting && f.server_ready {
                let mut result: Vec<(String, String)> = Vec::new();
                result.push(
                    (concat_str(String::new(), "firstStartNeedsPass2"), concat_str(String::new(), "true")),
                );
                result.push(
                    (concat_str(String::new(), "firstStartPass1Complete"), concat_str(String::new(), "true")),
                );
                result.push((concat_str(String::new(), "firstStartServerId"), f.server_id));
                assert(pair_texts(result@) =~= seq![
                    ("firstStartNeedsPass2"@, "true"@),
                    ("firstStartPass1Complete"@, "true"@),
                    ("firstStartServerId"@, result@[2].1@),
                ]);
                TerminationStep::PassOneDone {
                    progress: concat_str(
                        String::new(),
                        "Pass one is complete. Waiting for the first-start transport choices.",
                    ),
                    message: concat_str(String::new(), "First-start pass one complete."),
                    result,
                }
            } else if !waiting && (f.server_ready || f.safety_cap_reached) {
                TerminationStep::FirstStartDone {
                    server_id: f.server_id,
                    safety_cap: f.safety_cap_reached,
                    message: concat_str(
                        String::new(),
                        if f.safety_cap_reached {
                            "First-start safety limit reached; server stopped."
                        } else {
                            "First-start setup complete; server stopped."
                        },
                    ),
                }
            } else {
                TerminationStep::Abandoned {
                    message: concat_str(
                        String::new(),
                        "The first-start server process exited before completion; initiation remains available on the next Start.",
                    ),
                }
            }
        },
    }
}

/// `true` or `false`.
pub open spec fn bool_text(b: bool) -> Seq<char> {
    if b {
        "true"@
    } else {
        "false"@
    }
}

/// The result of a finished first start, in key order: whether its
/// completion was recorded, whether the safety limit ended it, and the
/// server.
pub fn first_start_done_result(server_id: String, completion_saved: bool, safety_cap: bool) -> (res: Vec<
    (String, String),
>)
    ensures
        pair_texts(res@) == seq![
            ("firstStartComplete"@, bool_text(completion_saved)),
            ("firstStartSafetyCap"@, bool_text(safety_cap)),
            ("firstStartServerId"@, server_id@),
        ],
{
    let mut result: Vec<(String, String)> = Vec::new();
    result.push(
        (
            concat_str(String::new(), "firstStartComplete"),
            concat_str(String::new(), if completion_saved { "true" } else { "false" }),
        ),
    );
    result.push(
        (
            concat_str(String::new(), "firstStartSafetyCap"),
            concat_str(String::new(), if safety_cap { "true" } else { "false" }),
        ),
    );
    let ghost id = server_id@;
    result.push((concat_str(String::new(), "firstStartServerId"), server_id));
    assert(pair_texts(result@) =~= seq![
        ("firstStartComplete"@, bool_text(completion_saved)),
        ("firstStartSafetyCap"@, bool_text(safety_cap)),
        ("firstStartServerId"@, id),
    ]);
    result
}

} // verus!
