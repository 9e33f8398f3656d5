//! The focused server editor opened from Manage Servers.
//!
//! Server paths and measurements belong to the agent host: the editor only
//! edits the text the operator types, and turns a finished prompt or a
//! service key into a mutation for the agent's routes.

use vstd::prelude::*;
use crate::text::{
    concat_str, decimal, decimal_exec, split, split_exec, string_of, trim, trim_vec,
    parse_signed, parse_i64,
};
use crate::tui::settings::SettingsSnapshot;
use crate::tui::input::{Key, PromptEdit, edit_prompt, edited, prompt_edit, wrap_selection, wrapped};

verus! {

/// The three pages of the editor.
#[derive(Debug, Clone, Copy, PartialEq, Eq)]
pub enum EditorSurface {
    General,
    Services,
    Java,
}

impl Default for EditorSurface {
    fn default() -> (res: Self)
        ensures
            res == EditorSurface::General,
    {
        EditorSurface::General
    }
}

/// The value an open prompt of the editor asks for.
#[derive(Debug, Clone, Copy, PartialEq, Eq)]
pub enum EditorInputKind {
    DisplayName,
    Directory,
    RamPair,
    Port,
    JavaPath,
    JavaArguments,
}

impl EditorInputKind {
    /// The label shown in front of the prompt.
    pub open spec fn prompt_text(self) -> Seq<char> {
        match self {
            EditorInputKind::DisplayName => "Display name"@,
            EditorInputKind::Directory => "Agent-host server directory"@,
            EditorInputKind::RamPair => "RAM min|max in GB (blank side keeps current)"@,
            EditorInputKind::Port => "Game port"@,
            EditorInputKind::JavaPath => "Java executable path on agent host"@,
            EditorInputKind::JavaArguments => "Extra Java arguments"@,
        }
    }

    /// The label shown in front of the prompt.
    pub fn prompt(self) -> (res: &'static str)
        ensures
            res@ == self.prompt_text(),
    {
        match self {
            EditorInputKind::DisplayName => "Display name",
            EditorInputKind::Directory => "Agent-host server directory",
            EditorInputKind::RamPair => "RAM min|max in GB (blank side keeps current)",
            EditorInputKind::Port => "Game port",
            EditorInputKind::JavaPath => "Java executable path on agent host",
            EditorInputKind::JavaArguments => "Extra Java arguments",
        }
    }
}

/// A change that the editor asks the agent to make.
#[derive(Debug, Clone, PartialEq, Eq)]
pub enum EditorMutation {
    Rename { server_id: String, name: String },
    SetDirectory { server_id: String, directory: String },
    UpdateRam { min: Option<String>, max: Option<String> },
    UpdatePort { port: i64 },
    SetJavaPath { path: String },
    SetJavaArguments { arguments: String },
    Playit { start: bool },
    XboxBroadcast { start: bool },
}

/// What a key press asks of the console beyond the editor itself.
#[derive(Debug, Clone, PartialEq)]
pub enum EditorIntent {
    Back,
    Confirm(EditorMutation),
}

/// The server being edited, as far as the editor reads it.
#[derive(Debug, Clone, PartialEq, Eq)]
pub struct ServerSummary {
    pub id: String,
    pub name: String,
    pub server_type: String,
    /// The server's folder on the agent host.
    pub directory: String,
    pub game_port: Option<i64>,
    pub bedrock_port: Option<i64>,
    pub playit_enabled: Option<bool>,
    pub xbox_broadcast_enabled: Option<bool>,
}

/// The RAM range that the agent starts the server with, in GB.
#[derive(Debug, Clone, Copy, PartialEq, Eq)]
pub struct RamConfig {
    pub min_ram_gb: u32,
    pub max_ram_gb: u32,
}

/// The Java settings of the server: the executable and extra arguments,
/// where they are set.
#[derive(Debug, Clone, PartialEq, Eq)]
pub struct JavaConfig {
    pub executable_path: Option<String>,
    pub extra_flags: Option<String>,
}

/// A Java runtime that the agent detected on its host.
#[derive(Debug, Clone, PartialEq, Eq)]
pub struct JavaRuntimeSummary {
    pub name: String,
    pub major_version: Option<u32>,
    pub executable_path: String,
}

/// The editor's state.
#[derive(Debug, Clone)]
pub struct ServerEditorState {
    pub server: Option<ServerSummary>,
    pub surface: EditorSurface,
    pub input: Option<(EditorInputKind, String)>,
    pub ram: Option<RamConfig>,
    pub settings: Option<SettingsSnapshot>,
    pub java_config: Option<JavaConfig>,
    pub java_runtimes: Vec<JavaRuntimeSummary>,
    pub selected_runtime: usize,
    /// Whether the Playit tunnel runs, where the agent reported it.
    pub playit: Option<bool>,
    /// Whether Xbox Broadcast runs, where the agent reported it.
    pub broadcast: Option<bool>,
    /// The size of the server's folder, where the agent measured it.
    pub storage_bytes: Option<u64>,
    pub playit_available: bool,
    pub broadcast_available: bool,
    pub loaded: bool,
    pub error: Option<String>,
    pub status: Option<String>,
}

/// The view of an optional string.
pub open spec fn opt_view(s: Option<String>) -> Option<Seq<char>> {
    match s {
        Some(v) => Some(v@),
        None => None,
    }
}

/// `None` for a blank side of a RAM pair, the text otherwise.
pub open spec fn optional_value(s: Seq<char>) -> Option<Seq<char>> {
    if s.len() == 0 {
        None
    } else {
        Some(s)
    }
}

/// The two sides of a `min|max` RAM answer, each trimmed and `None` where
/// blank; `None` where there is no `|` or both sides are blank.
pub open spec fn ram_pair(value: Seq<char>) -> Option<(Option<Seq<char>>, Option<Seq<char>>)> {
    let parts = split(value, '|');
    if parts.len() < 2 {
        None
    } else {
        let min = optional_value(trim(parts[0]));
        let max = optional_value(trim(parts[1]));
        if min is None && max is None {
            None
        } else {
            Some((min, max))
        }
    }
}

/// `res` is what submitting the prompt `kind` with the text `value` gives
/// for the server `server_id`: the text is trimmed; a name, directory or
/// Java path must not be blank, a port must parse as an `i64`, a RAM pair
/// must name at least one side; without a server nothing is submitted.
pub open spec fn editor_submission(
    kind: EditorInputKind,
    value: Seq<char>,
    server_id: Option<Seq<char>>,
    res: Option<EditorIntent>,
) -> bool {
    let v = trim(value);
    match server_id {
        None => res is None,
        Some(sid) => match kind {
            EditorInputKind::DisplayName => if v.len() > 0 {
                res matches Some(EditorIntent::Confirm(EditorMutation::Rename { server_id, name }))
                    && server_id@ == sid && name@ == v
            } else {
                res is None
            },
            EditorInputKind::Directory => if v.len() > 0 {
                res matches Some(
                    EditorIntent::Confirm(EditorMutation::SetDirectory { server_id, directory }),
                ) && server_id@ == sid && directory@ == v
            } else {
                res is None
            },
            EditorInputKind::RamPair => match ram_pair(v) {
                Some((min_side, max_side)) => res matches Some(
                    EditorIntent::Confirm(EditorMutation::UpdateRam { min, max }),
                ) && opt_view(min) == min_side && opt_view(max) == max_side,
                None => res is None,
            },
            EditorInputKind::Port => match parse_signed(v, i64::MIN as int, i64::MAX as int) {
                Some(p) => res == Some(
                    EditorIntent::Confirm(EditorMutation::UpdatePort { port: p as i64 }),
                ),
                None => res is None,
            },
            EditorInputKind::JavaPath => if v.len() > 0 {
                res matches Some(EditorIntent::Confirm(EditorMutation::SetJavaPath { path }))
                    && path@ == v
            } else {
                res is None
            },
            EditorInputKind::JavaArguments => res matches Some(
                EditorIntent::Confirm(EditorMutation::SetJavaArguments { arguments }),
            ) && arguments@ == v,
        },
    }
}

/// The prompt that `key` opens on `surface`, if any.
pub open spec fn surface_prompt(surface: EditorSurface, key: Key) -> Option<EditorInputKind> {
    match (surface, key) {
        (EditorSurface::General, Key::Char('n')) => Some(EditorInputKind::DisplayName),
        (EditorSurface::General, Key::Char('p')) => Some(EditorInputKind::Directory),
        (EditorSurface::General, Key::Char('m')) => Some(EditorInputKind::RamPair),
        (EditorSurface::General, Key::Char('o')) => Some(EditorInputKind::Port),
        (EditorSurface::Java, Key::Char('p')) => Some(EditorInputKind::JavaPath),
        (EditorSurface::Java, Key::Char('a')) => Some(EditorInputKind::JavaArguments),
        _ => None,
    }
}

/// The page that `key` switches to, if any.
pub open spec fn surface_for(key: Key) -> Option<EditorSurface> {
    match key {
        Key::Char('1') => Some(EditorSurface::General),
        Key::Char('2') => Some(EditorSurface::Services),
        Key::Char('3') => Some(EditorSurface::Java),
        _ => None,
    }
}

/// The status line that reports a detected runtime.
pub open spec fn detected_text(runtime: JavaRuntimeSummary) -> Seq<char> {
    "Detected "@ + runtime.name@ + match runtime.major_version {
        Some(major) => " (Java "@ + decimal(major as nat) + ")"@,
        None => Seq::empty(),
    } + " at "@ + runtime.executable_path@
}

/// The status line after asking for detected runtimes.
pub open spec fn detection_status(runtimes: Seq<JavaRuntimeSummary>, selected: int) -> Seq<char> {
    if 0 <= selected < runtimes.len() {
        detected_text(runtimes[selected])
    } else {
        "No Java runtimes were detected by the agent"@
    }
}

/// The runtime step that `key` asks for on the Java page: down is `1`, up
/// is `-1`.
pub open spec fn runtime_step(key: Key) -> Option<int> {
    match key {
        Key::Char('j') | Key::Down => Some(1),
        Key::Char('k') | Key::Up => Some(-1),
        _ => None,
    }
}

impl ServerEditorState {
    /// The editor for `server` with what the agent reported, on its first
    /// page and with nothing typed.
    pub fn for_server(
        server: ServerSummary,
        java_runtimes: Vec<JavaRuntimeSummary>,
        playit: Option<bool>,
        broadcast: Option<bool>,
    ) -> (res: Self)
        ensures
            res.server == Some(server),
            res.java_runtimes@ == java_runtimes@,
            res.playit == playit,
            res.broadcast == broadcast,
            res.ram is None,
            res.settings is None,
            res.java_config is None,
            res.storage_bytes is None,
            res.surface == EditorSurface::General,
            res.input is None,
            res.selected_runtime == 0,
            !res.playit_available,
            !res.broadcast_available,
            res.loaded,
            res.error is None,
            res.status is None,
    {
        ServerEditorState {
            server: Some(server),
            surface: EditorSurface::General,
            input: None,
            ram: None,
            settings: None,
            java_config: None,
            java_runtimes,
            selected_runtime: 0,
            playit,
            broadcast,
            storage_bytes: None,
            playit_available: false,
            broadcast_available: false,
            loaded: true,
            error: None,
            status: None,
        }
    }

    /// The id of the server being edited.
    pub open spec fn server_id_view(&self) -> Option<Seq<char>> {
        match self.server {
            Some(s) => Some(s.id@),
            None => None,
        }
    }

    /// The id of the server being edited.
    pub fn server_id(&self) -> (res: Option<&str>)
        ensures
            match res {
                Some(id) => self.server_id_view() == Some(id@),
                None => self.server_id_view() is None,
            },
    {
        match &self.server {
            Some(server) => Some(server.id.as_str()),
            None => None,
        }
    }

    /// The name of the server being edited, or a placeholder.
    pub fn server_name(&self) -> (res: &str)
        ensures
            match self.server {
                Some(s) => res@ == s.name@,
                None => res@ == "No server selected"@,
            },
    {
        match &self.server {
            Some(server) => server.name.as_str(),
            None => "No server selected",
        }
    }

    /// Records which services the agent offers.
    pub fn set_capabilities(&mut self, playit_available: bool, broadcast_available: bool)
        ensures
            *final(self) == (ServerEditorState {
                playit_available,
                broadcast_available,
                ..*old(self)
            }),
    {
        self.playit_available = playit_available;
        self.broadcast_available = broadcast_available;
    }

    /// Handles one key press: an open prompt takes every key; otherwise Esc
    /// leaves the editor, `1`-`3` switch pages, `r` asks for a reload, and
    /// the current page handles the rest.
    pub fn handle_key(&mut self, key: Key) -> (res: Option<EditorIntent>)
        ensures
            match old(self).input {
                Some((kind, value)) => match prompt_edit(key) {
                    PromptEdit::Cancel => res is None && *final(self) == (ServerEditorState {
                        input: None,
                        ..*old(self)
                    }),
                    PromptEdit::Keep => res is None && (final(self).input matches Some((k, v))
                        && k == kind && v@ == edited(value@, key)) && *final(self) == (
                    ServerEditorState { input: final(self).input, ..*old(self) }),
                    PromptEdit::Submit => editor_submission(
                        kind,
                        value@,
                        old(self).server_id_view(),
                        res,
                    ) && *final(self) == (ServerEditorState { input: None, ..*old(self) }),
                },
                None => if key == Key::Esc {
                    res == Some(EditorIntent::Back) && *final(self) == *old(self)
                } else if surface_for(key) is Some {
                    res is None && *final(self) == (ServerEditorState {
                        surface: surface_for(key).unwrap(),
                        ..*old(self)
                    })
                } else if key == Key::Char('r') {
                    res is None && *final(self) == (ServerEditorState {
                        loaded: false,
                        ..*old(self)
                    })
                } else {
                    old(self).surface_key_effect(key, *final(self), res)
                },
            },
    {
        let taken = self.input.take();
        if let Some((kind, value)) = taken {
            return self.handle_input(kind, value, key);
        }
        match key {
            Key::Esc => return Some(EditorIntent::Back),
            Key::Char('1') => {
                self.surface = EditorSurface::General;
            },
            Key::Char('2') => {
                self.surface = EditorSurface::Services;
            },
            Key::Char('3') => {
                self.surface = EditorSurface::Java;
            },
            Key::Char('r') => {
                self.loaded = false;
            },
            _ => return self.handle_surface_key(key),
        }
        None
    }

    /// What a key that the page handles does: it opens a prompt, asks to
    /// start or stop a service, reports or moves through the detected Java
    /// runtimes, or picks the selected runtime's executable.
    pub open spec fn surface_key_effect(
        self,
        key: Key,
        after: ServerEditorState,
        res: Option<EditorIntent>,
    ) -> bool {
        match surface_prompt(self.surface, key) {
            Some(kind) => res is None && (after.input matches Some((k, v)) && k == kind
                && v@.len() == 0) && after == (ServerEditorState { input: after.input, ..self }),
            None => match self.surface {
                EditorSurface::General => res is None && after == self,
                EditorSurface::Services => after == self && if key == Key::Char('p')
                    && self.playit_available {
                    res == Some(
                        EditorIntent::Confirm(EditorMutation::Playit { start: self.playit != Some(true) }),
                    )
                } else if key == Key::Char('x') && self.broadcast_available {
                    res == Some(
                        EditorIntent::Confirm(
                            EditorMutation::XboxBroadcast { start: self.broadcast != Some(true) },
                        ),
                    )
                } else {
                    res is None
                },
                EditorSurface::Java => if key == Key::Char('d') {
                    res is None && (after.status matches Some(s) && s@ == detection_status(
                        self.java_runtimes@,
                        self.selected_runtime as int,
                    )) && after == (ServerEditorState { status: after.status, ..self })
                } else if runtime_step(key) is Some {
                    res is None && after == (ServerEditorState {
                        selected_runtime: if self.java_runtimes.len() > 0 {
                            wrapped(
                                self.selected_runtime as int,
                                runtime_step(key).unwrap(),
                                self.java_runtimes.len() as int,
                            ) as usize
                        } else {
                            self.selected_runtime
                        },
                        ..self
                    })
                } else if key == Key::Enter {
                    after == self && if self.selected_runtime < self.java_runtimes.len() {
                        res matches Some(
                            EditorIntent::Confirm(EditorMutation::SetJavaPath { path }),
                        ) && path@ == self.java_runtimes@[self.selected_runtime as int].executable_path@
                    } else {
                        res is None
                    }
                } else {
                    res is None && after == self
                },
            },
        }
    }

    fn handle_surface_key(&mut self, key: Key) -> (res: Option<EditorIntent>)
        requires
            old(self).input is None,
        ensures
            old(self).surface_key_effect(key, *final(self), res),
    {
        match self.surface {
            EditorSurface::General => match key {
                Key::Char('n') => {
                    self.input = Some((EditorInputKind::DisplayName, String::new()));
                },
                Key::Char('p') => {
                    self.input = Some((EditorInputKind::Directory, String::new()));
                },
                Key::Char('m') => {
                    self.input = Some((EditorInputKind::RamPair, String::new()));
                },
                Key::Char('o') => {
                    self.input = Some((EditorInputKind::Port, String::new()));
                },
                _ => {},
            },
            EditorSurface::Services => match key {
                Key::Char('p') if self.playit_available => {
                    let start = match self.playit {
                        Some(true) => false,
                        _ => true,
                    };
                    return Some(EditorIntent::Confirm(EditorMutation::Playit { start }));
                },
                Key::Char('x') if self.broadcast_available => {
                    let start = match self.broadcast {
                        Some(true) => false,
                        _ => true,
                    };
                    return Some(EditorIntent::Confirm(EditorMutation::XboxBroadcast { start }));
                },
                _ => {},
            },
            EditorSurface::Java => match key {
                Key::Char('d') => self.detect_java(),
                Key::Char('p') => {
                    self.input = Some((EditorInputKind::JavaPath, String::new()));
                },
                Key::Char('a') => {
                    self.input = Some((EditorInputKind::JavaArguments, String::new()));
                },
                Key::Char('j') | Key::Down => self.move_runtime(1),
                Key::Char('k') | Key::Up => self.move_runtime(-1),
                Key::Enter => {
                    if self.selected_runtime < self.java_runtimes.len() {
                        let path = self.java_runtimes[self.selected_runtime].executable_path.clone();
                        return Some(EditorIntent::Confirm(EditorMutation::SetJavaPath { path }));
                    }
                    return None;
                },
                _ => {},
            },
        }
        None
    }

    fn handle_input(&mut self, kind: EditorInputKind, value: String, key: Key) -> (res: Option<
        EditorIntent,
    >)
        requires
            old(self).input is None,
        ensures
            match prompt_edit(key) {
                PromptEdit::Cancel => res is None && *final(self) == *old(self),
                PromptEdit::Keep => res is None && (final(self).input matches Some((k, v)) && k
                    == kind && v@ == edited(value@, key)) && *final(self) == (ServerEditorState {
                    input: final(self).input,
                    ..*old(self)
                }),
                PromptEdit::Submit => editor_submission(
                    kind,
                    value@,
                    old(self).server_id_view(),
                    res,
                ) && *final(self) == *old(self),
            },
    {
        let mut value = value;
        match edit_prompt(&mut value, key) {
            PromptEdit::Cancel => None,
            PromptEdit::Submit => self.finish_input(kind, value),
            PromptEdit::Keep => {
                self.input = Some((kind, value));
                None
            },
        }
    }

    fn finish_input(&self, kind: EditorInputKind, value: String) -> (res: Option<EditorIntent>)
        ensures
            editor_submission(kind, value@, self.server_id_view(), res),
    {
        let chars = crate::text::chars_of(value.as_str());
        let trimmed = trim_vec(chars.as_slice());
        let server_id = match self.server_id() {
            Some(id) => id.to_owned(),
            None => return None,
        };
        let text = string_of(trimmed.as_slice());
        match kind {
            EditorInputKind::DisplayName => if trimmed.len() > 0 {
                Some(EditorIntent::Confirm(EditorMutation::Rename { server_id, name: text }))
            } else {
                None
            },
            EditorInputKind::Directory => if trimmed.len() > 0 {
                Some(
                    EditorIntent::Confirm(
                        EditorMutation::SetDirectory { server_id, directory: text },
                    ),
                )
            } else {
                None
            },
            EditorInputKind::RamPair => {
                let parts = split_exec(trimmed.as_slice(), '|');
                if parts.len() < 2 {
                    return None;
                }
                proof {
                    assert(parts.deep_view()[0] == parts@[0]@);
                    assert(parts.deep_view()[1] == parts@[1]@);
                }
                let min_side = trim_vec(parts[0].as_slice());
                let max_side = trim_vec(parts[1].as_slice());
                if min_side.len() == 0 && max_side.len() == 0 {
                    return None;
                }
                let min = if min_side.len() == 0 {
                    None
                } else {
                    Some(string_of(min_side.as_slice()))
                };
                let max = if max_side.len() == 0 {
                    None
                } else {
                    Some(string_of(max_side.as_slice()))
                };
                Some(EditorIntent::Confirm(EditorMutation::UpdateRam { min, max }))
            },
            EditorInputKind::Port => match parse_i64(trimmed.as_slice()) {
                Some(port) => Some(EditorIntent::Confirm(EditorMutation::UpdatePort { port })),
                None => None,
            },
            EditorInputKind::JavaPath => if trimmed.len() > 0 {
                Some(EditorIntent::Confirm(EditorMutation::SetJavaPath { path: text }))
            } else {
                None
            },
            EditorInputKind::JavaArguments => Some(
                EditorIntent::Confirm(EditorMutation::SetJavaArguments { arguments: text }),
            ),
        }
    }

    fn detect_java(&mut self)
        ensures
            (final(self).status matches Some(s) && s@ == detection_status(
                old(self).java_runtimes@,
                old(self).selected_runtime as int,
            )),
            *final(self) == (ServerEditorState { status: final(self).status, ..*old(self) }),
    {
        if self.selected_runtime < self.java_runtimes.len() {
            let runtime = &self.java_runtimes[self.selected_runtime];
            let mut text = concat_str(String::new(), "Detected ");
            text = concat_str(text, runtime.name.as_str());
            match runtime.major_version {
                Some(major) => {
                    text = concat_str(text, " (Java ");
                    let digits = string_of(decimal_exec(major as u64).as_slice());
                    text = concat_str(text, digits.as_str());
                    text = concat_str(text, ")");
                },
                None => {},
            }
            text = concat_str(text, " at ");
            text = concat_str(text, runtime.executable_path.as_str());
            proof {
                let r = old(self).java_runtimes@[old(self).selected_runtime as int];
                assert(*runtime == r);
                assert(text@ =~= detected_text(r));
            }
            self.status = Some(text);
        } else {
            self.status = Some(concat_str(String::new(), "No Java runtimes were detected by the agent"));
            assert(self.status.unwrap()@ =~= "No Java runtimes were detected by the agent"@);
        }
    }

    fn move_runtime(&mut self, offset: isize)
        requires
            offset == 1 || offset == -1,
        ensures
            *final(self) == (ServerEditorState {
                selected_runtime: if old(self).java_runtimes.len() > 0 {
                    wrapped(
                        old(self).selected_runtime as int,
                        offset as int,
                        old(self).java_runtimes.len() as int,
                    ) as usize
                } else {
                    old(self).selected_runtime
                },
                ..*old(self)
            }),
    {
        if self.java_runtimes.len() > 0 {
            self.selected_runtime = wrap_selection(
                self.selected_runtime,
                offset,
                self.java_runtimes.len(),
            );
        }
    }
}

/// The outcome of an editor mutation.
#[derive(Debug, Clone, PartialEq, Eq)]
pub struct EditorMutationResult {
    pub message: String,
    pub operation_id: Option<String>,
}

/// The agent's answer to an editor mutation, as far as the editor reads it.
#[derive(Debug, Clone, PartialEq, Eq)]
pub struct EditorReply {
    pub message: Option<String>,
    pub operation_id: Option<String>,
    pub executable_path: Option<String>,
    pub extra_flags: Option<String>,
}

/// The agent route that carries out `m`.
pub open spec fn editor_route_text(m: EditorMutation) -> Seq<char> {
    match m {
        EditorMutation::Rename { .. } => "/v1/servers/rename"@,
        EditorMutation::SetDirectory { .. } => "/v1/servers/directory"@,
        EditorMutation::UpdateRam { .. } => "/v1/config/ram"@,
        EditorMutation::UpdatePort { .. } => "/v1/settings"@,
        EditorMutation::SetJavaPath { .. } => "/v1/config/java-runtime"@,
        EditorMutation::SetJavaArguments { .. } => "/v1/config/java-runtime"@,
        EditorMutation::Playit { start } => if start {
            "/v1/playit/start"@
        } else {
            "/v1/playit/stop"@
        },
        EditorMutation::XboxBroadcast { start } => if start {
            "/v1/broadcast/start"@
        } else {
            "/v1/broadcast/stop"@
        },
    }
}

/// The agent route that carries out `mutation`.
pub fn editor_route(mutation: &EditorMutation) -> (res: &'static str)
    ensures
        res@ == editor_route_text(*mutation),
{
    match mutation {
        EditorMutation::Rename { .. } => "/v1/servers/rename",
        EditorMutation::SetDirectory { .. } => "/v1/servers/directory",
        EditorMutation::UpdateRam { .. } => "/v1/config/ram",
        EditorMutation::UpdatePort { .. } => "/v1/settings",
        EditorMutation::SetJavaPath { .. } => "/v1/config/java-runtime",
        EditorMutation::SetJavaArguments { .. } => "/v1/config/java-runtime",
        EditorMutation::Playit { start } => if *start {
            "/v1/playit/start"
        } else {
            "/v1/playit/stop"
        },
        EditorMutation::XboxBroadcast { start } => if *start {
            "/v1/broadcast/start"
        } else {
            "/v1/broadcast/stop"
        },
    }
}

/// The text of an optional string, or `default` where there is none.
pub open spec fn text_or(s: Option<String>, default: Seq<char>) -> Seq<char> {
    match s {
        Some(v) => v@,
        None => default,
    }
}

/// The message reported for `m` once the agent answered `reply`.
pub open spec fn editor_message(m: EditorMutation, reply: EditorReply) -> Seq<char> {
    match m {
        EditorMutation::UpdateRam { .. } => text_or(reply.message, "RAM allocation updated."@),
        EditorMutation::SetJavaPath { .. } => "Java executable set to "@ + text_or(
            reply.executable_path,
            "default"@,
        ) + "."@,
        EditorMutation::SetJavaArguments { .. } => "Java arguments set to "@ + text_or(
            reply.extra_flags,
            Seq::empty(),
        ) + "."@,
        EditorMutation::Playit { start } => text_or(
            reply.message,
            "Playit "@ + (if start {
                "start"@
            } else {
                "stop"@
            }) + " requested."@,
        ),
        EditorMutation::XboxBroadcast { start } => "Xbox Broadcast "@ + (if start {
            "start"@
        } else {
            "stop"@
        }) + " requested."@,
        _ => text_or(reply.message, Seq::empty()),
    }
}

/// The reported outcome of `mutation` once the agent answered `reply`:
/// the service mutations carry the agent's operation id, the others none.
pub fn editor_result(mutation: &EditorMutation, reply: EditorReply) -> (res: EditorMutationResult)
    ensures
        res.message@ == editor_message(*mutation, reply),
        res.operation_id == match *mutation {
            EditorMutation::Playit { .. } | EditorMutation::XboxBroadcast { .. } => reply.operation_id,
            _ => None,
        },
{
    let EditorReply { message, operation_id, executable_path, extra_flags } = reply;
    match mutation {
        EditorMutation::UpdateRam { .. } => {
            let text = match message {
                Some(m) => m,
                None => concat_str(String::new(), "RAM allocation updated."),
            };
            proof {
                assert(text@ =~= editor_message(*mutation, reply));
            }
            EditorMutationResult { message: text, operation_id: None }
        },
        EditorMutation::SetJavaPath { .. } => {
            let mut text = concat_str(String::new(), "Java executable set to ");
            text = match executable_path {
                Some(p) => concat_str(text, p.as_str()),
                None => concat_str(text, "default"),
            };
            text = concat_str(text, ".");
            assert(text@ =~= editor_message(*mutation, reply));
            EditorMutationResult { message: text, operation_id: None }
        },
        EditorMutation::SetJavaArguments { .. } => {
            let mut text = concat_str(String::new(), "Java arguments set to ");
            text = match extra_flags {
                Some(f) => concat_str(text, f.as_str()),
                None => text,
            };
            text = concat_str(text, ".");
            assert(text@ =~= editor_message(*mutation, reply));
            EditorMutationResult { message: text, operation_id: None }
        },
        EditorMutation::Playit { start } => {
            let text = match message {
                Some(m) => m,
                None => {
                    let mut t = concat_str(String::new(), "Playit ");
                    t = concat_str(t, if *start { "start" } else { "stop" });
                    concat_str(t, " requested.")
                },
            };
            assert(text@ =~= editor_message(*mutation, reply));
            EditorMutationResult { message: text, operation_id }
        },
        EditorMutation::XboxBroadcast { start } => {
            let mut text = concat_str(String::new(), "Xbox Broadcast ");
            text = concat_str(text, if *start { "start" } else { "stop" });
            text = concat_str(text, " requested.");
            assert(text@ =~= editor_message(*mutation, reply));
            EditorMutationResult { message: text, operation_id }
        },
        _ => {
            let text = match message {
                Some(m) => m,
                None => String::new(),
            };
            EditorMutationResult { message: text, operation_id: None }
        },
    }
}

/// The text of an `i64` (`i64::to_string`).
pub open spec fn signed_decimal(n: int) -> Seq<char> {
    if n < 0 {
        seq!['-'] + decimal((-n) as nat)
    } else {
        decimal(n as nat)
    }
}

/// The settings change that sets the game port: `server-port` to the
/// port's text.
pub fn port_changes(port: i64) -> (res: Vec<(String, String)>)
    ensures
        res@.len() == 1,
        res@[0].0@ == "server-port"@,
        res@[0].1@ == signed_decimal(port as int),
{
    let text = crate::tui::screens::signed_text(port);
    let mut changes: Vec<(String, String)> = Vec::new();
    changes.push((concat_str(String::new(), "server-port"), text));
    changes
}

/// The body that the editor sends for a change.
#[derive(Debug, Clone, PartialEq, Eq)]
pub enum EditorRequest {
    Rename { server_id: String, name: String },
    Directory { server_id: String, directory: String },
    /// The RAM values as typed; they are sent as decimal GB numbers.
    Ram { min: Option<String>, max: Option<String> },
    /// Settings changes, each a key and its new value.
    Settings { changes: Vec<(String, String)> },
    JavaRuntime { executable_path: Option<String>, extra_flags: Option<String> },
    /// An empty JSON object.
    Empty,
}

/// The body that carries out `mutation`: the rename and directory bodies
/// name the server; the port is one settings change; a Java path or Java
/// arguments set one field of the runtime and leave the other out; the
/// Playit and Xbox Broadcast requests carry nothing.
pub fn editor_request(mutation: EditorMutation) -> (res: EditorRequest)
    ensures
        match mutation {
            EditorMutation::Rename { server_id, name } => res == (EditorRequest::Rename {
                server_id,
                name,
            }),
            EditorMutation::SetDirectory { server_id, directory } => res == (
            EditorRequest::Directory { server_id, directory }),
            EditorMutation::UpdateRam { min, max } => res == (EditorRequest::Ram { min, max }),
            EditorMutation::UpdatePort { port } => res matches EditorRequest::Settings { changes }
                && changes@.len() == 1 && changes@[0].0@ == "server-port"@ && changes@[0].1@
                == signed_decimal(port as int),
            EditorMutation::SetJavaPath { path } => res == (EditorRequest::JavaRuntime {
                executable_path: Some(path),
                extra_flags: None,
            }),
            EditorMutation::SetJavaArguments { arguments } => res == (EditorRequest::JavaRuntime {
                executable_path: None,
                extra_flags: Some(arguments),
            }),
            EditorMutation::Playit { .. } | EditorMutation::XboxBroadcast { .. } => res
                == EditorRequest::Empty,
        },
{
    match mutation {
        EditorMutation::Rename { server_id, name } => EditorRequest::Rename { server_id, name },
        EditorMutation::SetDirectory { server_id, directory } => EditorRequest::Directory {
            server_id,
            directory,
        },
        EditorMutation::UpdateRam { min, max } => EditorRequest::Ram { min, max },
        EditorMutation::UpdatePort { port } => EditorRequest::Settings { changes: port_changes(port) },
        EditorMutation::SetJavaPath { path } => EditorRequest::JavaRuntime {
            executable_path: Some(path),
            extra_flags: None,
        },
        EditorMutation::SetJavaArguments { arguments } => EditorRequest::JavaRuntime {
            executable_path: None,
            extra_flags: Some(arguments),
        },
        EditorMutation::Playit { .. } => EditorRequest::Empty,
        EditorMutation::XboxBroadcast { .. } => EditorRequest::Empty,
    }
}

} // verus!
