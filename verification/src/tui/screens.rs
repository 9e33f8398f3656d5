//! The text of the console's boxes: every line that a view shows, from the
//! view's state. Drawing the lines in a bordered box is left to the
//! terminal; sizes that need fractional units arrive already formatted.

use vstd::prelude::*;
use crate::text::{chars_of, concat_str, decimal, decimal_exec, join, lines, lines_exec, string_of};
use crate::files::{FileItem, ServerFilesResponse};
use crate::health::{HealthCard, HealthResponse};
use crate::backups::{BackupConfig, BackupItem};
use crate::tui::server_editor::{
    EditorSurface, JavaConfig, JavaRuntimeSummary, RamConfig, ServerEditorState, ServerSummary,
    signed_decimal,
};
use crate::tui::settings::{SettingField, SettingsSection, SettingsState};
use crate::tui::worlds::{WorldSlot, WorldsState, active_index};

verus! {

/// The texts of a list of lines.
pub open spec fn texts(v: Seq<String>) -> Seq<Seq<char>> {
    Seq::new(v.len(), |i: int| v[i]@)
}

proof fn lemma_texts_add(a: Seq<String>, b: Seq<String>)
    ensures
        texts(a + b) == texts(a) + texts(b),
{
    assert(texts(a + b) =~= texts(a) + texts(b));
}

/// No line, or the one line.
pub open spec fn optional_line(line: Option<Seq<char>>) -> Seq<Seq<char>> {
    match line {
        Some(l) => seq![l],
        None => Seq::empty(),
    }
}

fn push_optional(lines: &mut Vec<String>, line: Option<String>)
    ensures
        texts(final(lines)@) == texts(old(lines)@) + optional_line(
            match line {
                Some(l) => Some(l@),
                None => None,
            },
        ),
{
    match line {
        Some(l) => {
            lines.push(l);
            assert(texts(lines@) =~= texts(old(lines)@) + seq![l@]);
        },
        None => {
            assert(texts(lines@) =~= texts(old(lines)@) + Seq::<Seq<char>>::empty());
        },
    }
}

fn append_lines(lines: &mut Vec<String>, more: Vec<String>)
    ensures
        texts(final(lines)@) == texts(old(lines)@) + texts(more@),
{
    let mut more = more;
    lines.append(&mut more);
    proof {
        lemma_texts_add(old(lines)@, more@);
    }
}

/// The decimal text of a number.
pub fn number_text(n: u64) -> (res: String)
    ensures
        res@ == decimal(n as nat),
{
    string_of(decimal_exec(n).as_slice())
}

/// The decimal text of a signed number.
pub fn signed_text(n: i64) -> (res: String)
    ensures
        res@ == signed_decimal(n as int),
{
    let magnitude: u64 = if n < 0 {
        (0i128 - n as i128) as u64
    } else {
        n as u64
    };
    let digits = string_of(decimal_exec(magnitude).as_slice());
    if n < 0 {
        let mut text = String::new();
        crate::text::push_char(&mut text, '-');
        let text = concat_str(text, digits.as_str());
        assert(text@ =~= signed_decimal(n as int));
        text
    } else {
        digits
    }
}

/// A port, or a dash where there is none.
pub open spec fn port_text(port: Option<i64>) -> Seq<char> {
    match port {
        Some(p) => signed_decimal(p as int),
        None => "—"@,
    }
}

fn port_text_exec(port: Option<i64>) -> (res: String)
    ensures
        res@ == port_text(port),
{
    match port {
        Some(p) => signed_text(p),
        None => concat_str(String::new(), "—"),
    }
}

/// A value, or `default` where there is none.
pub open spec fn or_default(value: Option<String>, default: Seq<char>) -> Seq<char> {
    match value {
        Some(v) => v@,
        None => default,
    }
}

fn or_default_exec(value: &Option<String>, default: &str) -> (res: String)
    ensures
        res@ == or_default(*value, default@),
{
    match value {
        Some(v) => v.clone(),
        None => default.to_owned(),
    }
}

/// The marker in front of a list entry: `›` for the selected one.
pub open spec fn marker(selected: bool) -> Seq<char> {
    if selected {
        "›"@
    } else {
        " "@
    }
}

fn marker_exec(selected: bool) -> (res: &'static str)
    ensures
        res@ == marker(selected),
{
    if selected {
        "›"
    } else {
        " "
    }
}

// ---------------------------------------------------------------------------
// The server editor
// ---------------------------------------------------------------------------

/// The editor's first line: the server's name and type.
pub open spec fn editor_title_line(e: ServerEditorState) -> Seq<char> {
    match e.server {
        Some(s) => s.name@ + "  ·  "@ + s.server_type@,
        None => "No server selected"@ + "  ·  "@ + "unknown"@,
    }
}

/// The RAM range, or `unavailable`.
pub open spec fn ram_text(ram: Option<RamConfig>) -> Seq<char> {
    match ram {
        Some(r) => decimal(r.min_ram_gb as nat) + "–"@ + decimal(r.max_ram_gb as nat) + " GB"@,
        None => "unavailable"@,
    }
}

/// The General page: what the agent reported of the server.
pub open spec fn general_page(e: ServerEditorState, storage: Seq<char>) -> Seq<Seq<char>> {
    match e.server {
        Some(s) => seq![
            "GENERAL"@,
            "Display name: "@ + s.name@ + "  [n] rename"@,
            "Directory: "@ + s.directory@ + "  [p] edit path"@,
            "RAM: "@ + ram_text(e.ram) + "  [m] edit min|max GB"@,
            "Ports: game "@ + port_text(s.game_port) + " · bedrock "@ + port_text(s.bedrock_port)
                + "  [o] edit game port"@,
            "Storage: "@ + match e.storage_bytes {
                Some(_) => storage,
                None => "unavailable"@,
            },
            "EULA: agent-managed acceptance in Manage Servers"@,
            "Deletion: Manage Servers confirms removal of managed data"@,
        ],
        None => Seq::empty(),
    }
}

/// Whether a service is offered.
pub open spec fn availability(available: bool) -> Seq<char> {
    if available {
        "available"@
    } else {
        "unavailable"@
    }
}

/// A service's state with the key that toggles it.
pub open spec fn service_state(running: Option<bool>, on: Seq<char>, off: Seq<char>) -> Seq<char> {
    match running {
        Some(true) => on,
        Some(false) => off,
        None => "state unavailable"@,
    }
}

/// The Services page.
pub open spec fn services_page(e: ServerEditorState) -> Seq<Seq<char>> {
    seq![
        "SERVICES · CAPABILITY-BACKED"@,
        "Playit: "@ + availability(e.playit_available) + " · "@ + service_state(
            e.playit,
            "RUNNING [p] stop"@,
            "STOPPED [p] start"@,
        ),
        "Xbox Broadcast: "@ + availability(e.broadcast_available) + " · "@ + service_state(
            e.broadcast,
            "RUNNING [x] stop"@,
            "STOPPED [x] start"@,
        ),
        "Controls appear only when host capability and token permission allow them."@,
    ]
}

/// The configured Java executable, or `default`.
pub open spec fn configured_java(c: Option<JavaConfig>) -> Seq<char> {
    match c {
        Some(c) => or_default(c.executable_path, "default"@),
        None => "default"@,
    }
}

/// The configured extra Java arguments, or `none`.
pub open spec fn configured_arguments(c: Option<JavaConfig>) -> Seq<char> {
    match c {
        Some(c) => or_default(c.extra_flags, "none"@),
        None => "none"@,
    }
}

/// One detected runtime.
pub open spec fn runtime_line(r: JavaRuntimeSummary, selected: bool) -> Seq<char> {
    marker(selected) + " "@ + r.name@ + " · "@ + match r.major_version {
        Some(m) => "Java "@ + decimal(m as nat),
        None => "Java ?"@,
    } + " · "@ + r.executable_path@
}

/// The detected runtimes, the selected one marked.
pub open spec fn runtime_lines(rs: Seq<JavaRuntimeSummary>, selected: int) -> Seq<Seq<char>> {
    Seq::new(rs.len(), |i: int| runtime_line(rs[i], i == selected))
}

/// The Java page.
pub open spec fn java_page(e: ServerEditorState) -> Seq<Seq<char>> {
    seq![
        "JAVA · DETECTED RUNTIMES"@,
        "Configured path: "@ + configured_java(e.java_config) + "  [p] edit path"@,
        "Extra arguments: "@ + configured_arguments(e.java_config) + "  [a] edit"@,
    ] + if e.java_runtimes@.len() == 0 {
        seq!["No Java runtimes detected. [d] check again"@]
    } else {
        runtime_lines(e.java_runtimes@, e.selected_runtime as int) + seq![
            "[j/k] choose runtime  [enter] use it  [d] report detection"@,
        ]
    }
}

/// The number of fields over all sections.
pub open spec fn field_count(sections: Seq<SettingsSection>) -> nat
    decreases sections.len(),
{
    if sections.len() == 0 {
        0
    } else {
        field_count(sections.drop_last()) + sections.last().fields@.len()
    }
}

/// Every line of the server editor's box: the server, the page keys, the
/// current page, then the open prompt, the last status, the size of the
/// settings schema and the last data note, each where there is one.
/// `storage` is the folder size as text, shown where it was measured.
pub open spec fn editor_screen(e: ServerEditorState, storage: Seq<char>) -> Seq<Seq<char>> {
    seq![
        editor_title_line(e),
        "[1] General  [2] Services  [3] Java  [r] reload  [esc] back"@,
        Seq::<char>::empty(),
    ] + match e.surface {
        EditorSurface::General => general_page(e, storage),
        EditorSurface::Services => services_page(e),
        EditorSurface::Java => java_page(e),
    } + optional_line(
        match e.input {
            Some((kind, value)) => Some(kind.prompt_text() + ": "@ + value@ + "_"@),
            None => None,
        },
    ) + optional_line(
        match e.status {
            Some(s) => Some("Status: "@ + s@),
            None => None,
        },
    ) + optional_line(
        match e.settings {
            Some(st) => Some(
                "Settings schema: "@ + decimal(field_count(st.sections@)) + " field(s) · "@ + if st.editable {
                    "editable"@
                } else {
                    "read-only"@
                },
            ),
            None => None,
        },
    ) + optional_line(
        match e.error {
            Some(x) => Some("Editor data note: "@ + x@),
            None => None,
        },
    )
}

fn ram_text_exec(ram: Option<RamConfig>) -> (res: String)
    ensures
        res@ == ram_text(ram),
{
    match ram {
        Some(r) => {
            let t = concat_str(number_text(r.min_ram_gb as u64), "–");
            let t = concat_str(t, number_text(r.max_ram_gb as u64).as_str());
            concat_str(t, " GB")
        },
        None => concat_str(String::new(), "unavailable"),
    }
}

fn general_page_exec(e: &ServerEditorState, storage: &str) -> (res: Vec<String>)
    ensures
        texts(res@) == general_page(*e, storage@),
{
    let mut lines: Vec<String> = Vec::new();
    match &e.server {
        Some(s) => {
            lines.push(concat_str(String::new(), "GENERAL"));
            lines.push(
                concat_str(concat_str(concat_str(String::new(), "Display name: "), s.name.as_str()), "  [n] rename"),
            );
            lines.push(
                concat_str(concat_str(concat_str(String::new(), "Directory: "), s.directory.as_str()), "  [p] edit path"),
            );
            lines.push(
                concat_str(
                    concat_str(concat_str(String::new(), "RAM: "), ram_text_exec(e.ram).as_str()),
                    "  [m] edit min|max GB",
                ),
            );
            let ports = concat_str(concat_str(String::new(), "Ports: game "), port_text_exec(s.game_port).as_str());
            let ports = concat_str(concat_str(ports, " · bedrock "), port_text_exec(s.bedrock_port).as_str());
            lines.push(concat_str(ports, "  [o] edit game port"));
            let size = match e.storage_bytes {
                Some(_) => storage,
                None => "unavailable",
            };
            lines.push(concat_str(concat_str(String::new(), "Storage: "), size));
            lines.push(concat_str(String::new(), "EULA: agent-managed acceptance in Manage Servers"));
            lines.push(concat_str(String::new(), "Deletion: Manage Servers confirms removal of managed data"));
            assert(texts(lines@) =~= general_page(*e, storage@));
        },
        None => {
            assert(texts(lines@) =~= general_page(*e, storage@));
        },
    }
    lines
}

fn service_line(name: &str, available: bool, running: Option<bool>, on: &str, off: &str) -> (res: String)
    ensures
        res@ == name@ + availability(available) + " · "@ + service_state(running, on@, off@),
{
    let t = concat_str(String::new(), name);
    let t = concat_str(t, if available { "available" } else { "unavailable" });
    let t = concat_str(t, " · ");
    concat_str(
        t,
        match running {
            Some(true) => on,
            Some(false) => off,
            None => "state unavailable",
        },
    )
}

fn services_page_exec(e: &ServerEditorState) -> (res: Vec<String>)
    ensures
        texts(res@) == services_page(*e),
{
    let mut lines: Vec<String> = Vec::new();
    lines.push(concat_str(String::new(), "SERVICES · CAPABILITY-BACKED"));
    lines.push(service_line("Playit: ", e.playit_available, e.playit, "RUNNING [p] stop", "STOPPED [p] start"));
    lines.push(
        service_line(
            "Xbox Broadcast: ",
            e.broadcast_available,
            e.broadcast,
            "RUNNING [x] stop",
            "STOPPED [x] start",
        ),
    );
    lines.push(
        concat_str(String::new(), "Controls appear only when host capability and token permission allow them."),
    );
    assert(texts(lines@) =~= services_page(*e));
    lines
}

fn runtime_line_exec(r: &JavaRuntimeSummary, selected: bool) -> (res: String)
    ensures
        res@ == runtime_line(*r, selected),
{
    let t = concat_str(concat_str(String::new(), marker_exec(selected)), " ");
    let t = concat_str(concat_str(t, r.name.as_str()), " · ");
    let t = match r.major_version {
        Some(m) => concat_str(concat_str(t, "Java "), number_text(m as u64).as_str()),
        None => concat_str(t, "Java ?"),
    };
    concat_str(concat_str(t, " · "), r.executable_path.as_str())
}

fn java_page_exec(e: &ServerEditorState) -> (res: Vec<String>)
    ensures
        texts(res@) == java_page(*e),
{
    let mut lines: Vec<String> = Vec::new();
    lines.push(concat_str(String::new(), "JAVA · DETECTED RUNTIMES"));
    let (path, args) = match &e.java_config {
        Some(c) => (or_default_exec(&c.executable_path, "default"), or_default_exec(&c.extra_flags, "none")),
        None => (concat_str(String::new(), "default"), concat_str(String::new(), "none")),
    };
    lines.push(concat_str(concat_str(concat_str(String::new(), "Configured path: "), path.as_str()), "  [p] edit path"));
    lines.push(concat_str(concat_str(concat_str(String::new(), "Extra arguments: "), args.as_str()), "  [a] edit"));
    let ghost head = texts(lines@);
    if e.java_runtimes.len() == 0 {
        lines.push(concat_str(String::new(), "No Java runtimes detected. [d] check again"));
        assert(texts(lines@) =~= java_page(*e));
    } else {
        let mut i: usize = 0;
        while i < e.java_runtimes.len()
            invariant
                i <= e.java_runtimes.len(),
                texts(lines@) == head + runtime_lines(e.java_runtimes@, e.selected_runtime as int).take(
                    i as int,
                ),
            decreases e.java_runtimes.len() - i,
        {
            let line = runtime_line_exec(&e.java_runtimes[i], i == e.selected_runtime);
            let ghost before = lines@;
            lines.push(line);
            assert(texts(lines@) =~= texts(before).push(line@));
            assert(runtime_lines(e.java_runtimes@, e.selected_runtime as int).take(i + 1) =~= runtime_lines(
                e.java_runtimes@,
                e.selected_runtime as int,
            ).take(i as int).push(line@));
            i += 1;
        }
        assert(runtime_lines(e.java_runtimes@, e.selected_runtime as int).take(i as int) =~= runtime_lines(
            e.java_runtimes@,
            e.selected_runtime as int,
        ));
        let ghost mid = lines@;
        lines.push(concat_str(String::new(), "[j/k] choose runtime  [enter] use it  [d] report detection"));
        assert(texts(lines@) =~= texts(mid).push(lines@.last()@));
        assert(texts(lines@) =~= java_page(*e));
    }
    lines
}

fn field_count_exec(sections: &Vec<SettingsSection>) -> (res: u64)
    requires
        field_count(sections@) <= u64::MAX,
    ensures
        res == field_count(sections@),
{
    let mut total: u64 = 0;
    let mut i: usize = 0;
    while i < sections.len()
        invariant
            i <= sections.len(),
            field_count(sections@) <= u64::MAX,
            total == field_count(sections@.take(i as int)),
        decreases sections.len() - i,
    {
        assert(sections@.take(i + 1).drop_last() =~= sections@.take(i as int));
        proof {
            lemma_field_count_prefix(sections@, i + 1);
        }
        total = total + sections[i].fields.len() as u64;
        i += 1;
    }
    assert(sections@.take(i as int) =~= sections@);
    total
}

proof fn lemma_field_count_prefix(s: Seq<SettingsSection>, n: int)
    requires
        0 <= n <= s.len(),
    ensures
        field_count(s.take(n)) <= field_count(s),
    decreases s.len(),
{
    if n < s.len() {
        assert(s.drop_last().take(n) =~= s.take(n));
        lemma_field_count_prefix(s.drop_last(), n);
    } else {
        assert(s.take(n) =~= s);
    }
}

/// Every line of the server editor's box (see `editor_screen`). `storage`
/// is the measured folder size as text; it is shown only where the agent
/// measured one.
pub fn server_editor_lines(editor: &ServerEditorState, storage: &str) -> (res: Vec<String>)
    requires
        editor.settings matches Some(st) ==> field_count(st.sections@) <= u64::MAX,
    ensures
        texts(res@) == editor_screen(*editor, storage@),
{
    let mut lines: Vec<String> = Vec::new();
    let (name, kind) = match &editor.server {
        Some(s) => (s.name.as_str(), s.server_type.as_str()),
        None => ("No server selected", "unknown"),
    };
    lines.push(concat_str(concat_str(concat_str(String::new(), name), "  ·  "), kind));
    lines.push(concat_str(String::new(), "[1] General  [2] Services  [3] Java  [r] reload  [esc] back"));
    lines.push(String::new());
    assert(texts(lines@) =~= seq![
        editor_title_line(*editor),
        "[1] General  [2] Services  [3] Java  [r] reload  [esc] back"@,
        Seq::<char>::empty(),
    ]);
    let page = match editor.surface {
        EditorSurface::General => general_page_exec(editor, storage),
        EditorSurface::Services => services_page_exec(editor),
        EditorSurface::Java => java_page_exec(editor),
    };
    append_lines(&mut lines, page);
    let prompt = match &editor.input {
        Some((kind, value)) => Some(
            concat_str(concat_str(concat_str(String::new(), kind.prompt()), ": "), value.as_str()),
        ),
        None => None,
    };
    let prompt = match prompt {
        Some(p) => Some(concat_str(p, "_")),
        None => None,
    };
    push_optional(&mut lines, prompt);
    let status = match &editor.status {
        Some(s) => Some(concat_str(concat_str(String::new(), "Status: "), s.as_str())),
        None => None,
    };
    push_optional(&mut lines, status);
    let schema = match &editor.settings {
        Some(st) => {
            let t = concat_str(String::new(), "Settings schema: ");
            let t = concat_str(t, number_text(field_count_exec(&st.sections)).as_str());
            let t = concat_str(t, " field(s) · ");
            Some(concat_str(t, if st.editable { "editable" } else { "read-only" }))
        },
        None => None,
    };
    push_optional(&mut lines, schema);
    let note = match &editor.error {
        Some(x) => Some(concat_str(concat_str(String::new(), "Editor data note: "), x.as_str())),
        None => None,
    };
    push_optional(&mut lines, note);
    lines
}

/// The pieces joined with `sep` between neighbours.
pub fn join_texts(parts: &Vec<String>, sep: &str) -> (res: String)
    ensures
        res@ == join(texts(parts@), sep@),
{
    let mut res = String::new();
    let mut i: usize = 0;
    while i < parts.len()
        invariant
            i <= parts.len(),
            res@ == join(texts(parts@).take(i as int), sep@),
        decreases parts.len() - i,
    {
        assert(texts(parts@).take(i + 1).drop_last() =~= texts(parts@).take(i as int));
        if i == 0 {
            res = parts[0].clone();
            assert(texts(parts@).take(1) =~= seq![parts@[0]@]);
        } else {
            res = concat_str(concat_str(res, sep), parts[i].as_str());
        }
        i += 1;
    }
    assert(texts(parts@).take(i as int) =~= texts(parts@));
    res
}

// ---------------------------------------------------------------------------
// Server settings
// ---------------------------------------------------------------------------

/// One section of the settings schema, with the key that selects it.
pub open spec fn section_line(sec: SettingsSection, index: int, selected: bool) -> Seq<char> {
    marker(selected) + " "@ + sec.title@ + " ["@ + decimal((index + 1) as nat) + "]"@
}

/// The sections, the selected one marked.
pub open spec fn section_lines(secs: Seq<SettingsSection>, selected: int) -> Seq<Seq<char>> {
    Seq::new(secs.len(), |i: int| section_line(secs[i], i, i == selected))
}

/// One field: its label, value and unit; under the selected field its help
/// topic and the labels of its allowed values, where it has them.
pub open spec fn field_block(f: SettingField, selected: bool) -> Seq<Seq<char>> {
    seq![marker(selected) + " "@ + f.label@ + " = "@ + f.value@ + or_default(f.unit, ""@)] + if selected {
        optional_line(
            match f.help_id {
                Some(h) => Some("  Help: "@ + h@),
                None => None,
            },
        ) + optional_line(
            match f.options {
                Some(o) => Some("  Options: "@ + join(texts(o@), ", "@)),
                None => None,
            },
        )
    } else {
        Seq::empty()
    }
}

/// The blocks of the first `n` fields.
pub open spec fn field_lines(fs: Seq<SettingField>, selected: int, n: int) -> Seq<Seq<char>>
    decreases n,
{
    if n <= 0 {
        Seq::empty()
    } else {
        field_lines(fs, selected, n - 1) + field_block(fs[n - 1], n - 1 == selected)
    }
}

/// The settings page's lines: the schema's sections, then the fields of
/// the selected section; or why there is nothing to show. The open edit
/// and the last status follow.
pub open spec fn settings_screen(st: SettingsState) -> Seq<Seq<char>> {
    seq!["SERVER SETTINGS · SCHEMA FROM AGENT"@] + match st.error {
        Some(e) => seq!["Settings unavailable: "@ + e@],
        None => if !st.loaded {
            seq!["Loading settings…"@]
        } else {
            match st.response {
                Some(r) => seq![
                    r.server_name@ + " · "@ + r.server_type@ + " · "@ + if r.editable {
                        "editable"@
                    } else {
                        "read-only"@
                    },
                ] + section_lines(r.sections@, st.selected_section as int) + if st.selected_section
                    < r.sections@.len() {
                    let sec = r.sections@[st.selected_section as int];
                    seq![Seq::<char>::empty(), sec.title@ + " · [j/k] field  [enter] edit"@]
                        + field_lines(sec.fields@, st.selected_field as int, sec.fields@.len() as int)
                } else {
                    Seq::empty()
                },
                None => Seq::empty(),
            }
        },
    } + optional_line(
        match st.input {
            Some((k, v)) => Some("Edit "@ + k@ + ": "@ + v@ + "_"@),
            None => None,
        },
    ) + optional_line(
        match st.status {
            Some(s) => Some("Status: "@ + s@),
            None => None,
        },
    )
}

fn field_block_exec(f: &SettingField, selected: bool) -> (res: Vec<String>)
    ensures
        texts(res@) == field_block(*f, selected),
{
    let mut lines: Vec<String> = Vec::new();
    let t = concat_str(concat_str(String::new(), marker_exec(selected)), " ");
    let t = concat_str(concat_str(t, f.label.as_str()), " = ");
    let t = concat_str(t, f.value.as_str());
    let unit = or_default_exec(&f.unit, "");
    lines.push(concat_str(t, unit.as_str()));
    let ghost first = texts(lines@);
    assert(first =~= seq![marker(selected) + " "@ + f.label@ + " = "@ + f.value@ + or_default(f.unit, ""@)]);
    if selected {
        let help = match &f.help_id {
            Some(h) => Some(concat_str(concat_str(String::new(), "  Help: "), h.as_str())),
            None => None,
        };
        push_optional(&mut lines, help);
        let options = match &f.options {
            Some(o) => Some(concat_str(concat_str(String::new(), "  Options: "), join_texts(o, ", ").as_str())),
            None => None,
        };
        push_optional(&mut lines, options);
    } else {
        assert(texts(lines@) =~= first + Seq::<Seq<char>>::empty());
    }
    lines
}

fn section_line_exec(sec: &SettingsSection, index: usize, selected: bool) -> (res: String)
    requires
        index < u64::MAX,
    ensures
        res@ == section_line(*sec, index as int, selected),
{
    let t = concat_str(concat_str(String::new(), marker_exec(selected)), " ");
    let t = concat_str(concat_str(t, sec.title.as_str()), " [");
    let t = concat_str(t, number_text(index as u64 + 1).as_str());
    concat_str(t, "]")
}

/// The settings page's lines (see `settings_screen`).
pub fn settings_lines(settings: &SettingsState) -> (res: Vec<String>)
    ensures
        texts(res@) == settings_screen(*settings),
{
    let mut lines: Vec<String> = Vec::new();
    lines.push(concat_str(String::new(), "SERVER SETTINGS · SCHEMA FROM AGENT"));
    let ghost head = texts(lines@);
    let mut body: Vec<String> = Vec::new();
    if let Some(e) = &settings.error {
        body.push(concat_str(concat_str(String::new(), "Settings unavailable: "), e.as_str()));
        assert(texts(body@) =~= seq!["Settings unavailable: "@ + e@]);
    } else if !settings.loaded {
        body.push(concat_str(String::new(), "Loading settings…"));
        assert(texts(body@) =~= seq!["Loading settings…"@]);
    } else if let Some(r) = &settings.response {
        let t = concat_str(concat_str(String::new(), r.server_name.as_str()), " · ");
        let t = concat_str(concat_str(t, r.server_type.as_str()), " · ");
        body.push(concat_str(t, if r.editable { "editable" } else { "read-only" }));
        let ghost top = texts(body@);
        let mut i: usize = 0;
        while i < r.sections.len()
            invariant
                i <= r.sections.len(),
                texts(body@) == top + section_lines(r.sections@, settings.selected_section as int).take(
                    i as int,
                ),
            decreases r.sections.len() - i,
        {
            let line = section_line_exec(&r.sections[i], i, i == settings.selected_section);
            let ghost before = body@;
            body.push(line);
            assert(texts(body@) =~= texts(before).push(line@));
            assert(section_lines(r.sections@, settings.selected_section as int).take(i + 1)
                =~= section_lines(r.sections@, settings.selected_section as int).take(i as int).push(
                line@,
            ));
            i += 1;
        }
        assert(section_lines(r.sections@, settings.selected_section as int).take(i as int)
            =~= section_lines(r.sections@, settings.selected_section as int));
        let ghost listed = texts(body@);
        if settings.selected_section < r.sections.len() {
            let sec = &r.sections[settings.selected_section];
            body.push(String::new());
            body.push(concat_str(concat_str(String::new(), sec.title.as_str()), " · [j/k] field  [enter] edit"));
            assert(texts(body@) =~= listed + seq![
                Seq::<char>::empty(),
                sec.title@ + " · [j/k] field  [enter] edit"@,
            ]);
            let ghost sub = texts(body@);
            let mut k: usize = 0;
            while k < sec.fields.len()
                invariant
                    k <= sec.fields.len(),
                    texts(body@) == sub + field_lines(sec.fields@, settings.selected_field as int, k as int),
                decreases sec.fields.len() - k,
            {
                let block = field_block_exec(&sec.fields[k], k == settings.selected_field);
                append_lines(&mut body, block);
                k += 1;
            }
            assert(texts(body@) =~= listed + (seq![
                Seq::<char>::empty(),
                sec.title@ + " · [j/k] field  [enter] edit"@,
            ] + field_lines(sec.fields@, settings.selected_field as int, sec.fields@.len() as int)));
        } else {
            assert(texts(body@) =~= listed + Seq::<Seq<char>>::empty());
        }
    } else {
        assert(texts(body@) =~= Seq::<Seq<char>>::empty());
    }
    append_lines(&mut lines, body);
    let edit = match &settings.input {
        Some((k, v)) => Some(
            concat_str(concat_str(concat_str(concat_str(String::new(), "Edit "), k.as_str()), ": "), v.as_str()),
        ),
        None => None,
    };
    let edit = match edit {
        Some(e) => Some(concat_str(e, "_")),
        None => None,
    };
    push_optional(&mut lines, edit);
    let status = match &settings.status {
        Some(s) => Some(concat_str(concat_str(String::new(), "Status: "), s.as_str())),
        None => None,
    };
    push_optional(&mut lines, status);
    lines
}

// ---------------------------------------------------------------------------
// World slots
// ---------------------------------------------------------------------------

/// The box's title, marked where the content has the focus.
pub open spec fn box_title(name: Seq<char>, focused: bool) -> Seq<char> {
    if focused {
        "› "@ + name
    } else {
        name
    }
}

/// The box's title, marked where the content has the focus.
pub fn box_title_exec(name: &str, focused: bool) -> (res: String)
    ensures
        res@ == box_title(name@, focused),
{
    if focused {
        concat_str(concat_str(String::new(), "› "), name)
    } else {
        name.to_owned()
    }
}

/// The active slot, as `WorldsState::active_slot` finds it.
pub open spec fn active_world(w: WorldsState) -> Option<WorldSlot> {
    match w.response {
        Some(r) => match active_index(r) {
            Some(i) => Some(r.slots@[i]),
            None => None,
        },
        None => None,
    }
}

/// `ACTIVE` or `SAVED`.
pub open spec fn slot_state(active: bool) -> Seq<char> {
    if active {
        "ACTIVE"@
    } else {
        "SAVED"@
    }
}

/// One slot of the list.
pub open spec fn slot_line(slot: WorldSlot, selected: bool) -> Seq<char> {
    marker(selected) + " "@ + slot.name@ + "  "@ + slot_state(slot.is_active) + "  "@ + slot.id@
}

/// The slots, the selected one marked.
pub open spec fn slot_lines(slots: Seq<WorldSlot>, selected: int) -> Seq<Seq<char>> {
    Seq::new(slots.len(), |i: int| slot_line(slots[i], i == selected))
}

/// The detail of the selected slot. `archive` is its archive size as text,
/// shown where the agent reported one.
pub open spec fn slot_detail(w: WorldsState, slot: WorldSlot, archive: Seq<char>) -> Seq<Seq<char>> {
    seq![
        "SELECTED WORLD SLOT"@,
        slot.name@ + "  ·  "@ + slot_state(slot.is_active) + if active_world(w) matches Some(a)
            && a.id@ == slot.id@ {
            " · live identity"@
        } else {
            ""@
        },
        "Slot ID: "@ + slot.id@,
        "Created: "@ + slot.created_at@,
        "Archive: "@ + match slot.zip_size_bytes {
            Some(_) => archive,
            None => "not reported"@,
        },
        "Seed: "@ + or_default(slot.world_seed, "not reported"@),
        Seq::<char>::empty(),
        "[b] backups  [a] activate  [s] save current  [n] rename  [N] rename active"@,
        "[p] copy into  [l] replace active  [e] export  [v] convert  [R] repair"@,
        "[d] delete  [esc] world list"@,
    ]
}

/// The list of slots under the active world and the server's state.
pub open spec fn slot_list(w: WorldsState) -> Seq<Seq<char>> {
    seq![
        "ACTIVE WORLD  "@ + match active_world(w) {
            Some(a) => a.name@,
            None => "none"@,
        },
        decimal(w.slots_spec().len()) + " saved slots · server "@ + match w.response {
            Some(r) => if r.server_running {
                "RUNNING"@
            } else {
                "STOPPED"@
            },
            None => "unknown"@,
        },
        Seq::<char>::empty(),
    ] + if w.slots_spec().len() == 0 {
        seq!["No world slots are available."@]
    } else {
        slot_lines(w.slots_spec(), w.selected_slot as int)
    } + seq![Seq::<char>::empty(), "[j/k] choose  [enter] detail  [c] create  [i] import  [r] reload"@]
}

/// The world box's lines: the error, the loading note, the selected slot's
/// detail or the list of slots; then the open prompt and the last status.
/// Where the detail is open with no slot selected, the box holds only
/// that note.
pub open spec fn worlds_screen(w: WorldsState, archive: Seq<char>) -> Seq<Seq<char>> {
    let tail = optional_line(
        match w.input {
            Some((kind, value)) => Some(kind.prompt_text() + ": "@ + value@ + "_"@),
            None => None,
        },
    ) + optional_line(
        match w.status {
            Some(s) => Some("Status: "@ + s@),
            None => None,
        },
    );
    match w.error {
        Some(e) => seq!["World slots unavailable: "@ + e@] + tail,
        None => if !w.loaded {
            seq!["Loading world slots from the selected server…"@] + tail
        } else if w.detail_open {
            match w.selected_spec() {
                Some(slot) => slot_detail(w, slot, archive) + tail,
                None => seq!["No world slot is selected."@],
            }
        } else {
            slot_list(w) + tail
        },
    }
}

fn slot_detail_exec(w: &WorldsState, slot: &WorldSlot, archive: &str) -> (res: Vec<String>)
    ensures
        texts(res@) == slot_detail(*w, *slot, archive@),
{
    let mut lines: Vec<String> = Vec::new();
    lines.push(concat_str(String::new(), "SELECTED WORLD SLOT"));
    let live = match w.active_slot() {
        Some(a) => crate::text::chars_eq(
            crate::text::chars_of(a.id.as_str()).as_slice(),
            crate::text::chars_of(slot.id.as_str()).as_slice(),
        ),
        None => false,
    };
    let t = concat_str(concat_str(String::new(), slot.name.as_str()), "  ·  ");
    let t = concat_str(t, if slot.is_active { "ACTIVE" } else { "SAVED" });
    lines.push(concat_str(t, if live { " · live identity" } else { "" }));
    lines.push(concat_str(concat_str(String::new(), "Slot ID: "), slot.id.as_str()));
    lines.push(concat_str(concat_str(String::new(), "Created: "), slot.created_at.as_str()));
    let size = match slot.zip_size_bytes {
        Some(_) => archive,
        None => "not reported",
    };
    lines.push(concat_str(concat_str(String::new(), "Archive: "), size));
    lines.push(
        concat_str(concat_str(String::new(), "Seed: "), or_default_exec(&slot.world_seed, "not reported").as_str()),
    );
    lines.push(String::new());
    lines.push(
        concat_str(String::new(), "[b] backups  [a] activate  [s] save current  [n] rename  [N] rename active"),
    );
    lines.push(concat_str(String::new(), "[p] copy into  [l] replace active  [e] export  [v] convert  [R] repair"));
    lines.push(concat_str(String::new(), "[d] delete  [esc] world list"));
    assert(texts(lines@) =~= slot_detail(*w, *slot, archive@));
    lines
}

fn slot_list_exec(w: &WorldsState) -> (res: Vec<String>)
    ensures
        texts(res@) == slot_list(*w),
{
    let mut lines: Vec<String> = Vec::new();
    let active = match w.active_slot() {
        Some(a) => a.name.as_str(),
        None => "none",
    };
    lines.push(concat_str(concat_str(String::new(), "ACTIVE WORLD  "), active));
    let slots = w.slots();
    let t = concat_str(number_text(slots.len() as u64), " saved slots · server ");
    let state = match &w.response {
        Some(r) => if r.server_running {
            "RUNNING"
        } else {
            "STOPPED"
        },
        None => "unknown",
    };
    lines.push(concat_str(t, state));
    lines.push(String::new());
    let ghost head = texts(lines@);
    assert(head =~= seq![
        "ACTIVE WORLD  "@ + match active_world(*w) {
            Some(a) => a.name@,
            None => "none"@,
        },
        decimal(w.slots_spec().len()) + " saved slots · server "@ + match w.response {
            Some(r) => if r.server_running {
                "RUNNING"@
            } else {
                "STOPPED"@
            },
            None => "unknown"@,
        },
        Seq::<char>::empty(),
    ]);
    if slots.len() == 0 {
        lines.push(concat_str(String::new(), "No world slots are available."));
        assert(texts(lines@) =~= head + seq!["No world slots are available."@]);
    } else {
        let mut i: usize = 0;
        while i < slots.len()
            invariant
                i <= slots.len(),
                slots@ == w.slots_spec(),
                texts(lines@) == head + slot_lines(w.slots_spec(), w.selected_slot as int).take(i as int),
            decreases slots.len() - i,
        {
            let s = &slots[i];
            let t = concat_str(concat_str(String::new(), marker_exec(i == w.selected_slot)), " ");
            let t = concat_str(concat_str(t, s.name.as_str()), "  ");
            let t = concat_str(concat_str(t, if s.is_active { "ACTIVE" } else { "SAVED" }), "  ");
            let line = concat_str(t, s.id.as_str());
            let ghost before = lines@;
            lines.push(line);
            assert(texts(lines@) =~= texts(before).push(line@));
            assert(slot_lines(w.slots_spec(), w.selected_slot as int).take(i + 1) =~= slot_lines(
                w.slots_spec(),
                w.selected_slot as int,
            ).take(i as int).push(line@));
            i += 1;
        }
        assert(slot_lines(w.slots_spec(), w.selected_slot as int).take(i as int) =~= slot_lines(
            w.slots_spec(),
            w.selected_slot as int,
        ));
    }
    let ghost mid = texts(lines@);
    lines.push(String::new());
    lines.push(concat_str(String::new(), "[j/k] choose  [enter] detail  [c] create  [i] import  [r] reload"));
    assert(texts(lines@) =~= mid + seq![
        Seq::<char>::empty(),
        "[j/k] choose  [enter] detail  [c] create  [i] import  [r] reload"@,
    ]);
    assert(texts(lines@) =~= slot_list(*w));
    lines
}

/// The world box's lines (see `worlds_screen`). `archive` is the selected
/// slot's archive size as text.
pub fn worlds_lines(worlds: &WorldsState, archive: &str) -> (res: Vec<String>)
    ensures
        texts(res@) == worlds_screen(*worlds, archive@),
{
    let mut lines: Vec<String> = Vec::new();
    if let Some(e) = &worlds.error {
        lines.push(concat_str(concat_str(String::new(), "World slots unavailable: "), e.as_str()));
        assert(texts(lines@) =~= seq!["World slots unavailable: "@ + e@]);
    } else if !worlds.loaded {
        lines.push(concat_str(String::new(), "Loading world slots from the selected server…"));
        assert(texts(lines@) =~= seq!["Loading world slots from the selected server…"@]);
    } else if worlds.detail_open {
        match worlds.selected_slot() {
            Some(slot) => {
                let detail = slot_detail_exec(worlds, slot, archive);
                append_lines(&mut lines, detail);
                assert(texts(lines@) =~= slot_detail(*worlds, *slot, archive@));
            },
            None => {
                lines.push(concat_str(String::new(), "No world slot is selected."));
                assert(texts(lines@) =~= seq!["No world slot is selected."@]);
                return lines;
            },
        }
    } else {
        let list = slot_list_exec(worlds);
        append_lines(&mut lines, list);
        assert(texts(lines@) =~= slot_list(*worlds));
    }
    let prompt = match &worlds.input {
        Some((kind, value)) => Some(
            concat_str(concat_str(concat_str(concat_str(String::new(), kind.prompt()), ": "), value.as_str()), "_"),
        ),
        None => None,
    };
    push_optional(&mut lines, prompt);
    let status = match &worlds.status {
        Some(s) => Some(concat_str(concat_str(String::new(), "Status: "), s.as_str())),
        None => None,
    };
    push_optional(&mut lines, status);
    lines
}

// ---------------------------------------------------------------------------
// Manage Servers
// ---------------------------------------------------------------------------

/// The page of the Manage Servers box.
#[derive(Debug, Clone, Copy, PartialEq, Eq)]
pub enum ManageSurface {
    List,
    Detail,
    Create,
    Import,
}

/// The choices staged for a new server.
#[derive(Debug, Clone, PartialEq, Eq)]
pub struct CreateDraft {
    pub name: String,
    pub server_type: Option<String>,
    pub java_flavor: Option<String>,
    pub port: Option<u16>,
    pub world_name: Option<String>,
    pub accept_eula: bool,
}

/// The choices staged for importing an existing server folder.
#[derive(Debug, Clone, PartialEq, Eq)]
pub struct ImportDraft {
    pub source_path: String,
    pub server_type: Option<String>,
    pub display_name: Option<String>,
    pub active_world_name: Option<String>,
    pub accept_eula: bool,
}

/// What the Manage Servers box shows: the registered servers, the staged
/// choices of a create or import, the open prompt (its label and what was
/// typed) and the last status.
#[derive(Debug, Clone)]
pub struct ManageServersView {
    pub surface: Option<ManageSurface>,
    pub servers: Vec<ServerSummary>,
    pub selected: usize,
    pub create_draft: CreateDraft,
    /// The create flow reached its review step.
    pub create_review: bool,
    pub import_draft: ImportDraft,
    /// The import flow reached its review step.
    pub import_review: bool,
    pub input: Option<(String, String)>,
    pub status: Option<String>,
}

/// `ON`, `OFF` or `unknown`.
pub open spec fn on_off_text(value: Option<bool>) -> Seq<char> {
    match value {
        Some(true) => "ON"@,
        Some(false) => "OFF"@,
        None => "unknown"@,
    }
}

/// A value, or `(not set)` where it is empty.
pub open spec fn or_not_set(value: Seq<char>) -> Seq<char> {
    if value.len() == 0 {
        "(not set)"@
    } else {
        value
    }
}

/// `yes` or `no`.
pub open spec fn yes_no(value: bool) -> Seq<char> {
    if value {
        "yes"@
    } else {
        "no"@
    }
}

/// Whether `server` is the active one.
pub open spec fn is_active_server(server: ServerSummary, active_id: Option<Seq<char>>) -> bool {
    active_id == Some(server.id@)
}

/// One registered server of the list.
pub open spec fn server_row(server: ServerSummary, selected: bool, active: bool) -> Seq<char> {
    marker(selected) + " "@ + if active {
        "ACTIVE"@
    } else {
        "      "@
    } + "  "@ + server.name@ + "  "@ + server.server_type@ + "  "@ + server.directory@
}

/// The registered servers, the selected one marked.
pub open spec fn server_rows(servers: Seq<ServerSummary>, selected: int, active_id: Option<Seq<char>>) -> Seq<
    Seq<char>,
> {
    Seq::new(servers.len(), |i: int| server_row(servers[i], i == selected, is_active_server(servers[i], active_id)))
}

/// The detail of one registered server.
pub open spec fn server_detail(server: ServerSummary, active: bool) -> Seq<Seq<char>> {
    seq![
        server.name@ + "  ·  "@ + server.server_type@ + "  ·  "@ + slot_state(active),
        "Server ID: "@ + server.id@,
        "Host path: "@ + server.directory@,
        "Ports: game "@ + port_text(server.game_port) + " · bedrock "@ + port_text(server.bedrock_port),
        "Services: Playit "@ + on_off_text(server.playit_enabled) + " · Xbox Broadcast "@ + on_off_text(
            server.xbox_broadcast_enabled,
        ),
        "EULA: accept through the agent · Delete: removes managed server data"@,
        Seq::<char>::empty(),
        "[e] editor  [a] set active  [n] rename  [u] accept EULA  [d] delete  [esc] list"@,
    ]
}

/// The staged choices of a new server.
pub open spec fn create_line(d: CreateDraft) -> Seq<char> {
    "Name: "@ + or_not_set(d.name@) + "  Type: "@ + or_default(d.server_type, "java"@) + "  Flavor: "@
        + or_default(d.java_flavor, "default"@) + "  Port: "@ + match d.port {
        Some(p) => decimal(p as nat),
        None => "default"@,
    } + "  World: "@ + or_default(d.world_name, "default"@) + "  EULA: "@ + yes_no(d.accept_eula)
}

/// The staged choices of an import.
pub open spec fn import_line(d: ImportDraft) -> Seq<char> {
    "Source: "@ + or_not_set(d.source_path@) + "  Type: "@ + or_default(d.server_type, "java"@) + "  Name: "@
        + or_default(d.display_name, "detected"@) + "  World: "@ + or_default(
        d.active_world_name,
        "detected"@,
    ) + "  EULA: "@ + yes_no(d.accept_eula)
}

/// The lines of the current page.
pub open spec fn manage_page(m: ManageServersView, active_id: Option<Seq<char>>) -> Seq<Seq<char>> {
    match m.surface {
        Some(ManageSurface::List) => seq![
            "REGISTERED SERVERS"@,
            "The agent owns these registrations and lifecycle states."@,
            Seq::<char>::empty(),
        ] + if m.servers@.len() == 0 {
            seq!["No registered servers."@]
        } else {
            server_rows(m.servers@, m.selected as int, active_id)
        } + seq![
            Seq::<char>::empty(),
            "[j/k] choose  [enter] detail  [c] create  [i] import  [r] reload  [esc] close"@,
        ],
        Some(ManageSurface::Detail) => if m.selected < m.servers@.len() {
            let s = m.servers@[m.selected as int];
            server_detail(s, is_active_server(s, active_id))
        } else {
            Seq::empty()
        },
        Some(ManageSurface::Create) => seq![
            "CREATE SERVER · STAGED CHOICES"@,
            create_line(m.create_draft),
            "Choices are reviewed before the create request is sent."@,
        ] + if m.create_review {
            seq!["[enter] create server  [esc] cancel"@]
        } else {
            Seq::empty()
        },
        Some(ManageSurface::Import) => seq![
            "IMPORT SERVER · STAGED CHOICES"@,
            import_line(m.import_draft),
            "The source path is interpreted by the agent host."@,
        ] + if m.import_review {
            seq!["[enter] import server  [esc] cancel"@]
        } else {
            Seq::empty()
        },
        None => Seq::empty(),
    }
}

/// The Manage Servers box's lines: the current page, then the open prompt
/// and the last status. `active_id` is the id of the active server.
pub open spec fn manage_screen(m: ManageServersView, active_id: Option<Seq<char>>) -> Seq<Seq<char>> {
    manage_page(m, active_id) + optional_line(
        match m.input {
            Some((label, value)) => Some(label@ + ": "@ + value@ + "_"@),
            None => None,
        },
    ) + optional_line(
        match m.status {
            Some(s) => Some("Status: "@ + s@),
            None => None,
        },
    )
}

fn is_active_exec(server: &ServerSummary, active_id: Option<&str>) -> (res: bool)
    ensures
        res == is_active_server(
            *server,
            match active_id {
                Some(a) => Some(a@),
                None => None,
            },
        ),
{
    match active_id {
        Some(a) => crate::text::chars_eq(
            crate::text::chars_of(a).as_slice(),
            crate::text::chars_of(server.id.as_str()).as_slice(),
        ),
        None => false,
    }
}

fn server_detail_exec(server: &ServerSummary, active: bool) -> (res: Vec<String>)
    ensures
        texts(res@) == server_detail(*server, active),
{
    let mut lines: Vec<String> = Vec::new();
    let t = concat_str(concat_str(String::new(), server.name.as_str()), "  ·  ");
    let t = concat_str(concat_str(t, server.server_type.as_str()), "  ·  ");
    lines.push(concat_str(t, if active { "ACTIVE" } else { "SAVED" }));
    lines.push(concat_str(concat_str(String::new(), "Server ID: "), server.id.as_str()));
    lines.push(concat_str(concat_str(String::new(), "Host path: "), server.directory.as_str()));
    let t = concat_str(concat_str(String::new(), "Ports: game "), port_text_exec(server.game_port).as_str());
    lines.push(concat_str(concat_str(t, " · bedrock "), port_text_exec(server.bedrock_port).as_str()));
    let t = concat_str(
        concat_str(String::new(), "Services: Playit "),
        crate::display::on_off(server.playit_enabled),
    );
    lines.push(
        concat_str(concat_str(t, " · Xbox Broadcast "), crate::display::on_off(server.xbox_broadcast_enabled)),
    );
    lines.push(concat_str(String::new(), "EULA: accept through the agent · Delete: removes managed server data"));
    lines.push(String::new());
    lines.push(
        concat_str(String::new(), "[e] editor  [a] set active  [n] rename  [u] accept EULA  [d] delete  [esc] list"),
    );
    assert(texts(lines@) =~= server_detail(*server, active));
    lines
}

fn create_line_exec(d: &CreateDraft) -> (res: String)
    ensures
        res@ == create_line(*d),
{
    let t = concat_str(concat_str(String::new(), "Name: "), crate::display::empty_as_default(d.name.as_str()));
    let t = concat_str(concat_str(t, "  Type: "), or_default_exec(&d.server_type, "java").as_str());
    let t = concat_str(concat_str(t, "  Flavor: "), or_default_exec(&d.java_flavor, "default").as_str());
    let port = match d.port {
        Some(p) => number_text(p as u64),
        None => concat_str(String::new(), "default"),
    };
    let t = concat_str(concat_str(t, "  Port: "), port.as_str());
    let t = concat_str(concat_str(t, "  World: "), or_default_exec(&d.world_name, "default").as_str());
    concat_str(concat_str(t, "  EULA: "), if d.accept_eula { "yes" } else { "no" })
}

fn import_line_exec(d: &ImportDraft) -> (res: String)
    ensures
        res@ == import_line(*d),
{
    let t = concat_str(
        concat_str(String::new(), "Source: "),
        crate::display::empty_as_default(d.source_path.as_str()),
    );
    let t = concat_str(concat_str(t, "  Type: "), or_default_exec(&d.server_type, "java").as_str());
    let t = concat_str(concat_str(t, "  Name: "), or_default_exec(&d.display_name, "detected").as_str());
    let t = concat_str(concat_str(t, "  World: "), or_default_exec(&d.active_world_name, "detected").as_str());
    concat_str(concat_str(t, "  EULA: "), if d.accept_eula { "yes" } else { "no" })
}

fn server_list_exec(m: &ManageServersView, active_id: Option<&str>) -> (res: Vec<String>)
    ensures
        texts(res@) == manage_page(
            ManageServersView { surface: Some(ManageSurface::List), ..*m },
            match active_id {
                Some(a) => Some(a@),
                None => None,
            },
        ),
{
    let ghost active = match active_id {
        Some(a) => Some(a@),
        None => None,
    };
    let mut lines: Vec<String> = Vec::new();
    lines.push(concat_str(String::new(), "REGISTERED SERVERS"));
    lines.push(concat_str(String::new(), "The agent owns these registrations and lifecycle states."));
    lines.push(String::new());
    let ghost head = texts(lines@);
    if m.servers.len() == 0 {
        lines.push(concat_str(String::new(), "No registered servers."));
        assert(texts(lines@) =~= head + seq!["No registered servers."@]);
    } else {
        let mut i: usize = 0;
        while i < m.servers.len()
            invariant
                i <= m.servers.len(),
                active == match active_id {
                    Some(a) => Some(a@),
                    None => None::<Seq<char>>,
                },
                texts(lines@) == head + server_rows(m.servers@, m.selected as int, active).take(i as int),
            decreases m.servers.len() - i,
        {
            let s = &m.servers[i];
            let is_active = is_active_exec(s, active_id);
            let t = concat_str(concat_str(String::new(), marker_exec(i == m.selected)), " ");
            let t = concat_str(concat_str(t, if is_active { "ACTIVE" } else { "      " }), "  ");
            let t = concat_str(concat_str(t, s.name.as_str()), "  ");
            let t = concat_str(concat_str(t, s.server_type.as_str()), "  ");
            let line = concat_str(t, s.directory.as_str());
            let ghost before = lines@;
            lines.push(line);
            assert(texts(lines@) =~= texts(before).push(line@));
            assert(server_rows(m.servers@, m.selected as int, active).take(i + 1) =~= server_rows(
                m.servers@,
                m.selected as int,
                active,
            ).take(i as int).push(line@));
            i += 1;
        }
        assert(server_rows(m.servers@, m.selected as int, active).take(i as int) =~= server_rows(
            m.servers@,
            m.selected as int,
            active,
        ));
    }
    let ghost mid = texts(lines@);
    lines.push(String::new());
    lines.push(
        concat_str(String::new(), "[j/k] choose  [enter] detail  [c] create  [i] import  [r] reload  [esc] close"),
    );
    assert(texts(lines@) =~= mid + seq![
        Seq::<char>::empty(),
        "[j/k] choose  [enter] detail  [c] create  [i] import  [r] reload  [esc] close"@,
    ]);
    lines
}

/// The Manage Servers box's lines (see `manage_screen`).
pub fn manage_servers_lines(manage: &ManageServersView, active_id: Option<&str>) -> (res: Vec<String>)
    ensures
        texts(res@) == manage_screen(
            *manage,
            match active_id {
                Some(a) => Some(a@),
                None => None,
            },
        ),
{
    let ghost active = match active_id {
        Some(a) => Some(a@),
        None => None,
    };
    let mut lines: Vec<String> = Vec::new();
    match manage.surface {
        Some(ManageSurface::List) => {
            let page = server_list_exec(manage, active_id);
            append_lines(&mut lines, page);
            assert(ManageServersView { surface: Some(ManageSurface::List), ..*manage } == *manage);
        },
        Some(ManageSurface::Detail) => {
            if manage.selected < manage.servers.len() {
                let s = &manage.servers[manage.selected];
                let page = server_detail_exec(s, is_active_exec(s, active_id));
                append_lines(&mut lines, page);
            }
            assert(texts(lines@) =~= manage_page(*manage, active));
        },
        Some(ManageSurface::Create) => {
            lines.push(concat_str(String::new(), "CREATE SERVER · STAGED CHOICES"));
            lines.push(create_line_exec(&manage.create_draft));
            lines.push(concat_str(String::new(), "Choices are reviewed before the create request is sent."));
            if manage.create_review {
                lines.push(concat_str(String::new(), "[enter] create server  [esc] cancel"));
            }
            assert(texts(lines@) =~= manage_page(*manage, active));
        },
        Some(ManageSurface::Import) => {
            lines.push(concat_str(String::new(), "IMPORT SERVER · STAGED CHOICES"));
            lines.push(import_line_exec(&manage.import_draft));
            lines.push(concat_str(String::new(), "The source path is interpreted by the agent host."));
            if manage.import_review {
                lines.push(concat_str(String::new(), "[enter] import server  [esc] cancel"));
            }
            assert(texts(lines@) =~= manage_page(*manage, active));
        },
        None => {
            assert(texts(lines@) =~= manage_page(*manage, active));
        },
    }
    let prompt = match &manage.input {
        Some((label, value)) => Some(
            concat_str(concat_str(concat_str(concat_str(String::new(), label.as_str()), ": "), value.as_str()), "_"),
        ),
        None => None,
    };
    push_optional(&mut lines, prompt);
    let status = match &manage.status {
        Some(s) => Some(concat_str(concat_str(String::new(), "Status: "), s.as_str())),
        None => None,
    };
    push_optional(&mut lines, status);
    lines
}

// ---------------------------------------------------------------------------
// Files
// ---------------------------------------------------------------------------

/// A file preview that the agent returned.
#[derive(Debug, Clone, PartialEq, Eq)]
pub struct FilePreview {
    pub name: Option<String>,
    pub path: Option<String>,
    pub size_bytes: Option<u64>,
    pub encoding: Option<String>,
    pub truncated: Option<bool>,
    pub content: Option<String>,
}

/// What the read-only file browser shows.
#[derive(Debug, Clone)]
pub struct FilesView {
    pub error: Option<String>,
    pub loaded: bool,
    pub detail_open: bool,
    pub preview: Option<FilePreview>,
    pub response: Option<ServerFilesResponse>,
    pub selected: usize,
    pub status: Option<String>,
}

/// A path below the server root as the browser titles it.
pub open spec fn display_path(path: Seq<char>) -> Seq<char> {
    if path.len() == 0 {
        "Server Root"@
    } else {
        "Server Root / "@ + path
    }
}

/// The lines of a string (`str::lines`), as strings.
fn text_lines(text: &str) -> (res: Vec<String>)
    ensures
        texts(res@) == lines(text@),
{
    let ls = lines_exec(chars_of(text).as_slice());
    let mut out: Vec<String> = Vec::new();
    let mut i: usize = 0;
    while i < ls.len()
        invariant
            i <= ls.len(),
            ls.deep_view() == lines(text@),
            texts(out@) == ls.deep_view().take(i as int),
        decreases ls.len() - i,
    {
        let line = string_of(ls[i].as_slice());
        let ghost before = out@;
        out.push(line);
        assert(ls.deep_view()[i as int] == ls@[i as int]@);
        assert(texts(out@) =~= texts(before).push(line@));
        assert(ls.deep_view().take(i + 1) =~= ls.deep_view().take(i as int).push(ls@[i as int]@));
        i += 1;
    }
    assert(ls.deep_view().take(i as int) =~= ls.deep_view());
    out
}

/// The preview of one file: its name, path, size (`size` is its size as
/// text, shown where the agent gave one), encoding, and its content line by
/// line.
pub open spec fn preview_lines(p: FilePreview, size: Seq<char>) -> Seq<Seq<char>> {
    seq![
        "Server: "@ + or_default(p.name, "Selected file"@),
        "Path: "@ + match p.path {
            Some(x) => display_path(x@),
            None => "Server Root"@,
        },
        "Size: "@ + match p.size_bytes {
            Some(_) => size,
            None => "unknown"@,
        } + " · Encoding: "@ + or_default(p.encoding, "unknown"@) + if p.truncated == Some(true) {
            " · preview truncated at the agent limit"@
        } else {
            ""@
        },
        Seq::<char>::empty(),
    ] + lines(or_default(p.content, "The agent returned no preview content."@)) + seq![
        Seq::<char>::empty(),
        "[esc/b] file list  [y] report path"@,
    ]
}

/// The index of the first entry with this id, 0 where there is none.
pub open spec fn id_position(items: Seq<FileItem>, id: Seq<char>, from: int) -> int
    decreases items.len() - from,
{
    if from < 0 || from >= items.len() {
        0
    } else if items[from].id@ == id {
        from
    } else {
        id_position(items, id, from + 1)
    }
}

/// How an entry is typed, padded to one width.
pub open spec fn kind_label(item: FileItem) -> Seq<char> {
    if item.is_directory {
        "DIR    "@
    } else if item.is_previewable {
        "PREVIEW"@
    } else {
        "FILE   "@
    }
}

/// One entry: marked where the selection is at the first entry with its
/// id; a file shows its size (`size` as text) where the agent gave one.
pub open spec fn entry_line(items: Seq<FileItem>, i: int, selected: int, size: Seq<char>) -> Seq<char> {
    let item = items[i];
    marker(id_position(items, item.id@, 0) == selected) + " "@ + kind_label(item) + " "@ + item.name@
        + if item.is_directory {
        ""@
    } else {
        " · "@ + match item.size_bytes {
            Some(_) => size,
            None => "size unknown"@,
        }
    }
}

/// The entries among the first `n` that are folders (`dirs`) or files.
pub open spec fn group_lines(items: Seq<FileItem>, dirs: bool, selected: int, sizes: Seq<Seq<char>>, n: int) -> Seq<
    Seq<char>,
>
    decreases n,
{
    if n <= 0 {
        Seq::empty()
    } else {
        group_lines(items, dirs, selected, sizes, n - 1) + if items[n - 1].is_directory == dirs {
            seq![entry_line(items, n - 1, selected, sizes[n - 1])]
        } else {
            Seq::empty()
        }
    }
}

/// A group under its label, followed by a blank line; nothing where the
/// group is empty.
pub open spec fn group_block(label: Seq<char>, items: Seq<FileItem>, dirs: bool, selected: int, sizes: Seq<Seq<char>>) -> Seq<
    Seq<char>,
> {
    let g = group_lines(items, dirs, selected, sizes, items.len() as int);
    if g.len() == 0 {
        Seq::empty()
    } else {
        seq![label] + g + seq![Seq::<char>::empty()]
    }
}

/// A listing: the server, the path and its parent, the agent's note, the
/// folders, then the files, or that the folder is empty.
pub open spec fn listing_lines(r: ServerFilesResponse, server_name: Seq<char>, selected: int, sizes: Seq<Seq<char>>) -> Seq<
    Seq<char>,
> {
    let folders = group_block("Folders"@, r.items@, true, selected, sizes);
    let files = group_block("Files"@, r.items@, false, selected, sizes);
    seq![
        "Server: "@ + match r.server_name {
            Some(n) => n@,
            None => server_name,
        },
        "Path: "@ + display_path(r.path@) + match r.parent_path {
            Some(p) => " · parent "@ + display_path(p@),
            None => ""@,
        },
    ] + optional_line(
        match r.note {
            Some(n) => Some("Agent note: "@ + n@),
            None => None,
        },
    ) + seq![Seq::<char>::empty()] + folders + files + if folders.len() + files.len() == 0 {
        seq!["This folder is empty."@, Seq::<char>::empty()]
    } else {
        Seq::empty()
    } + seq!["[j/k] choose  [enter] open/preview  [b/esc] parent  [y] report path  [r] reload"@]
}

/// The file browser's lines: the error, the loading note, the open
/// preview or the listing; then the last status. `server_name` names the
/// selected server where the listing names none; `preview_size` and
/// `sizes` (one per entry) are sizes as text.
pub open spec fn files_screen(f: FilesView, server_name: Seq<char>, preview_size: Seq<char>, sizes: Seq<Seq<char>>) -> Seq<
    Seq<char>,
> {
    (match f.error {
        Some(e) => seq!["Files unavailable: "@ + e@],
        None => if !f.loaded {
            seq!["Loading the selected server's files…"@]
        } else if f.detail_open {
            match f.preview {
                Some(p) => preview_lines(p, preview_size),
                None => seq!["No file preview is selected."@],
            }
        } else {
            match f.response {
                Some(r) => listing_lines(r, server_name, f.selected as int, sizes),
                None => Seq::empty(),
            }
        },
    }) + optional_line(
        match f.status {
            Some(s) => Some("Status: "@ + s@),
            None => None,
        },
    )
}

fn display_path_exec(path: &str) -> (res: String)
    ensures
        res@ == display_path(path@),
{
    crate::display::display_file_path(path)
}

fn preview_lines_exec(p: &FilePreview, size: &str) -> (res: Vec<String>)
    ensures
        texts(res@) == preview_lines(*p, size@),
{
    let mut out: Vec<String> = Vec::new();
    out.push(concat_str(concat_str(String::new(), "Server: "), or_default_exec(&p.name, "Selected file").as_str()));
    let path = match &p.path {
        Some(x) => display_path_exec(x.as_str()),
        None => concat_str(String::new(), "Server Root"),
    };
    out.push(concat_str(concat_str(String::new(), "Path: "), path.as_str()));
    let t = concat_str(
        String::new(),
        match p.size_bytes {
            Some(_) => size,
            None => "unknown",
        },
    );
    let t = concat_str(concat_str(concat_str(concat_str(String::new(), "Size: "), t.as_str()), " · Encoding: "), or_default_exec(&p.encoding, "unknown").as_str());
    let truncated = match p.truncated {
        Some(true) => true,
        _ => false,
    };
    out.push(concat_str(t, if truncated { " · preview truncated at the agent limit" } else { "" }));
    out.push(String::new());
    let ghost head = texts(out@);
    let content = or_default_exec(&p.content, "The agent returned no preview content.");
    append_lines(&mut out, text_lines(content.as_str()));
    let ghost mid = texts(out@);
    out.push(String::new());
    out.push(concat_str(String::new(), "[esc/b] file list  [y] report path"));
    assert(texts(out@) =~= mid + seq![Seq::<char>::empty(), "[esc/b] file list  [y] report path"@]);
    assert(texts(out@) =~= preview_lines(*p, size@));
    out
}

fn id_position_exec(items: &Vec<FileItem>, id: &str) -> (res: usize)
    ensures
        res as int == id_position(items@, id@, 0),
{
    let target = chars_of(id);
    let mut i: usize = 0;
    while i < items.len()
        invariant
            i <= items.len(),
            target@ == id@,
            id_position(items@, id@, 0) == id_position(items@, id@, i as int),
        decreases items.len() - i,
    {
        if crate::text::chars_eq(chars_of(items[i].id.as_str()).as_slice(), target.as_slice()) {
            return i;
        }
        i += 1;
    }
    0
}

fn group_exec(r: &ServerFilesResponse, dirs: bool, selected: usize, sizes: &Vec<String>) -> (res: Vec<String>)
    requires
        sizes@.len() == r.items@.len(),
    ensures
        texts(res@) == group_lines(r.items@, dirs, selected as int, texts(sizes@), r.items@.len() as int),
{
    let mut out: Vec<String> = Vec::new();
    let mut i: usize = 0;
    while i < r.items.len()
        invariant
            i <= r.items.len(),
            sizes@.len() == r.items@.len(),
            texts(out@) == group_lines(r.items@, dirs, selected as int, texts(sizes@), i as int),
        decreases r.items.len() - i,
    {
        let item = &r.items[i];
        if item.is_directory == dirs {
            let pos = id_position_exec(&r.items, item.id.as_str());
            let t = concat_str(concat_str(String::new(), marker_exec(pos == selected)), " ");
            let kind = if item.is_directory {
                "DIR    "
            } else if item.is_previewable {
                "PREVIEW"
            } else {
                "FILE   "
            };
            let t = concat_str(concat_str(concat_str(t, kind), " "), item.name.as_str());
            let line = if item.is_directory {
                concat_str(t, "")
            } else {
                concat_str(
                    concat_str(t, " · "),
                    match item.size_bytes {
                        Some(_) => sizes[i].as_str(),
                        None => "size unknown",
                    },
                )
            };
            assert(texts(sizes@)[i as int] == sizes@[i as int]@);
            assert(r.items@[i as int] == *item);
            assert(line@ == entry_line(r.items@, i as int, selected as int, texts(sizes@)[i as int]));
            let ghost before = out@;
            out.push(line);
            assert(texts(out@) =~= texts(before) + seq![
                entry_line(r.items@, i as int, selected as int, texts(sizes@)[i as int]),
            ]);
        } else {
            assert(texts(out@) =~= texts(out@) + Seq::<Seq<char>>::empty());
        }
        i += 1;
    }
    out
}

fn listing_exec(r: &ServerFilesResponse, server_name: &str, selected: usize, sizes: &Vec<String>) -> (res: Vec<String>)
    requires
        sizes@.len() == r.items@.len(),
    ensures
        texts(res@) == listing_lines(*r, server_name@, selected as int, texts(sizes@)),
{
    let mut out: Vec<String> = Vec::new();
    let name = match &r.server_name {
        Some(n) => n.as_str(),
        None => server_name,
    };
    let first = concat_str(concat_str(String::new(), "Server: "), name);
    assert(first@ == "Server: "@ + match r.server_name {
        Some(n) => n@,
        None => server_name@,
    });
    out.push(first);
    let t = concat_str(concat_str(String::new(), "Path: "), display_path_exec(r.path.as_str()).as_str());
    let t = match &r.parent_path {
        Some(p) => concat_str(concat_str(t, " · parent "), display_path_exec(p.as_str()).as_str()),
        None => concat_str(t, ""),
    };
    assert(t@ == "Path: "@ + display_path(r.path@) + match r.parent_path {
        Some(p) => " · parent "@ + display_path(p@),
        None => ""@,
    });
    out.push(t);
    let ghost top = texts(out@);
    assert(top =~= seq![
        "Server: "@ + match r.server_name {
            Some(n) => n@,
            None => server_name@,
        },
        "Path: "@ + display_path(r.path@) + match r.parent_path {
            Some(p) => " · parent "@ + display_path(p@),
            None => ""@,
        },
    ]);
    let note = match &r.note {
        Some(n) => Some(concat_str(concat_str(String::new(), "Agent note: "), n.as_str())),
        None => None,
    };
    push_optional(&mut out, note);
    let ghost noted = out@;
    out.push(String::new());
    let ghost head = texts(out@);
    assert(head =~= texts(noted) + seq![Seq::<char>::empty()]);
    let folders = group_exec(r, true, selected, sizes);
    let nf = folders.len();
    if nf > 0 {
        let ghost g = texts(folders@);
        out.push(concat_str(String::new(), "Folders"));
        assert(texts(out@) =~= head + seq!["Folders"@]);
        append_lines(&mut out, folders);
        let ghost with_group = out@;
        out.push(String::new());
        assert(texts(out@) =~= texts(with_group) + seq![Seq::<char>::empty()]);
        assert(texts(out@) =~= head + (seq!["Folders"@] + g + seq![Seq::<char>::empty()]));
    }
    let ghost mid = texts(out@);
    assert(mid == head + group_block("Folders"@, r.items@, true, selected as int, texts(sizes@)));
    let files = group_exec(r, false, selected, sizes);
    let nfi = files.len();
    if nfi > 0 {
        let ghost g = texts(files@);
        out.push(concat_str(String::new(), "Files"));
        assert(texts(out@) =~= mid + seq!["Files"@]);
        append_lines(&mut out, files);
        let ghost with_group = out@;
        out.push(String::new());
        assert(texts(out@) =~= texts(with_group) + seq![Seq::<char>::empty()]);
        assert(texts(out@) =~= mid + (seq!["Files"@] + g + seq![Seq::<char>::empty()]));
    }
    let ghost mid2 = texts(out@);
    assert(mid2 == mid + group_block("Files"@, r.items@, false, selected as int, texts(sizes@)));
    assert(group_block("Folders"@, r.items@, true, selected as int, texts(sizes@)).len() == 0 <==> nf == 0);
    assert(group_block("Files"@, r.items@, false, selected as int, texts(sizes@)).len() == 0 <==> nfi == 0);
    if nf == 0 && nfi == 0 {
        out.push(concat_str(String::new(), "This folder is empty."));
        out.push(String::new());
        assert(texts(out@) =~= mid2 + seq!["This folder is empty."@, Seq::<char>::empty()]);
    } else {
        assert(texts(out@) =~= mid2 + Seq::<Seq<char>>::empty());
    }
    let ghost mid3 = texts(out@);
    out.push(
        concat_str(String::new(), "[j/k] choose  [enter] open/preview  [b/esc] parent  [y] report path  [r] reload"),
    );
    assert(texts(out@) =~= mid3 + seq![
        "[j/k] choose  [enter] open/preview  [b/esc] parent  [y] report path  [r] reload"@,
    ]);
    assert(texts(out@) =~= listing_lines(*r, server_name@, selected as int, texts(sizes@)));
    out
}

/// The file browser's lines (see `files_screen`). `sizes` holds one size
/// text per listed entry.
pub fn files_lines(files: &FilesView, server_name: &str, preview_size: &str, sizes: &Vec<String>) -> (res: Vec<
    String,
>)
    requires
        files.response matches Some(r) ==> sizes@.len() == r.items@.len(),
    ensures
        texts(res@) == files_screen(*files, server_name@, preview_size@, texts(sizes@)),
{
    let mut out: Vec<String> = Vec::new();
    if let Some(e) = &files.error {
        out.push(concat_str(concat_str(String::new(), "Files unavailable: "), e.as_str()));
        assert(texts(out@) =~= seq!["Files unavailable: "@ + e@]);
    } else if !files.loaded {
        out.push(concat_str(String::new(), "Loading the selected server's files…"));
        assert(texts(out@) =~= seq!["Loading the selected server's files…"@]);
    } else if files.detail_open {
        match &files.preview {
            Some(p) => {
                append_lines(&mut out, preview_lines_exec(p, preview_size));
            },
            None => {
                out.push(concat_str(String::new(), "No file preview is selected."));
                assert(texts(out@) =~= seq!["No file preview is selected."@]);
            },
        }
    } else {
        match &files.response {
            Some(r) => {
                append_lines(&mut out, listing_exec(r, server_name, files.selected, sizes));
            },
            None => {
                assert(texts(out@) =~= Seq::<Seq<char>>::empty());
            },
        }
    }
    let status = match &files.status {
        Some(s) => Some(concat_str(concat_str(String::new(), "Status: "), s.as_str())),
        None => None,
    };
    push_optional(&mut out, status);
    out
}

// ---------------------------------------------------------------------------
// Connections
// ---------------------------------------------------------------------------

/// The page of the Connections view.
#[derive(Debug, Clone, Copy, PartialEq, Eq)]
pub enum ConnectionSurface {
    Connection,
    Services,
}

/// How players reach the server, as the agent diagnosed it.
#[derive(Debug, Clone, PartialEq, Eq)]
pub struct Connectivity {
    pub headline: String,
    pub server_type: String,
    pub severity: String,
    pub join_address: Option<String>,
    pub externally_reachable: Option<bool>,
    /// Where the join address came from.
    pub join_address_source: String,
    pub method: String,
    /// The outcome of probing the port locally.
    pub local_outcome: String,
    /// The outcome of probing the port from outside.
    pub public_outcome: String,
    pub detail: Option<String>,
    pub help_id: Option<String>,
}

/// An open prompt of the Connections view: its label, what was typed, and
/// whether the typed text is a secret to be masked.
#[derive(Debug, Clone, PartialEq, Eq)]
pub struct ConnectionPrompt {
    pub label: String,
    pub value: String,
    pub masked: bool,
}

/// What the Connections view shows. Each service state is `None` where the
/// agent did not report it.
#[derive(Debug, Clone)]
pub struct ConnectionsView {
    pub error: Option<String>,
    pub surface: ConnectionSurface,
    pub connectivity: Option<Connectivity>,
    /// The DuckDNS host name, where one is configured.
    pub duckdns_hostname: Option<String>,
    pub playit_running: Option<bool>,
    pub broadcast_running: Option<bool>,
    pub broadcast_autostart: Option<bool>,
    /// Whether a Broadcast password is stored.
    pub broadcast_has_password: Option<bool>,
    pub input: Option<ConnectionPrompt>,
    pub status: Option<String>,
}

/// Whether the join address is advertised, and if so whether it is public:
/// public where it is known to be reachable from outside or its source
/// says `public` in any case.
pub open spec fn visibility(c: Connectivity) -> Seq<char> {
    if c.join_address is None {
        "HIDDEN"@
    } else if c.externally_reachable == Some(true) || crate::text::find(
        crate::text::to_ascii_lowercase(c.join_address_source@),
        "public"@,
    ) is Some {
        "PUBLIC"@
    } else {
        "LOCAL"@
    }
}

/// The Connection page.
pub open spec fn connection_page(v: ConnectionsView) -> Seq<Seq<char>> {
    (match v.connectivity {
        Some(c) => seq![
            c.headline@ + " · "@ + c.server_type@ + " · "@ + c.severity@,
            "Visibility: "@ + visibility(c),
            "Join: "@ + or_default(c.join_address, "not advertised"@) + " · method: "@ + c.method@,
            "Local port: "@ + c.local_outcome@ + " · Public port: "@ + c.public_outcome@,
        ] + optional_line(
            match c.detail {
                Some(d) => Some("Detail: "@ + d@),
                None => None,
            },
        ) + optional_line(
            match c.help_id {
                Some(h) => Some("Help: "@ + h@),
                None => None,
            },
        ),
        None => seq!["Connectivity information unavailable."@],
    }) + seq![
        "DuckDNS: "@ + or_default(v.duckdns_hostname, "not configured"@) + "  [d] edit"@,
        "Java and Bedrock join addresses retain their agent labels."@,
    ]
}

/// A service state: `on` or `off`, or `missing` where it was not reported.
pub open spec fn reported(value: Option<bool>, on: Seq<char>, off: Seq<char>, missing: Seq<char>) -> Seq<char> {
    match value {
        Some(true) => on,
        Some(false) => off,
        None => missing,
    }
}

/// The Services page.
pub open spec fn services_lines(v: ConnectionsView) -> Seq<Seq<char>> {
    seq![
        "Playit: "@ + reported(v.playit_running, "RUNNING"@, "STOPPED"@, "unavailable"@) + "  [p] start/stop"@,
        "Xbox Broadcast: "@ + reported(v.broadcast_running, "RUNNING"@, "STOPPED"@, "unavailable"@)
            + "  [x] start/stop"@,
        "Broadcast autostart: "@ + reported(v.broadcast_autostart, "ON"@, "OFF"@, "unknown"@) + "  [a] toggle"@,
        "Broadcast credentials: "@ + reported(
            v.broadcast_has_password,
            "stored"@,
            "not stored"@,
            "unavailable"@,
        ) + "  [e] replace (write-only password)"@,
        "Management services are separate from literal Minecraft console commands."@,
    ]
}

/// The typed text as shown: a secret as one `•` per character.
pub open spec fn shown_value(p: ConnectionPrompt) -> Seq<char> {
    if p.masked {
        Seq::new(p.value@.len(), |i: int| '•')
    } else {
        p.value@
    }
}

/// The Connections view's lines: the header and, after an error, only the
/// error; else the current page, the open prompt (a secret masked) and the
/// last status.
pub open spec fn connections_screen(v: ConnectionsView) -> Seq<Seq<char>> {
    seq!["CONNECTIONS · DIAGNOSTICS AND SERVICES"@, "[1] connection  [2] services  [r] reload"@] + match v.error {
        Some(e) => seq!["Connections unavailable: "@ + e@],
        None => (match v.surface {
            ConnectionSurface::Connection => connection_page(v),
            ConnectionSurface::Services => services_lines(v),
        }) + optional_line(
            match v.input {
                Some(p) => Some(p.label@ + ": "@ + shown_value(p) + "_"@),
                None => None,
            },
        ) + optional_line(
            match v.status {
                Some(s) => Some("Status: "@ + s@),
                None => None,
            },
        ),
    }
}

/// A secret being typed is never shown: the prompt shows one `•` for each
/// typed character and nothing of the characters themselves.
pub proof fn law_typed_secret_is_masked(p: ConnectionPrompt)
    requires
        p.masked,
    ensures
        shown_value(p).len() == p.value@.len(),
        forall|i: int| 0 <= i < shown_value(p).len() ==> shown_value(p)[i] == '•',
{
}

fn reported_exec(value: Option<bool>, on: &str, off: &str, missing: &str) -> (res: String)
    ensures
        res@ == reported(value, on@, off@, missing@),
{
    concat_str(
        String::new(),
        match value {
            Some(true) => on,
            Some(false) => off,
            None => missing,
        },
    )
}

fn visibility_exec(c: &Connectivity) -> (res: &'static str)
    ensures
        res@ == visibility(*c),
{
    if c.join_address.is_none() {
        return "HIDDEN";
    }
    let source = crate::text::to_ascii_lowercase_exec(chars_of(c.join_address_source.as_str()).as_slice());
    let public = chars_of("public");
    if c.externally_reachable == Some(true) || crate::text::find_exec(source.as_slice(), public.as_slice()).is_some() {
        "PUBLIC"
    } else {
        "LOCAL"
    }
}

fn connection_page_exec(v: &ConnectionsView) -> (res: Vec<String>)
    ensures
        texts(res@) == connection_page(*v),
{
    let mut out: Vec<String> = Vec::new();
    match &v.connectivity {
        Some(c) => {
            let t = concat_str(concat_str(concat_str(String::new(), c.headline.as_str()), " · "), c.server_type.as_str());
            out.push(concat_str(concat_str(t, " · "), c.severity.as_str()));
            out.push(concat_str(concat_str(String::new(), "Visibility: "), visibility_exec(c)));
            let t = concat_str(
                concat_str(String::new(), "Join: "),
                or_default_exec(&c.join_address, "not advertised").as_str(),
            );
            out.push(concat_str(concat_str(t, " · method: "), c.method.as_str()));
            let t = concat_str(concat_str(String::new(), "Local port: "), c.local_outcome.as_str());
            out.push(concat_str(concat_str(t, " · Public port: "), c.public_outcome.as_str()));
            let ghost four = texts(out@);
            let detail = match &c.detail {
                Some(d) => Some(concat_str(concat_str(String::new(), "Detail: "), d.as_str())),
                None => None,
            };
            push_optional(&mut out, detail);
            let help = match &c.help_id {
                Some(h) => Some(concat_str(concat_str(String::new(), "Help: "), h.as_str())),
                None => None,
            };
            push_optional(&mut out, help);
        },
        None => {
            out.push(concat_str(String::new(), "Connectivity information unavailable."));
            assert(texts(out@) =~= seq!["Connectivity information unavailable."@]);
        },
    }
    let ghost mid = texts(out@);
    let t = concat_str(
        concat_str(String::new(), "DuckDNS: "),
        or_default_exec(&v.duckdns_hostname, "not configured").as_str(),
    );
    out.push(concat_str(t, "  [d] edit"));
    out.push(concat_str(String::new(), "Java and Bedrock join addresses retain their agent labels."));
    assert(texts(out@) =~= mid + seq![
        "DuckDNS: "@ + or_default(v.duckdns_hostname, "not configured"@) + "  [d] edit"@,
        "Java and Bedrock join addresses retain their agent labels."@,
    ]);
    out
}

fn services_lines_exec(v: &ConnectionsView) -> (res: Vec<String>)
    ensures
        texts(res@) == services_lines(*v),
{
    let mut out: Vec<String> = Vec::new();
    out.push(
        concat_str(
            concat_str(
                concat_str(String::new(), "Playit: "),
                reported_exec(v.playit_running, "RUNNING", "STOPPED", "unavailable").as_str(),
            ),
            "  [p] start/stop",
        ),
    );
    out.push(
        concat_str(
            concat_str(
                concat_str(String::new(), "Xbox Broadcast: "),
                reported_exec(v.broadcast_running, "RUNNING", "STOPPED", "unavailable").as_str(),
            ),
            "  [x] start/stop",
        ),
    );
    out.push(
        concat_str(
            concat_str(
                concat_str(String::new(), "Broadcast autostart: "),
                reported_exec(v.broadcast_autostart, "ON", "OFF", "unknown").as_str(),
            ),
            "  [a] toggle",
        ),
    );
    out.push(
        concat_str(
            concat_str(
                concat_str(String::new(), "Broadcast credentials: "),
                reported_exec(v.broadcast_has_password, "stored", "not stored", "unavailable").as_str(),
            ),
            "  [e] replace (write-only password)",
        ),
    );
    out.push(
        concat_str(String::new(), "Management services are separate from literal Minecraft console commands."),
    );
    assert(texts(out@) =~= services_lines(*v));
    out
}

fn shown_value_exec(p: &ConnectionPrompt) -> (res: String)
    ensures
        res@ == shown_value(*p),
{
    if !p.masked {
        return p.value.clone();
    }
    let n = chars_of(p.value.as_str()).len();
    let mut out = String::new();
    let mut i: usize = 0;
    while i < n
        invariant
            i <= n,
            n == p.value@.len(),
            out@ == Seq::new(i as nat, |k: int| '•'),
        decreases n - i,
    {
        crate::text::push_char(&mut out, '•');
        assert(out@ =~= Seq::new((i + 1) as nat, |k: int| '•'));
        i += 1;
    }
    out
}

/// The Connections view's lines (see `connections_screen`).
pub fn connections_lines(view: &ConnectionsView) -> (res: Vec<String>)
    ensures
        texts(res@) == connections_screen(*view),
{
    let mut out: Vec<String> = Vec::new();
    out.push(concat_str(String::new(), "CONNECTIONS · DIAGNOSTICS AND SERVICES"));
    out.push(concat_str(String::new(), "[1] connection  [2] services  [r] reload"));
    let ghost head = texts(out@);
    assert(head =~= seq!["CONNECTIONS · DIAGNOSTICS AND SERVICES"@, "[1] connection  [2] services  [r] reload"@]);
    if let Some(e) = &view.error {
        out.push(concat_str(concat_str(String::new(), "Connections unavailable: "), e.as_str()));
        assert(texts(out@) =~= head + seq!["Connections unavailable: "@ + e@]);
        return out;
    }
    let page = match view.surface {
        ConnectionSurface::Connection => connection_page_exec(view),
        ConnectionSurface::Services => services_lines_exec(view),
    };
    append_lines(&mut out, page);
    let prompt = match &view.input {
        Some(p) => Some(
            concat_str(
                concat_str(concat_str(concat_str(String::new(), p.label.as_str()), ": "), shown_value_exec(p).as_str()),
                "_",
            ),
        ),
        None => None,
    };
    push_optional(&mut out, prompt);
    let status = match &view.status {
        Some(s) => Some(concat_str(concat_str(String::new(), "Status: "), s.as_str())),
        None => None,
    };
    push_optional(&mut out, status);
    out
}

// ---------------------------------------------------------------------------
// Health
// ---------------------------------------------------------------------------

/// A problem that the last startup recorded, as the health view reads it.
#[derive(Debug, Clone, PartialEq, Eq)]
pub struct ProblemSummary {
    pub kind_title: String,
    pub offender_name: String,
    pub raw_excerpt: String,
    pub available_actions: Vec<String>,
}

/// The startup problems of the active server.
#[derive(Debug, Clone, PartialEq, Eq)]
pub struct ProblemsView {
    pub problems: Vec<ProblemSummary>,
    pub note: Option<String>,
}

/// What the health view shows.
#[derive(Debug, Clone)]
pub struct HealthView {
    pub error: Option<String>,
    pub health: Option<HealthResponse>,
    pub problems: Option<ProblemsView>,
    pub detail_open: bool,
    pub selected_problem: usize,
}

/// One card: its title and severity, then its detail and help topic where
/// it has them.
pub open spec fn card_block(card: HealthCard) -> Seq<Seq<char>> {
    seq![card.title@ + ": "@ + card.severity@] + optional_line(
        match card.detail {
            Some(d) => Some("  "@ + d@),
            None => None,
        },
    ) + optional_line(
        match card.help_id {
            Some(h) => Some("  Help: "@ + h@),
            None => None,
        },
    )
}

/// The blocks of the first `n` cards.
pub open spec fn card_lines(cards: Seq<HealthCard>, n: int) -> Seq<Seq<char>>
    decreases n,
{
    if n <= 0 {
        Seq::empty()
    } else {
        card_lines(cards, n - 1) + card_block(cards[n - 1])
    }
}

/// One problem of the list.
pub open spec fn problem_line(p: ProblemSummary, selected: bool) -> Seq<char> {
    marker(selected) + " "@ + p.kind_title@ + " · "@ + p.offender_name@
}

/// The problems, the selected one marked.
pub open spec fn problem_lines(ps: Seq<ProblemSummary>, selected: int) -> Seq<Seq<char>> {
    Seq::new(ps.len(), |i: int| problem_line(ps[i], i == selected))
}

/// The repairs offered for a problem, each with its key.
pub open spec fn action_lines(actions: Seq<String>) -> Seq<Seq<char>> {
    Seq::new(actions.len(), |i: int| "["@ + decimal((i + 1) as nat) + "] repair: "@ + actions[i]@)
}

/// The startup problems: how many; the note where there are none; the
/// selected problem with its repairs where the detail is open; else the
/// list.
pub open spec fn problems_block(h: HealthView, p: ProblemsView) -> Seq<Seq<char>> {
    seq![Seq::<char>::empty(), "Startup problems: "@ + decimal(p.problems@.len())] + if p.problems@.len() == 0 {
        seq![or_default(p.note, "No repair needed."@)]
    } else if h.detail_open {
        (if h.selected_problem < p.problems@.len() {
            let q = p.problems@[h.selected_problem as int];
            seq!["› "@ + q.kind_title@ + " · "@ + q.offender_name@, q.raw_excerpt@] + action_lines(
                q.available_actions@,
            )
        } else {
            Seq::empty()
        }) + seq!["[esc] back"@]
    } else {
        problem_lines(p.problems@, h.selected_problem as int) + seq![
            "[j/k] choose  [enter] details  [r] reload"@,
        ]
    }
}

/// The health view's lines: the overall state and every card (or why they
/// are unavailable), then the startup problems where they were loaded.
pub open spec fn health_screen(h: HealthView) -> Seq<Seq<char>> {
    seq!["HEALTH · DIAGNOSIS AND REPAIR"@] + (match h.error {
        Some(e) => seq!["Health unavailable: "@ + e@],
        None => match h.health {
            Some(r) => seq![
                "Overall: "@ + r.overall_severity@ + " · "@ + r.server_name@ + " · "@ + if r.server_running {
                    "running"@
                } else {
                    "stopped"@
                },
            ] + card_lines(r.cards@, r.cards@.len() as int),
            None => Seq::empty(),
        },
    }) + match h.problems {
        Some(p) => problems_block(h, p),
        None => Seq::empty(),
    }
}

fn card_block_exec(card: &HealthCard) -> (res: Vec<String>)
    ensures
        texts(res@) == card_block(*card),
{
    let mut out: Vec<String> = Vec::new();
    out.push(concat_str(concat_str(concat_str(String::new(), card.title.as_str()), ": "), card.severity.as_str()));
    let detail = match &card.detail {
        Some(d) => Some(concat_str(concat_str(String::new(), "  "), d.as_str())),
        None => None,
    };
    push_optional(&mut out, detail);
    let help = match &card.help_id {
        Some(h) => Some(concat_str(concat_str(String::new(), "  Help: "), h.as_str())),
        None => None,
    };
    push_optional(&mut out, help);
    out
}

fn problems_block_exec(h: &HealthView, p: &ProblemsView) -> (res: Vec<String>)
    ensures
        texts(res@) == problems_block(*h, *p),
{
    let mut out: Vec<String> = Vec::new();
    out.push(String::new());
    out.push(concat_str(concat_str(String::new(), "Startup problems: "), number_text(p.problems.len() as u64).as_str()));
    let ghost head = texts(out@);
    assert(head =~= seq![Seq::<char>::empty(), "Startup problems: "@ + decimal(p.problems@.len())]);
    if p.problems.len() == 0 {
        out.push(or_default_exec(&p.note, "No repair needed."));
        assert(texts(out@) =~= head + seq![or_default(p.note, "No repair needed."@)]);
    } else if h.detail_open {
        if h.selected_problem < p.problems.len() {
            let q = &p.problems[h.selected_problem];
            let t = concat_str(concat_str(String::new(), "› "), q.kind_title.as_str());
            out.push(concat_str(concat_str(t, " · "), q.offender_name.as_str()));
            out.push(q.raw_excerpt.clone());
            let ghost two = texts(out@);
            let mut i: usize = 0;
            while i < q.available_actions.len()
                invariant
                    i <= q.available_actions.len(),
                    texts(out@) == two + action_lines(q.available_actions@).take(i as int),
                decreases q.available_actions.len() - i,
            {
                let t = concat_str(concat_str(String::new(), "["), number_text(i as u64 + 1).as_str());
                let line = concat_str(concat_str(t, "] repair: "), q.available_actions[i].as_str());
                let ghost before = out@;
                out.push(line);
                assert(texts(out@) =~= texts(before).push(line@));
                assert(action_lines(q.available_actions@).take(i + 1) =~= action_lines(
                    q.available_actions@,
                ).take(i as int).push(line@));
                i += 1;
            }
            assert(action_lines(q.available_actions@).take(i as int) =~= action_lines(q.available_actions@));
            assert(texts(out@) =~= head + (seq![
                "› "@ + q.kind_title@ + " · "@ + q.offender_name@,
                q.raw_excerpt@,
            ] + action_lines(q.available_actions@)));
        } else {
            assert(texts(out@) =~= head + Seq::<Seq<char>>::empty());
        }
        let ghost mid = texts(out@);
        out.push(concat_str(String::new(), "[esc] back"));
        assert(texts(out@) =~= mid + seq!["[esc] back"@]);
    } else {
        let mut i: usize = 0;
        while i < p.problems.len()
            invariant
                i <= p.problems.len(),
                texts(out@) == head + problem_lines(p.problems@, h.selected_problem as int).take(i as int),
            decreases p.problems.len() - i,
        {
            let q = &p.problems[i];
            let t = concat_str(concat_str(String::new(), marker_exec(i == h.selected_problem)), " ");
            let line = concat_str(concat_str(concat_str(t, q.kind_title.as_str()), " · "), q.offender_name.as_str());
            let ghost before = out@;
            out.push(line);
            assert(texts(out@) =~= texts(before).push(line@));
            assert(problem_lines(p.problems@, h.selected_problem as int).take(i + 1) =~= problem_lines(
                p.problems@,
                h.selected_problem as int,
            ).take(i as int).push(line@));
            i += 1;
        }
        assert(problem_lines(p.problems@, h.selected_problem as int).take(i as int) =~= problem_lines(
            p.problems@,
            h.selected_problem as int,
        ));
        let ghost mid = texts(out@);
        out.push(concat_str(String::new(), "[j/k] choose  [enter] details  [r] reload"));
        assert(texts(out@) =~= mid + seq!["[j/k] choose  [enter] details  [r] reload"@]);
    }
    out
}

/// The health view's lines (see `health_screen`).
pub fn health_lines(view: &HealthView) -> (res: Vec<String>)
    ensures
        texts(res@) == health_screen(*view),
{
    let mut out: Vec<String> = Vec::new();
    out.push(concat_str(String::new(), "HEALTH · DIAGNOSIS AND REPAIR"));
    let ghost head = texts(out@);
    if let Some(e) = &view.error {
        out.push(concat_str(concat_str(String::new(), "Health unavailable: "), e.as_str()));
        assert(texts(out@) =~= head + seq!["Health unavailable: "@ + e@]);
    } else if let Some(r) = &view.health {
        let t = concat_str(concat_str(String::new(), "Overall: "), r.overall_severity.as_str());
        let t = concat_str(concat_str(concat_str(t, " · "), r.server_name.as_str()), " · ");
        out.push(concat_str(t, if r.server_running { "running" } else { "stopped" }));
        let ghost top = texts(out@);
        let mut i: usize = 0;
        while i < r.cards.len()
            invariant
                i <= r.cards.len(),
                texts(out@) == top + card_lines(r.cards@, i as int),
            decreases r.cards.len() - i,
        {
            append_lines(&mut out, card_block_exec(&r.cards[i]));
            i += 1;
        }
    } else {
        assert(texts(out@) =~= head + Seq::<Seq<char>>::empty());
    }
    match &view.problems {
        Some(p) => append_lines(&mut out, problems_block_exec(view, p)),
        None => {
            assert(texts(out@) =~= texts(out@) + Seq::<Seq<char>>::empty());
        },
    }
    out
}

// ---------------------------------------------------------------------------
// Access
// ---------------------------------------------------------------------------

/// The page of the Access view.
#[derive(Debug, Clone, Copy, PartialEq, Eq)]
pub enum AccessSurface {
    Allowlist,
    Users,
    Me,
}

/// A named user token.
#[derive(Debug, Clone, PartialEq, Eq)]
pub struct NamedUser {
    pub label: String,
    pub role: String,
    pub is_expired: bool,
    pub expires_at_iso8601: Option<String>,
}

/// The credential the console runs with.
#[derive(Debug, Clone, PartialEq, Eq)]
pub struct CredentialIdentity {
    pub name: String,
    pub role: String,
    pub is_named_token: bool,
    pub permissions: Vec<String>,
}

/// What the Access view shows.
#[derive(Debug, Clone)]
pub struct AccessView {
    pub error: Option<String>,
    pub surface: AccessSurface,
    /// The names on the Bedrock allowlist.
    pub allowlist: Vec<String>,
    pub users: Vec<NamedUser>,
    pub identity: Option<CredentialIdentity>,
    pub selected: usize,
    /// The player name being typed.
    pub input: Option<String>,
    pub status: Option<String>,
}

/// One named user.
pub open spec fn user_line(u: NamedUser, selected: bool) -> Seq<char> {
    marker(selected) + " "@ + u.label@ + " · "@ + u.role@ + " · "@ + if u.is_expired {
        "EXPIRED"@
    } else {
        "active"@
    } + match u.expires_at_iso8601 {
        Some(x) => " · expires "@ + x@,
        None => ""@,
    }
}

/// The current page of the Access view.
pub open spec fn access_page(a: AccessView) -> Seq<Seq<char>> {
    match a.surface {
        AccessSurface::Allowlist => seq!["Bedrock player access · [a] add  [x] remove"@] + if a.allowlist@.len()
            == 0 {
            seq!["No allowlist entries returned."@]
        } else {
            Seq::new(a.allowlist@.len(), |i: int| marker(i == a.selected) + " "@ + a.allowlist@[i]@)
        },
        AccessSurface::Users => seq!["Named users · admin permission required · [x] revoke"@] + if a.users@.len()
            == 0 {
            seq!["No named users returned, or this credential is not an admin."@]
        } else {
            Seq::new(a.users@.len(), |i: int| user_line(a.users@[i], i == a.selected))
        },
        AccessSurface::Me => match a.identity {
            Some(id) => seq![
                "Credential: "@ + id.name@ + " · role: "@ + id.role@,
                "Named token: "@ + crate::lifecycle::bool_text(id.is_named_token),
                "Permissions: "@ + join(texts(id.permissions@), ", "@),
            ],
            None => seq!["Credential identity unavailable."@],
        },
    }
}

/// The Access view's lines: the header and, after an error, only the
/// error; else the current page, the name being typed and the last status.
pub open spec fn access_screen(a: AccessView) -> Seq<Seq<char>> {
    seq![
        "ACCESS · PLAYER ALLOWLIST AND NAMED TOKENS"@,
        "[1] allowlist  [2] named users  [3] this credential  [r] reload"@,
    ] + match a.error {
        Some(e) => seq!["Access unavailable: "@ + e@],
        None => access_page(a) + optional_line(
            match a.input {
                Some(v) => Some("Add Bedrock player: "@ + v@ + "_"@),
                None => None,
            },
        ) + optional_line(
            match a.status {
                Some(s) => Some("Status: "@ + s@),
                None => None,
            },
        ),
    }
}

fn access_page_exec(a: &AccessView) -> (res: Vec<String>)
    ensures
        texts(res@) == access_page(*a),
{
    let mut out: Vec<String> = Vec::new();
    match a.surface {
        AccessSurface::Allowlist => {
            out.push(concat_str(String::new(), "Bedrock player access · [a] add  [x] remove"));
            let ghost head = texts(out@);
            if a.allowlist.len() == 0 {
                out.push(concat_str(String::new(), "No allowlist entries returned."));
                assert(texts(out@) =~= access_page(*a));
            } else {
                let ghost rows = Seq::new(a.allowlist@.len(), |i: int| marker(i == a.selected) + " "@ + a.allowlist@[i]@);
                let mut i: usize = 0;
                while i < a.allowlist.len()
                    invariant
                        i <= a.allowlist.len(),
                        rows == Seq::new(a.allowlist@.len(), |i: int| marker(i == a.selected) + " "@ + a.allowlist@[i]@),
                        texts(out@) == head + rows.take(i as int),
                    decreases a.allowlist.len() - i,
                {
                    let line = concat_str(
                        concat_str(concat_str(String::new(), marker_exec(i == a.selected)), " "),
                        a.allowlist[i].as_str(),
                    );
                    let ghost before = out@;
                    out.push(line);
                    assert(texts(out@) =~= texts(before).push(line@));
                    assert(rows.take(i + 1) =~= rows.take(i as int).push(line@));
                    i += 1;
                }
                assert(rows.take(i as int) =~= rows);
                assert(texts(out@) =~= access_page(*a));
            }
        },
        AccessSurface::Users => {
            out.push(concat_str(String::new(), "Named users · admin permission required · [x] revoke"));
            let ghost head = texts(out@);
            if a.users.len() == 0 {
                out.push(concat_str(String::new(), "No named users returned, or this credential is not an admin."));
                assert(texts(out@) =~= access_page(*a));
            } else {
                let ghost rows = Seq::new(a.users@.len(), |i: int| user_line(a.users@[i], i == a.selected));
                let mut i: usize = 0;
                while i < a.users.len()
                    invariant
                        i <= a.users.len(),
                        rows == Seq::new(a.users@.len(), |i: int| user_line(a.users@[i], i == a.selected)),
                        texts(out@) == head + rows.take(i as int),
                    decreases a.users.len() - i,
                {
                    let u = &a.users[i];
                    let t = concat_str(concat_str(String::new(), marker_exec(i == a.selected)), " ");
                    let t = concat_str(concat_str(concat_str(t, u.label.as_str()), " · "), u.role.as_str());
                    let t = concat_str(concat_str(t, " · "), if u.is_expired { "EXPIRED" } else { "active" });
                    let line = match &u.expires_at_iso8601 {
                        Some(x) => concat_str(concat_str(t, " · expires "), x.as_str()),
                        None => concat_str(t, ""),
                    };
                    assert(line@ == user_line(a.users@[i as int], i == a.selected));
                    let ghost before = out@;
                    out.push(line);
                    assert(texts(out@) =~= texts(before).push(line@));
                    assert(rows.take(i + 1) =~= rows.take(i as int).push(line@));
                    i += 1;
                }
                assert(rows.take(i as int) =~= rows);
                assert(texts(out@) =~= access_page(*a));
            }
        },
        AccessSurface::Me => {
            match &a.identity {
                Some(id) => {
                    let t = concat_str(concat_str(String::new(), "Credential: "), id.name.as_str());
                    out.push(concat_str(concat_str(t, " · role: "), id.role.as_str()));
                    out.push(
                        concat_str(
                            concat_str(String::new(), "Named token: "),
                            if id.is_named_token { "true" } else { "false" },
                        ),
                    );
                    out.push(
                        concat_str(
                            concat_str(String::new(), "Permissions: "),
                            join_texts(&id.permissions, ", ").as_str(),
                        ),
                    );
                },
                None => {
                    out.push(concat_str(String::new(), "Credential identity unavailable."));
                },
            }
            assert(texts(out@) =~= access_page(*a));
        },
    }
    out
}

/// The Access view's lines (see `access_screen`).
pub fn access_lines(view: &AccessView) -> (res: Vec<String>)
    ensures
        texts(res@) == access_screen(*view),
{
    let mut out: Vec<String> = Vec::new();
    out.push(concat_str(String::new(), "ACCESS · PLAYER ALLOWLIST AND NAMED TOKENS"));
    out.push(concat_str(String::new(), "[1] allowlist  [2] named users  [3] this credential  [r] reload"));
    let ghost head = texts(out@);
    assert(head =~= seq![
        "ACCESS · PLAYER ALLOWLIST AND NAMED TOKENS"@,
        "[1] allowlist  [2] named users  [3] this credential  [r] reload"@,
    ]);
    if let Some(e) = &view.error {
        out.push(concat_str(concat_str(String::new(), "Access unavailable: "), e.as_str()));
        assert(texts(out@) =~= head + seq!["Access unavailable: "@ + e@]);
        return out;
    }
    append_lines(&mut out, access_page_exec(view));
    let typed = match &view.input {
        Some(v) => Some(concat_str(concat_str(concat_str(String::new(), "Add Bedrock player: "), v.as_str()), "_")),
        None => None,
    };
    push_optional(&mut out, typed);
    let status = match &view.status {
        Some(s) => Some(concat_str(concat_str(String::new(), "Status: "), s.as_str())),
        None => None,
    };
    push_optional(&mut out, status);
    out
}

// ---------------------------------------------------------------------------
// Backups
// ---------------------------------------------------------------------------

/// What the backups box shows: the backups of the selected world, the
/// schedule, the schedule being typed and the last status.
#[derive(Debug, Clone)]
pub struct BackupsView {
    pub error: Option<String>,
    pub loaded: bool,
    /// The backups listed for the selected world.
    pub visible: Vec<BackupItem>,
    pub selected_backup: usize,
    pub config: Option<BackupConfig>,
    pub input: Option<String>,
    pub status: Option<String>,
}

/// One backup; `size` is its size as text, shown where it is known.
pub open spec fn backup_line(b: BackupItem, selected: bool, size: Seq<char>) -> Seq<char> {
    marker(selected) + " "@ + b.display_name@ + "  "@ + if b.is_automatic {
        "AUTO"@
    } else {
        "MANUAL"@
    } + "  "@ + b.trigger_reason@ + "  "@ + match b.file_size {
        Some(_) => size,
        None => "size unknown"@,
    }
}

/// The backups' lines with the schedule: `sizes` holds each backup's size
/// as text.
pub open spec fn backups_body(v: BackupsView, sizes: Seq<Seq<char>>) -> Seq<Seq<char>> {
    seq![
        "BACKUP CONTEXT FOR SELECTED WORLD"@,
        decimal(v.visible@.len()) + " backups"@,
        "Verification: per-backup verification is not exposed; the agent enforces restore/delete safety."@,
        Seq::<char>::empty(),
    ] + if v.visible@.len() == 0 {
        seq!["No backups are available for this server."@]
    } else {
        Seq::new(v.visible@.len(), |i: int| backup_line(v.visible@[i], i == v.selected_backup, sizes[i]))
    } + seq![
        Seq::<char>::empty(),
        match v.config {
            Some(c) => "SCHEDULE  "@ + if c.auto_backup_enabled {
                "ON"@
            } else {
                "OFF"@
            } + " · every "@ + signed_decimal(c.auto_backup_interval_minutes as int) + " min · retain "@
                + signed_decimal(c.auto_backup_max_count as int),
            None => "SCHEDULE  unavailable"@,
        },
        "[m] backup now  [r] restore  [d] delete  [c] edit schedule  [R] reload  [b] back"@,
    ]
}

/// The backups box's lines: the error, the loading note or the backups
/// with the schedule; then the schedule being typed and the last status.
pub open spec fn backups_screen(v: BackupsView, sizes: Seq<Seq<char>>) -> Seq<Seq<char>> {
    (match v.error {
        Some(e) => seq!["Backups unavailable: "@ + e@],
        None => if !v.loaded {
            seq!["Loading backups and schedule from the selected server…"@]
        } else {
            backups_body(v, sizes)
        },
    }) + optional_line(
        match v.input {
            Some(x) => Some(
                "Schedule enabled,true/false; interval minutes; retention count: "@ + x@ + "_"@,
            ),
            None => None,
        },
    ) + optional_line(
        match v.status {
            Some(s) => Some("Status: "@ + s@),
            None => None,
        },
    )
}

fn backups_body_exec(v: &BackupsView, sizes: &Vec<String>) -> (res: Vec<String>)
    requires
        sizes@.len() == v.visible@.len(),
    ensures
        texts(res@) == backups_body(*v, texts(sizes@)),
{
    let mut out: Vec<String> = Vec::new();
    out.push(concat_str(String::new(), "BACKUP CONTEXT FOR SELECTED WORLD"));
    out.push(concat_str(number_text(v.visible.len() as u64), " backups"));
    out.push(
        concat_str(
            String::new(),
            "Verification: per-backup verification is not exposed; the agent enforces restore/delete safety.",
        ),
    );
    out.push(String::new());
    let ghost head = texts(out@);
    assert(head =~= seq![
        "BACKUP CONTEXT FOR SELECTED WORLD"@,
        decimal(v.visible@.len()) + " backups"@,
        "Verification: per-backup verification is not exposed; the agent enforces restore/delete safety."@,
        Seq::<char>::empty(),
    ]);
    let ghost rows = Seq::new(
        v.visible@.len(),
        |i: int| backup_line(v.visible@[i], i == v.selected_backup, texts(sizes@)[i]),
    );
    if v.visible.len() == 0 {
        out.push(concat_str(String::new(), "No backups are available for this server."));
        assert(texts(out@) =~= head + seq!["No backups are available for this server."@]);
    } else {
        let mut i: usize = 0;
        while i < v.visible.len()
            invariant
                i <= v.visible.len(),
                sizes@.len() == v.visible@.len(),
                rows == Seq::new(
                    v.visible@.len(),
                    |i: int| backup_line(v.visible@[i], i == v.selected_backup, texts(sizes@)[i]),
                ),
                texts(out@) == head + rows.take(i as int),
            decreases v.visible.len() - i,
        {
            let b = &v.visible[i];
            let t = concat_str(concat_str(String::new(), marker_exec(i == v.selected_backup)), " ");
            let t = concat_str(concat_str(t, b.display_name.as_str()), "  ");
            let t = concat_str(concat_str(t, if b.is_automatic { "AUTO" } else { "MANUAL" }), "  ");
            let t = concat_str(concat_str(t, b.trigger_reason.as_str()), "  ");
            let line = concat_str(
                t,
                match b.file_size {
                    Some(_) => sizes[i].as_str(),
                    None => "size unknown",
                },
            );
            assert(texts(sizes@)[i as int] == sizes@[i as int]@);
            assert(line@ == rows[i as int]);
            let ghost before = out@;
            out.push(line);
            assert(texts(out@) =~= texts(before).push(line@));
            assert(rows.take(i + 1) =~= rows.take(i as int).push(line@));
            i += 1;
        }
        assert(rows.take(i as int) =~= rows);
    }
    let ghost mid = texts(out@);
    out.push(String::new());
    let schedule = match &v.config {
        Some(c) => {
            let t = concat_str(
                concat_str(String::new(), "SCHEDULE  "),
                if c.auto_backup_enabled { "ON" } else { "OFF" },
            );
            let t = concat_str(concat_str(t, " · every "), signed_text(c.auto_backup_interval_minutes).as_str());
            concat_str(concat_str(t, " min · retain "), signed_text(c.auto_backup_max_count).as_str())
        },
        None => concat_str(String::new(), "SCHEDULE  unavailable"),
    };
    let ghost sched = schedule@;
    out.push(schedule);
    out.push(
        concat_str(String::new(), "[m] backup now  [r] restore  [d] delete  [c] edit schedule  [R] reload  [b] back"),
    );
    assert(mid == head + if v.visible@.len() == 0 {
        seq!["No backups are available for this server."@]
    } else {
        rows
    });
    assert(texts(out@) =~= mid + seq![
        Seq::<char>::empty(),
        sched,
        "[m] backup now  [r] restore  [d] delete  [c] edit schedule  [R] reload  [b] back"@,
    ]);
    assert(texts(out@) =~= backups_body(*v, texts(sizes@)));
    out
}

/// The backups box's lines (see `backups_screen`). `sizes` holds one size
/// text per listed backup.
pub fn backups_lines(view: &BackupsView, sizes: &Vec<String>) -> (res: Vec<String>)
    requires
        sizes@.len() == view.visible@.len(),
    ensures
        texts(res@) == backups_screen(*view, texts(sizes@)),
{
    let mut out: Vec<String> = Vec::new();
    if let Some(e) = &view.error {
        out.push(concat_str(concat_str(String::new(), "Backups unavailable: "), e.as_str()));
        assert(texts(out@) =~= seq!["Backups unavailable: "@ + e@]);
    } else if !view.loaded {
        out.push(concat_str(String::new(), "Loading backups and schedule from the selected server…"));
        assert(texts(out@) =~= seq!["Loading backups and schedule from the selected server…"@]);
    } else {
        append_lines(&mut out, backups_body_exec(view, sizes));
    }
    let typed = match &view.input {
        Some(x) => Some(
            concat_str(
                concat_str(
                    concat_str(String::new(), "Schedule enabled,true/false; interval minutes; retention count: "),
                    x.as_str(),
                ),
                "_",
            ),
        ),
        None => None,
    };
    push_optional(&mut out, typed);
    let status = match &view.status {
        Some(s) => Some(concat_str(concat_str(String::new(), "Status: "), s.as_str())),
        None => None,
    };
    push_optional(&mut out, status);
    out
}

} // verus!
