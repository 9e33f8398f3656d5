//! Keyboard-first world-slot state for the Worlds and Backups views.
//!
//! A world slot is the parent context for its backups. The view keeps that
//! relationship in its selection and sends every mutation to the agent's
//! world routes; it keeps no second world store of its own.

use vstd::prelude::*;
use crate::error::CliError;
use crate::text::{
    chars_of, slice_vec, split, split_exec, split_once, split_once_exec, starts_with,
    starts_with_exec, string_of, trim, trim_vec,
};
use crate::tui::input::{Key, PromptEdit, edit_prompt, edited, prompt_edit, wrap_selection, wrapped};

verus! {

/// The value an open prompt of the world view asks for.
#[derive(Debug, Clone, Copy, PartialEq, Eq)]
pub enum WorldInputKind {
    Create,
    Rename,
    RenameActive,
    Copy,
    Import,
    ReplaceActive,
    Convert,
    Export,
}

impl WorldInputKind {
    /// The label shown in front of the prompt.
    pub open spec fn prompt_text(self) -> Seq<char> {
        match self {
            WorldInputKind::Create => "New world name"@,
            WorldInputKind::Rename => "New slot name"@,
            WorldInputKind::RenameActive => "New active world level name"@,
            WorldInputKind::Copy => "Source slot id"@,
            WorldInputKind::Import => "ZIP path | new slot name"@,
            WorldInputKind::ReplaceActive => "Level name [| staged upload id]"@,
            WorldInputKind::Convert => "target server id | format | target name OR target slot id"@,
            WorldInputKind::Export => "Local ZIP output path"@,
        }
    }

    /// The label shown in front of the prompt.
    pub fn prompt(self) -> (res: &'static str)
        ensures
            res@ == self.prompt_text(),
    {
        match self {
            WorldInputKind::Create => "New world name",
            WorldInputKind::Rename => "New slot name",
            WorldInputKind::RenameActive => "New active world level name",
            WorldInputKind::Copy => "Source slot id",
            WorldInputKind::Import => "ZIP path | new slot name",
            WorldInputKind::ReplaceActive => "Level name [| staged upload id]",
            WorldInputKind::Convert => "target server id | format | target name OR target slot id",
            WorldInputKind::Export => "Local ZIP output path",
        }
    }
}

/// A change that the world view asks the agent to make. Paths are local
/// paths of the console's host, as typed.
#[derive(Debug, Clone, PartialEq, Eq)]
pub enum WorldMutation {
    Create { name: String },
    Rename { slot_id: String, name: String },
    RenameActive { name: String },
    Delete { slot_id: String },
    Duplicate { slot_id: String },
    Copy { destination_slot_id: String, source_slot_id: String },
    SaveCurrent { slot_id: String },
    Activate { slot_id: String },
    ReplaceActive { level_name: String, staged_upload_id: Option<String> },
    Export { slot_id: String, output: String },
    Import { path: String, name: String },
    Convert {
        source_slot_id: String,
        target_server_id: String,
        target_format: String,
        target_name: Option<String>,
        target_slot_id: Option<String>,
    },
    Repair { slot_id: String },
}

/// What a key press asks of the console beyond the world view.
#[derive(Debug, Clone, PartialEq, Eq)]
pub enum WorldIntent {
    OpenBackups,
    Confirm(WorldMutation),
}

/// A world slot as far as the view reads it.
#[derive(Debug, Clone, PartialEq, Eq)]
pub struct WorldSlot {
    pub id: String,
    pub name: String,
    pub is_active: bool,
    pub created_at: String,
    /// The size of the slot's archive, where the agent reported it.
    pub zip_size_bytes: Option<i64>,
    pub world_seed: Option<String>,
}

/// The agent's list of world slots.
#[derive(Debug, Clone, PartialEq, Eq)]
pub struct WorldSlots {
    pub slots: Vec<WorldSlot>,
    pub active_slot_id: Option<String>,
    pub server_running: bool,
}

/// The world view's state.
#[derive(Debug, Clone)]
pub struct WorldsState {
    pub response: Option<WorldSlots>,
    pub loaded: bool,
    pub error: Option<String>,
    pub selected_slot: usize,
    pub detail_open: bool,
    pub input: Option<(WorldInputKind, String)>,
    pub status: Option<String>,
}

/// The outcome of a world mutation.
#[derive(Debug, Clone, PartialEq, Eq)]
pub struct WorldMutationResult {
    pub message: String,
    pub operation_id: Option<String>,
}

/// `s` without every leading repetition of `p` (`str::trim_start_matches`).
pub open spec fn strip_prefixes(s: Seq<char>, p: Seq<char>) -> Seq<char>
    decreases s.len(),
{
    if p.len() > 0 && starts_with(s, p) {
        strip_prefixes(s.skip(p.len() as int), p)
    } else {
        s
    }
}

/// The first index at or after `from` of a slot whose id is `id`.
pub open spec fn slot_with_id(slots: Seq<WorldSlot>, id: Seq<char>, from: int) -> Option<int>
    decreases slots.len() - from,
{
    if from < 0 || from >= slots.len() {
        None
    } else if slots[from].id@ == id {
        Some(from)
    } else {
        slot_with_id(slots, id, from + 1)
    }
}

/// The first index at or after `from` of a slot marked active.
pub open spec fn slot_marked_active(slots: Seq<WorldSlot>, from: int) -> Option<int>
    decreases slots.len() - from,
{
    if from < 0 || from >= slots.len() {
        None
    } else if slots[from].is_active {
        Some(from)
    } else {
        slot_marked_active(slots, from + 1)
    }
}

/// The index of the active slot: the first slot with the id that the agent
/// names as active, else the first slot marked active.
pub open spec fn active_index(r: WorldSlots) -> Option<int> {
    let by_id = match r.active_slot_id {
        Some(id) => slot_with_id(r.slots@, id@, 0),
        None => None,
    };
    match by_id {
        Some(i) => Some(i),
        None => slot_marked_active(r.slots@, 0),
    }
}

/// The trimmed pieces of `value` between `|` characters.
pub open spec fn trimmed_parts(value: Seq<char>) -> Seq<Seq<char>> {
    split(value, '|').map_values(|p: Seq<char>| trim(p))
}

/// The view of an optional string.
pub open spec fn opt_view(s: Option<String>) -> Option<Seq<char>> {
    match s {
        Some(v) => Some(v@),
        None => None,
    }
}

/// `res` is what submitting the prompt `kind` with the text `value` gives
/// while the slot `selected` is selected: the text is trimmed; names, ids
/// and paths must not be blank; an import needs `path | name`; a
/// replacement takes a level name and an optional staged upload id; a
/// conversion needs `server | format | destination`, where a destination
/// that starts with `slot:` names a slot and any other names a new world.
pub open spec fn world_submission(
    kind: WorldInputKind,
    value: Seq<char>,
    selected: Option<Seq<char>>,
    res: Option<WorldIntent>,
) -> bool {
    let v = trim(value);
    let parts = trimmed_parts(v);
    match kind {
        WorldInputKind::Create => if v.len() > 0 {
            res matches Some(WorldIntent::Confirm(WorldMutation::Create { name })) && name@ == v
        } else {
            res is None
        },
        WorldInputKind::Rename => if v.len() > 0 && selected is Some {
            res matches Some(WorldIntent::Confirm(WorldMutation::Rename { slot_id, name }))
                && slot_id@ == selected.unwrap() && name@ == v
        } else {
            res is None
        },
        WorldInputKind::RenameActive => if v.len() > 0 {
            res matches Some(WorldIntent::Confirm(WorldMutation::RenameActive { name }))
                && name@ == v
        } else {
            res is None
        },
        WorldInputKind::Copy => if v.len() > 0 && selected is Some {
            res matches Some(
                WorldIntent::Confirm(WorldMutation::Copy { destination_slot_id, source_slot_id }),
            ) && destination_slot_id@ == selected.unwrap() && source_slot_id@ == v
        } else {
            res is None
        },
        WorldInputKind::Import => match split_once(v, seq!['|']) {
            Some((before, after)) => res matches Some(
                WorldIntent::Confirm(WorldMutation::Import { path, name }),
            ) && path@ == trim(before) && name@ == trim(after),
            None => res is None,
        },
        WorldInputKind::ReplaceActive => res matches Some(
            WorldIntent::Confirm(WorldMutation::ReplaceActive { level_name, staged_upload_id }),
        ) && level_name@ == parts[0] && opt_view(staged_upload_id) == if parts.len() >= 2
            && parts[1].len() > 0 {
            Some(parts[1])
        } else {
            None
        },
        WorldInputKind::Export => if v.len() > 0 && selected is Some {
            res matches Some(WorldIntent::Confirm(WorldMutation::Export { slot_id, output }))
                && slot_id@ == selected.unwrap() && output@ == v
        } else {
            res is None
        },
        WorldInputKind::Convert => if parts.len() >= 3 && selected is Some {
            res matches Some(
                WorldIntent::Confirm(
                    WorldMutation::Convert {
                        source_slot_id,
                        target_server_id,
                        target_format,
                        target_name,
                        target_slot_id,
                    },
                ),
            ) && source_slot_id@ == selected.unwrap() && target_server_id@ == parts[0]
                && target_format@ == parts[1] && if starts_with(parts[2], "slot:"@) {
                target_name is None && opt_view(target_slot_id) == Some(
                    trim(strip_prefixes(parts[2], "slot:"@)),
                )
            } else {
                opt_view(target_name) == Some(parts[2]) && target_slot_id is None
            }
        } else {
            res is None
        },
    }
}

/// The copy prompt asks for the slot to copy from: submitting it copies
/// the typed slot, trimmed, into the selected slot; it asks for nothing
/// without a selected slot or with a blank answer.
pub proof fn law_copy_fills_the_selected_slot(
    value: Seq<char>,
    selected: Option<Seq<char>>,
    res: Option<WorldIntent>,
)
    requires
        world_submission(WorldInputKind::Copy, value, selected, res),
    ensures
        WorldInputKind::Copy.prompt_text() == "Source slot id"@,
        res matches Some(WorldIntent::Confirm(m)) ==> m matches WorldMutation::Copy {
            destination_slot_id,
            source_slot_id,
        } && selected == Some(destination_slot_id@) && source_slot_id@ == trim(value),
        res is Some <==> (selected is Some && trim(value).len() > 0),
{
}

/// The prompts that act on a slot act on the selected one: renaming gives
/// it the typed name, exporting writes it to the typed path, converting
/// converts it; creating a world or renaming the active one takes the
/// typed name. Every typed value is trimmed, and a blank one asks for
/// nothing.
pub proof fn law_prompts_act_on_the_selected_slot(
    kind: WorldInputKind,
    value: Seq<char>,
    selected: Option<Seq<char>>,
    res: Option<WorldIntent>,
)
    requires
        world_submission(kind, value, selected, res),
    ensures
        kind == WorldInputKind::Rename ==> (res matches Some(WorldIntent::Confirm(m)) ==> m matches WorldMutation::Rename {
            slot_id,
            name,
        } && selected == Some(slot_id@) && name@ == trim(value)),
        kind == WorldInputKind::Export ==> (res matches Some(WorldIntent::Confirm(m)) ==> m matches WorldMutation::Export {
            slot_id,
            output,
        } && selected == Some(slot_id@) && output@ == trim(value)),
        kind == WorldInputKind::Convert ==> (res matches Some(WorldIntent::Confirm(m)) ==> m matches WorldMutation::Convert {
            source_slot_id,
            ..
        } && selected == Some(source_slot_id@)),
        kind == WorldInputKind::Create ==> (res matches Some(WorldIntent::Confirm(m)) ==> m matches WorldMutation::Create {
            name,
        } && name@ == trim(value)),
        kind == WorldInputKind::RenameActive ==> (res matches Some(WorldIntent::Confirm(m)) ==> m matches WorldMutation::RenameActive {
            name,
        } && name@ == trim(value)),
        (kind == WorldInputKind::Create || kind == WorldInputKind::RenameActive || kind
            == WorldInputKind::Rename || kind == WorldInputKind::Export) && trim(value).len() == 0
            ==> res is None,
{
}

/// The selection step that `key` asks for: down is `1`, up is `-1`.
pub open spec fn slot_step(key: Key) -> Option<int> {
    match key {
        Key::Char('j') | Key::Down => Some(1),
        Key::Char('k') | Key::Up => Some(-1),
        _ => None,
    }
}

/// The prompt that `key` opens on the detail page, if any.
pub open spec fn detail_prompt(key: Key) -> Option<WorldInputKind> {
    match key {
        Key::Char('n') => Some(WorldInputKind::Rename),
        Key::Char('p') => Some(WorldInputKind::Copy),
        Key::Char('N') => Some(WorldInputKind::RenameActive),
        Key::Char('l') => Some(WorldInputKind::ReplaceActive),
        Key::Char('e') => Some(WorldInputKind::Export),
        Key::Char('v') => Some(WorldInputKind::Convert),
        _ => None,
    }
}

/// The mutation of the slot with id `id` that `key` asks for on the detail
/// page, if any.
pub open spec fn detail_mutation(key: Key, id: Seq<char>, res: Option<WorldIntent>) -> bool {
    match key {
        Key::Char('d') => res matches Some(WorldIntent::Confirm(WorldMutation::Delete { slot_id }))
            && slot_id@ == id,
        Key::Char('u') => res matches Some(
            WorldIntent::Confirm(WorldMutation::Duplicate { slot_id }),
        ) && slot_id@ == id,
        Key::Char('s') => res matches Some(
            WorldIntent::Confirm(WorldMutation::SaveCurrent { slot_id }),
        ) && slot_id@ == id,
        Key::Char('a') => res matches Some(
            WorldIntent::Confirm(WorldMutation::Activate { slot_id }),
        ) && slot_id@ == id,
        Key::Char('R') => res matches Some(WorldIntent::Confirm(WorldMutation::Repair { slot_id }))
            && slot_id@ == id,
        _ => false,
    }
}

/// A key that asks for a mutation of the selected slot on the detail page.
pub open spec fn is_detail_mutation_key(key: Key) -> bool {
    key == Key::Char('d') || key == Key::Char('u') || key == Key::Char('s') || key == Key::Char(
        'a',
    ) || key == Key::Char('R')
}

impl WorldsState {
    /// The slots that the agent listed (none before its answer).
    pub open spec fn slots_spec(self) -> Seq<WorldSlot> {
        match self.response {
            Some(r) => r.slots@,
            None => Seq::empty(),
        }
    }

    /// The selected slot, where the selection points at one.
    pub open spec fn selected_spec(self) -> Option<WorldSlot> {
        if self.selected_slot < self.slots_spec().len() {
            Some(self.slots_spec()[self.selected_slot as int])
        } else {
            None
        }
    }

    /// The id of the selected slot.
    pub open spec fn selected_id_spec(self) -> Option<Seq<char>> {
        match self.selected_spec() {
            Some(s) => Some(s.id@),
            None => None,
        }
    }

    /// The view over a fresh answer of the agent, with the first slot
    /// selected.
    pub fn for_response(response: WorldSlots) -> (res: Self)
        ensures
            res.response == Some(response),
            res.loaded,
            res.error is None,
            res.selected_slot == 0,
            !res.detail_open,
            res.input is None,
            res.status is None,
    {
        let mut state = WorldsState {
            response: Some(response),
            loaded: true,
            error: None,
            selected_slot: 0,
            detail_open: false,
            input: None,
            status: None,
        };
        state.normalize_selection();
        state
    }

    /// The slots that the agent listed (none before its answer).
    pub fn slots(&self) -> (res: &[WorldSlot])
        ensures
            res@ == self.slots_spec(),
    {
        match &self.response {
            Some(response) => response.slots.as_slice(),
            None => &[],
        }
    }

    /// The active slot: the first slot with the id that the agent names as
    /// active, else the first slot marked active.
    pub fn active_slot(&self) -> (res: Option<&WorldSlot>)
        ensures
            match self.response {
                None => res is None,
                Some(r) => match active_index(r) {
                    Some(i) => res == Some(&r.slots@[i]),
                    None => res is None,
                },
            },
    {
        let response = match &self.response {
            Some(response) => response,
            None => return None,
        };
        let ghost r = *response;
        let n = response.slots.len();
        if let Some(id) = &response.active_slot_id {
            let id_chars = chars_of(id.as_str());
            let mut i: usize = 0;
            while i < n
                invariant
                    n == r.slots.len(),
                    *response == r,
                    self.response == Some(r),
                    i <= n,
                    id_chars@ == id@,
                    r.active_slot_id == Some(*id),
                    slot_with_id(r.slots@, id@, 0) == slot_with_id(r.slots@, id@, i as int),
                decreases n - i,
            {
                let slot_id = chars_of(response.slots[i].id.as_str());
                if crate::text::chars_eq(slot_id.as_slice(), id_chars.as_slice()) {
                    return Some(&response.slots[i]);
                }
                i += 1;
            }
        }
        let mut j: usize = 0;
        while j < n
            invariant
                n == r.slots.len(),
                *response == r,
                self.response == Some(r),
                j <= n,
                match r.active_slot_id {
                    Some(id) => slot_with_id(r.slots@, id@, 0) is None,
                    None => true,
                },
                slot_marked_active(r.slots@, 0) == slot_marked_active(r.slots@, j as int),
            decreases n - j,
        {
            if response.slots[j].is_active {
                return Some(&response.slots[j]);
            }
            j += 1;
        }
        None
    }

    /// The selected slot, where the selection points at one.
    pub fn selected_slot(&self) -> (res: Option<&WorldSlot>)
        ensures
            match res {
                Some(s) => self.selected_spec() == Some(*s),
                None => self.selected_spec() is None,
            },
    {
        let slots = self.slots();
        if self.selected_slot < slots.len() {
            Some(&slots[self.selected_slot])
        } else {
            None
        }
    }

    /// The id of the selected slot.
    pub fn selected_slot_id(&self) -> (res: Option<&str>)
        ensures
            match res {
                Some(id) => self.selected_id_spec() == Some(id@),
                None => self.selected_id_spec() is None,
            },
    {
        match self.selected_slot() {
            Some(slot) => Some(slot.id.as_str()),
            None => None,
        }
    }

    /// The name of the selected slot.
    pub fn selected_slot_name(&self) -> (res: Option<&str>)
        ensures
            match res {
                Some(name) => self.selected_spec() matches Some(s) && s.name@ == name@,
                None => self.selected_spec() is None,
            },
    {
        match self.selected_slot() {
            Some(slot) => Some(slot.name.as_str()),
            None => None,
        }
    }

    /// The state after moving the selection by `offset`, wrapping at both
    /// ends; with no slots nothing changes.
    pub open spec fn moved(self, offset: int) -> WorldsState {
        if self.slots_spec().len() > 0 {
            WorldsState {
                selected_slot: wrapped(
                    self.selected_slot as int,
                    offset,
                    self.slots_spec().len() as int,
                ) as usize,
                ..self
            }
        } else {
            self
        }
    }

    /// Handles one key press: an open prompt takes every key; on the detail
    /// page of a slot the keys act on that slot; on the list, `j`/`k` move,
    /// Enter opens the detail page, `c` and `i` open the create and import
    /// prompts, and `r` asks for a reload.
    pub fn handle_key(&mut self, key: Key) -> (res: Option<WorldIntent>)
        ensures
            match old(self).input {
                Some((kind, value)) => match prompt_edit(key) {
                    PromptEdit::Cancel => res is None && *final(self) == (WorldsState {
                        input: None,
                        ..*old(self)
                    }),
                    PromptEdit::Keep => res is None && (final(self).input matches Some((k, v))
                        && k == kind && v@ == edited(value@, key)) && *final(self) == (
                    WorldsState { input: final(self).input, ..*old(self) }),
                    PromptEdit::Submit => world_submission(
                        kind,
                        value@,
                        old(self).selected_id_spec(),
                        res,
                    ) && *final(self) == (WorldsState { input: None, ..*old(self) }),
                },
                None => if old(self).detail_open {
                    old(self).detail_effect(key, *final(self), res)
                } else {
                    old(self).list_effect(key, *final(self), res)
                },
            },
    {
        if self.input.is_some() {
            return self.handle_input(key);
        }
        if self.detail_open {
            return self.handle_detail_key(key);
        }
        match key {
            Key::Char('j') | Key::Down => self.move_selection(1),
            Key::Char('k') | Key::Up => self.move_selection(-1),
            Key::Enter => {
                self.detail_open = self.selected_slot().is_some();
            },
            Key::Char('c') => self.begin_input(WorldInputKind::Create),
            Key::Char('i') => self.begin_input(WorldInputKind::Import),
            Key::Char('r') => {
                self.loaded = false;
            },
            _ => {},
        }
        None
    }

    /// What a key does on the list of slots.
    pub open spec fn list_effect(self, key: Key, after: WorldsState, res: Option<WorldIntent>) -> bool {
        res is None && if slot_step(key) is Some {
            after == self.moved(slot_step(key).unwrap())
        } else if key == Key::Enter {
            after == (WorldsState { detail_open: self.selected_spec() is Some, ..self })
        } else if key == Key::Char('c') || key == Key::Char('i') {
            (after.input matches Some((k, v)) && k == (if key == Key::Char('c') {
                WorldInputKind::Create
            } else {
                WorldInputKind::Import
            }) && v@.len() == 0) && after == (WorldsState { input: after.input, ..self })
        } else if key == Key::Char('r') {
            after == (WorldsState { loaded: false, ..self })
        } else {
            after == self
        }
    }

    /// What a key does on the detail page of the selected slot; without a
    /// selected slot no key does anything.
    pub open spec fn detail_effect(self, key: Key, after: WorldsState, res: Option<WorldIntent>) -> bool {
        match self.selected_spec() {
            None => res is None && after == self,
            Some(slot) => if key == Key::Esc {
                res is None && after == (WorldsState { detail_open: false, ..self })
            } else if key == Key::Char('b') {
                res == Some(WorldIntent::OpenBackups) && after == self
            } else if is_detail_mutation_key(key) {
                detail_mutation(key, slot.id@, res) && after == self
            } else if detail_prompt(key) is Some {
                res is None && (after.input matches Some((k, v)) && k == detail_prompt(key).unwrap()
                    && v@.len() == 0) && after == (WorldsState { input: after.input, ..self })
            } else {
                res is None && after == self
            },
        }
    }

    fn handle_detail_key(&mut self, key: Key) -> (res: Option<WorldIntent>)
        requires
            old(self).input is None,
        ensures
            old(self).detail_effect(key, *final(self), res),
    {
        let slot_id = match self.selected_slot() {
            Some(slot) => slot.id.clone(),
            None => return None,
        };
        match key {
            Key::Esc => {
                self.detail_open = false;
            },
            Key::Char('b') => return Some(WorldIntent::OpenBackups),
            Key::Char('n') => self.begin_input(WorldInputKind::Rename),
            Key::Char('d') => {
                return Some(WorldIntent::Confirm(WorldMutation::Delete { slot_id }));
            },
            Key::Char('u') => {
                return Some(WorldIntent::Confirm(WorldMutation::Duplicate { slot_id }));
            },
            Key::Char('s') => {
                return Some(WorldIntent::Confirm(WorldMutation::SaveCurrent { slot_id }));
            },
            Key::Char('a') => {
                return Some(WorldIntent::Confirm(WorldMutation::Activate { slot_id }));
            },
            Key::Char('p') => self.begin_input(WorldInputKind::Copy),
            Key::Char('N') => self.begin_input(WorldInputKind::RenameActive),
            Key::Char('l') => self.begin_input(WorldInputKind::ReplaceActive),
            Key::Char('e') => self.begin_input(WorldInputKind::Export),
            Key::Char('v') => self.begin_input(WorldInputKind::Convert),
            Key::Char('R') => {
                return Some(WorldIntent::Confirm(WorldMutation::Repair { slot_id }));
            },
            _ => {},
        }
        None
    }

    fn handle_input(&mut self, key: Key) -> (res: Option<WorldIntent>)
        requires
            old(self).input is Some,
        ensures
            match old(self).input {
                Some((kind, value)) => match prompt_edit(key) {
                    PromptEdit::Cancel => res is None && *final(self) == (WorldsState {
                        input: None,
                        ..*old(self)
                    }),
                    PromptEdit::Keep => res is None && (final(self).input matches Some((k, v))
                        && k == kind && v@ == edited(value@, key)) && *final(self) == (
                    WorldsState { input: final(self).input, ..*old(self) }),
                    PromptEdit::Submit => world_submission(
                        kind,
                        value@,
                        old(self).selected_id_spec(),
                        res,
                    ) && *final(self) == (WorldsState { input: None, ..*old(self) }),
                },
                None => false,
            },
    {
        let (kind, mut value) = match self.input.take() {
            Some(pair) => pair,
            None => return None,
        };
        match edit_prompt(&mut value, key) {
            PromptEdit::Cancel => None,
            PromptEdit::Submit => self.finish_input(kind, value),
            PromptEdit::Keep => {
                self.input = Some((kind, value));
                None
            },
        }
    }

    fn finish_input(&self, kind: WorldInputKind, value: String) -> (res: Option<WorldIntent>)
        ensures
            world_submission(kind, value@, self.selected_id_spec(), res),
    {
        let v = trim_vec(chars_of(value.as_str()).as_slice());
        let text = string_of(v.as_slice());
        let mutation = match kind {
            WorldInputKind::Create => {
                if v.len() == 0 {
                    return None;
                }
                WorldMutation::Create { name: text }
            },
            WorldInputKind::Rename => {
                if v.len() == 0 {
                    return None;
                }
                let slot_id = match self.selected_slot_id() {
                    Some(id) => id.to_owned(),
                    None => return None,
                };
                WorldMutation::Rename { slot_id, name: text }
            },
            WorldInputKind::RenameActive => {
                if v.len() == 0 {
                    return None;
                }
                WorldMutation::RenameActive { name: text }
            },
            WorldInputKind::Copy => {
                if v.len() == 0 {
                    return None;
                }
                let destination_slot_id = match self.selected_slot_id() {
                    Some(id) => id.to_owned(),
                    None => return None,
                };
                WorldMutation::Copy { destination_slot_id, source_slot_id: text }
            },
            WorldInputKind::Import => {
                let bar = vec!['|'];
                proof {
                    assert(bar@ == seq!['|']);
                }
                match split_once_exec(v.as_slice(), bar.as_slice()) {
                    Some((before, after)) => {
                        let path = string_of(trim_vec(before.as_slice()).as_slice());
                        let name = string_of(trim_vec(after.as_slice()).as_slice());
                        WorldMutation::Import { path, name }
                    },
                    None => return None,
                }
            },
            WorldInputKind::ReplaceActive => {
                let parts = trimmed_parts_exec(v.as_slice());
                proof {
                    lemma_split_nonempty(v@, '|', Seq::<char>::empty());
                    assert(parts.deep_view().len() == parts@.len());
                    assert(parts.deep_view()[0] == parts@[0]@);
                    if parts@.len() >= 2 {
                        assert(parts.deep_view()[1] == parts@[1]@);
                    }
                }
                let level_name = string_of(parts[0].as_slice());
                let staged_upload_id = if parts.len() >= 2 && parts[1].len() > 0 {
                    Some(string_of(parts[1].as_slice()))
                } else {
                    None
                };
                WorldMutation::ReplaceActive { level_name, staged_upload_id }
            },
            WorldInputKind::Export => {
                if v.len() == 0 {
                    return None;
                }
                let slot_id = match self.selected_slot_id() {
                    Some(id) => id.to_owned(),
                    None => return None,
                };
                WorldMutation::Export { slot_id, output: text }
            },
            WorldInputKind::Convert => {
                let parts = trimmed_parts_exec(v.as_slice());
                proof {
                    assert(parts.deep_view().len() == parts@.len());
                }
                if parts.len() < 3 {
                    return None;
                }
                proof {
                    assert(parts.deep_view()[0] == parts@[0]@);
                    assert(parts.deep_view()[1] == parts@[1]@);
                    assert(parts.deep_view()[2] == parts@[2]@);
                }
                let target_server_id = string_of(parts[0].as_slice());
                let target_format = string_of(parts[1].as_slice());
                let prefix = chars_of("slot:");
                let (target_name, target_slot_id) = if starts_with_exec(
                    parts[2].as_slice(),
                    prefix.as_slice(),
                ) {
                    let rest = strip_prefixes_exec(parts[2].as_slice(), prefix.as_slice());
                    (None, Some(string_of(trim_vec(rest.as_slice()).as_slice())))
                } else {
                    (Some(string_of(parts[2].as_slice())), None)
                };
                let source_slot_id = match self.selected_slot_id() {
                    Some(id) => id.to_owned(),
                    None => return None,
                };
                WorldMutation::Convert {
                    source_slot_id,
                    target_server_id,
                    target_format,
                    target_name,
                    target_slot_id,
                }
            },
        };
        Some(WorldIntent::Confirm(mutation))
    }

    fn begin_input(&mut self, kind: WorldInputKind)
        ensures
            final(self).input matches Some((k, v)) && k == kind && v@.len() == 0,
            *final(self) == (WorldsState { input: final(self).input, ..*old(self) }),
    {
        self.input = Some((kind, String::new()));
    }

    fn move_selection(&mut self, offset: isize)
        requires
            offset == 1 || offset == -1,
        ensures
            *final(self) == old(self).moved(offset as int),
    {
        let count = self.slots().len();
        if count > 0 {
            self.selected_slot = wrap_selection(self.selected_slot, offset, count);
        }
    }

    fn normalize_selection(&mut self)
        ensures
            *final(self) == (WorldsState {
                selected_slot: if old(self).slots_spec().len() == 0 {
                    0
                } else if old(self).selected_slot < old(self).slots_spec().len() {
                    old(self).selected_slot
                } else {
                    (old(self).slots_spec().len() - 1) as usize
                },
                ..*old(self)
            }),
    {
        let count = self.slots().len();
        let last = if count == 0 {
            0
        } else {
            count - 1
        };
        if self.selected_slot > last {
            self.selected_slot = last;
        }
    }
}

/// There is always at least one piece after splitting.
proof fn lemma_split_nonempty(s: Seq<char>, sep: char, cur: Seq<char>)
    ensures
        crate::text::split_from(s, sep, cur).len() >= 1,
    decreases s.len(),
{
    if s.len() > 0 {
        if s[0] == sep {
            lemma_split_nonempty(s.drop_first(), sep, seq![]);
        } else {
            lemma_split_nonempty(s.drop_first(), sep, cur.push(s[0]));
        }
    }
}

/// The trimmed pieces of `value` between `|` characters (executable).
fn trimmed_parts_exec(value: &[char]) -> (res: Vec<Vec<char>>)
    ensures
        res.deep_view() == trimmed_parts(value@),
{
    let parts = split_exec(value, '|');
    let mut out: Vec<Vec<char>> = Vec::new();
    let mut i: usize = 0;
    while i < parts.len()
        invariant
            i <= parts.len(),
            parts.deep_view() == split(value@, '|'),
            out.deep_view() == trimmed_parts(value@).take(i as int),
        decreases parts.len() - i,
    {
        assert(parts.deep_view()[i as int] == parts@[i as int]@);
        let t = trim_vec(parts[i].as_slice());
        let ghost before = out;
        out.push(t);
        proof {
            crate::text::lemma_push_deep_view(before, t, out);
            assert(trimmed_parts(value@).take(i + 1) =~= trimmed_parts(value@).take(i as int).push(t@));
        }
        i += 1;
    }
    assert(trimmed_parts(value@).take(parts.len() as int) =~= trimmed_parts(value@));
    out
}

/// `s` without every leading repetition of `p` (executable).
fn strip_prefixes_exec(s: &[char], p: &[char]) -> (res: Vec<char>)
    ensures
        res@ == strip_prefixes(s@, p@),
{
    let mut rest = slice_vec(s, 0, s.len());
    assert(rest@ =~= s@);
    if p.len() == 0 {
        return rest;
    }
    while starts_with_exec(rest.as_slice(), p)
        invariant
            p.len() > 0,
            strip_prefixes(rest@, p@) == strip_prefixes(s@, p@),
        decreases rest.len(),
    {
        let n = rest.len();
        rest = slice_vec(rest.as_slice(), p.len(), n);
    }
    rest
}

/// The outcome of a mutation the agent answered with a success flag and a
/// message: a refused mutation is reported as the operator's error.
pub fn mutation_result(success: bool, message: String, operation_id: Option<String>) -> (res: Result<
    WorldMutationResult,
    CliError,
>)
    ensures
        success ==> res == Ok::<WorldMutationResult, CliError>(
            WorldMutationResult { message, operation_id },
        ),
        !success ==> res == Err::<WorldMutationResult, CliError>(CliError::Usage { message }),
{
    if success {
        Ok(WorldMutationResult { message, operation_id })
    } else {
        Err(CliError::usage(message))
    }
}

/// The agent route that carries out `m`.
pub open spec fn world_route_text(m: WorldMutation) -> Seq<char> {
    match m {
        WorldMutation::Create { .. } => "/v1/worlds/create"@,
        WorldMutation::Rename { .. } => "/v1/worlds/rename"@,
        WorldMutation::RenameActive { .. } => "/v1/worlds/rename-active-world"@,
        WorldMutation::Delete { .. } => "/v1/worlds/delete"@,
        WorldMutation::Duplicate { .. } => "/v1/worlds/duplicate"@,
        WorldMutation::Copy { .. } => "/v1/worlds/replace"@,
        WorldMutation::SaveCurrent { .. } => "/v1/worlds/update"@,
        WorldMutation::Activate { .. } => "/v1/worlds/activate"@,
        WorldMutation::ReplaceActive { .. } => "/v1/worlds/replace-active-world"@,
        WorldMutation::Export { .. } => "/v1/worlds/export"@,
        WorldMutation::Import { .. } => "/v1/worlds/import"@,
        WorldMutation::Convert { .. } => "/v1/worlds/convert"@,
        WorldMutation::Repair { .. } => "/v1/worlds/repair"@,
    }
}

/// The agent route that carries out `mutation`.
pub fn world_route(mutation: &WorldMutation) -> (res: &'static str)
    ensures
        res@ == world_route_text(*mutation),
{
    match mutation {
        WorldMutation::Create { .. } => "/v1/worlds/create",
        WorldMutation::Rename { .. } => "/v1/worlds/rename",
        WorldMutation::RenameActive { .. } => "/v1/worlds/rename-active-world",
        WorldMutation::Delete { .. } => "/v1/worlds/delete",
        WorldMutation::Duplicate { .. } => "/v1/worlds/duplicate",
        WorldMutation::Copy { .. } => "/v1/worlds/replace",
        WorldMutation::SaveCurrent { .. } => "/v1/worlds/update",
        WorldMutation::Activate { .. } => "/v1/worlds/activate",
        WorldMutation::ReplaceActive { .. } => "/v1/worlds/replace-active-world",
        WorldMutation::Export { .. } => "/v1/worlds/export",
        WorldMutation::Import { .. } => "/v1/worlds/import",
        WorldMutation::Convert { .. } => "/v1/worlds/convert",
        WorldMutation::Repair { .. } => "/v1/worlds/repair",
    }
}

/// The agent's answer to a world mutation: a success flag with a message,
/// or the text of an accepted operation.
#[derive(Debug, Clone, PartialEq, Eq)]
pub enum WorldReply {
    Outcome { success: bool, message: String },
    Accepted { result: String, operation_id: Option<String> },
}

/// The reported outcome of a world mutation once the agent answered.
pub fn world_result(reply: WorldReply) -> (res: Result<WorldMutationResult, CliError>)
    ensures
        match reply {
            WorldReply::Outcome { success, message } => if success {
                res == Ok::<WorldMutationResult, CliError>(
                    WorldMutationResult { message, operation_id: None },
                )
            } else {
                res == Err::<WorldMutationResult, CliError>(CliError::Usage { message })
            },
            WorldReply::Accepted { result, operation_id } => res == Ok::<
                WorldMutationResult,
                CliError,
            >(WorldMutationResult { message: result, operation_id }),
        },
{
    match reply {
        WorldReply::Outcome { success, message } => mutation_result(success, message, None),
        WorldReply::Accepted { result, operation_id } => Ok(
            WorldMutationResult { message: result, operation_id },
        ),
    }
}

/// The message of a finished export: `Exported <n> bytes to <path>`.
pub fn export_message(bytes: usize, output: &str) -> (res: String)
    ensures
        res@ == "Exported "@ + crate::text::decimal(bytes as nat) + " bytes to "@ + output@,
{
    let mut text = crate::text::concat_str(String::new(), "Exported ");
    let digits = string_of(crate::text::decimal_exec(bytes as u64).as_slice());
    text = crate::text::concat_str(text, digits.as_str());
    text = crate::text::concat_str(text, " bytes to ");
    text = crate::text::concat_str(text, output);
    assert(text@ =~= "Exported "@ + crate::text::decimal(bytes as nat) + " bytes to "@ + output@);
    text
}

/// The body that the world view sends for a change.
#[derive(Debug, Clone, PartialEq, Eq)]
pub enum WorldRequest {
    /// A new world, without a seed.
    Create { name: String },
    Rename { slot_id: String, name: String },
    RenameActive { name: String },
    Delete { slot_id: String },
    Duplicate { slot_id: String },
    /// Replace the world of `slot_id` with that of `source_slot_id`.
    Replace { slot_id: String, source_slot_id: String },
    /// An empty JSON object.
    Empty,
    Activate { slot_id: String },
    ReplaceActive { new_level_name: String, staged_upload_id: Option<String> },
    Export { slot_id: String },
    /// Stage the archive read from `path` as a `application/zip` world
    /// import, then import it under `name` with no backup.
    Import { path: String, name: String },
    Convert {
        source_slot_id: String,
        target_server_id: String,
        target_format: String,
        target_name: Option<String>,
        target_slot_id: Option<String>,
    },
    Repair { slot_id: String },
}

/// The body that carries out `mutation`: each field as the mutation holds
/// it; a copy replaces the destination slot with the source; saving the
/// current world sends nothing; the level name of a replacement is the
/// new level name.
pub fn world_request(mutation: WorldMutation) -> (res: WorldRequest)
    ensures
        match mutation {
            WorldMutation::Create { name } => res == (WorldRequest::Create { name }),
            WorldMutation::Rename { slot_id, name } => res == (WorldRequest::Rename { slot_id, name }),
            WorldMutation::RenameActive { name } => res == (WorldRequest::RenameActive { name }),
            WorldMutation::Delete { slot_id } => res == (WorldRequest::Delete { slot_id }),
            WorldMutation::Duplicate { slot_id } => res == (WorldRequest::Duplicate { slot_id }),
            WorldMutation::Copy { destination_slot_id, source_slot_id } => res == (
            WorldRequest::Replace { slot_id: destination_slot_id, source_slot_id }),
            WorldMutation::SaveCurrent { .. } => res == WorldRequest::Empty,
            WorldMutation::Activate { slot_id } => res == (WorldRequest::Activate { slot_id }),
            WorldMutation::ReplaceActive { level_name, staged_upload_id } => res == (
            WorldRequest::ReplaceActive { new_level_name: level_name, staged_upload_id }),
            WorldMutation::Export { slot_id, .. } => res == (WorldRequest::Export { slot_id }),
            WorldMutation::Import { path, name } => res == (WorldRequest::Import { path, name }),
            WorldMutation::Convert {
                source_slot_id,
                target_server_id,
                target_format,
                target_name,
                target_slot_id,
            } => res == (WorldRequest::Convert {
                source_slot_id,
                target_server_id,
                target_format,
                target_name,
                target_slot_id,
            }),
            WorldMutation::Repair { slot_id } => res == (WorldRequest::Repair { slot_id }),
        },
{
    match mutation {
        WorldMutation::Create { name } => WorldRequest::Create { name },
        WorldMutation::Rename { slot_id, name } => WorldRequest::Rename { slot_id, name },
        WorldMutation::RenameActive { name } => WorldRequest::RenameActive { name },
        WorldMutation::Delete { slot_id } => WorldRequest::Delete { slot_id },
        WorldMutation::Duplicate { slot_id } => WorldRequest::Duplicate { slot_id },
        WorldMutation::Copy { destination_slot_id, source_slot_id } => WorldRequest::Replace {
            slot_id: destination_slot_id,
            source_slot_id,
        },
        WorldMutation::SaveCurrent { .. } => WorldRequest::Empty,
        WorldMutation::Activate { slot_id } => WorldRequest::Activate { slot_id },
        WorldMutation::ReplaceActive { level_name, staged_upload_id } => WorldRequest::ReplaceActive {
            new_level_name: level_name,
            staged_upload_id,
        },
        WorldMutation::Export { slot_id, .. } => WorldRequest::Export { slot_id },
        WorldMutation::Import { path, name } => WorldRequest::Import { path, name },
        WorldMutation::Convert {
            source_slot_id,
            target_server_id,
            target_format,
            target_name,
            target_slot_id,
        } => WorldRequest::Convert {
            source_slot_id,
            target_server_id,
            target_format,
            target_name,
            target_slot_id,
        },
        WorldMutation::Repair { slot_id } => WorldRequest::Repair { slot_id },
    }
}

} // verus!
