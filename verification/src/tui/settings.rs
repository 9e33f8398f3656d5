//! Keyboard-first server settings backed by the agent's schema response.
//!
//! The console does not know `server.properties` policy: it shows the
//! sections and values that the agent supplies and sends sparse changes
//! back.

use vstd::prelude::*;
use crate::text::{
    chars_of, is_literal, string_of, to_ascii_lowercase, to_ascii_lowercase_exec, trim, trim_vec,
};
use crate::tui::input::{Key, PromptEdit, edit_prompt, edited, prompt_edit, wrap_selection, wrapped};

verus! {

/// A change of settings: each key with its new value, no key twice.
#[derive(Debug, Clone, PartialEq, Eq)]
pub enum SettingsMutation {
    Update { changes: Vec<(String, String)> },
}

/// What a key press asks of the console beyond the settings view.
#[derive(Debug, Clone, PartialEq, Eq)]
pub enum SettingsIntent {
    Confirm(SettingsMutation),
}

/// One setting as the agent described it.
#[derive(Debug, Clone, PartialEq, Eq)]
pub struct SettingField {
    pub key: String,
    pub label: String,
    pub value: String,
    /// The value's type as the agent names it (`boolean`, `integer`, ...).
    pub kind: String,
    pub unit: Option<String>,
    pub help_id: Option<String>,
    /// The labels of the allowed values, where the agent lists them.
    pub options: Option<Vec<String>>,
}

/// One section of settings.
#[derive(Debug, Clone, PartialEq, Eq)]
pub struct SettingsSection {
    pub title: String,
    pub fields: Vec<SettingField>,
}

/// The agent's settings answer, as far as the view reads it.
#[derive(Debug, Clone, PartialEq, Eq)]
pub struct SettingsSnapshot {
    pub server_name: String,
    pub server_type: String,
    pub sections: Vec<SettingsSection>,
    pub editable: bool,
}

/// The settings view's state.
#[derive(Debug, Clone)]
pub struct SettingsState {
    pub response: Option<SettingsSnapshot>,
    pub selected_section: usize,
    pub selected_field: usize,
    pub input: Option<(String, String)>,
    pub loaded: bool,
    pub error: Option<String>,
    pub status: Option<String>,
}

/// `value` reads as true: trimmed and lower-cased it is `true`, `yes`, `on`
/// or `1`.
pub open spec fn reads_true(value: Seq<char>) -> bool {
    let v = to_ascii_lowercase(trim(value));
    v == "true"@ || v == "yes"@ || v == "on"@ || v == "1"@
}

/// The section that a digit key `1`-`9` selects.
pub open spec fn digit_section(key: Key) -> Option<int> {
    match key {
        Key::Char(c) => if '1' <= c <= '9' {
            Some(c as int - '1' as int)
        } else {
            None
        },
        _ => None,
    }
}

/// The field step that `key` asks for: down is `1`, up is `-1`.
pub open spec fn field_step(key: Key) -> Option<int> {
    match key {
        Key::Char('j') | Key::Down => Some(1),
        Key::Char('k') | Key::Up => Some(-1),
        _ => None,
    }
}

/// `res` asks to set exactly the key `k` to `v`.
pub open spec fn confirms_change(res: Option<SettingsIntent>, k: Seq<char>, v: Seq<char>) -> bool {
    res matches Some(SettingsIntent::Confirm(SettingsMutation::Update { changes }))
        && changes@.len() == 1 && changes@[0].0@ == k && changes@[0].1@ == v
}

impl SettingsState {
    /// The view over a fresh answer of the agent.
    pub fn for_response(response: SettingsSnapshot) -> (res: Self)
        ensures
            res.response == Some(response),
            res.selected_section == 0,
            res.selected_field == 0,
            res.input is None,
            res.loaded,
            res.error is None,
            res.status is None,
    {
        SettingsState {
            response: Some(response),
            selected_section: 0,
            selected_field: 0,
            input: None,
            loaded: true,
            error: None,
            status: None,
        }
    }

    /// The field under the cursor, where there is one.
    pub open spec fn selected_field_spec(self) -> Option<SettingField> {
        match self.response {
            Some(r) => if self.selected_section < r.sections.len() && self.selected_field
                < r.sections@[self.selected_section as int].fields.len() {
                Some(r.sections@[self.selected_section as int].fields@[self.selected_field as int])
            } else {
                None
            },
            None => None,
        }
    }

    /// The agent lets the settings be edited.
    pub open spec fn editable_spec(self) -> bool {
        self.response matches Some(r) && r.editable
    }

    /// The field under the cursor, where there is one.
    pub fn selected_field(&self) -> (res: Option<&SettingField>)
        ensures
            match res {
                Some(f) => self.selected_field_spec() == Some(*f),
                None => self.selected_field_spec() is None,
            },
    {
        match &self.response {
            Some(response) => {
                if self.selected_section < response.sections.len() {
                    let section = &response.sections[self.selected_section];
                    if self.selected_field < section.fields.len() {
                        return Some(&section.fields[self.selected_field]);
                    }
                }
                None
            },
            None => None,
        }
    }

    /// Selects a section that exists, with its first field and no prompt;
    /// any other section number changes nothing.
    pub fn select_section(&mut self, section: usize)
        ensures
            if old(self).response matches Some(r) && section < r.sections.len() {
                *final(self) == (SettingsState {
                    selected_section: section,
                    selected_field: 0,
                    input: None,
                    ..*old(self)
                })
            } else {
                *final(self) == *old(self)
            },
    {
        let exists = match &self.response {
            Some(response) => section < response.sections.len(),
            None => false,
        };
        if exists {
            self.selected_section = section;
            self.selected_field = 0;
            self.input = None;
        }
    }

    /// Handles one key press: an open prompt takes every key; otherwise
    /// digits select a section, `j`/`k` move through the fields, Enter or
    /// `e` open a prompt on an editable field, space flips a boolean field,
    /// and `r` asks for a reload.
    pub fn handle_key(&mut self, key: Key) -> (res: Option<SettingsIntent>)
        ensures
            match old(self).input {
                Some((name, value)) => match prompt_edit(key) {
                    PromptEdit::Cancel => res is None && *final(self) == (SettingsState {
                        input: None,
                        ..*old(self)
                    }),
                    PromptEdit::Keep => res is None && (final(self).input matches Some((k, v))
                        && k@ == name@ && v@ == edited(value@, key)) && *final(self) == (
                    SettingsState { input: final(self).input, ..*old(self) }),
                    PromptEdit::Submit => *final(self) == (SettingsState {
                        input: None,
                        ..*old(self)
                    }) && if trim(name@).len() > 0 {
                        confirms_change(res, trim(name@), value@)
                    } else {
                        res is None
                    },
                },
                None => old(self).key_effect(key, *final(self), res),
            },
    {
        let taken = self.input.take();
        if let Some((key_name, value)) = taken {
            return self.handle_input(key_name, value, key);
        }
        match key {
            Key::Char(c) if '1' <= c && c <= '9' => {
                let section = (c as u32 - '1' as u32) as usize;
                self.select_section(section);
            },
            Key::Char('j') | Key::Down => self.move_field(1),
            Key::Char('k') | Key::Up => self.move_field(-1),
            Key::Enter | Key::Char('e') => {
                let editable = match &self.response {
                    Some(response) => response.editable,
                    None => false,
                };
                if editable {
                    match self.selected_field() {
                        Some(field) => {
                            let opened = (field.key.clone(), field.value.clone());
                            self.input = Some(opened);
                        },
                        None => {},
                    }
                }
            },
            Key::Char(' ') => {
                let field = match self.selected_field() {
                    Some(field) => field,
                    None => return None,
                };
                let editable = match &self.response {
                    Some(response) => response.editable,
                    None => false,
                };
                let kind = chars_of(field.kind.as_str());
                let lowered = to_ascii_lowercase_exec(kind.as_slice());
                if is_literal(lowered.as_slice(), "boolean") && editable {
                    let value = if is_true(field.value.as_str()) {
                        "false"
                    } else {
                        "true"
                    };
                    let mut changes: Vec<(String, String)> = Vec::new();
                    changes.push((field.key.clone(), value.to_owned()));
                    return Some(SettingsIntent::Confirm(SettingsMutation::Update { changes }));
                }
            },
            Key::Char('r') => {
                self.loaded = false;
            },
            _ => {},
        }
        None
    }

    /// What a key does while no prompt is open.
    pub open spec fn key_effect(self, key: Key, after: SettingsState, res: Option<SettingsIntent>) -> bool {
        if digit_section(key) is Some {
            res is None && if self.response matches Some(r) && digit_section(key).unwrap()
                < r.sections.len() {
                after == (SettingsState {
                    selected_section: digit_section(key).unwrap() as usize,
                    selected_field: 0,
                    input: None,
                    ..self
                })
            } else {
                after == self
            }
        } else if field_step(key) is Some {
            res is None && after == self.moved(field_step(key).unwrap())
        } else if key == Key::Enter || key == Key::Char('e') {
            res is None && if self.editable_spec() && self.selected_field_spec() is Some {
                (after.input matches Some((k, v)) && k@ == self.selected_field_spec().unwrap().key@
                    && v@ == self.selected_field_spec().unwrap().value@) && after == (
                SettingsState { input: after.input, ..self })
            } else {
                after == self
            }
        } else if key == Key::Char(' ') {
            after == self && match self.selected_field_spec() {
                Some(f) => if to_ascii_lowercase(f.kind@) == "boolean"@ && self.editable_spec() {
                    confirms_change(
                        res,
                        f.key@,
                        if reads_true(f.value@) {
                            "false"@
                        } else {
                            "true"@
                        },
                    )
                } else {
                    res is None
                },
                None => res is None,
            }
        } else if key == Key::Char('r') {
            res is None && after == (SettingsState { loaded: false, ..self })
        } else {
            res is None && after == self
        }
    }

    /// The state after moving the field cursor by `offset` within the
    /// selected section, wrapping at both ends; in an empty section the
    /// cursor goes to the top, without a section nothing changes.
    pub open spec fn moved(self, offset: int) -> SettingsState {
        match self.response {
            Some(r) => if self.selected_section < r.sections.len() {
                let n = r.sections@[self.selected_section as int].fields.len();
                if n == 0 {
                    SettingsState { selected_field: 0, ..self }
                } else {
                    SettingsState {
                        selected_field: wrapped(self.selected_field as int, offset, n as int) as usize,
                        ..self
                    }
                }
            } else {
                self
            },
            None => self,
        }
    }

    fn move_field(&mut self, offset: isize)
        requires
            offset == 1 || offset == -1,
        ensures
            *final(self) == old(self).moved(offset as int),
    {
        let count = match &self.response {
            Some(response) => {
                if self.selected_section < response.sections.len() {
                    Some(response.sections[self.selected_section].fields.len())
                } else {
                    None
                }
            },
            None => None,
        };
        match count {
            None => {},
            Some(n) => {
                if n == 0 {
                    self.selected_field = 0;
                } else {
                    self.selected_field = wrap_selection(self.selected_field, offset, n);
                }
            },
        }
    }

    fn handle_input(&mut self, key_name: String, value: String, key: Key) -> (res: Option<
        SettingsIntent,
    >)
        requires
            old(self).input is None,
        ensures
            match prompt_edit(key) {
                PromptEdit::Cancel => res is None && *final(self) == *old(self),
                PromptEdit::Keep => res is None && (final(self).input matches Some((k, v)) && k@
                    == key_name@ && v@ == edited(value@, key)) && *final(self) == (SettingsState {
                    input: final(self).input,
                    ..*old(self)
                }),
                PromptEdit::Submit => *final(self) == *old(self) && if trim(key_name@).len() > 0 {
                    confirms_change(res, trim(key_name@), value@)
                } else {
                    res is None
                },
            },
    {
        let mut value = value;
        match edit_prompt(&mut value, key) {
            PromptEdit::Cancel => None,
            PromptEdit::Keep => {
                self.input = Some((key_name, value));
                None
            },
            PromptEdit::Submit => {
                let name = trim_vec(chars_of(key_name.as_str()).as_slice());
                if name.len() > 0 {
                    let mut changes: Vec<(String, String)> = Vec::new();
                    changes.push((string_of(name.as_slice()), value));
                    Some(SettingsIntent::Confirm(SettingsMutation::Update { changes }))
                } else {
                    None
                }
            },
        }
    }
}

/// Whether a setting's text reads as true: trimmed and lower-cased it is
/// `true`, `yes`, `on` or `1`.
pub fn is_true(value: &str) -> (res: bool)
    ensures
        res == reads_true(value@),
{
    let trimmed = trim_vec(chars_of(value).as_slice());
    let v = to_ascii_lowercase_exec(trimmed.as_slice());
    is_literal(v.as_slice(), "true") || is_literal(v.as_slice(), "yes") || is_literal(
        v.as_slice(),
        "on",
    ) || is_literal(v.as_slice(), "1")
}

} // verus!
