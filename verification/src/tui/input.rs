//! Keys and the editing of a one-line text prompt.

use vstd::prelude::*;

verus! {

/// The keys that the console's views tell apart.
#[derive(Debug, Clone, Copy, PartialEq, Eq)]
pub enum Key {
    Char(char),
    Enter,
    Esc,
    Backspace,
    Up,
    Down,
    Other,
}

/// Removes the last character of a string (`String::pop`).
#[verifier::external_body]
pub(crate) fn pop_char(s: &mut String) -> (res: Option<char>)
    ensures
        old(s)@.len() == 0 ==> res is None && final(s)@ == old(s)@,
        old(s)@.len() > 0 ==> res == Some(old(s)@.last()) && final(s)@ == old(s)@.drop_last(),
{
    s.pop()
}

/// What a key does to the text of an open prompt.
#[derive(Debug, Clone, Copy, PartialEq, Eq)]
pub enum PromptEdit {
    /// The prompt is closed and its text dropped.
    Cancel,
    /// The prompt is closed and its text submitted.
    Submit,
    /// The prompt stays open with the edited text.
    Keep,
}

/// The prompt text after `key`: Backspace removes the last character, a
/// character key appends itself, every other key leaves the text alone.
pub open spec fn edited(value: Seq<char>, key: Key) -> Seq<char> {
    match key {
        Key::Backspace => if value.len() > 0 {
            value.drop_last()
        } else {
            value
        },
        Key::Char(c) => value.push(c),
        _ => value,
    }
}

/// What `key` does to an open prompt: Esc cancels it, Enter submits it, any
/// other key keeps it open.
pub open spec fn prompt_edit(key: Key) -> PromptEdit {
    match key {
        Key::Esc => PromptEdit::Cancel,
        Key::Enter => PromptEdit::Submit,
        _ => PromptEdit::Keep,
    }
}

/// Applies `key` to the text of an open prompt.
pub fn edit_prompt(value: &mut String, key: Key) -> (res: PromptEdit)
    ensures
        res == prompt_edit(key),
        final(value)@ == edited(old(value)@, key),
{
    match key {
        Key::Esc => PromptEdit::Cancel,
        Key::Enter => PromptEdit::Submit,
        Key::Backspace => {
            pop_char(value);
            PromptEdit::Keep
        },
        Key::Char(c) => {
            crate::text::push_char(value, c);
            PromptEdit::Keep
        },
        _ => PromptEdit::Keep,
    }
}

/// The position reached from `selected` by `offset` steps in a list of
/// `len` entries, wrapping at both ends (`rem_euclid`).
pub open spec fn wrapped(selected: int, offset: int, len: int) -> int {
    (selected + offset) % len
}

/// Moves a selection one entry forward (`offset == 1`) or back
/// (`offset == -1`) in a non-empty list, wrapping at both ends.
pub fn wrap_selection(selected: usize, offset: isize, len: usize) -> (res: usize)
    requires
        len > 0,
        offset == 1 || offset == -1,
    ensures
        res == wrapped(selected as int, offset as int, len as int),
        res < len,
{
    let r = selected % len;
    proof {
        lemma_wrap_step(selected as int, offset as int, len as int);
    }
    if offset == 1 {
        if r + 1 == len {
            0
        } else {
            r + 1
        }
    } else {
        if r == 0 {
            len - 1
        } else {
            r - 1
        }
    }
}

proof fn lemma_wrap_step(selected: int, offset: int, len: int)
    requires
        len > 0,
        selected >= 0,
        offset == 1 || offset == -1,
    ensures
        offset == 1 ==> wrapped(selected, offset, len) == if selected % len + 1 == len {
            0
        } else {
            selected % len + 1
        },
        offset == -1 ==> wrapped(selected, offset, len) == if selected % len == 0 {
            len - 1
        } else {
            selected % len - 1
        },
{
    let q = selected / len;
    let r = selected % len;
    vstd::arithmetic::div_mod::lemma_fundamental_div_mod(selected, len);
    assert((q + 1) * len == q * len + len) by (nonlinear_arith);
    assert((q - 1) * len == q * len - len) by (nonlinear_arith);
    if offset == 1 {
        if r + 1 == len {
            vstd::arithmetic::div_mod::lemma_fundamental_div_mod_converse(selected + 1, len, q + 1, 0);
        } else {
            vstd::arithmetic::div_mod::lemma_fundamental_div_mod_converse(selected + 1, len, q, r + 1);
        }
    } else {
        if r == 0 {
            vstd::arithmetic::div_mod::lemma_fundamental_div_mod_converse(selected - 1, len, q - 1, len - 1);
        } else {
            vstd::arithmetic::div_mod::lemma_fundamental_div_mod_converse(selected - 1, len, q, r - 1);
        }
    }
}

} // verus!
