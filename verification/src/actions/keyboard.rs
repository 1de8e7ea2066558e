//! Keys pressed while the history window has the focus.
use vstd::prelude::*;

use crate::actions::clipboard_changed::{
    active_or_paste_from_clipboard_by_index, activated, after_next, after_previous,
    next_clipboard_active, previous_clipboard_active, ClipboardHistoryActiveState,
    ClipboardHistoryListState, IndexAction,
};

verus! {

/// The keys the history window reacts to; every other key is `Other`.
#[derive(Debug, Clone, Copy, PartialEq, Eq, Structural)]
pub enum KeyCode {
    ArrowDown,
    ArrowUp,
    Enter,
    Escape,
    Digit1,
    Digit2,
    Digit3,
    Digit4,
    Digit5,
    Digit6,
    Numpad1,
    Numpad2,
    Numpad3,
    Numpad4,
    Numpad5,
    Numpad6,
    Other,
}

/// What is left for the caller after a key press.
#[derive(Debug, Clone, Copy, PartialEq, Eq, Structural)]
pub enum KeydownAction {
    /// Nothing more (the active mark may have moved).
    Done,
    /// Hide the window.
    Hide,
    /// Paste the active entry.
    Paste,
}

/// The position a digit key selects: 1 and keypad 1 the first entry, up to 6.
pub open spec fn digit_index(key: KeyCode) -> Option<usize> {
    match key {
        KeyCode::Digit1 | KeyCode::Numpad1 => Some(0),
        KeyCode::Digit2 | KeyCode::Numpad2 => Some(1),
        KeyCode::Digit3 | KeyCode::Numpad3 => Some(2),
        KeyCode::Digit4 | KeyCode::Numpad4 => Some(3),
        KeyCode::Digit5 | KeyCode::Numpad5 => Some(4),
        KeyCode::Digit6 | KeyCode::Numpad6 => Some(5),
        _ => None,
    }
}

/// Digit keys 1 to 6 select positions 0 to 5, and each keypad digit key
/// selects the same position as the digit key with its number; no other key
/// selects a position.
pub proof fn law_digit_keys_select_positions(key: KeyCode)
    ensures
        digit_index(KeyCode::Digit1) == Some(0usize) && digit_index(KeyCode::Numpad1) == Some(0usize),
        digit_index(KeyCode::Digit2) == Some(1usize) && digit_index(KeyCode::Numpad2) == Some(1usize),
        digit_index(KeyCode::Digit3) == Some(2usize) && digit_index(KeyCode::Numpad3) == Some(2usize),
        digit_index(KeyCode::Digit4) == Some(3usize) && digit_index(KeyCode::Numpad4) == Some(3usize),
        digit_index(KeyCode::Digit5) == Some(4usize) && digit_index(KeyCode::Numpad5) == Some(4usize),
        digit_index(KeyCode::Digit6) == Some(5usize) && digit_index(KeyCode::Numpad6) == Some(5usize),
        (key == KeyCode::ArrowDown || key == KeyCode::ArrowUp || key == KeyCode::Enter || key
            == KeyCode::Escape || key == KeyCode::Other) ==> digit_index(key) is None,
{
}

fn digit_position(key: KeyCode) -> (r: Option<usize>)
    ensures
        r == digit_index(key),
{
    match key {
        KeyCode::Digit1 | KeyCode::Numpad1 => Some(0),
        KeyCode::Digit2 | KeyCode::Numpad2 => Some(1),
        KeyCode::Digit3 | KeyCode::Numpad3 => Some(2),
        KeyCode::Digit4 | KeyCode::Numpad4 => Some(3),
        KeyCode::Digit5 | KeyCode::Numpad5 => Some(4),
        KeyCode::Digit6 | KeyCode::Numpad6 => Some(5),
        _ => None,
    }
}

/// Reacts to a key: the arrows move the active mark, Enter pastes the active
/// entry, Escape hides the window, a digit activates the entry at its
/// position or, when that entry is already active, pastes it.
pub fn action_keydown(
    list: &ClipboardHistoryListState,
    active: &mut ClipboardHistoryActiveState,
    key: KeyCode,
) -> (r: KeydownAction)
    ensures
        key == KeyCode::ArrowDown ==> r == KeydownAction::Done && final(active)@ == after_next(
            list@.items,
            old(active)@,
        ),
        key == KeyCode::ArrowUp ==> r == KeydownAction::Done && final(active)@ == after_previous(
            list@.items,
            old(active)@,
        ),
        key == KeyCode::Enter ==> r == KeydownAction::Paste && final(active)@ == old(active)@,
        key == KeyCode::Escape ==> r == KeydownAction::Hide && final(active)@ == old(active)@,
        key == KeyCode::Other ==> r == KeydownAction::Done && final(active)@ == old(active)@,
        digit_index(key) matches Some(i) ==> {
            &&& i >= list@.items.len() ==> r == KeydownAction::Done && final(active)@ == old(active)@
            &&& i < list@.items.len() && list@.items[i as int].model.id == old(active)@.active_id
                ==> r == KeydownAction::Paste && final(active)@ == old(active)@
            &&& i < list@.items.len() && list@.items[i as int].model.id != old(active)@.active_id
                ==> r == KeydownAction::Done && final(active)@ == activated(
                list@.items,
                list@.items[i as int].model.id,
            )
        },
{
    match key {
        KeyCode::ArrowDown => {
            next_clipboard_active(list, active);
            KeydownAction::Done
        },
        KeyCode::ArrowUp => {
            previous_clipboard_active(list, active);
            KeydownAction::Done
        },
        KeyCode::Enter => KeydownAction::Paste,
        KeyCode::Escape => KeydownAction::Hide,
        _ => match digit_position(key) {
            Some(index) => match active_or_paste_from_clipboard_by_index(list, active, index) {
                IndexAction::Paste => KeydownAction::Paste,
                _ => KeydownAction::Done,
            },
            None => KeydownAction::Done,
        },
    }
}

} // verus!
