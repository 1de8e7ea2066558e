//! The preference in force and whether its shortcut is registered.
use vstd::prelude::*;

use global_hotkey::hotkey::HotKey;

use crate::actions::clipboard_changed::{
    active_after_retain, dropped_ids, retain_keeping_active, retained, ClipboardHistoryActiveState,
    ClipboardHistoryListState,
};
use crate::models::preference::{hotkey_for, PreferenceData, ShortcutInfo};

verus! {

/// The preference in force; its limit always lies in 1..=999.
#[derive(Debug)]
pub struct PreferenceState {
    data: PreferenceData,
    shortcut_success: bool,
}

impl PreferenceState {
    #[verifier::type_invariant]
    spec fn limit_in_range(self) -> bool {
        1 <= self.data.limit <= 999
    }

    pub closed spec fn spec_data(self) -> PreferenceData {
        self.data
    }

    pub closed spec fn spec_shortcut_success(self) -> bool {
        self.shortcut_success
    }

    /// A state holding `data`, its shortcut not yet registered.
    pub fn new(data: PreferenceData) -> (r: Self)
        requires
            1 <= data.limit <= 999,
        ensures
            r.spec_data() == data,
            !r.spec_shortcut_success(),
    {
        PreferenceState { data, shortcut_success: false }
    }

    /// The preference in force.
    pub fn data(&self) -> (r: &PreferenceData)
        ensures
            *r == self.spec_data(),
            1 <= r.limit <= 999,
    {
        proof {
            use_type_invariant(self);
        }
        &self.data
    }

    /// Whether the last registration of the shortcut succeeded.
    pub fn shortcut_success(&self) -> (r: bool)
        ensures
            r == self.spec_shortcut_success(),
    {
        self.shortcut_success
    }

    /// The hotkey of the configured shortcut, to register or unregister.
    pub fn current_shortcut(&self) -> (h: HotKey)
        ensures
            h == hotkey_for(self.spec_data().shortcut.spec_modifier_bits(), self.spec_data().shortcut.code),
    {
        self.data.shortcut.shortcut()
    }
}

/// Installs the loaded preference; the shortcut counts as unregistered until
/// the outcome of its registration is recorded.
pub fn init_preference(state: &mut PreferenceState, preference: PreferenceData)
    requires
        1 <= preference.limit <= 999,
    ensures
        final(state).spec_data() == preference,
        !final(state).spec_shortcut_success(),
{
    state.data = preference;
    state.shortcut_success = false;
}

/// Records whether registering the configured shortcut succeeded.
pub fn register_current_shortcut(state: &mut PreferenceState, registered: bool)
    ensures
        final(state).spec_data() == old(state).spec_data(),
        final(state).spec_shortcut_success() == registered,
{
    proof {
        use_type_invariant(&*state);
    }
    state.shortcut_success = registered;
}

/// The hotkey in force: the configured one when its registration succeeded.
pub fn get_registered_shortcut(state: &PreferenceState) -> (r: Option<HotKey>)
    ensures
        r == (if state.spec_shortcut_success() {
            Some(hotkey_for(state.spec_data().shortcut.spec_modifier_bits(), state.spec_data().shortcut.code))
        } else {
            None::<HotKey>
        }),
{
    let success = state.shortcut_success;
    let shortcut = state.current_shortcut();
    if success {
        Some(shortcut)
    } else {
        None
    }
}

/// Whether the window hides when it loses the focus.
pub fn get_hide_app_when_losing_focus(state: &PreferenceState) -> (r: bool)
    ensures
        r == state.spec_data().hide_app_when_losing_focus,
{
    state.data.hide_app_when_losing_focus
}

/// How many entries the history keeps.
pub fn get_limit_count(state: &PreferenceState) -> (r: usize)
    ensures
        r == state.spec_data().limit,
        1 <= r <= 999,
{
    proof {
        use_type_invariant(state);
    }
    state.data.limit
}

/// Replaces the configured shortcut (after the caller unregistered the old
/// one); it counts as unregistered until the new registration is recorded.
pub fn action_change_shortcut(state: &mut PreferenceState, arg: ShortcutInfo)
    ensures
        final(state).spec_data() == (PreferenceData { shortcut: arg, ..old(state).spec_data() }),
        !final(state).spec_shortcut_success(),
{
    proof {
        use_type_invariant(&*state);
    }
    state.data.shortcut = arg;
    state.shortcut_success = false;
}

/// The limit a requested one is brought to.
pub open spec fn clamp_limit(limit: usize) -> usize {
    if limit < 1 {
        1
    } else if limit > 999 {
        999
    } else {
        limit
    }
}

/// Sets the limit (brought into 1..=999) and trims the history to it,
/// returning the ids dropped for the caller to delete from storage; when the
/// active entry is dropped, the last kept entry becomes active.
pub fn action_change_limit(
    state: &mut PreferenceState,
    list: &mut ClipboardHistoryListState,
    active: &mut ClipboardHistoryActiveState,
    limit: usize,
) -> (removed: Vec<i32>)
    ensures
        final(state).spec_data() == (PreferenceData { limit: clamp_limit(limit), ..old(state).spec_data() }),
        final(state).spec_shortcut_success() == old(state).spec_shortcut_success(),
        final(list)@.items == retained(old(list)@.items, clamp_limit(limit) as nat),
        final(list)@.alloc == old(list)@.alloc,
        removed@ == dropped_ids(old(list)@.items, clamp_limit(limit) as nat),
        final(active)@ == active_after_retain(old(list)@.items, old(active)@, clamp_limit(limit) as nat),
{
    proof {
        use_type_invariant(&*state);
    }
    let limit = if limit < 1 {
        1
    } else if limit > 999 {
        999
    } else {
        limit
    };
    state.data.limit = limit;
    retain_keeping_active(list, active, limit)
}

/// Sets whether the window hides when it loses the focus.
pub fn action_change_hide_app_losing_focus(state: &mut PreferenceState, value: bool)
    ensures
        final(state).spec_data() == (PreferenceData {
            hide_app_when_losing_focus: value,
            ..old(state).spec_data()
        }),
        final(state).spec_shortcut_success() == old(state).spec_shortcut_success(),
{
    proof {
        use_type_invariant(&*state);
    }
    state.data.hide_app_when_losing_focus = value;
}

} // verus!
