//! View model of the preference.
use vstd::prelude::*;

use crate::actions::preference::PreferenceState;
use crate::models::preference::PreferenceData;
use crate::views::root::RootView;

verus! {

/// The preference as the UI shows it.
#[derive(Debug, Clone, Copy)]
pub struct VPreference {
    pub data: PreferenceData,
    pub shortcut_success: bool,
}

/// Publishes the preference view into `root`.
pub fn preference_view(state: &PreferenceState, root: &mut RootView)
    ensures
        final(root).preference == Some(VPreference {
            data: state.spec_data(),
            shortcut_success: state.spec_shortcut_success(),
        }),
        final(root).clipboard_history == old(root).clipboard_history,
        final(root).active_clipboard_item == old(root).active_clipboard_item,
{
    let data = *state.data();
    let shortcut_success = state.shortcut_success();
    root.preference = Some(VPreference { data, shortcut_success });
}

} // verus!
