//! The root view model the UI receives.
use vstd::prelude::*;

use crate::views::clipboard::{VClipboardActiveHistoryItem, VClipboardHistory};
use crate::views::preference::VPreference;

verus! {

/// Everything the UI renders; a part is absent until it was first built.
#[derive(Debug, Clone)]
pub struct RootView {
    pub clipboard_history: Option<VClipboardHistory>,
    pub active_clipboard_item: Option<VClipboardActiveHistoryItem>,
    pub preference: Option<VPreference>,
}

impl Default for RootView {
    fn default() -> (r: Self)
        ensures
            r.clipboard_history is None,
            r.active_clipboard_item is None,
            r.preference is None,
    {
        RootView { clipboard_history: None, active_clipboard_item: None, preference: None }
    }
}

} // verus!
