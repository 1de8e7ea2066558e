//! How the window reacts to focus changes and to the global shortcut.
use vstd::prelude::*;

use global_hotkey::hotkey::HotKey;

use crate::models::preference::hotkey_eq;

verus! {

/// A change of the window's visibility.
#[derive(Debug, Clone, Copy, PartialEq, Eq, Structural)]
pub enum WindowCommand {
    Show,
    Hide,
}

/// Whether the window hides after a focus change: when it lost the focus
/// and the preference asks for it.
pub fn should_hide_on_focus_change(focused: bool, hide_app_when_losing_focus: bool) -> (r: bool)
    ensures
        r == (!focused && hide_app_when_losing_focus),
{
    !focused && hide_app_when_losing_focus
}

/// What a detected global shortcut does: when it is the registered one, it
/// hides a visible window and shows a hidden one; anything else is ignored.
pub open spec fn shortcut_command(registered: Option<HotKey>, detected: HotKey, visible: bool) -> Option<
    WindowCommand,
> {
    if registered == Some(detected) {
        Some(if visible { WindowCommand::Hide } else { WindowCommand::Show })
    } else {
        None
    }
}

/// Decides what a detected global shortcut does (see `shortcut_command`).
pub fn shortcut_toggle_window(registered: Option<HotKey>, detected: &HotKey, visible: bool) -> (r:
    Option<WindowCommand>)
    ensures
        r == shortcut_command(registered, *detected, visible),
{
    match registered {
        None => None,
        Some(registered) => {
            if hotkey_eq(detected, &registered) {
                if visible {
                    Some(WindowCommand::Hide)
                } else {
                    Some(WindowCommand::Show)
                }
            } else {
                None
            }
        },
    }
}

/// The visibility a window command leaves the window in.
pub open spec fn visible_after(command: Option<WindowCommand>, visible: bool) -> bool {
    match command {
        Some(WindowCommand::Show) => true,
        Some(WindowCommand::Hide) => false,
        None => visible,
    }
}

/// Pressing the registered shortcut twice leaves the window as visible as
/// it was, and each press flips the visibility; any other hotkey leaves it alone.
pub proof fn law_shortcut_toggles_visibility(registered: HotKey, other: HotKey, visible: bool)
    requires
        other != registered,
    ensures
        visible_after(shortcut_command(Some(registered), registered, visible), visible) == !visible,
        ({
            let once = visible_after(shortcut_command(Some(registered), registered, visible), visible);
            visible_after(shortcut_command(Some(registered), registered, once), once) == visible
        }),
        visible_after(shortcut_command(Some(registered), other, visible), visible) == visible,
        visible_after(shortcut_command(None, registered, visible), visible) == visible,
{
}

} // verus!
