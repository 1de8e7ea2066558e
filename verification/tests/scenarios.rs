use global_hotkey::hotkey::{Code, HotKey, Modifiers};
use kute_clip_core::actions::clipboard_changed::{
    active_clipboard_by_id, alloc_clipboard_item, clipboard_payload, commit_clipboard_item,
    histories_from_rows, init_clipboard_histories, pending_paste_id, prepare_clipboard_insert,
    remove_all_clipboard_history_items, remove_clipboard_history_item, should_paste_if_active,
    take_active_for_paste, ClipboardHistoryActiveState, ClipboardHistoryListState,
    OnClipboardActionArg,
};
use kute_clip_core::actions::keyboard::{action_keydown, KeyCode, KeydownAction};
use kute_clip_core::actions::preference::{
    action_change_hide_app_losing_focus, action_change_limit, get_hide_app_when_losing_focus,
    get_limit_count, get_registered_shortcut, register_current_shortcut, PreferenceState,
};
use kute_clip_core::actions::window::{
    should_hide_on_focus_change, shortcut_toggle_window, WindowCommand,
};
use kute_clip_core::models::clipboard::{
    sort_by_id_desc, ClipboardHistoryItemModel, ClipboardHistoryItemType,
};
use kute_clip_core::models::preference::{load_preference, ShortcutInfo};
use kute_clip_core::utils::raw_bytes_to_base64_png;
use kute_clip_core::views::clipboard::{clipboard_active_item_view, clipboard_history_view};
use kute_clip_core::views::preference::preference_view;
use kute_clip_core::views::root::RootView;

#[derive(Debug, Clone, PartialEq, Eq)]
enum ClipboardItem {
    Text(String),
    Image((usize, usize, Vec<u8>)),
}

/// Drives the library the way the application does, with an in-memory store.
struct FakeApp {
    list: ClipboardHistoryListState,
    active: ClipboardHistoryActiveState,
    pref: PreferenceState,
    db: Vec<ClipboardHistoryItemModel>,
    next_resource: u64,
    visible: bool,
    clipboard: ClipboardItem,
    pasted: ClipboardItem,
    shortcuts: Vec<HotKey>,
}

impl FakeApp {
    fn new() -> Self {
        Self::from_db(Vec::new())
    }

    fn from_db(db: Vec<ClipboardHistoryItemModel>) -> Self {
        let mut app = FakeApp {
            list: ClipboardHistoryListState::default(),
            active: ClipboardHistoryActiveState::default(),
            pref: PreferenceState::new(load_preference(None, false)),
            db,
            next_resource: 1,
            visible: true,
            clipboard: ClipboardItem::Text(String::new()),
            pasted: ClipboardItem::Text(String::new()),
            shortcuts: Vec::new(),
        };
        let shortcut = app.pref.current_shortcut();
        let ok = !app.shortcuts.contains(&shortcut);
        if ok {
            app.shortcuts.push(shortcut);
        }
        register_current_shortcut(&mut app.pref, ok);
        let mut rows = app.db.clone();
        rows.reverse();
        let rows = sort_by_id_desc(rows);
        let mut resources = Vec::new();
        for model in &rows {
            let resource = if model.typ == ClipboardHistoryItemType::Image {
                app.register_png(&model.bytes, model.width as usize, model.height as usize)
            } else {
                0
            };
            resources.push(resource);
        }
        let histories = histories_from_rows(&rows, &resources);
        init_clipboard_histories(&mut app.list, &mut app.active, histories);
        app
    }

    fn register_png(&mut self, bytes: &[u8], width: usize, height: usize) -> u64 {
        let png = raw_bytes_to_base64_png(bytes.to_vec(), width, height);
        assert!(png.is_some());
        let id = self.next_resource;
        self.next_resource += 1;
        id
    }

    fn trigger_copy(&mut self, item: ClipboardItem) {
        self.clipboard = item.clone();
        let limit = get_limit_count(&self.pref);
        let (arg, resource) = match item {
            ClipboardItem::Text(text) => (OnClipboardActionArg::Text(text), 0),
            ClipboardItem::Image((width, height, bytes)) => {
                let resource = self.register_png(&bytes, width, height);
                (OnClipboardActionArg::Image { width, height, bytes }, resource)
            }
        };
        let removed = prepare_clipboard_insert(&mut self.list, limit);
        self.db.retain(|m| !removed.contains(&m.id));
        let item = alloc_clipboard_item(&mut self.list, arg, resource);
        self.db.push(item.model().clone());
        commit_clipboard_item(&mut self.list, &mut self.active, item);
    }

    fn paste_active(&mut self) {
        if let Some(id) = pending_paste_id(&self.active) {
            self.db.retain(|m| m.id != id);
            let item = take_active_for_paste(&mut self.list, &mut self.active).unwrap();
            let written = match clipboard_payload(&item) {
                OnClipboardActionArg::Text(text) => ClipboardItem::Text(text),
                OnClipboardActionArg::Image { width, height, bytes } => {
                    ClipboardItem::Image((width, height, bytes))
                }
            };
            // Writing to the clipboard wakes the clipboard listener, which records it again.
            self.trigger_copy(written);
            self.hide_window();
            self.pasted = self.clipboard.clone();
        }
    }

    fn hide_window(&mut self) {
        self.visible = false;
    }

    fn show_window(&mut self) {
        self.visible = true;
    }

    fn change_focused(&mut self, focused: bool) {
        if should_hide_on_focus_change(focused, get_hide_app_when_losing_focus(&self.pref)) {
            self.hide_window();
        }
    }

    fn key_code(code: Code) -> KeyCode {
        match code {
            Code::ArrowDown => KeyCode::ArrowDown,
            Code::ArrowUp => KeyCode::ArrowUp,
            Code::Enter => KeyCode::Enter,
            Code::Escape => KeyCode::Escape,
            Code::Digit1 => KeyCode::Digit1,
            Code::Digit2 => KeyCode::Digit2,
            Code::Digit3 => KeyCode::Digit3,
            Code::Digit4 => KeyCode::Digit4,
            Code::Digit5 => KeyCode::Digit5,
            Code::Digit6 => KeyCode::Digit6,
            Code::Numpad1 => KeyCode::Numpad1,
            Code::Numpad2 => KeyCode::Numpad2,
            Code::Numpad3 => KeyCode::Numpad3,
            Code::Numpad4 => KeyCode::Numpad4,
            Code::Numpad5 => KeyCode::Numpad5,
            Code::Numpad6 => KeyCode::Numpad6,
            _ => KeyCode::Other,
        }
    }

    fn keypress(&mut self, code: Code, mods: Option<Modifiers>) {
        if mods.is_none() {
            match action_keydown(&self.list, &mut self.active, Self::key_code(code)) {
                KeydownAction::Done => {}
                KeydownAction::Hide => self.hide_window(),
                KeydownAction::Paste => self.paste_active(),
            }
        }
        let detected = HotKey::new(mods, code);
        match shortcut_toggle_window(get_registered_shortcut(&self.pref), &detected, self.visible) {
            Some(WindowCommand::Show) => self.show_window(),
            Some(WindowCommand::Hide) => self.hide_window(),
            None => {}
        }
    }

    fn change_active(&mut self, id: i32) {
        active_clipboard_by_id(&self.list, &mut self.active, id);
    }

    fn paste_if_active(&mut self, id: i32) {
        if should_paste_if_active(&self.active, id) {
            self.paste_active();
        }
    }

    fn remove_item(&mut self, id: i32) {
        self.db.retain(|m| m.id != id);
        remove_clipboard_history_item(&mut self.list, &mut self.active, id);
    }

    fn remove_all(&mut self) {
        self.db.clear();
        remove_all_clipboard_history_items(&mut self.list);
    }

    fn change_limit(&mut self, limit: usize) {
        let removed = action_change_limit(&mut self.pref, &mut self.list, &mut self.active, limit);
        self.db.retain(|m| !removed.contains(&m.id));
    }

    fn state(&self) -> RootView {
        let mut root = RootView::default();
        clipboard_history_view(&self.list, &mut root);
        clipboard_active_item_view(&self.active, &mut root);
        preference_view(&self.pref, &mut root);
        root
    }

    fn assert_reload(&self) {
        let old_state = self.state();
        let history = old_state.clipboard_history.clone().unwrap_or_default();
        if !history.items.is_empty() {
            let ns = old_state.active_clipboard_item.clone().unwrap();
            assert_eq!(ns.item.is_some(), true);
            assert!(history.items.iter().any(|v| v.id == ns.id));
        }
        let app2 = FakeApp::from_db(self.db.clone());
        let new_state = app2.state();
        let lhs = old_state.clipboard_history.clone().unwrap_or_default();
        let rhs = new_state.clipboard_history.clone().unwrap_or_default();
        assert_eq!(lhs.items.len(), rhs.items.len());
        for i in 0..lhs.items.len() {
            assert_eq!(lhs.items[i].typ, rhs.items[i].typ);
            assert_eq!(lhs.items[i].text, rhs.items[i].text);
            assert_eq!(lhs.items[i].width, rhs.items[i].width);
            assert_eq!(lhs.items[i].height, rhs.items[i].height);
            assert_eq!(lhs.items[i].shortcut, rhs.items[i].shortcut);
        }
        if !rhs.items.is_empty() {
            let ns = new_state.active_clipboard_item.clone().unwrap();
            assert_eq!(ns.id, rhs.items[0].id);
            assert!(ns.item.is_some());
        }
    }

    fn items(&self) -> Vec<kute_clip_core::views::clipboard::VClipboardHistoryItem> {
        self.state().clipboard_history.unwrap().items
    }
}

fn trigger_copy_text_1_to_10(app: &mut FakeApp) {
    for i in 1..=10 {
        app.trigger_copy(ClipboardItem::Text(i.to_string()));
    }
}

fn assert_item_text(app: &FakeApp, idx: usize, text: &str) {
    let item = app.items()[idx].clone();
    assert_eq!(item.typ, ClipboardHistoryItemType::Text);
    assert_eq!(item.text, text.to_string());
}

fn assert_item_image(app: &FakeApp, idx: usize, width: i32, height: i32) {
    let item = app.items()[idx].clone();
    assert_eq!(item.typ, ClipboardHistoryItemType::Image);
    assert_eq!(item.width, width);
    assert_eq!(item.height, height);
}

fn get_active_text(app: &FakeApp) -> String {
    app.state().active_clipboard_item.unwrap().item.unwrap().text
}

#[test]
fn init_application() {
    let app = FakeApp::new();
    assert_eq!(app.visible, true);
    let state = app.state();
    assert_eq!(state.clipboard_history.unwrap().items.len(), 0);
    let preference = state.preference.unwrap();
    assert_eq!(preference.shortcut_success, true);
    assert_eq!(preference.data.hide_app_when_losing_focus, true);
    assert_eq!(preference.data.send_notification_when_copy, false);
    assert_eq!(preference.data.limit, 100);
    assert!(
        preference.data.shortcut
            == ShortcutInfo { ctrl: true, meta: false, alt: false, shift: true, code: Code::KeyV }
    );
}

#[test]
fn trigger_copy() {
    let mut app = FakeApp::new();
    assert_eq!(app.items().len(), 0);
    app.trigger_copy(ClipboardItem::Text("ABC".to_string()));
    assert_eq!(app.items().len(), 1);
    let item = app.items()[0].clone();
    assert_eq!(item.typ, ClipboardHistoryItemType::Text);
    assert_eq!(item.text, "ABC".to_string());
    app.assert_reload();
}

#[test]
fn trigger_copy_multi() {
    let mut app = FakeApp::new();
    assert_eq!(app.items().len(), 0);
    for t in ["1", "2", "3", "4", "5"] {
        app.trigger_copy(ClipboardItem::Text(t.to_string()));
    }
    assert_eq!(app.items().len(), 5);
    assert_eq!(get_active_text(&app), "5".to_string());
    assert_item_text(&app, 0, "5");
    assert_item_text(&app, 1, "4");
    assert_item_text(&app, 2, "3");
    assert_item_text(&app, 3, "2");
    assert_item_text(&app, 4, "1");
    app.keypress(Code::Enter, None);
    assert_eq!(app.pasted, ClipboardItem::Text("5".to_string()));
    assert_eq!(app.visible, false);
    app.assert_reload();
}

#[test]
fn trigger_copy_text_image() {
    let mut app = FakeApp::new();
    assert_eq!(app.items().len(), 0);
    app.trigger_copy(ClipboardItem::Text("1".to_string()));
    app.trigger_copy(ClipboardItem::Image((1, 1, vec![1, 2, 3, 4])));
    assert_eq!(app.items().len(), 2);
    assert_item_image(&app, 0, 1, 1);
    assert_item_text(&app, 1, "1");
    app.keypress(Code::Enter, None);
    assert_eq!(app.pasted, ClipboardItem::Image((1, 1, vec![1, 2, 3, 4])));
    app.assert_reload();
}

#[test]
fn apply_history_item_1() {
    let mut app = FakeApp::new();
    trigger_copy_text_1_to_10(&mut app);
    let items = app.items();
    for item in items {
        app.change_active(item.id);
        app.paste_if_active(item.id);
        assert_eq!(app.pasted, ClipboardItem::Text(item.text));
    }
    app.assert_reload();
}

#[test]
fn remove_history_item_1() {
    let mut app = FakeApp::new();
    trigger_copy_text_1_to_10(&mut app);
    let items = app.items();
    app.remove_item(items[3].id);
    let items = app.items();
    assert_eq!(items.len(), 9);
    assert_eq!(items[2].text, "8".to_string());
    assert_eq!(items[3].text, "6".to_string());
    app.assert_reload();
}

#[test]
fn remove_history_item_2() {
    let mut app = FakeApp::new();
    trigger_copy_text_1_to_10(&mut app);
    let items = app.items();
    app.change_active(items[3].id);
    app.remove_item(items[3].id);
    let items = app.items();
    assert_eq!(items.len(), 9);
    assert_eq!(items[2].text, "8".to_string());
    assert_eq!(items[3].text, "6".to_string());
    assert_eq!(get_active_text(&app), "6".to_string());
    app.assert_reload();
}

#[test]
fn remove_last_active_history_item() {
    let mut app = FakeApp::new();
    trigger_copy_text_1_to_10(&mut app);
    let items = app.items();
    app.change_active(items[9].id);
    app.remove_item(items[9].id);
    assert_eq!(app.items().len(), 9);
    assert_eq!(get_active_text(&app), "2".to_string());
    app.assert_reload();
}

#[test]
fn lower_limit_below_active_item() {
    let mut app = FakeApp::new();
    trigger_copy_text_1_to_10(&mut app);
    let items = app.items();
    app.change_active(items[8].id);
    app.change_limit(3);
    assert_eq!(app.items().len(), 3);
    assert_eq!(get_active_text(&app), "8".to_string());
    app.assert_reload();
}

#[test]
fn remove_all_history_items() {
    let mut app = FakeApp::new();
    trigger_copy_text_1_to_10(&mut app);
    app.remove_all();
    assert_eq!(app.items().len(), 0);
    app.assert_reload();
}

#[test]
fn keydown_up_down() {
    let mut app = FakeApp::new();
    trigger_copy_text_1_to_10(&mut app);
    app.keypress(Code::ArrowUp, None);
    assert_eq!(get_active_text(&app), "10".to_string());
    app.keypress(Code::ArrowDown, None);
    assert_eq!(get_active_text(&app), "9".to_string());
    app.keypress(Code::Enter, None);
    assert_eq!(app.pasted, ClipboardItem::Text("9".to_string()));
    app.assert_reload();
}

#[test]
fn keydown_digits() {
    let mut app = FakeApp::new();
    trigger_copy_text_1_to_10(&mut app);
    let digit_actives = [
        (Code::Digit1, "10".to_string()),
        (Code::Digit2, "9".to_string()),
        (Code::Digit3, "8".to_string()),
        (Code::Digit4, "7".to_string()),
        (Code::Digit5, "6".to_string()),
        (Code::Digit6, "5".to_string()),
    ];
    for (code, text) in digit_actives {
        app.show_window();
        app.keypress(code, None);
        assert_eq!(get_active_text(&app), text.clone());
        app.keypress(code, None);
        assert_eq!(app.pasted, ClipboardItem::Text(text));
    }
    app.assert_reload();
}

#[test]
fn change_limit_and_copy() {
    let mut app = FakeApp::new();
    for i in 0..20 {
        app.trigger_copy(ClipboardItem::Text(i.to_string()));
    }
    assert_eq!(app.items().len(), 20);
    app.change_limit(10);
    assert_eq!(app.items().len(), 10);
    app.assert_reload();
}

#[test]
fn slice_into_invalid_utf8_text() {
    let mut app = FakeApp::new();
    let to_copy = "a".to_string() + "𒀀".repeat(400).as_str();
    let view_expected = "a".to_string() + "𒀀".repeat(299).as_str() + "...";
    app.trigger_copy(ClipboardItem::Text(to_copy.clone()));
    assert_eq!(app.items().len(), 1);
    assert_eq!(app.items()[0].text, view_expected);
    app.keypress(Code::Enter, None);
    assert_eq!(app.pasted, ClipboardItem::Text(to_copy));
    app.assert_reload();
}

#[test]
fn trigger_escape() {
    let mut app = FakeApp::new();
    app.keypress(Code::Escape, None);
    assert_eq!(app.visible, false);
    app.assert_reload();
}

#[test]
fn trigger_shortcut() {
    let mut app = FakeApp::new();
    app.keypress(Code::KeyV, Some(Modifiers::CONTROL | Modifiers::SHIFT));
    assert_eq!(app.visible, false);
    app.keypress(Code::KeyV, Some(Modifiers::CONTROL | Modifiers::SHIFT));
    assert_eq!(app.visible, true);
    app.assert_reload();
}

#[test]
fn on_lose_focus_1() {
    let mut app = FakeApp::new();
    app.change_focused(false);
    assert_eq!(app.visible, false);
    app.assert_reload();
}

#[test]
fn on_lose_focus_2() {
    let mut app = FakeApp::new();
    action_change_hide_app_losing_focus(&mut app.pref, false);
    app.change_focused(false);
    assert_eq!(app.visible, true);
    app.assert_reload();
}
