use base64::Engine;
use global_hotkey::hotkey::{Code, HotKey, Modifiers};
use kute_clip_core::actions::clipboard_changed::{
    active_clipboard_by_id, active_or_paste_from_clipboard_by_index, alloc_clipboard_item,
    alloc_list_item_id, histories_from_rows, remove_clipboard_history_item, retain_keeping_active,
    used_preview_ids,
    clipboard_payload, commit_clipboard_item, find_clipboard_item, init_clipboard_histories,
    next_clipboard_active, previous_clipboard_active, retain_ncount_clipboard_histories,
    save_file_name, saved_file_bytes, ClipboardHistoryActiveState, ClipboardHistoryListState,
    IndexAction, OnClipboardActionArg,
};
use kute_clip_core::actions::keyboard::{action_keydown, KeyCode, KeydownAction};
use kute_clip_core::actions::preference::{
    action_change_limit, action_change_shortcut, get_limit_count, get_registered_shortcut,
    init_preference, register_current_shortcut, PreferenceState,
};
use kute_clip_core::actions::window::{
    should_hide_on_focus_change, shortcut_toggle_window, WindowCommand,
};
use kute_clip_core::models::application::{load_application_meta, ApplicationMetaModel};
use kute_clip_core::models::clipboard::{
    sort_by_id_desc, ClipboardHistoryItem, ClipboardHistoryItemImage, ClipboardHistoryItemModel,
    ClipboardHistoryItemText, ClipboardHistoryItemType,
};
use kute_clip_core::models::preference::{
    default_shortcut_info, hotkey_eq, load_preference, PreferenceData, ShortcutInfo,
};
use kute_clip_core::repositories::{DatabaseServiceImpl, IDatabaseService};
use kute_clip_core::utils::{raw_bytes_to_base64_png, raw_bytes_to_png};
use kute_clip_core::views::clipboard::{
    build_v_clipboard_history_detail_item, build_v_clipboard_history_item, clip_text, clip_text_bytes,
    fmt_resource_byte_size, index_to_shortcut,
};

fn text_model(id: i32, text: &str) -> ClipboardHistoryItemModel {
    ClipboardHistoryItemModel {
        id,
        typ: ClipboardHistoryItemType::Text,
        text: text.to_string(),
        width: 0,
        height: 0,
        bytes: Vec::new(),
    }
}

fn history(texts: &[&str]) -> (ClipboardHistoryListState, ClipboardHistoryActiveState) {
    let mut list = ClipboardHistoryListState::default();
    let mut active = ClipboardHistoryActiveState::default();
    for t in texts {
        let item = alloc_clipboard_item(&mut list, OnClipboardActionArg::Text(t.to_string()), 0);
        commit_clipboard_item(&mut list, &mut active, item);
    }
    (list, active)
}

fn texts(list: &ClipboardHistoryListState) -> Vec<String> {
    list.list()
        .iter()
        .map(|it| match it {
            ClipboardHistoryItem::Text(t) => t.text().to_string(),
            ClipboardHistoryItem::Image(_) => "<image>".to_string(),
        })
        .collect()
}

#[test]
fn byte_size_matches_float_formatting() {
    let mut sizes: Vec<usize> = (0..5000).collect();
    for k in 0..2000usize {
        sizes.push(1024 + k * 517);
        sizes.push((1 << 20) + k * 52_429);
        sizes.push((1 << 30) + k * 53_687_091);
        sizes.push(k * 104_857 + 3);
    }
    // values whose hundredths are exact ties
    for x in [0usize, 512, 256, 768, 1000, 1023] {
        sizes.push(1024 * 7 + x);
        sizes.push((1 << 20) * 3 + x * 1024);
    }
    for n in sizes {
        let expected = if n < (1 << 10) {
            format!("{}B", n)
        } else if n < (1 << 20) {
            format!("{:.2}KB", n as f64 / (1 << 10) as f64)
        } else if n < (1 << 30) {
            format!("{:.2}MB", n as f64 / (1 << 20) as f64)
        } else {
            format!("{:.2}GB", n as f64 / (1 << 30) as f64)
        };
        assert_eq!(fmt_resource_byte_size(n), expected, "size {}", n);
    }
}

#[test]
fn byte_size_examples() {
    assert_eq!(fmt_resource_byte_size(0), "0B");
    assert_eq!(fmt_resource_byte_size(1023), "1023B");
    assert_eq!(fmt_resource_byte_size(1024), "1.00KB");
    assert_eq!(fmt_resource_byte_size(1536), "1.50KB");
    assert_eq!(fmt_resource_byte_size(1 << 20), "1.00MB");
    assert_eq!(fmt_resource_byte_size(3 << 30), "3.00GB");
}

#[test]
fn shortcut_labels() {
    let labels: Vec<String> = (0..8).map(index_to_shortcut).collect();
    assert_eq!(labels, vec!["1", "2", "3", "4", "5", "6", "-", "-"]);
}

#[test]
fn clip_text_counts_characters() {
    assert_eq!(clip_text("abc", 3), "abc");
    assert_eq!(clip_text("abcd", 3), "abc...");
    assert_eq!(clip_text("ééé", 2), "éé...");
    assert_eq!(clip_text("", 0), "");
}

#[test]
fn detail_view_of_long_text() {
    let long = "x".repeat(3001);
    let item = ClipboardHistoryItem::Text(ClipboardHistoryItemText::new(4, long.clone()));
    let v = build_v_clipboard_history_detail_item(&item);
    assert_eq!(v.id, 4);
    assert_eq!(v.chars_len, 3001);
    assert_eq!(v.text, "x".repeat(3000) + "...");
    assert_eq!(v.resource_byte_size, "");
    let item = ClipboardHistoryItem::Image(ClipboardHistoryItemImage::new(5, 2, 1, vec![0; 8], 77));
    let v = build_v_clipboard_history_detail_item(&item);
    assert_eq!((v.width, v.height, v.resource, v.chars_len), (2, 1, 77, 0));
    assert_eq!(v.resource_byte_size, "8B");
    assert_eq!(v.typ, ClipboardHistoryItemType::Image);
    let l = build_v_clipboard_history_item(&item, 7);
    assert_eq!((l.text.as_str(), l.shortcut.as_str(), l.resource), ("", "-", 77));
}

#[test]
fn detail_view_counts_bytes() {
    let item = ClipboardHistoryItem::Text(ClipboardHistoryItemText::new(1, "é".to_string()));
    assert_eq!(build_v_clipboard_history_detail_item(&item).chars_len, 2);
    // 999 three-byte characters then a four-byte one: byte 3000 falls inside it.
    let text = "€".repeat(999) + "𒀀" + "z";
    let item = ClipboardHistoryItem::Text(ClipboardHistoryItemText::new(2, text.clone()));
    let v = build_v_clipboard_history_detail_item(&item);
    assert_eq!(v.chars_len, 3002);
    assert_eq!(v.text, "€".repeat(999) + "...");
    let exact = "€".repeat(1000);
    assert_eq!(clip_text_bytes(&exact, 3000), exact);
    assert_eq!(clip_text_bytes(&(exact.clone() + "a"), 3000), exact.clone() + "...");
}

#[test]
fn modifier_bits_union() {
    let mk = |ctrl, meta, alt, shift| ShortcutInfo { ctrl, meta, alt, shift, code: Code::KeyA };
    assert_eq!(mk(false, false, false, false).modifier_bits(), None);
    assert_eq!(mk(true, false, false, false).modifier_bits(), Some(Modifiers::CONTROL.bits()));
    assert_eq!(
        mk(true, true, true, true).modifier_bits(),
        Some((Modifiers::CONTROL | Modifiers::META | Modifiers::ALT | Modifiers::SHIFT).bits())
    );
    let s = mk(false, true, false, true);
    assert!(s.shortcut() == HotKey::new(Some(Modifiers::META | Modifiers::SHIFT), Code::KeyA));
    assert!(mk(false, false, false, false).shortcut() == HotKey::new(None, Code::KeyA));
    assert!(hotkey_eq(&s.shortcut(), &s.shortcut()));
    assert!(!hotkey_eq(&s.shortcut(), &mk(true, false, false, false).shortcut()));
}

#[test]
fn default_shortcut_per_platform() {
    let other = default_shortcut_info(false);
    assert!(other == ShortcutInfo { ctrl: true, meta: false, alt: false, shift: true, code: Code::KeyV });
    let mac = default_shortcut_info(true);
    assert!(mac == ShortcutInfo { ctrl: false, meta: true, alt: false, shift: true, code: Code::KeyV });
    assert!(other != mac);
}

#[test]
fn load_preference_clamps_limit() {
    let mut p = PreferenceData::default_for(false);
    p.limit = 5;
    p.hide_app_when_losing_focus = false;
    let r = load_preference(Some(p), false);
    assert_eq!(r.limit, 10);
    assert_eq!(r.hide_app_when_losing_focus, false);
    p.limit = 2000;
    assert_eq!(load_preference(Some(p), false).limit, 999);
    p.limit = 50;
    assert_eq!(load_preference(Some(p), false).limit, 50);
    let d = load_preference(None, true);
    assert_eq!(d.limit, 100);
    assert!(d.shortcut.meta && !d.shortcut.ctrl);
}

#[test]
fn change_limit_clamps_and_trims() {
    let (mut list, mut active) = history(&["a", "b", "c"]);
    let mut pref = PreferenceState::new(PreferenceData::default_for(false));
    let removed = action_change_limit(&mut pref, &mut list, &mut active, 0);
    assert_eq!(get_limit_count(&pref), 1);
    assert_eq!(removed, vec![1, 0]);
    assert_eq!(texts(&list), vec!["c"]);
    action_change_limit(&mut pref, &mut list, &mut active, 5000);
    assert_eq!(get_limit_count(&pref), 999);
}

#[test]
fn registered_shortcut_follows_registration() {
    let mut pref = PreferenceState::new(PreferenceData::default_for(false));
    assert!(get_registered_shortcut(&pref).is_none());
    register_current_shortcut(&mut pref, true);
    let hk = get_registered_shortcut(&pref).unwrap();
    assert!(hk == HotKey::new(Some(Modifiers::CONTROL | Modifiers::SHIFT), Code::KeyV));
    let new = ShortcutInfo { ctrl: false, meta: false, alt: true, shift: false, code: Code::KeyB };
    action_change_shortcut(&mut pref, new);
    assert!(get_registered_shortcut(&pref).is_none());
    assert!(pref.data().shortcut == new);
    init_preference(&mut pref, PreferenceData::default_for(false));
    assert!(!pref.shortcut_success());
}

#[test]
fn window_decisions() {
    assert!(should_hide_on_focus_change(false, true));
    assert!(!should_hide_on_focus_change(true, true));
    assert!(!should_hide_on_focus_change(false, false));
    let a = HotKey::new(Some(Modifiers::CONTROL), Code::KeyV);
    let b = HotKey::new(Some(Modifiers::ALT), Code::KeyV);
    assert_eq!(shortcut_toggle_window(Some(a), &a, true), Some(WindowCommand::Hide));
    assert_eq!(shortcut_toggle_window(Some(a), &a, false), Some(WindowCommand::Show));
    assert_eq!(shortcut_toggle_window(Some(a), &b, false), None);
    assert_eq!(shortcut_toggle_window(None, &a, false), None);
}

#[test]
fn sort_orders_newest_first() {
    let rows = vec![text_model(3, "c"), text_model(9, "i"), text_model(1, "a"), text_model(5, "e")];
    let sorted: Vec<i32> = sort_by_id_desc(rows).iter().map(|m| m.id).collect();
    assert_eq!(sorted, vec![9, 5, 3, 1]);
    assert!(sort_by_id_desc(Vec::new()).is_empty());
}

#[test]
fn init_continues_after_largest_id() {
    let mut list = ClipboardHistoryListState::default();
    let mut active = ClipboardHistoryActiveState::default();
    let items = vec![
        ClipboardHistoryItem::from_model(text_model(7, "x"), 0),
        ClipboardHistoryItem::from_model(text_model(3, "y"), 0),
    ];
    init_clipboard_histories(&mut list, &mut active, items);
    assert_eq!(list.next_id(), 8);
    assert_eq!(active.active_id(), 7);
    assert_eq!(alloc_list_item_id(&mut list), 8);
    assert_eq!(list.next_id(), 9);

    let mut empty = ClipboardHistoryListState::default();
    let mut active2 = ClipboardHistoryActiveState::default();
    init_clipboard_histories(&mut empty, &mut active2, Vec::new());
    assert_eq!(empty.next_id(), 1);
    assert!(active2.item().is_none());
}

#[test]
fn id_counter_wraps() {
    let mut list = ClipboardHistoryListState::default();
    let mut active = ClipboardHistoryActiveState::default();
    let items = vec![ClipboardHistoryItem::from_model(text_model(i32::MAX - 1, "x"), 0)];
    init_clipboard_histories(&mut list, &mut active, items);
    assert_eq!(alloc_list_item_id(&mut list), i32::MAX);
    assert_eq!(list.next_id(), i32::MIN);
}

#[test]
fn next_and_previous_stay_in_bounds() {
    let (list, mut active) = history(&["a", "b", "c"]);
    assert_eq!(active.active_id(), 2);
    previous_clipboard_active(&list, &mut active);
    assert_eq!(active.active_id(), 2);
    next_clipboard_active(&list, &mut active);
    next_clipboard_active(&list, &mut active);
    assert_eq!(active.active_id(), 0);
    next_clipboard_active(&list, &mut active);
    assert_eq!(active.active_id(), 0);
    previous_clipboard_active(&list, &mut active);
    assert_eq!(active.active_id(), 1);
}

#[test]
fn retain_returns_dropped_ids() {
    let (mut list, _) = history(&["a", "b", "c", "d"]);
    assert_eq!(retain_ncount_clipboard_histories(&mut list, 10), Vec::<i32>::new());
    assert_eq!(retain_ncount_clipboard_histories(&mut list, 2), vec![1, 0]);
    assert_eq!(texts(&list), vec!["d", "c"]);
}

#[test]
fn index_activation_then_paste() {
    let (list, mut active) = history(&["a", "b", "c"]);
    assert_eq!(active_or_paste_from_clipboard_by_index(&list, &mut active, 7), IndexAction::Nothing);
    assert_eq!(active_or_paste_from_clipboard_by_index(&list, &mut active, 1), IndexAction::Activated);
    assert_eq!(active.active_id(), 1);
    assert_eq!(active_or_paste_from_clipboard_by_index(&list, &mut active, 1), IndexAction::Paste);
}

#[test]
fn keydown_numpad_and_other_keys() {
    let (list, mut active) = history(&["a", "b", "c"]);
    assert_eq!(action_keydown(&list, &mut active, KeyCode::Numpad3), KeydownAction::Done);
    assert_eq!(active.active_id(), 0);
    assert_eq!(action_keydown(&list, &mut active, KeyCode::Digit3), KeydownAction::Paste);
    assert_eq!(action_keydown(&list, &mut active, KeyCode::Other), KeydownAction::Done);
    assert_eq!(action_keydown(&list, &mut active, KeyCode::Escape), KeydownAction::Hide);
    assert_eq!(action_keydown(&list, &mut active, KeyCode::Enter), KeydownAction::Paste);
    assert_eq!(action_keydown(&list, &mut active, KeyCode::Digit6), KeydownAction::Done);
    assert_eq!(active.active_id(), 0);
}

#[test]
fn png_round_trip() {
    let bytes: Vec<u8> = (0..24).collect();
    let png = raw_bytes_to_png(bytes.clone(), 3, 2).unwrap();
    let img = image::load_from_memory(&png).unwrap().to_rgba8();
    assert_eq!((img.width(), img.height()), (3, 2));
    assert_eq!(img.into_raw(), bytes);
    assert!(raw_bytes_to_png(Vec::new(), 0, 5).is_none());
    assert!(raw_bytes_to_png(Vec::new(), 4, 0).is_none());
}

#[test]
fn base64_png_decodes_to_png() {
    let bytes: Vec<u8> = vec![9, 8, 7, 6, 5, 4, 3, 2];
    let png = raw_bytes_to_png(bytes.clone(), 2, 1).unwrap();
    let text = raw_bytes_to_base64_png(bytes, 2, 1).unwrap();
    assert_eq!(text, base64::prelude::BASE64_STANDARD.encode(&png).into_bytes());
    assert_eq!(base64::prelude::BASE64_STANDARD.decode(&text).unwrap(), png);
    assert!(raw_bytes_to_base64_png(Vec::new(), 0, 0).is_none());
}

#[test]
fn save_targets() {
    let text = ClipboardHistoryItem::Text(ClipboardHistoryItemText::new(1, "héllo".to_string()));
    assert_eq!(save_file_name(&text), "clipboard.txt");
    assert_eq!(saved_file_bytes(&text).unwrap(), "héllo".as_bytes().to_vec());
    let img = ClipboardHistoryItem::Image(ClipboardHistoryItemImage::new(2, 1, 1, vec![1, 2, 3, 4], 0));
    assert_eq!(save_file_name(&img), "clipboard.png");
    assert_eq!(saved_file_bytes(&img).unwrap(), raw_bytes_to_png(vec![1, 2, 3, 4], 1, 1).unwrap());
    match clipboard_payload(&img) {
        OnClipboardActionArg::Image { width, height, bytes } => {
            assert_eq!((width, height, bytes), (1, 1, vec![1, 2, 3, 4]))
        }
        OnClipboardActionArg::Text(_) => panic!("image expected"),
    }
}

#[test]
fn find_item_by_id() {
    let (list, _) = history(&["a", "b"]);
    assert_eq!(find_clipboard_item(&list, 0).unwrap().id(), 0);
    assert!(find_clipboard_item(&list, 5).is_none());
}

#[test]
fn database_path_and_meta() {
    let mut db = DatabaseServiceImpl::new();
    assert_eq!(db.db_path(), "store.db");
    db.set_app_dir("/tmp/app".to_string());
    assert_eq!(db.db_path(), "/tmp/app/store.db");
    let meta = load_application_meta(Vec::new());
    assert_eq!((meta.version, meta.preference.as_str()), (1, ""));
    let rows = vec![
        ApplicationMetaModel { version: 1, preference: "a".to_string() },
        ApplicationMetaModel { version: 2, preference: "b".to_string() },
    ];
    let meta = load_application_meta(rows);
    assert_eq!((meta.version, meta.preference.as_str()), (2, "b"));
    assert_eq!(ApplicationMetaModel::default().version, 1);
}

#[test]
fn from_model_picks_kind() {
    let mut m = text_model(3, "t");
    let t = ClipboardHistoryItem::from_model(m.clone(), 9);
    assert!(matches!(t, ClipboardHistoryItem::Text(_)));
    m.typ = ClipboardHistoryItemType::Image;
    let i = ClipboardHistoryItem::from_model(m, 9);
    match i {
        ClipboardHistoryItem::Image(img) => assert_eq!(img.base64_png_resource(), 9),
        ClipboardHistoryItem::Text(_) => panic!("image expected"),
    }
    assert_eq!(ClipboardHistoryItemType::default(), ClipboardHistoryItemType::Text);
}

#[test]
fn removing_last_active_entry_activates_new_last() {
    let (mut list, mut active) = history(&["a", "b", "c"]);
    active_clipboard_by_id(&list, &mut active, 0);
    remove_clipboard_history_item(&mut list, &mut active, 0);
    assert_eq!(texts(&list), vec!["c", "b"]);
    assert_eq!(active.active_id(), 1);
    assert!(active.item().is_some());
    // removing the only entry leaves the active state as it was
    let (mut list, mut active) = history(&["a"]);
    remove_clipboard_history_item(&mut list, &mut active, 0);
    assert_eq!(active.active_id(), 0);
}

#[test]
fn trimming_away_active_entry_activates_last_kept() {
    let (mut list, mut active) = history(&["a", "b", "c"]);
    active_clipboard_by_id(&list, &mut active, 0);
    let mut pref = PreferenceState::new(PreferenceData::default_for(false));
    let removed = action_change_limit(&mut pref, &mut list, &mut active, 2);
    assert_eq!(removed, vec![0]);
    assert_eq!(active.active_id(), 1);
    assert_eq!(active.item().as_ref().map(|i| i.id()), Some(1));
    // an active entry that is kept stays active
    let (mut list, mut active) = history(&["a", "b", "c"]);
    retain_keeping_active(&mut list, &mut active, 1);
    assert_eq!(active.active_id(), 2);
}

#[test]
fn sort_keeps_equal_ids_in_order() {
    let rows = vec![text_model(2, "x"), text_model(7, "y"), text_model(2, "z")];
    let sorted: Vec<String> = sort_by_id_desc(rows).iter().map(|m| m.text.clone()).collect();
    assert_eq!(sorted, vec!["y", "x", "z"]);
}

#[test]
fn rows_become_entries_with_their_previews() {
    let image = ClipboardHistoryItemModel {
        id: 8,
        typ: ClipboardHistoryItemType::Image,
        text: String::new(),
        width: 1,
        height: 1,
        bytes: vec![1, 2, 3, 4],
    };
    let rows = vec![image, text_model(3, "t")];
    let items = histories_from_rows(&rows, &vec![41, 42]);
    assert_eq!(items.len(), 2);
    match &items[0] {
        ClipboardHistoryItem::Image(i) => assert_eq!(i.base64_png_resource(), 41),
        _ => panic!("expected an image entry"),
    }
    assert!(matches!(&items[1], ClipboardHistoryItem::Text(t) if t.text() == "t"));
    let mut list = ClipboardHistoryListState::default();
    let mut active = ClipboardHistoryActiveState::default();
    init_clipboard_histories(&mut list, &mut active, items);
    assert_eq!(used_preview_ids(&list, &active), vec![41, 41]);
    remove_clipboard_history_item(&mut list, &mut active, 8);
    assert_eq!(used_preview_ids(&list, &active), Vec::<u64>::new());
}

#[test]
fn distinct_shortcuts_give_distinct_hotkeys() {
    let base = ShortcutInfo { ctrl: true, meta: false, alt: false, shift: true, code: Code::KeyV };
    let other_mods = ShortcutInfo { ctrl: false, meta: true, ..base };
    let other_key = ShortcutInfo { code: Code::KeyC, ..base };
    let none = ShortcutInfo { ctrl: false, meta: false, alt: false, shift: false, code: Code::KeyV };
    assert!(!hotkey_eq(&base.shortcut(), &other_mods.shortcut()));
    assert!(!hotkey_eq(&base.shortcut(), &other_key.shortcut()));
    assert!(!hotkey_eq(&base.shortcut(), &none.shortcut()));
    assert!(hotkey_eq(&base.shortcut(), &base.clone().shortcut()));
}
