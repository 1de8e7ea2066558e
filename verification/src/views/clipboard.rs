//! View models of the history, as the UI renders them.
use vstd::prelude::*;
use vstd::string::*;
use vstd::utf8::{encode_scalar, encode_utf8};

use crate::actions::clipboard_changed::{
    items_view, ClipboardHistoryActiveState, ClipboardHistoryListState,
};
use crate::views::root::RootView;
use crate::actions::keyboard::{digit_index, KeyCode};
use crate::models::clipboard::{ClipboardHistoryItem, ClipboardHistoryItemType, ItemView};

verus! {

/// `text` cut to its first `limit` characters followed by "...", when it is longer than that.
pub open spec fn clipped(text: Seq<char>, limit: nat) -> Seq<char> {
    if text.len() > limit {
        text.take(limit as int) + seq!['.', '.', '.']
    } else {
        text
    }
}

/// Cuts `text` as `clipped` says, counting characters, not bytes.
pub fn clip_text(text: &str, limit: usize) -> (r: String)
    ensures
        r@ == clipped(text@, limit as nat),
{
    let n = text.unicode_len();
    if n > limit {
        let head = text.substring_char(0, limit).to_owned();
        let r = head.concat("...");
        proof {
            reveal_strlit("...");
        }
        r
    } else {
        text.to_owned()
    }
}


/// Number of bytes of the UTF-8 encoding of character `c`.
pub open spec fn char_utf8_len(c: char) -> nat {
    encode_scalar(c as u32).len()
}

/// How many leading characters of `text` have an encoding that fits in
/// `limit` bytes: the cut falls on the last character boundary at or below `limit`.
pub open spec fn chars_within(text: Seq<char>, limit: int) -> nat
    decreases text.len(),
{
    if text.len() == 0 {
        0
    } else if char_utf8_len(text[0]) <= limit {
        1 + chars_within(text.drop_first(), limit - char_utf8_len(text[0]))
    } else {
        0
    }
}

/// `text` cut at the last character boundary at or below byte `limit` and
/// followed by "...", when its UTF-8 encoding is longer than `limit` bytes.
pub open spec fn byte_clipped(text: Seq<char>, limit: nat) -> Seq<char> {
    if encode_utf8(text).len() > limit {
        text.take(chars_within(text, limit as int) as int) + seq!['.', '.', '.']
    } else {
        text
    }
}

/// Appending a character appends its encoding.
pub proof fn lemma_encode_utf8_push(s: Seq<char>, c: char)
    ensures
        encode_utf8(s.push(c)) == encode_utf8(s) + encode_scalar(c as u32),
    decreases s.len(),
{
    if s.len() == 0 {
        assert(s.push(c).drop_first() =~= Seq::<char>::empty());
        assert(encode_utf8(Seq::<char>::empty()) =~= Seq::<u8>::empty());
        assert(encode_utf8(s.push(c)) =~= encode_scalar(c as u32));
        assert(encode_utf8(s) =~= Seq::<u8>::empty());
    } else {
        lemma_encode_utf8_push(s.drop_first(), c);
        assert(s.push(c).drop_first() =~= s.drop_first().push(c));
        assert(encode_utf8(s.push(c)) =~= encode_utf8(s) + encode_scalar(c as u32));
    }
}

/// Number of bytes of the UTF-8 encoding of `c`.
fn char_width(c: char) -> (w: usize)
    ensures
        w == char_utf8_len(c),
        1 <= w <= 4,
{
    proof {
        vstd::utf8::char_is_scalar(c);
    }
    let v = c as u32;
    if v <= 0x7F {
        1
    } else if v <= 0x7FF {
        2
    } else if v <= 0xFFFF {
        3
    } else {
        4
    }
}

/// Cuts `text` as `byte_clipped` says: by bytes, on a character boundary.
pub fn clip_text_bytes(text: &str, limit: usize) -> (r: String)
    ensures
        r@ == byte_clipped(text@, limit as nat),
{
    if text.as_bytes().len() <= limit {
        return text.to_owned();
    }
    let n = text.unicode_len();
    let ghost t = text@;
    let mut i: usize = 0;
    let mut bytes: usize = 0;
    proof {
        assert(t.take(0) =~= Seq::<char>::empty());
        assert(t.skip(0) =~= t);
        assert(encode_utf8(Seq::<char>::empty()) =~= Seq::<u8>::empty());
    }
    while i < n
        invariant
            n == t.len(),
            t == text@,
            i <= n,
            bytes <= limit,
            bytes == encode_utf8(t.take(i as int)).len(),
            chars_within(t, limit as int) == i + chars_within(t.skip(i as int), limit - bytes),
        ensures
            i <= n,
            chars_within(t, limit as int) == i,
        decreases n - i,
    {
        let c = text.get_char(i);
        let w = char_width(c);
        let ghost rest = t.skip(i as int);
        assert(rest[0] == c);
        if w > limit - bytes {
            assert(chars_within(rest, limit - bytes) == 0);
            break;
        }
        proof {
            lemma_encode_utf8_push(t.take(i as int), c);
            assert(t.take(i + 1) =~= t.take(i as int).push(c));
            assert(rest.drop_first() =~= t.skip(i + 1));
        }
        bytes = bytes + w;
        i = i + 1;
    }
    let head = text.substring_char(0, i).to_owned();
    let r = head.concat("...");
    proof {
        reveal_strlit("...");
        assert(t.take(i as int) =~= t.subrange(0, i as int));
    }
    r
}


/// The character of a decimal digit.
pub open spec fn digit_char(d: nat) -> char {
    if d == 0 { '0' }
    else if d == 1 { '1' }
    else if d == 2 { '2' }
    else if d == 3 { '3' }
    else if d == 4 { '4' }
    else if d == 5 { '5' }
    else if d == 6 { '6' }
    else if d == 7 { '7' }
    else if d == 8 { '8' }
    else { '9' }
}

/// Decimal notation of `n`, without leading zeros.
pub open spec fn decimal(n: nat) -> Seq<char>
    decreases n,
{
    if n < 10 {
        seq![digit_char(n)]
    } else {
        decimal(n / 10).push(digit_char(n % 10))
    }
}

fn digit_str(d: u64) -> (r: &'static str)
    requires
        d < 10,
    ensures
        r@ == seq![digit_char(d as nat)],
{
    proof {
        reveal_strlit("0");
        reveal_strlit("1");
        reveal_strlit("2");
        reveal_strlit("3");
        reveal_strlit("4");
        reveal_strlit("5");
        reveal_strlit("6");
        reveal_strlit("7");
        reveal_strlit("8");
        reveal_strlit("9");
    }
    match d {
        0 => "0",
        1 => "1",
        2 => "2",
        3 => "3",
        4 => "4",
        5 => "5",
        6 => "6",
        7 => "7",
        8 => "8",
        _ => "9",
    }
}

/// Appends the decimal notation of `n`.
fn push_decimal(out: &mut String, n: u64)
    ensures
        final(out)@ == old(out)@ + decimal(n as nat),
    decreases n,
{
    if n >= 10 {
        push_decimal(out, n / 10);
    }
    out.append(digit_str(n % 10));
    proof {
        if n >= 10 {
            assert(decimal(n as nat) == decimal((n / 10) as nat).push(digit_char((n % 10) as nat)));
        }
    }
}

/// `n / d` in hundredths, rounded to the nearest, ties to even.
pub open spec fn hundredths(n: nat, d: nat) -> nat {
    let q = (n * 100) / d;
    let r = (n * 100) % d;
    if 2 * r > d || (2 * r == d && q % 2 == 1) {
        q + 1
    } else {
        q
    }
}

/// A number of hundredths written with two decimals, as in "12.05".
pub open spec fn two_decimals(h: nat) -> Seq<char> {
    decimal(h / 100) + seq!['.', digit_char((h % 100) / 10), digit_char(h % 10)]
}

/// How a byte size is shown: plain bytes below 1 KiB, else kibibytes,
/// mebibytes or gibibytes with two decimals.
pub open spec fn byte_size_label(n: nat) -> Seq<char> {
    if n < 0x400 {
        decimal(n) + seq!['B']
    } else if n < 0x10_0000 {
        two_decimals(hundredths(n, 0x400)) + seq!['K', 'B']
    } else if n < 0x4000_0000 {
        two_decimals(hundredths(n, 0x10_0000)) + seq!['M', 'B']
    } else {
        two_decimals(hundredths(n, 0x4000_0000)) + seq!['G', 'B']
    }
}

/// `n / d` in hundredths, rounded to the nearest, ties to even.
fn round_hundredths(n: usize, d: u128) -> (r: u64)
    requires
        0x400 <= d <= 0x4000_0000,
    ensures
        r == hundredths(n as nat, d as nat),
{
    let x: u128 = (n as u128) * 100;
    let q = x / d;
    let rem = x % d;
    assert(q <= x / 0x400) by (nonlinear_arith)
        requires
            d >= 0x400,
            q == x / d,
    ;
    assert(q < 0xffff_ffff_ffff_ff00) by (nonlinear_arith)
        requires
            q <= x / 0x400,
            x == n * 100,
            n <= usize::MAX,
            usize::MAX <= 0xffff_ffff_ffff_ffff,
    ;
    if 2 * rem > d || (2 * rem == d && q % 2 == 1) {
        (q + 1) as u64
    } else {
        q as u64
    }
}

/// Appends a number of hundredths with two decimals.
fn push_two_decimals(out: &mut String, h: u64)
    ensures
        final(out)@ == old(out)@ + two_decimals(h as nat),
{
    push_decimal(out, h / 100);
    proof {
        reveal_strlit(".");
    }
    out.append(".");
    out.append(digit_str((h % 100) / 10));
    out.append(digit_str(h % 10));
    proof {
        assert(final(out)@ =~= old(out)@ + two_decimals(h as nat));
    }
}

/// The label of a byte size (see `byte_size_label`).
pub fn fmt_resource_byte_size(byte_size: usize) -> (r: String)
    ensures
        r@ == byte_size_label(byte_size as nat),
{
    let mut out = String::new();
    proof {
        reveal_strlit("B");
        reveal_strlit("KB");
        reveal_strlit("MB");
        reveal_strlit("GB");
    }
    if byte_size < 0x400 {
        push_decimal(&mut out, byte_size as u64);
        out.append("B");
    } else if byte_size < 0x10_0000 {
        let h = round_hundredths(byte_size, 0x400);
        push_two_decimals(&mut out, h);
        out.append("KB");
    } else if byte_size < 0x4000_0000 {
        let h = round_hundredths(byte_size, 0x10_0000);
        push_two_decimals(&mut out, h);
        out.append("MB");
    } else {
        let h = round_hundredths(byte_size, 0x4000_0000);
        push_two_decimals(&mut out, h);
        out.append("GB");
    }
    assert(out@ =~= byte_size_label(byte_size as nat));
    out
}


/// The key hint of a list position: "1" to "6" for the first six, "-" after.
pub open spec fn shortcut_label(index: nat) -> Seq<char> {
    if index < 6 {
        seq![digit_char(index + 1)]
    } else {
        seq!['-']
    }
}

/// The key hint of a list position (see `shortcut_label`).
pub fn index_to_shortcut(index: usize) -> (r: String)
    ensures
        r@ == shortcut_label(index as nat),
{
    proof {
        reveal_strlit("-");
    }
    if index < 6 {
        String::from_str(digit_str((index + 1) as u64))
    } else {
        String::from_str("-")
    }
}

/// A history entry as the list shows it.
#[derive(Debug, Clone)]
pub struct VClipboardHistoryItem {
    pub id: i32,
    pub typ: ClipboardHistoryItemType,
    pub text: String,
    pub width: i32,
    pub height: i32,
    pub resource: u64,
    pub shortcut: String,
}

/// Abstract value of a list entry.
pub struct VItemView {
    pub id: i32,
    pub typ: ClipboardHistoryItemType,
    pub text: Seq<char>,
    pub width: i32,
    pub height: i32,
    pub resource: u64,
    pub shortcut: Seq<char>,
}

impl View for VClipboardHistoryItem {
    type V = VItemView;

    open spec fn view(&self) -> VItemView {
        VItemView {
            id: self.id,
            typ: self.typ,
            text: self.text@,
            width: self.width,
            height: self.height,
            resource: self.resource,
            shortcut: self.shortcut@,
        }
    }
}

/// Longest text a list entry shows, in characters.
pub const LIST_TEXT_LIMIT: usize = 300;
/// Longest text the detail pane shows, in UTF-8 bytes.
pub const DETAIL_TEXT_LIMIT: usize = 3000;

/// How the list shows the entry at position `index`: text cut to 300
/// characters; an image by its size and preview.
pub open spec fn list_item(item: ItemView, index: nat) -> VItemView {
    if item.image {
        VItemView {
            id: item.model.id,
            typ: ClipboardHistoryItemType::Image,
            text: Seq::empty(),
            width: item.model.width,
            height: item.model.height,
            resource: item.resource,
            shortcut: shortcut_label(index),
        }
    } else {
        VItemView {
            id: item.model.id,
            typ: ClipboardHistoryItemType::Text,
            text: clipped(item.model.text, LIST_TEXT_LIMIT as nat),
            width: 0,
            height: 0,
            resource: 0,
            shortcut: shortcut_label(index),
        }
    }
}

/// The key hint of a list entry is the digit key that selects its position:
/// the entries at positions 0 to 5 show "1" to "6", and the digit key (or
/// keypad key) with that number selects that position; later entries show
/// "-", and no key selects them.
pub proof fn law_key_hint_selects_position(item: ItemView, i: nat)
    ensures
        i == 0 ==> list_item(item, i).shortcut == seq!['1'] && digit_index(KeyCode::Digit1) == Some(0usize)
            && digit_index(KeyCode::Numpad1) == Some(0usize),
        i == 1 ==> list_item(item, i).shortcut == seq!['2'] && digit_index(KeyCode::Digit2) == Some(1usize)
            && digit_index(KeyCode::Numpad2) == Some(1usize),
        i == 2 ==> list_item(item, i).shortcut == seq!['3'] && digit_index(KeyCode::Digit3) == Some(2usize)
            && digit_index(KeyCode::Numpad3) == Some(2usize),
        i == 3 ==> list_item(item, i).shortcut == seq!['4'] && digit_index(KeyCode::Digit4) == Some(3usize)
            && digit_index(KeyCode::Numpad4) == Some(3usize),
        i == 4 ==> list_item(item, i).shortcut == seq!['5'] && digit_index(KeyCode::Digit5) == Some(4usize)
            && digit_index(KeyCode::Numpad5) == Some(4usize),
        i == 5 ==> list_item(item, i).shortcut == seq!['6'] && digit_index(KeyCode::Digit6) == Some(5usize)
            && digit_index(KeyCode::Numpad6) == Some(5usize),
        i >= 6 ==> list_item(item, i).shortcut == seq!['-'],
        forall|k: KeyCode| #[trigger] digit_index(k) matches Some(p) ==> p < 6,
{
}

/// Builds the list entry of `item` at position `index`.
pub fn build_v_clipboard_history_item(item: &ClipboardHistoryItem, index: usize) -> (r:
    VClipboardHistoryItem)
    ensures
        r@ == list_item(item@, index as nat),
{
    let id = item.id();
    match item {
        ClipboardHistoryItem::Text(t) => VClipboardHistoryItem {
            id,
            typ: ClipboardHistoryItemType::Text,
            text: clip_text(t.text(), LIST_TEXT_LIMIT),
            width: 0,
            height: 0,
            resource: 0,
            shortcut: index_to_shortcut(index),
        },
        ClipboardHistoryItem::Image(i) => {
            let (width, height) = i.dimensions();
            VClipboardHistoryItem {
                id,
                typ: ClipboardHistoryItemType::Image,
                text: String::new(),
                width,
                height,
                resource: i.base64_png_resource(),
                shortcut: index_to_shortcut(index),
            }
        },
    }
}

/// The active entry as the detail pane shows it.
#[derive(Debug, Clone)]
pub struct VClipboardHistoryDetailItem {
    pub id: i32,
    pub typ: ClipboardHistoryItemType,
    pub text: String,
    pub width: i32,
    pub height: i32,
    pub resource: u64,
    pub chars_len: usize,
    pub resource_byte_size: String,
}

/// Abstract value of a detail entry.
pub struct VDetailView {
    pub id: i32,
    pub typ: ClipboardHistoryItemType,
    pub text: Seq<char>,
    pub width: i32,
    pub height: i32,
    pub resource: u64,
    pub chars_len: nat,
    pub resource_byte_size: Seq<char>,
}

impl View for VClipboardHistoryDetailItem {
    type V = VDetailView;

    open spec fn view(&self) -> VDetailView {
        VDetailView {
            id: self.id,
            typ: self.typ,
            text: self.text@,
            width: self.width,
            height: self.height,
            resource: self.resource,
            chars_len: self.chars_len as nat,
            resource_byte_size: self.resource_byte_size@,
        }
    }
}

/// How the detail pane shows `item`: text cut on a character boundary at
/// or below byte 3000, with its full length in UTF-8 bytes; an image by its
/// size, preview and byte size.
pub open spec fn detail_item(item: ItemView) -> VDetailView {
    if item.image {
        VDetailView {
            id: item.model.id,
            typ: ClipboardHistoryItemType::Image,
            text: Seq::empty(),
            width: item.model.width,
            height: item.model.height,
            resource: item.resource,
            chars_len: 0,
            resource_byte_size: byte_size_label(item.model.bytes.len()),
        }
    } else {
        VDetailView {
            id: item.model.id,
            typ: ClipboardHistoryItemType::Text,
            text: byte_clipped(item.model.text, DETAIL_TEXT_LIMIT as nat),
            width: 0,
            height: 0,
            resource: 0,
            chars_len: encode_utf8(item.model.text).len(),
            resource_byte_size: Seq::empty(),
        }
    }
}

/// Builds the detail entry of `item`.
pub fn build_v_clipboard_history_detail_item(item: &ClipboardHistoryItem) -> (r:
    VClipboardHistoryDetailItem)
    ensures
        r@ == detail_item(item@),
{
    let id = item.id();
    match item {
        ClipboardHistoryItem::Text(t) => {
            let text = t.text();
            let chars_len = text.as_bytes().len();
            VClipboardHistoryDetailItem {
                id,
                typ: ClipboardHistoryItemType::Text,
                text: clip_text_bytes(text, DETAIL_TEXT_LIMIT),
                width: 0,
                height: 0,
                resource: 0,
                chars_len,
                resource_byte_size: String::new(),
            }
        },
        ClipboardHistoryItem::Image(i) => {
            let (width, height) = i.dimensions();
            VClipboardHistoryDetailItem {
                id,
                typ: ClipboardHistoryItemType::Image,
                text: String::new(),
                width,
                height,
                resource: i.base64_png_resource(),
                chars_len: 0,
                resource_byte_size: fmt_resource_byte_size(i.bytes().len()),
            }
        },
    }
}

/// The whole list as the UI shows it.
#[derive(Debug, Clone)]
pub struct VClipboardHistory {
    pub items: Vec<VClipboardHistoryItem>,
}

impl Default for VClipboardHistory {
    fn default() -> (r: Self)
        ensures
            r.items@.len() == 0,
    {
        VClipboardHistory { items: Vec::new() }
    }
}

/// The list view of a history: entry `i` shown by `list_item` at position `i`.
pub open spec fn list_items(items: Seq<ItemView>) -> Seq<VItemView> {
    Seq::new(items.len(), |i: int| list_item(items[i], i as nat))
}

pub open spec fn v_items_view(v: Seq<VClipboardHistoryItem>) -> Seq<VItemView> {
    v.map_values(|x: VClipboardHistoryItem| x@)
}

/// The active entry as the UI shows it.
#[derive(Debug, Clone)]
pub struct VClipboardActiveHistoryItem {
    pub id: i32,
    pub item: Option<VClipboardHistoryDetailItem>,
}

/// Publishes the list view of the history into `root`.
pub fn clipboard_history_view(state: &ClipboardHistoryListState, root: &mut RootView)
    ensures
        final(root).clipboard_history is Some,
        v_items_view(final(root).clipboard_history->0.items@) == list_items(state@.items),
        final(root).active_clipboard_item == old(root).active_clipboard_item,
        final(root).preference == old(root).preference,
{
    root.clipboard_history = Some(build_clipboard_history(state));
}

/// The list view of the history.
fn build_clipboard_history(state: &ClipboardHistoryListState) -> (r: VClipboardHistory)
    ensures
        v_items_view(r.items@) == list_items(state@.items),
{
    let list = state.list();
    let mut items: Vec<VClipboardHistoryItem> = Vec::new();
    let mut i: usize = 0;
    while i < list.len()
        invariant
            i <= list.len(),
            items_view(list@) == state@.items,
            v_items_view(items@) =~= list_items(state@.items).take(i as int),
        decreases list.len() - i,
    {
        let v = build_v_clipboard_history_item(&list[i], i);
        proof {
            assert(state@.items[i as int] == list@[i as int]@);
        }
        let ghost before = items@;
        items.push(v);
        proof {
            assert(v_items_view(items@) =~= v_items_view(before).push(v@));
            assert(list_items(state@.items).take(i + 1) =~= list_items(state@.items).take(i as int).push(
                list_item(state@.items[i as int], i as nat),
            ));
        }
        i = i + 1;
    }
    proof {
        assert(list_items(state@.items).take(list.len() as int) =~= list_items(state@.items));
    }
    VClipboardHistory { items }
}

/// Publishes the view of the active entry into `root`.
pub fn clipboard_active_item_view(state: &ClipboardHistoryActiveState, root: &mut RootView)
    ensures
        final(root).active_clipboard_item is Some,
        ({
            let v = final(root).active_clipboard_item->0;
            &&& v.id == state@.active_id
            &&& v.item is Some == state@.item is Some
            &&& v.item is Some ==> v.item->0@ == detail_item(state@.item->0)
        }),
        final(root).clipboard_history == old(root).clipboard_history,
        final(root).preference == old(root).preference,
{
    root.active_clipboard_item = Some(build_active_item(state));
}

/// The view of the active entry.
fn build_active_item(state: &ClipboardHistoryActiveState) -> (r: VClipboardActiveHistoryItem)
    ensures
        r.id == state@.active_id,
        r.item is Some == state@.item is Some,
        r.item is Some ==> r.item->0@ == detail_item(state@.item->0),
{
    let item = match state.item() {
        Some(item) => Some(build_v_clipboard_history_detail_item(item)),
        None => None,
    };
    VClipboardActiveHistoryItem { id: state.active_id(), item }
}

} // verus!
