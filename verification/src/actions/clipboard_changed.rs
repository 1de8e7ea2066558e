//! The clipboard history and its active entry, and every transition on them.
use vstd::prelude::*;
use vstd::string::*;

use crate::utils::{png_encoding, raw_bytes_to_png};
use crate::actions::history_laws::{
    active_in_list, law_reload_restores_view, reloaded_from, same_list_view,
};
use crate::models::clipboard::{
    ClipboardHistoryItem, ClipboardHistoryItemModel, ClipboardHistoryItemType, ModelView,
    ClipboardHistoryItemImage, ClipboardHistoryItemText, ItemView,
};

verus! {

/// What the clipboard holds when it changes.
#[derive(Debug)]
pub enum OnClipboardActionArg {
    Text(String),
    Image { width: usize, height: usize, bytes: Vec<u8> },
}

/// Abstract value of the history: its entries, newest first, and the next id to hand out.
pub struct HistoryView {
    pub items: Seq<ItemView>,
    pub alloc: i32,
}

/// Abstract value of the active entry.
pub struct ActiveView {
    pub active_id: i32,
    pub item: Option<ItemView>,
}

pub open spec fn items_view(v: Seq<ClipboardHistoryItem>) -> Seq<ItemView> {
    v.map_values(|it: ClipboardHistoryItem| it@)
}

pub open spec fn opt_item_view(o: Option<ClipboardHistoryItem>) -> Option<ItemView> {
    match o {
        Some(it) => Some(it@),
        None => None,
    }
}

/// `i` is the first position of an entry with id `id`.
pub open spec fn is_first_with_id(items: Seq<ItemView>, id: i32, i: int) -> bool {
    &&& 0 <= i < items.len()
    &&& items[i].model.id == id
    &&& forall|j: int| 0 <= j < i ==> items[j].model.id != id
}

pub open spec fn position_of_id(items: Seq<ItemView>, id: i32) -> Option<int> {
    if exists|i: int| is_first_with_id(items, id, i) {
        Some(choose|i: int| is_first_with_id(items, id, i))
    } else {
        None
    }
}

/// The first entry with id `id`, if any.
pub open spec fn find_item(items: Seq<ItemView>, id: i32) -> Option<ItemView> {
    match position_of_id(items, id) {
        Some(i) => Some(items[i]),
        None => None,
    }
}

/// The active state after activating id `id`.
pub open spec fn activated(items: Seq<ItemView>, id: i32) -> ActiveView {
    ActiveView { active_id: id, item: find_item(items, id) }
}

/// The successor of an id counter, wrapping as a two's complement add does.
pub open spec fn next_alloc(a: i32) -> i32 {
    if a == i32::MAX {
        i32::MIN
    } else {
        (a + 1) as i32
    }
}

pub proof fn lemma_first_with_id_unique(items: Seq<ItemView>, id: i32, i: int, k: int)
    requires
        is_first_with_id(items, id, i),
        is_first_with_id(items, id, k),
    ensures
        i == k,
{
    if i < k {
        assert(items[i].model.id != id);
    } else if k < i {
        assert(items[k].model.id != id);
    }
}

pub proof fn lemma_position_of_id(items: Seq<ItemView>, id: i32, i: int)
    requires
        is_first_with_id(items, id, i),
    ensures
        position_of_id(items, id) == Some(i),
{
    let k = choose|k: int| is_first_with_id(items, id, k);
    lemma_first_with_id_unique(items, id, i, k);
}

/// The history list and the id counter.
pub struct ClipboardHistoryListState {
    list: Vec<ClipboardHistoryItem>,
    alloc: i32,
}

impl View for ClipboardHistoryListState {
    type V = HistoryView;

    closed spec fn view(&self) -> HistoryView {
        HistoryView { items: items_view(self.list@), alloc: self.alloc }
    }
}

impl Default for ClipboardHistoryListState {
    fn default() -> (r: Self)
        ensures
            r@.items == Seq::<ItemView>::empty(),
            r@.alloc == 0,
    {
        let r = ClipboardHistoryListState { list: Vec::new(), alloc: 0 };
        assert(items_view(r.list@) =~= Seq::<ItemView>::empty());
        r
    }
}

impl ClipboardHistoryListState {
    /// The entries, newest first.
    pub fn list(&self) -> (r: &Vec<ClipboardHistoryItem>)
        ensures
            items_view(r@) == self@.items,
    {
        &self.list
    }

    /// The id the next entry will get.
    pub fn next_id(&self) -> (r: i32)
        ensures
            r == self@.alloc,
    {
        self.alloc
    }
}

/// The active (highlighted) entry: its id and, when it was found, a copy of it.
pub struct ClipboardHistoryActiveState {
    active_id: i32,
    item: Option<ClipboardHistoryItem>,
}

impl View for ClipboardHistoryActiveState {
    type V = ActiveView;

    closed spec fn view(&self) -> ActiveView {
        ActiveView { active_id: self.active_id, item: opt_item_view(self.item) }
    }
}

impl Default for ClipboardHistoryActiveState {
    fn default() -> (r: Self)
        ensures
            r@ == (ActiveView { active_id: 0, item: None }),
    {
        ClipboardHistoryActiveState { active_id: 0, item: None }
    }
}

impl ClipboardHistoryActiveState {
    /// Id of the active entry (zero when none was chosen).
    pub fn active_id(&self) -> (r: i32)
        ensures
            r == self@.active_id,
    {
        self.active_id
    }

    /// The active entry, when it was found.
    pub fn item(&self) -> (r: &Option<ClipboardHistoryItem>)
        ensures
            opt_item_view(*r) == self@.item,
    {
        &self.item
    }
}

/// First position of an entry with id `id` in `list`.
fn position_by_id(list: &Vec<ClipboardHistoryItem>, id: i32) -> (r: Option<usize>)
    ensures
        match r {
            Some(i) => position_of_id(items_view(list@), id) == Some(i as int),
            None => position_of_id(items_view(list@), id) == None::<int>,
        },
{
    let ghost items = items_view(list@);
    let mut i: usize = 0;
    while i < list.len()
        invariant
            i <= list.len(),
            items == items_view(list@),
            forall|j: int| 0 <= j < i ==> items[j].model.id != id,
        decreases list.len() - i,
    {
        if list[i].id() == id {
            proof {
                lemma_position_of_id(items, id, i as int);
            }
            return Some(i);
        }
        i = i + 1;
    }
    None
}

/// A copy of the first entry with id `id`.
fn find_by_id(list: &Vec<ClipboardHistoryItem>, id: i32) -> (r: Option<ClipboardHistoryItem>)
    ensures
        opt_item_view(r) == find_item(items_view(list@), id),
{
    match position_by_id(list, id) {
        Some(i) => Some(list[i].clone()),
        None => None,
    }
}

/// Makes the entry with id `id` active; the copy is absent when no entry has that id.
pub fn active_clipboard_by_id(
    list: &ClipboardHistoryListState,
    active: &mut ClipboardHistoryActiveState,
    id: i32,
)
    ensures
        final(active)@ == activated(list@.items, id),
{
    let item = find_by_id(&list.list, id);
    active.active_id = id;
    active.item = item;
}

/// Hands out the next id and advances the counter (wrapping at the end of the range).
pub fn alloc_list_item_id(list: &mut ClipboardHistoryListState) -> (id: i32)
    ensures
        id == old(list)@.alloc,
        final(list)@.alloc == next_alloc(old(list)@.alloc),
        final(list)@.items == old(list)@.items,
{
    let id = list.alloc;
    list.alloc = list.alloc.wrapping_add(1);
    id
}


pub open spec fn item_ids(items: Seq<ItemView>) -> Seq<i32> {
    items.map_values(|v: ItemView| v.model.id)
}

/// Active state after moving one entry down (towards older entries).
pub open spec fn after_next(items: Seq<ItemView>, active: ActiveView) -> ActiveView {
    match position_of_id(items, active.active_id) {
        Some(i) => if i + 1 < items.len() {
            activated(items, items[i + 1].model.id)
        } else {
            active
        },
        None => active,
    }
}

/// Active state after moving one entry up (towards newer entries).
pub open spec fn after_previous(items: Seq<ItemView>, active: ActiveView) -> ActiveView {
    match position_of_id(items, active.active_id) {
        Some(i) => if i >= 1 {
            activated(items, items[i - 1].model.id)
        } else {
            active
        },
        None => active,
    }
}

/// The first `n` entries (all of them when there are no more than `n`).
pub open spec fn retained(items: Seq<ItemView>, n: nat) -> Seq<ItemView> {
    if n < items.len() {
        items.take(n as int)
    } else {
        items
    }
}

/// Ids of the entries beyond the first `n`, in list order.
pub open spec fn dropped_ids(items: Seq<ItemView>, n: nat) -> Seq<i32> {
    if n < items.len() {
        item_ids(items.skip(n as int))
    } else {
        Seq::empty()
    }
}

/// The entries whose id differs from `id`, in list order.
pub open spec fn without_id(items: Seq<ItemView>, id: i32) -> Seq<ItemView> {
    items.filter(|v: ItemView| v.model.id != id)
}

/// Active state after the entry with id `id` was removed: when that entry
/// was the active one, the entry that moved into its place becomes active,
/// or the new last entry when it was the last one.
pub open spec fn active_after_remove(items: Seq<ItemView>, active: ActiveView, id: i32) -> ActiveView {
    let rest = without_id(items, id);
    match position_of_id(items, active.active_id) {
        Some(i) => if active.active_id == id && rest.len() > 0 {
            let j = if i < rest.len() { i } else { rest.len() - 1 };
            activated(rest, rest[j].model.id)
        } else {
            active
        },
        None => active,
    }
}

/// Active state after the history was trimmed to its first `n` entries:
/// when the active entry was dropped, the last kept entry becomes active.
pub open spec fn active_after_retain(items: Seq<ItemView>, active: ActiveView, n: nat) -> ActiveView {
    let kept = retained(items, n);
    match position_of_id(items, active.active_id) {
        Some(i) => if i >= kept.len() && kept.len() > 0 {
            activated(kept, kept[kept.len() - 1].model.id)
        } else {
            active
        },
        None => active,
    }
}

/// Largest id, starting from zero.
pub open spec fn max_id(items: Seq<ItemView>) -> i32
    decreases items.len(),
{
    if items.len() == 0 {
        0
    } else {
        let m = max_id(items.drop_last());
        if items.last().model.id > m {
            items.last().model.id
        } else {
            m
        }
    }
}

/// Where the active entry sits in the list.
struct ActiveLoc {
    len: usize,
    id: i32,
    index: usize,
}

fn find_active_clipboard_history_loc(
    list: &ClipboardHistoryListState,
    active: &ClipboardHistoryActiveState,
) -> (r: Option<ActiveLoc>)
    ensures
        match r {
            Some(loc) => {
                &&& position_of_id(list@.items, active@.active_id) == Some(loc.index as int)
                &&& loc.id == active@.active_id
                &&& loc.len == list@.items.len()
            },
            None => position_of_id(list@.items, active@.active_id) == None::<int>,
        },
{
    let len = list.list.len();
    let id = active.active_id;
    match position_by_id(&list.list, id) {
        Some(index) => Some(ActiveLoc { len, id, index }),
        None => None,
    }
}

/// Whether the largest id (counted from zero) still has a successor, as
/// installing `histories` requires.
pub fn ids_leave_room(histories: &Vec<ClipboardHistoryItem>) -> (r: bool)
    ensures
        r == (max_id(items_view(histories@)) < i32::MAX),
{
    largest_id(histories) < i32::MAX
}

/// The largest id of the entries, counted from zero.
fn largest_id(histories: &Vec<ClipboardHistoryItem>) -> (m: i32)
    ensures
        m == max_id(items_view(histories@)),
{
    let ghost items = items_view(histories@);
    let mut max: i32 = 0;
    let mut i: usize = 0;
    while i < histories.len()
        invariant
            i <= histories.len(),
            items == items_view(histories@),
            max == max_id(items.take(i as int)),
        decreases histories.len() - i,
    {
        let id = histories[i].id();
        proof {
            assert(items.take(i + 1).drop_last() =~= items.take(i as int));
        }
        if id > max {
            max = id;
        }
        i = i + 1;
    }
    proof {
        assert(items.take(histories.len() as int) =~= items);
    }
    max
}

/// Rebuilds entries from stored rows, in the same order: row `i` with the
/// preview resource `resources[i]` registered for it (used when it is an image).
pub fn histories_from_rows(rows: &Vec<ClipboardHistoryItemModel>, resources: &Vec<u64>) -> (r: Vec<
    ClipboardHistoryItem,
>)
    requires
        rows@.len() == resources@.len(),
    ensures
        r@.len() == rows@.len(),
        forall|i: int|
            0 <= i < rows@.len() ==> {
                &&& (#[trigger] r@[i])@.model == rows@[i]@
                &&& r@[i]@.image == (rows@[i].typ == ClipboardHistoryItemType::Image)
                &&& r@[i]@.resource == (if r@[i]@.image { resources@[i] } else { 0 })
            },
{
    let mut out: Vec<ClipboardHistoryItem> = Vec::new();
    let mut i: usize = 0;
    while i < rows.len()
        invariant
            i <= rows@.len(),
            rows@.len() == resources@.len(),
            out@.len() == i,
            forall|k: int|
                0 <= k < i ==> {
                    &&& (#[trigger] out@[k])@.model == rows@[k]@
                    &&& out@[k]@.image == (rows@[k].typ == ClipboardHistoryItemType::Image)
                    &&& out@[k]@.resource == (if out@[k]@.image { resources@[k] } else { 0 })
                },
        decreases rows@.len() - i,
    {
        let item = ClipboardHistoryItem::from_model(rows[i].clone(), resources[i]);
        out.push(item);
        i = i + 1;
    }
    out
}

/// The preview resources of the image entries, in list order.
pub open spec fn preview_ids(items: Seq<ItemView>) -> Seq<u64>
    decreases items.len(),
{
    if items.len() == 0 {
        Seq::empty()
    } else {
        let rest = preview_ids(items.drop_last());
        if items.last().image {
            rest.push(items.last().resource)
        } else {
            rest
        }
    }
}

/// The previews in use: those of the list's image entries, then that of the
/// active entry when it is an image.
pub open spec fn used_previews(items: Seq<ItemView>, active: ActiveView) -> Seq<u64> {
    preview_ids(items) + match active.item {
        Some(it) => if it.image {
            seq![it.resource]
        } else {
            Seq::empty()
        },
        None => Seq::empty(),
    }
}

/// The preview resources still in use, so that the caller can release the others.
pub fn used_preview_ids(list: &ClipboardHistoryListState, active: &ClipboardHistoryActiveState) -> (r:
    Vec<u64>)
    ensures
        r@ == used_previews(list@.items, active@),
{
    let ghost items = list@.items;
    let mut used: Vec<u64> = Vec::new();
    let mut i: usize = 0;
    proof {
        assert(items.take(0) =~= Seq::<ItemView>::empty());
    }
    while i < list.list.len()
        invariant
            i <= list.list@.len(),
            items == items_view(list.list@),
            used@ == preview_ids(items.take(i as int)),
        decreases list.list@.len() - i,
    {
        proof {
            assert(items.take(i + 1).drop_last() =~= items.take(i as int));
            assert(items.take(i + 1).last() == list.list@[i as int]@);
        }
        match &list.list[i] {
            ClipboardHistoryItem::Image(img) => used.push(img.base64_png_resource()),
            ClipboardHistoryItem::Text(_) => {},
        }
        i = i + 1;
    }
    proof {
        assert(items.take(i as int) =~= items);
    }
    let ghost before = used@;
    match &active.item {
        Some(ClipboardHistoryItem::Image(img)) => used.push(img.base64_png_resource()),
        _ => {},
    }
    proof {
        assert(used@ =~= used_previews(items, active@));
    }
    used
}

/// Installs the entries loaded from storage: the first one becomes active
/// and the id counter continues after the largest stored id. When they are
/// what reloading a stored history gives, the list shows as that history
/// did, and its first entry is active.
pub fn init_clipboard_histories(
    list: &mut ClipboardHistoryListState,
    active: &mut ClipboardHistoryActiveState,
    histories: Vec<ClipboardHistoryItem>,
)
    requires
        max_id(items_view(histories@)) < i32::MAX,
    ensures
        final(list)@.items == items_view(histories@),
        final(list)@.alloc == max_id(items_view(histories@)) + 1,
        histories@.len() > 0 ==> final(active)@ == (ActiveView {
            active_id: histories@[0]@.model.id,
            item: Some(histories@[0]@),
        }),
        histories@.len() == 0 ==> final(active)@ == old(active)@,
        forall|stored: Seq<ItemView>|
            #[trigger] reloaded_from(stored, items_view(histories@)) ==> {
                &&& same_list_view(stored, final(list)@.items)
                &&& stored.len() > 0 ==> final(active)@.active_id == stored[0].model.id
                    && active_in_list(final(list)@.items, final(active)@)
            },
{
    proof {
        assert forall|stored: Seq<ItemView>|
            #[trigger] reloaded_from(stored, items_view(histories@)) implies {
                &&& same_list_view(stored, items_view(histories@))
                &&& stored.len() > 0 ==> histories@[0]@.model.id == stored[0].model.id
                    && active_in_list(
                    items_view(histories@),
                    ActiveView { active_id: histories@[0]@.model.id, item: Some(histories@[0]@) },
                )
            } by {
            law_reload_restores_view(stored, items_view(histories@));
        }
    }
    let max = largest_id(&histories);
    if histories.len() > 0 {
        active.active_id = histories[0].id();
        active.item = Some(histories[0].clone());
    }
    list.list = histories;
    list.alloc = max + 1;
}

/// Moves the active mark one entry down, when there is an entry below it.
pub fn next_clipboard_active(list: &ClipboardHistoryListState, active: &mut ClipboardHistoryActiveState)
    ensures
        final(active)@ == after_next(list@.items, old(active)@),
{
    let loc = find_active_clipboard_history_loc(list, active);
    if let Some(loc) = loc {
        if loc.index + 1 < loc.len {
            let id = list.list[loc.index + 1].id();
            active_clipboard_by_id(list, active, id);
        }
    }
}

/// Moves the active mark one entry up, when there is an entry above it.
pub fn previous_clipboard_active(list: &ClipboardHistoryListState, active: &mut ClipboardHistoryActiveState)
    ensures
        final(active)@ == after_previous(list@.items, old(active)@),
{
    let loc = find_active_clipboard_history_loc(list, active);
    if let Some(loc) = loc {
        if loc.index >= 1 {
            let id = list.list[loc.index - 1].id();
            active_clipboard_by_id(list, active, id);
        }
    }
}

/// Keeps the first `n` entries and returns the ids of those it dropped, in
/// list order; the caller deletes them from storage.
pub fn retain_ncount_clipboard_histories(list: &mut ClipboardHistoryListState, n: usize) -> (removed: Vec<i32>)
    ensures
        final(list)@.items == retained(old(list)@.items, n as nat),
        final(list)@.alloc == old(list)@.alloc,
        removed@ == dropped_ids(old(list)@.items, n as nat),
{
    let ghost items = list@.items;
    let mut removed: Vec<i32> = Vec::new();
    if n < list.list.len() {
        let mut i: usize = n;
        while i < list.list.len()
            invariant
                n <= i <= list.list.len(),
                items == items_view(list.list@),
                removed@ =~= item_ids(items.skip(n as int)).take(i - n),
            decreases list.list.len() - i,
        {
            removed.push(list.list[i].id());
            i = i + 1;
        }
        proof {
            assert(item_ids(items.skip(n as int)).take(i - n) =~= item_ids(items.skip(n as int)));
        }
        list.list.truncate(n);
        proof {
            assert(items_view(list.list@) =~= items.take(n as int));
        }
    }
    removed
}

/// Copies of the entries whose id differs from `id`.
fn filter_out_id(list: &Vec<ClipboardHistoryItem>, id: i32) -> (r: Vec<ClipboardHistoryItem>)
    ensures
        items_view(r@) == without_id(items_view(list@), id),
{
    let ghost items = items_view(list@);
    let ghost pred = |v: ItemView| v.model.id != id;
    let mut out: Vec<ClipboardHistoryItem> = Vec::new();
    let mut i: usize = 0;
    while i < list.len()
        invariant
            i <= list.len(),
            items == items_view(list@),
            pred == (|v: ItemView| v.model.id != id),
            items_view(out@) == items.take(i as int).filter(pred),
        decreases list.len() - i,
    {
        let ghost before = out@;
        if list[i].id() != id {
            out.push(list[i].clone());
            proof {
                assert(items_view(out@) =~= items_view(before).push(items[i as int]));
            }
        }
        proof {
            assert(items.take(i + 1) =~= items.take(i as int).push(items[i as int]));
            items.take(i as int).lemma_filter_push(items[i as int], pred);
        }
        i = i + 1;
    }
    proof {
        assert(items.take(list.len() as int) =~= items);
    }
    out
}

/// Removes the entry with id `id` (after the caller deleted it from storage);
/// when it was the active entry, the entry that takes its place becomes
/// active, or the new last entry when it was the last one.
pub fn remove_clipboard_history_item(
    list: &mut ClipboardHistoryListState,
    active: &mut ClipboardHistoryActiveState,
    id: i32,
)
    ensures
        final(list)@.items == without_id(old(list)@.items, id),
        final(list)@.alloc == old(list)@.alloc,
        final(active)@ == active_after_remove(old(list)@.items, old(active)@, id),
{
    let loc = find_active_clipboard_history_loc(list, active);
    list.list = filter_out_id(&list.list, id);
    if let Some(loc) = loc {
        if id == loc.id {
            let len = list.list.len();
            if len > 0 {
                let j = if loc.index < len { loc.index } else { len - 1 };
                let next_id = list.list[j].id();
                active_clipboard_by_id(list, active, next_id);
            }
        }
    }
}

/// Keeps the first `n` entries as `retain_ncount_clipboard_histories` does;
/// when the active entry is dropped, the last kept entry becomes active.
pub fn retain_keeping_active(
    list: &mut ClipboardHistoryListState,
    active: &mut ClipboardHistoryActiveState,
    n: usize,
) -> (removed: Vec<i32>)
    ensures
        final(list)@.items == retained(old(list)@.items, n as nat),
        final(list)@.alloc == old(list)@.alloc,
        removed@ == dropped_ids(old(list)@.items, n as nat),
        final(active)@ == active_after_retain(old(list)@.items, old(active)@, n as nat),
{
    let loc = find_active_clipboard_history_loc(list, active);
    let removed = retain_ncount_clipboard_histories(list, n);
    if let Some(loc) = loc {
        let len = list.list.len();
        if loc.index >= len && len > 0 {
            let last_id = list.list[len - 1].id();
            active_clipboard_by_id(list, active, last_id);
        }
    }
    removed
}

/// Empties the history (after the caller emptied storage); the counter and the active mark stay.
pub fn remove_all_clipboard_history_items(list: &mut ClipboardHistoryListState)
    ensures
        final(list)@.items == Seq::<ItemView>::empty(),
        final(list)@.alloc == old(list)@.alloc,
{
    list.list.clear();
    proof {
        assert(items_view(list.list@) =~= Seq::<ItemView>::empty());
    }
}


/// Id of the entry a paste would take: the active id, when the active entry was found.
pub fn pending_paste_id(active: &ClipboardHistoryActiveState) -> (r: Option<i32>)
    ensures
        r == (if active@.item is Some { Some(active@.active_id) } else { None::<i32> }),
{
    if active.item.is_some() {
        Some(active.active_id)
    } else {
        None
    }
}

/// Whether a request to paste entry `id` goes ahead: only when it is the active entry and was found.
pub fn should_paste_if_active(active: &ClipboardHistoryActiveState, id: i32) -> (r: bool)
    ensures
        r == (active@.item is Some && active@.active_id == id),
{
    active.item.is_some() && active.active_id == id
}

/// Takes the active entry out for pasting (after the caller deleted it from
/// storage): it leaves the list and the active mark is cleared.
pub fn take_active_for_paste(
    list: &mut ClipboardHistoryListState,
    active: &mut ClipboardHistoryActiveState,
) -> (r: Option<ClipboardHistoryItem>)
    ensures
        opt_item_view(r) == old(active)@.item,
        old(active)@.item is None ==> final(list)@ == old(list)@ && final(active)@ == old(active)@,
        old(active)@.item is Some ==> {
            &&& final(list)@.items == without_id(old(list)@.items, old(active)@.active_id)
            &&& final(list)@.alloc == old(list)@.alloc
            &&& final(active)@ == (ActiveView { active_id: 0, item: None })
        },
{
    if active.item.is_none() {
        return None;
    }
    let id = active.active_id;
    let item = active.item.take();
    list.list = filter_out_id(&list.list, id);
    active.active_id = 0;
    item
}

/// What a request about the entry at a position leads to.
#[derive(Debug, Clone, Copy, PartialEq, Eq, Structural)]
pub enum IndexAction {
    /// No entry at that position: nothing changed.
    Nothing,
    /// The entry was not active and has become active.
    Activated,
    /// The entry is already the active one: the caller pastes it.
    Paste,
}

/// Activates the entry at `index`, or asks for it to be pasted when it is already active.
pub fn active_or_paste_from_clipboard_by_index(
    list: &ClipboardHistoryListState,
    active: &mut ClipboardHistoryActiveState,
    index: usize,
) -> (r: IndexAction)
    ensures
        index >= list@.items.len() ==> r == IndexAction::Nothing && final(active)@ == old(active)@,
        index < list@.items.len() && list@.items[index as int].model.id == old(active)@.active_id
            ==> r == IndexAction::Paste && final(active)@ == old(active)@,
        index < list@.items.len() && list@.items[index as int].model.id != old(active)@.active_id
            ==> r == IndexAction::Activated && final(active)@ == activated(
            list@.items,
            list@.items[index as int].model.id,
        ),
{
    if index >= list.list.len() {
        return IndexAction::Nothing;
    }
    let target_id = list.list[index].id();
    if active.active_id == target_id {
        IndexAction::Paste
    } else {
        active_clipboard_by_id(list, active, target_id);
        IndexAction::Activated
    }
}

/// The entry that `arg` describes once it is given id `id`.
pub open spec fn item_for_arg(id: i32, arg: OnClipboardActionArg, png_resource: u64) -> ItemView {
    match arg {
        OnClipboardActionArg::Text(text) => ItemView {
            image: false,
            model: ModelView {
                id,
                typ: ClipboardHistoryItemType::Text,
                text: text@,
                width: 0,
                height: 0,
                bytes: Seq::empty(),
            },
            resource: 0,
        },
        OnClipboardActionArg::Image { width, height, bytes } => ItemView {
            image: true,
            model: ModelView {
                id,
                typ: ClipboardHistoryItemType::Image,
                text: Seq::empty(),
                width: width as i32,
                height: height as i32,
                bytes: bytes@,
            },
            resource: png_resource,
        },
    }
}

/// First step of recording a copied value: trims the history so that one
/// more entry fits under `limit`, returning the ids dropped for the caller
/// to delete from storage.
pub fn prepare_clipboard_insert(list: &mut ClipboardHistoryListState, limit: usize) -> (removed: Vec<i32>)
    requires
        limit >= 1,
    ensures
        final(list)@.items == retained(old(list)@.items, (limit - 1) as nat),
        final(list)@.alloc == old(list)@.alloc,
        removed@ == dropped_ids(old(list)@.items, (limit - 1) as nat),
{
    retain_ncount_clipboard_histories(list, limit - 1)
}

/// Second step: gives the copied value the next id. An image keeps the
/// preview resource the caller registered for it (text ignores it).
pub fn alloc_clipboard_item(
    list: &mut ClipboardHistoryListState,
    arg: OnClipboardActionArg,
    png_resource: u64,
) -> (item: ClipboardHistoryItem)
    ensures
        item@ == item_for_arg(old(list)@.alloc, arg, png_resource),
        final(list)@.alloc == next_alloc(old(list)@.alloc),
        final(list)@.items == old(list)@.items,
        item@.model.id == old(list)@.alloc,
        arg matches OnClipboardActionArg::Image { width, height, bytes } ==> {
            &&& item@.image
            &&& item@.model.width == width as i32
            &&& item@.model.height == height as i32
            &&& item@.model.bytes == bytes@
            &&& item@.resource == png_resource
        },
        arg matches OnClipboardActionArg::Text(text) ==> !item@.image && item@.model.text == text@,
{
    let id = alloc_list_item_id(list);
    match arg {
        OnClipboardActionArg::Text(text) => ClipboardHistoryItem::Text(
            ClipboardHistoryItemText::new(id, text),
        ),
        OnClipboardActionArg::Image { width, height, bytes } => ClipboardHistoryItem::Image(
            ClipboardHistoryItemImage::new(id, width as i32, height as i32, bytes, png_resource),
        ),
    }
}

/// Last step (after the caller stored the entry): puts it first and makes it active.
pub fn commit_clipboard_item(
    list: &mut ClipboardHistoryListState,
    active: &mut ClipboardHistoryActiveState,
    item: ClipboardHistoryItem,
)
    ensures
        final(list)@.items == seq![item@] + old(list)@.items,
        final(list)@.alloc == old(list)@.alloc,
        final(active)@ == activated(seq![item@] + old(list)@.items, item@.model.id),
{
    let id = item.id();
    let ghost before = list.list@;
    list.list.insert(0, item);
    proof {
        assert(items_view(list.list@) =~= seq![item@] + items_view(before));
    }
    active_clipboard_by_id(list, active, id);
}


/// What writing entry `item` back to the clipboard puts there: its text, or
/// its image (size converted to `usize`) with its bytes.
pub open spec fn payload_matches(item: ItemView, payload: OnClipboardActionArg) -> bool {
    if item.image {
        payload matches OnClipboardActionArg::Image { width, height, bytes } && width
            == item.model.width as usize && height == item.model.height as usize && bytes@
            == item.model.bytes
    } else {
        payload matches OnClipboardActionArg::Text(text) && text@ == item.model.text
    }
}

/// What to write back to the clipboard when `item` is pasted.
pub fn clipboard_payload(item: &ClipboardHistoryItem) -> (r: OnClipboardActionArg)
    ensures
        payload_matches(item@, r),
        item@.image ==> (r matches OnClipboardActionArg::Image { width, height, bytes } && width
            == item@.model.width as usize && height == item@.model.height as usize && bytes@
            == item@.model.bytes),
        !item@.image ==> (r matches OnClipboardActionArg::Text(text) && text@ == item@.model.text),
{
    match item {
        ClipboardHistoryItem::Text(t) => OnClipboardActionArg::Text(t.text().to_owned()),
        ClipboardHistoryItem::Image(i) => {
            let (width, height) = i.dimensions();
            let bytes = vstd::slice::slice_to_vec(i.bytes());
            OnClipboardActionArg::Image { width: width as usize, height: height as usize, bytes }
        },
    }
}

/// A copy of the first entry with id `id`, when there is one.
pub fn find_clipboard_item(list: &ClipboardHistoryListState, id: i32) -> (r: Option<ClipboardHistoryItem>)
    ensures
        opt_item_view(r) == find_item(list@.items, id),
{
    find_by_id(&list.list, id)
}

/// The file name proposed when saving `item`.
pub fn save_file_name(item: &ClipboardHistoryItem) -> (r: &'static str)
    ensures
        r@ == (if item@.image { "clipboard.png"@ } else { "clipboard.txt"@ }),
{
    match item {
        ClipboardHistoryItem::Text(_) => "clipboard.txt",
        ClipboardHistoryItem::Image(_) => "clipboard.png",
    }
}

/// An image row whose bytes are exactly its pixels (four bytes each).
pub open spec fn image_well_sized(m: ModelView) -> bool {
    &&& m.width >= 0
    &&& m.height >= 0
    &&& m.bytes.len() == m.width * m.height * 4
}

/// The bytes of the file `item` is saved to: its text in UTF-8, or the PNG
/// file of its image (absent exactly when the image has a zero side, which
/// the PNG encoder refuses).
pub fn saved_file_bytes(item: &ClipboardHistoryItem) -> (r: Option<Vec<u8>>)
    requires
        item@.image ==> image_well_sized(item@.model),
    ensures
        !item@.image ==> (r matches Some(v) && v@ == vstd::utf8::encode_utf8(item@.model.text)),
        item@.image ==> (r matches Some(v) ==> v@ == png_encoding(
            item@.model.bytes,
            item@.model.width as u32,
            item@.model.height as u32,
        )),
        item@.image ==> (r is Some <==> (item@.model.width > 0 && item@.model.height > 0)),
{
    match item {
        ClipboardHistoryItem::Text(t) => Some(t.text().as_bytes_vec()),
        ClipboardHistoryItem::Image(i) => {
            let (width, height) = i.dimensions();
            raw_bytes_to_png(vstd::slice::slice_to_vec(i.bytes()), width as usize, height as usize)
        },
    }
}


/// What a clipboard change records: the text it holds, if any, then the image it holds, if any.
pub fn clipboard_changes(text: Option<String>, image: Option<(usize, usize, Vec<u8>)>) -> (r: Vec<
    OnClipboardActionArg,
>)
    ensures
        r@.len() == (if text is Some { 1int } else { 0int }) + (if image is Some { 1int } else { 0int }),
        text matches Some(t) ==> r@[0] == OnClipboardActionArg::Text(t),
        image matches Some(im) ==> r@[r@.len() - 1] == (OnClipboardActionArg::Image {
            width: im.0,
            height: im.1,
            bytes: im.2,
        }),
{
    let mut r: Vec<OnClipboardActionArg> = Vec::new();
    if let Some(t) = text {
        r.push(OnClipboardActionArg::Text(t));
    }
    if let Some((width, height, bytes)) = image {
        r.push(OnClipboardActionArg::Image { width, height, bytes });
    }
    r
}

} // verus!
