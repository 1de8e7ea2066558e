//! What every transition of the history keeps, and how transitions combine.
use vstd::prelude::*;

use crate::actions::clipboard_changed::{
    activated, active_after_remove, active_after_retain, after_next, after_previous, dropped_ids, find_item, item_ids,
    next_alloc, position_of_id, retained, without_id, ActiveView, HistoryView, is_first_with_id,
    lemma_position_of_id,
};
use crate::actions::clipboard_changed::{item_for_arg, max_id, payload_matches, OnClipboardActionArg};
use crate::models::clipboard::{sorted_by_id_desc, ClipboardHistoryItemType, ItemView, ModelView};
use crate::views::clipboard::{list_item, VItemView};

verus! {

/// Ids strictly decrease along the list: newer entries come first and no id repeats.
pub open spec fn ids_strictly_decreasing(items: Seq<ItemView>) -> bool {
    forall|i: int, j: int| 0 <= i < j < items.len() ==> items[i].model.id > items[j].model.id
}

/// The history is well formed: ids strictly decrease and all lie below the counter.
pub open spec fn history_wf(h: HistoryView) -> bool {
    &&& ids_strictly_decreasing(h.items)
    &&& forall|i: int| 0 <= i < h.items.len() ==> h.items[i].model.id < h.alloc
}

/// The active copy, when present, carries the active id.
pub open spec fn active_consistent(a: ActiveView) -> bool {
    a.item matches Some(it) ==> it.model.id == a.active_id
}

/// In a list with distinct ids, the entry at `i` is the one found by its id.
pub proof fn lemma_position_in_decreasing(items: Seq<ItemView>, i: int)
    requires
        ids_strictly_decreasing(items),
        0 <= i < items.len(),
    ensures
        position_of_id(items, items[i].model.id) == Some(i),
        find_item(items, items[i].model.id) == Some(items[i]),
{
    assert(is_first_with_id(items, items[i].model.id, i));
    lemma_position_of_id(items, items[i].model.id, i);
}

/// Every entry kept by a filter comes from the filtered list, in the same order.
proof fn lemma_filter_keeps_decreasing(items: Seq<ItemView>, id: i32)
    requires
        ids_strictly_decreasing(items),
    ensures
        ids_strictly_decreasing(without_id(items, id)),
        forall|k: int|
            0 <= k < without_id(items, id).len() ==> items.contains(#[trigger] without_id(items, id)[k]),
    decreases items.len(),
{
    reveal(Seq::filter);
    let pred = |v: ItemView| v.model.id != id;
    if items.len() > 0 {
        let rest = items.drop_last();
        lemma_filter_keeps_decreasing(rest, id);
        let fr = rest.filter(pred);
        assert(without_id(rest, id) == fr);
        assert forall|k: int| 0 <= k < fr.len() implies fr[k].model.id > items.last().model.id by {
            assert(rest.contains(fr[k]));
            let m = choose|m: int| 0 <= m < rest.len() && rest[m] == fr[k];
            assert(items[m] == rest[m]);
        }
        assert forall|k: int| 0 <= k < fr.len() implies items.contains(fr[k]) by {
            assert(rest.contains(fr[k]));
            let m = choose|m: int| 0 <= m < rest.len() && rest[m] == fr[k];
            assert(items[m] == fr[k]);
        }
        if pred(items.last()) {
            assert(without_id(items, id) == fr.push(items.last()));
            assert(items[items.len() - 1] == items.last());
        } else {
            assert(without_id(items, id) == fr);
        }
    }
}

/// Filtering with a predicate that holds everywhere changes nothing.
proof fn lemma_filter_all(items: Seq<ItemView>, id: i32)
    requires
        forall|k: int| 0 <= k < items.len() ==> items[k].model.id != id,
    ensures
        without_id(items, id) == items,
    decreases items.len(),
{
    reveal(Seq::filter);
    if items.len() > 0 {
        lemma_filter_all(items.drop_last(), id);
        assert(items.drop_last().push(items.last()) =~= items);
    }
}

/// In a list with distinct ids, removing an entry's id removes exactly that entry.
pub proof fn lemma_without_unique_id(items: Seq<ItemView>, i: int)
    requires
        ids_strictly_decreasing(items),
        0 <= i < items.len(),
    ensures
        without_id(items, items[i].model.id) == items.remove(i),
    decreases items.len(),
{
    reveal(Seq::filter);
    let id = items[i].model.id;
    let rest = items.drop_last();
    if i == items.len() - 1 {
        lemma_filter_all(rest, id);
        assert(rest =~= items.remove(i));
    } else {
        lemma_without_unique_id(rest, i);
        assert(rest[i] == items[i]);
        assert(items.last().model.id != id);
        assert(rest.remove(i).push(items.last()) =~= items.remove(i));
    }
}

/// Trimming keeps a prefix: the kept entries followed by the dropped ids
/// are exactly the old list, and a well-formed history stays well formed.
pub proof fn law_retain_partitions(h: HistoryView, n: nat)
    ensures
        item_ids(retained(h.items, n)) + dropped_ids(h.items, n) == item_ids(h.items),
        retained(h.items, n).len() == if n < h.items.len() { n } else { h.items.len() },
        history_wf(h) ==> history_wf(HistoryView { items: retained(h.items, n), alloc: h.alloc }),
{
    if n < h.items.len() {
        assert(item_ids(h.items.take(n as int)) + item_ids(h.items.skip(n as int)) =~= item_ids(
            h.items,
        ));
    } else {
        assert(item_ids(h.items) + Seq::<i32>::empty() =~= item_ids(h.items));
    }
}

/// Removing an id (an entry deleted, or the active one taken for pasting)
/// keeps a well-formed history well formed, and the id is gone afterwards.
pub proof fn law_remove_keeps_wf(h: HistoryView, id: i32)
    ensures
        history_wf(h) ==> history_wf(HistoryView { items: without_id(h.items, id), alloc: h.alloc }),
        forall|k: int|
            0 <= k < without_id(h.items, id).len() ==> #[trigger] without_id(h.items, id)[k].model.id
                != id,
{
    broadcast use vstd::seq_lib::group_filter_ensures;

    if history_wf(h) {
        lemma_filter_keeps_decreasing(h.items, id);
        assert forall|k: int| 0 <= k < without_id(h.items, id).len() implies without_id(
            h.items,
            id,
        )[k].model.id < h.alloc by {
            assert(h.items.contains(without_id(h.items, id)[k]));
        }
    }
}

/// Recording a copied value puts it first and makes it active, keeps at most
/// `limit` entries, and keeps a well-formed history well formed (unless the
/// id counter had reached the end of its range).
pub proof fn law_copy_puts_entry_first(h: HistoryView, limit: nat, new_item: ItemView)
    requires
        limit >= 1,
        new_item.model.id == h.alloc,
    ensures
        ({
            let after = seq![new_item] + retained(h.items, (limit - 1) as nat);
            &&& after[0] == new_item
            &&& after.len() <= limit
            &&& activated(after, new_item.model.id) == (ActiveView {
                active_id: new_item.model.id,
                item: Some(new_item),
            })
            &&& active_in_list(after, activated(after, new_item.model.id))
            &&& history_wf(h) && h.alloc < i32::MAX ==> history_wf(
                HistoryView { items: after, alloc: next_alloc(h.alloc) },
            )
        }),
{
    let kept = retained(h.items, (limit - 1) as nat);
    let after = seq![new_item] + kept;
    assert(is_first_with_id(after, new_item.model.id, 0));
    lemma_position_of_id(after, new_item.model.id, 0);
    law_retain_partitions(h, (limit - 1) as nat);
    if history_wf(h) && h.alloc < i32::MAX {
        assert forall|i: int, j: int| 0 <= i < j < after.len() implies after[i].model.id
            > after[j].model.id by {
            if i > 0 {
                assert(after[i] == kept[i - 1]);
            }
            assert(after[j] == kept[j - 1]);
        }
        assert forall|i: int| 0 <= i < after.len() implies after[i].model.id < next_alloc(h.alloc) by {
            if i > 0 {
                assert(after[i] == kept[i - 1]);
            }
        }
    }
}

/// Moving the active mark down and then up returns to the entry it started
/// on, when that entry is found and has one below it.
pub proof fn law_next_then_previous(items: Seq<ItemView>, active: ActiveView, i: int)
    requires
        ids_strictly_decreasing(items),
        0 <= i < items.len() - 1,
        active == activated(items, items[i].model.id),
    ensures
        after_previous(items, after_next(items, active)) == active,
        after_next(items, active) == (ActiveView {
            active_id: items[i + 1].model.id,
            item: Some(items[i + 1]),
        }),
{
    lemma_position_in_decreasing(items, i);
    lemma_position_in_decreasing(items, i + 1);
}

/// Moving the active mark up and then down returns to the entry it started
/// on, when that entry is found and has one above it.
pub proof fn law_previous_then_next(items: Seq<ItemView>, active: ActiveView, i: int)
    requires
        ids_strictly_decreasing(items),
        0 < i < items.len(),
        active == activated(items, items[i].model.id),
    ensures
        after_next(items, after_previous(items, active)) == active,
        after_previous(items, active) == (ActiveView {
            active_id: items[i - 1].model.id,
            item: Some(items[i - 1]),
        }),
{
    lemma_position_in_decreasing(items, i);
    lemma_position_in_decreasing(items, i - 1);
}

/// Removing an entry from a list whose ids strictly decrease leaves a list
/// whose ids strictly decrease.
proof fn lemma_remove_keeps_decreasing(items: Seq<ItemView>, i: int)
    requires
        ids_strictly_decreasing(items),
        0 <= i < items.len(),
    ensures
        ids_strictly_decreasing(items.remove(i)),
{
    let rest = items.remove(i);
    assert forall|a: int, b: int| 0 <= a < b < rest.len() implies rest[a].model.id
        > rest[b].model.id by {
        if a < i {
            if b >= i {
                assert(rest[b] == items[b + 1]);
            }
        } else {
            assert(rest[a] == items[a + 1]);
            assert(rest[b] == items[b + 1]);
        }
    }
}

/// Removing the active entry at position `i` of a well-formed list makes
/// the entry that followed it active, or, when it was the last entry, the
/// one before it.
pub proof fn law_remove_active_moves_to_successor(items: Seq<ItemView>, active: ActiveView, i: int)
    requires
        ids_strictly_decreasing(items),
        0 <= i < items.len(),
        active == activated(items, items[i].model.id),
    ensures
        without_id(items, items[i].model.id) == items.remove(i),
        i + 1 < items.len() ==> active_after_remove(items, active, items[i].model.id) == (ActiveView {
            active_id: items[i + 1].model.id,
            item: Some(items[i + 1]),
        }),
        i + 1 == items.len() && i > 0 ==> active_after_remove(items, active, items[i].model.id)
            == (ActiveView { active_id: items[i - 1].model.id, item: Some(items[i - 1]) }),
        items.len() == 1 ==> active_after_remove(items, active, items[i].model.id) == active,
{
    lemma_position_in_decreasing(items, i);
    lemma_without_unique_id(items, i);
    let rest = items.remove(i);
    lemma_remove_keeps_decreasing(items, i);
    if i + 1 < items.len() {
        assert(rest[i] == items[i + 1]);
        lemma_position_in_decreasing(rest, i);
    } else if i > 0 {
        assert(rest[i - 1] == items[i - 1]);
        lemma_position_in_decreasing(rest, i - 1);
    }
}

/// Every transition keeps the active copy carrying the active id.
pub proof fn law_active_consistent(items: Seq<ItemView>, active: ActiveView, id: i32)
    ensures
        active_consistent(activated(items, id)),
        active_consistent(active) ==> active_consistent(after_next(items, active)),
        active_consistent(active) ==> active_consistent(after_previous(items, active)),
        active_consistent(active) ==> active_consistent(active_after_remove(items, active, id)),
{
    let rest = without_id(items, id);
    assert(active_consistent(activated(items, id)));
    match position_of_id(items, active.active_id) {
        Some(i) => {
            if i + 1 < items.len() {
                assert(active_consistent(activated(items, items[i + 1].model.id)));
            }
            if i >= 1 {
                assert(active_consistent(activated(items, items[i - 1].model.id)));
            }
            if active.active_id == id && rest.len() > 0 {
                let j = if i < rest.len() { i } else { rest.len() - 1 };
                assert(active_consistent(activated(rest, rest[j].model.id)));
            }
        },
        None => {},
    }
}


/// A non-empty history has an active entry, and the active id is the id of
/// one of its entries.
pub open spec fn active_in_list(items: Seq<ItemView>, active: ActiveView) -> bool {
    items.len() > 0 ==> active.item is Some && find_item(items, active.active_id) is Some
}

/// In a list whose ids strictly decrease, an id that is not found belongs to no entry.
proof fn lemma_not_found_decreasing(items: Seq<ItemView>, id: i32)
    requires
        ids_strictly_decreasing(items),
        position_of_id(items, id) is None,
    ensures
        forall|j: int| 0 <= j < items.len() ==> items[j].model.id != id,
{
    assert forall|j: int| 0 <= j < items.len() implies items[j].model.id != id by {
        if items[j].model.id == id {
            assert(is_first_with_id(items, id, j));
            lemma_position_of_id(items, id, j);
        }
    }
}

/// A found id is the id of the entry at its position.
proof fn lemma_found_position(items: Seq<ItemView>, id: i32)
    requires
        position_of_id(items, id) is Some,
    ensures
        is_first_with_id(items, id, position_of_id(items, id)->0),
{
}

/// Removing any id keeps a non-empty history's active entry in the list.
pub proof fn law_remove_keeps_active_in_list(items: Seq<ItemView>, active: ActiveView, id: i32)
    requires
        ids_strictly_decreasing(items),
        active_in_list(items, active),
    ensures
        active_in_list(without_id(items, id), active_after_remove(items, active, id)),
{
    let rest = without_id(items, id);
    if items.len() == 0 {
        lemma_filter_all(items, id);
    } else {
        lemma_found_position(items, active.active_id);
        let p = position_of_id(items, active.active_id)->0;
        lemma_filter_keeps_decreasing(items, id);
        if rest.len() > 0 {
            if active.active_id == id {
                let j = if p < rest.len() { p } else { rest.len() - 1 };
                lemma_position_in_decreasing(rest, j);
            } else {
                match position_of_id(items, id) {
                    Some(k) => {
                        lemma_found_position(items, id);
                        lemma_without_unique_id(items, k);
                        lemma_remove_keeps_decreasing(items, k);
                        let idx = if p < k { p } else { p - 1 };
                        assert(rest[idx] == items[p]);
                        lemma_position_in_decreasing(rest, idx);
                    },
                    None => {
                        lemma_not_found_decreasing(items, id);
                        lemma_filter_all(items, id);
                    },
                }
            }
        }
    }
}

/// Trimming to any length keeps a non-empty history's active entry in the list.
pub proof fn law_retain_keeps_active_in_list(items: Seq<ItemView>, active: ActiveView, n: nat)
    requires
        ids_strictly_decreasing(items),
        active_in_list(items, active),
    ensures
        active_in_list(retained(items, n), active_after_retain(items, active, n)),
{
    let kept = retained(items, n);
    if kept.len() > 0 {
        lemma_found_position(items, active.active_id);
        let p = position_of_id(items, active.active_id)->0;
        assert(ids_strictly_decreasing(kept));
        if p >= kept.len() {
            lemma_position_in_decreasing(kept, kept.len() - 1);
        } else {
            assert(kept[p] == items[p]);
            lemma_position_in_decreasing(kept, p);
        }
    }
}

/// Every id is at most the largest id (counted from zero).
proof fn lemma_max_id_bounds(items: Seq<ItemView>)
    ensures
        forall|i: int| 0 <= i < items.len() ==> items[i].model.id <= max_id(items),
    decreases items.len(),
{
    if items.len() > 0 {
        lemma_max_id_bounds(items.drop_last());
        assert forall|i: int| 0 <= i < items.len() implies items[i].model.id <= max_id(items) by {
            if i < items.len() - 1 {
                assert(items[i] == items.drop_last()[i]);
            }
        }
    }
}

/// Installing stored entries ordered newest first gives a well-formed
/// history: the counter continues after the largest id.
pub proof fn law_init_wf(items: Seq<ItemView>)
    requires
        ids_strictly_decreasing(items),
        max_id(items) < i32::MAX,
    ensures
        history_wf(HistoryView { items, alloc: (max_id(items) + 1) as i32 }),
        items.len() > 0 ==> active_in_list(
            items,
            ActiveView { active_id: items[0].model.id, item: Some(items[0]) },
        ),
{
    lemma_max_id_bounds(items);
    if items.len() > 0 {
        assert(is_first_with_id(items, items[0].model.id, 0));
        lemma_position_of_id(items, items[0].model.id, 0);
    }
}

/// Ids strictly decrease along a sequence of rows.
pub open spec fn model_ids_strictly_decreasing(s: Seq<ModelView>) -> bool {
    forall|i: int, j: int| 0 <= i < j < s.len() ==> s[i].id > s[j].id
}

/// Reloading restores the history: rows stored from a list whose ids
/// strictly decrease, read back in any order and sorted newest first, come
/// back in exactly the stored order.
pub proof fn law_reload_restores_order(stored: Seq<ModelView>, loaded: Seq<ModelView>)
    requires
        model_ids_strictly_decreasing(stored),
        sorted_by_id_desc(loaded),
        loaded.to_multiset() == stored.to_multiset(),
    ensures
        loaded == stored,
    decreases stored.len(),
{
    broadcast use vstd::multiset::group_multiset_axioms, vstd::seq_lib::group_to_multiset_ensures;

    stored.to_multiset_ensures();
    loaded.to_multiset_ensures();
    assert(loaded.len() == stored.len());
    if stored.len() == 0 {
        assert(loaded =~= stored);
    } else {
        let x = stored[0];
        assert(stored.contains(x));
        assert(loaded.to_multiset().count(x) > 0);
        assert(loaded.contains(x));
        let k = choose|k: int| 0 <= k < loaded.len() && loaded[k] == x;
        let y = loaded[0];
        assert(loaded.contains(y));
        assert(stored.to_multiset().count(y) > 0);
        assert(stored.contains(y));
        let m = choose|m: int| 0 <= m < stored.len() && stored[m] == y;
        assert(y.id >= x.id);
        if m > 0 {
            assert(stored[0].id > stored[m].id);
        }
        assert(m == 0);
        assert(y == x);
        vstd::seq_lib::to_multiset_remove(stored, 0);
        vstd::seq_lib::to_multiset_remove(loaded, 0);
        assert(stored.remove(0) =~= stored.drop_first());
        assert(loaded.remove(0) =~= loaded.drop_first());
        law_reload_restores_order(stored.drop_first(), loaded.drop_first());
        assert forall|i: int| 0 <= i < loaded.len() implies loaded[i] == stored[i] by {
            if i > 0 {
                assert(loaded[i] == loaded.drop_first()[i - 1]);
                assert(stored[i] == stored.drop_first()[i - 1]);
            }
        }
        assert(loaded =~= stored);
    }
}


/// The rows of a history's entries, in list order.
pub open spec fn item_models(items: Seq<ItemView>) -> Seq<ModelView> {
    items.map_values(|v: ItemView| v.model)
}

/// Each entry is an image exactly when its row is of image kind.
pub open spec fn kinds_follow_rows(items: Seq<ItemView>) -> bool {
    forall|i: int| 0 <= i < items.len() ==> #[trigger] items[i].image == (items[i].model.typ
        == ClipboardHistoryItemType::Image)
}

/// `loaded` is what reloading `stored` gives: a history whose ids strictly
/// decrease, its rows read back, sorted newest first and rebuilt into
/// entries of their kind.
pub open spec fn reloaded_from(stored: Seq<ItemView>, loaded: Seq<ItemView>) -> bool {
    &&& ids_strictly_decreasing(stored)
    &&& kinds_follow_rows(stored)
    &&& kinds_follow_rows(loaded)
    &&& sorted_by_id_desc(item_models(loaded))
    &&& item_models(loaded).to_multiset() == item_models(stored).to_multiset()
}

/// `now` shows in the list view as `before` does, but for the preview resources.
pub open spec fn same_list_view(before: Seq<ItemView>, now: Seq<ItemView>) -> bool {
    &&& now.len() == before.len()
    &&& forall|i: int|
        0 <= i < now.len() ==> #[trigger] list_item(now[i], i as nat) == (VItemView {
            resource: list_item(now[i], i as nat).resource,
            ..list_item(before[i], i as nat)
        })
}

/// Reloading shows the same history: every list entry shows as before but
/// for its preview resource, and the first entry, which was first before,
/// becomes active and lies in the list.
pub proof fn law_reload_restores_view(stored: Seq<ItemView>, loaded: Seq<ItemView>)
    requires
        reloaded_from(stored, loaded),
    ensures
        same_list_view(stored, loaded),
        loaded.len() > 0 ==> loaded[0].model.id == stored[0].model.id && active_in_list(
            loaded,
            ActiveView { active_id: loaded[0].model.id, item: Some(loaded[0]) },
        ),
{
    let rows = item_models(stored);
    assert(model_ids_strictly_decreasing(rows));
    law_reload_restores_order(rows, item_models(loaded));
    assert(loaded.len() == stored.len());
    assert forall|i: int| 0 <= i < loaded.len() implies #[trigger] list_item(loaded[i], i as nat)
        == (VItemView { resource: list_item(loaded[i], i as nat).resource, ..list_item(stored[i], i as nat) }) by {
        assert(item_models(loaded)[i] == rows[i]);
        assert(loaded[i].model == stored[i].model);
        assert(loaded[i].image == stored[i].image);
    }
    if loaded.len() > 0 {
        assert(item_models(loaded)[0] == rows[0]);
        assert(is_first_with_id(loaded, loaded[0].model.id, 0));
        lemma_position_of_id(loaded, loaded[0].model.id, 0);
    }
}

/// A copied value is recorded as it was copied: an image keeps the width,
/// height and bytes it was copied with and the preview registered for it; a
/// text keeps its text; either gets the id it was given.
pub proof fn law_recorded_entry_keeps_copied_value(id: i32, arg: OnClipboardActionArg, preview: u64)
    ensures
        item_for_arg(id, arg, preview).model.id == id,
        arg matches OnClipboardActionArg::Image { width, height, bytes } ==> {
            let e = item_for_arg(id, arg, preview);
            &&& e.image
            &&& e.model.typ == ClipboardHistoryItemType::Image
            &&& e.model.width == width as i32
            &&& e.model.height == height as i32
            &&& e.model.bytes == bytes@
            &&& e.resource == preview
        },
        arg matches OnClipboardActionArg::Text(text) ==> {
            let e = item_for_arg(id, arg, preview);
            &&& !e.image
            &&& e.model.typ == ClipboardHistoryItemType::Text
            &&& e.model.text == text@
        },
{
}

/// Pasting writes back what the entry holds: an image with the entry's own
/// width, height and bytes, or the entry's text. Recording that value again
/// gives back the same entry (for an entry as recording makes them: an
/// image of non-negative size with no text, or a text with no size, bytes or
/// preview).
pub proof fn law_paste_payload_round_trip(item: ItemView, payload: OnClipboardActionArg)
    requires
        payload_matches(item, payload),
    ensures
        item.image ==> (payload matches OnClipboardActionArg::Image { width, height, bytes } && width
            == item.model.width as usize && height == item.model.height as usize && bytes@
            == item.model.bytes),
        !item.image ==> (payload matches OnClipboardActionArg::Text(text) && text@ == item.model.text),
        ({
            &&& item.image ==> {
                &&& item.model.typ == ClipboardHistoryItemType::Image
                &&& item.model.width >= 0
                &&& item.model.height >= 0
                &&& item.model.text == Seq::<char>::empty()
            }
            &&& !item.image ==> {
                &&& item.model.typ == ClipboardHistoryItemType::Text
                &&& item.model.width == 0
                &&& item.model.height == 0
                &&& item.model.bytes == Seq::<u8>::empty()
                &&& item.resource == 0
            }
        }) ==> item_for_arg(item.model.id, payload, item.resource) == item,
{
}

} // verus!
