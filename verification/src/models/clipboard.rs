//! Stored clipboard entries.
use vstd::prelude::*;
use vstd::multiset::Multiset;
use vstd::seq_lib::{to_multiset_build, to_multiset_insert};

verus! {

/// Kind of a stored entry, persisted as a small integer.
#[derive(Debug, Clone, Copy, PartialEq, Eq, Structural)]
pub enum ClipboardHistoryItemType {
    Text,
    Image,
}

impl Default for ClipboardHistoryItemType {
    fn default() -> (r: Self)
        ensures
            r == ClipboardHistoryItemType::Text,
    {
        ClipboardHistoryItemType::Text
    }
}

/// Abstract value of a stored row.
pub struct ModelView {
    pub id: i32,
    pub typ: ClipboardHistoryItemType,
    pub text: Seq<char>,
    pub width: i32,
    pub height: i32,
    pub bytes: Seq<u8>,
}

/// One row of the history table.
#[derive(Debug)]
pub struct ClipboardHistoryItemModel {
    pub id: i32,
    pub typ: ClipboardHistoryItemType,
    pub text: String,
    pub width: i32,
    pub height: i32,
    pub bytes: Vec<u8>,
}

impl View for ClipboardHistoryItemModel {
    type V = ModelView;

    open spec fn view(&self) -> ModelView {
        ModelView {
            id: self.id,
            typ: self.typ,
            text: self.text@,
            width: self.width,
            height: self.height,
            bytes: self.bytes@,
        }
    }
}

impl Clone for ClipboardHistoryItemModel {
    fn clone(&self) -> (r: Self)
        ensures
            r@ == self@,
    {
        let bytes = self.bytes.clone();
        assert(bytes@ =~= self.bytes@);
        ClipboardHistoryItemModel {
            id: self.id,
            typ: self.typ,
            text: self.text.clone(),
            width: self.width,
            height: self.height,
            bytes,
        }
    }
}

/// A text entry.
#[derive(Debug)]
pub struct ClipboardHistoryItemText {
    model: ClipboardHistoryItemModel,
}

impl View for ClipboardHistoryItemText {
    type V = ModelView;

    closed spec fn view(&self) -> ModelView {
        self.model@
    }
}

impl ClipboardHistoryItemText {
    /// A text entry with the given id; its size fields are zero and it holds no bytes.
    pub fn new(id: i32, text: String) -> (r: Self)
        ensures
            r@ == (ModelView {
                id,
                typ: ClipboardHistoryItemType::Text,
                text: text@,
                width: 0,
                height: 0,
                bytes: Seq::empty(),
            }),
    {
        ClipboardHistoryItemText {
            model: ClipboardHistoryItemModel {
                id,
                typ: ClipboardHistoryItemType::Text,
                text,
                width: 0,
                height: 0,
                bytes: Vec::new(),
            },
        }
    }

    /// The copied text.
    pub fn text(&self) -> (r: &str)
        ensures
            r@ == self@.text,
    {
        self.model.text.as_str()
    }
}


/// An image entry: raw RGBA bytes with their size, and the id of the
/// encoded preview that was registered for it.
#[derive(Debug)]
pub struct ClipboardHistoryItemImage {
    model: ClipboardHistoryItemModel,
    png_resource: u64,
}

impl View for ClipboardHistoryItemImage {
    type V = (ModelView, u64);

    closed spec fn view(&self) -> (ModelView, u64) {
        (self.model@, self.png_resource)
    }
}

impl ClipboardHistoryItemImage {
    /// An image entry with the given id, size, RGBA bytes and preview resource; its text is empty.
    pub fn new(id: i32, width: i32, height: i32, bytes: Vec<u8>, png_resource: u64) -> (r: Self)
        ensures
            r@.0 == (ModelView {
                id,
                typ: ClipboardHistoryItemType::Image,
                text: Seq::empty(),
                width,
                height,
                bytes: bytes@,
            }),
            r@.1 == png_resource,
    {
        ClipboardHistoryItemImage {
            model: ClipboardHistoryItemModel {
                id,
                typ: ClipboardHistoryItemType::Image,
                text: String::new(),
                width,
                height,
                bytes,
            },
            png_resource,
        }
    }

    /// Width and height, in pixels.
    pub fn dimensions(&self) -> (r: (i32, i32))
        ensures
            r == (self@.0.width, self@.0.height),
    {
        (self.model.width, self.model.height)
    }

    /// The raw RGBA bytes.
    pub fn bytes(&self) -> (r: &[u8])
        ensures
            r@ == self@.0.bytes,
    {
        self.model.bytes.as_slice()
    }

    /// Id of the encoded preview resource.
    pub fn base64_png_resource(&self) -> (r: u64)
        ensures
            r == self@.1,
    {
        self.png_resource
    }
}

/// Abstract value of an entry: whether it is an image, its row, and its
/// preview resource (zero for text).
pub struct ItemView {
    pub image: bool,
    pub model: ModelView,
    pub resource: u64,
}

/// An entry of the history.
#[derive(Debug)]
pub enum ClipboardHistoryItem {
    Text(ClipboardHistoryItemText),
    Image(ClipboardHistoryItemImage),
}

impl View for ClipboardHistoryItem {
    type V = ItemView;

    open spec fn view(&self) -> ItemView {
        match self {
            ClipboardHistoryItem::Text(t) => ItemView { image: false, model: t@, resource: 0 },
            ClipboardHistoryItem::Image(i) => ItemView { image: true, model: i@.0, resource: i@.1 },
        }
    }
}

impl ClipboardHistoryItemText {
    fn duplicate(&self) -> (r: Self)
        ensures
            r@ == self@,
    {
        ClipboardHistoryItemText { model: self.model.clone() }
    }
}

impl ClipboardHistoryItemImage {
    fn duplicate(&self) -> (r: Self)
        ensures
            r@ == self@,
    {
        ClipboardHistoryItemImage { model: self.model.clone(), png_resource: self.png_resource }
    }
}

impl Clone for ClipboardHistoryItem {
    fn clone(&self) -> (r: Self)
        ensures
            r@ == self@,
    {
        match self {
            ClipboardHistoryItem::Text(t) => ClipboardHistoryItem::Text(t.duplicate()),
            ClipboardHistoryItem::Image(i) => ClipboardHistoryItem::Image(i.duplicate()),
        }
    }
}

impl ClipboardHistoryItem {
    /// The entry's id.
    pub fn id(&self) -> (r: i32)
        ensures
            r == self@.model.id,
    {
        match self {
            ClipboardHistoryItem::Text(t) => t.model.id,
            ClipboardHistoryItem::Image(i) => i.model.id,
        }
    }

    /// The stored row of the entry.
    pub fn model(&self) -> (r: &ClipboardHistoryItemModel)
        ensures
            r@ == self@.model,
    {
        match self {
            ClipboardHistoryItem::Text(t) => &t.model,
            ClipboardHistoryItem::Image(i) => &i.model,
        }
    }

    /// Rebuilds an entry from a stored row: a text entry when the row is of
    /// text kind, else an image entry with the given preview resource.
    pub fn from_model(model: ClipboardHistoryItemModel, png_resource: u64) -> (r: Self)
        ensures
            r@.model == model@,
            r@.image == (model.typ == ClipboardHistoryItemType::Image),
            r@.resource == (if r@.image { png_resource } else { 0 }),
    {
        match model.typ {
            ClipboardHistoryItemType::Text => ClipboardHistoryItem::Text(
                ClipboardHistoryItemText { model },
            ),
            ClipboardHistoryItemType::Image => ClipboardHistoryItem::Image(
                ClipboardHistoryItemImage { model, png_resource },
            ),
        }
    }
}


pub open spec fn models_view(v: Seq<ClipboardHistoryItemModel>) -> Seq<ModelView> {
    v.map_values(|m: ClipboardHistoryItemModel| m@)
}

/// Ids never increase along the sequence.
pub open spec fn sorted_by_id_desc(s: Seq<ModelView>) -> bool {
    forall|i: int, j: int| 0 <= i < j < s.len() ==> s[i].id >= s[j].id
}

/// Whether a row has id `id`.
pub open spec fn has_id(id: i32) -> spec_fn(ModelView) -> bool {
    |m: ModelView| m.id == id
}

/// The rows with id `id`, in sequence order.
pub open spec fn rows_with_id(s: Seq<ModelView>, id: i32) -> Seq<ModelView> {
    s.filter(has_id(id))
}

/// Orders stored rows newest first (by decreasing id); rows with equal ids
/// keep their relative order.
pub fn sort_by_id_desc(models: Vec<ClipboardHistoryItemModel>) -> (r: Vec<ClipboardHistoryItemModel>)
    ensures
        models_view(r@).to_multiset() == models_view(models@).to_multiset(),
        sorted_by_id_desc(models_view(r@)),
        forall|id: i32| #[trigger] rows_with_id(models_view(r@), id) == rows_with_id(models_view(models@), id),
{
    broadcast use to_multiset_build, to_multiset_insert, vstd::multiset::group_multiset_axioms, vstd::seq_lib::group_to_multiset_ensures;

    let ghost all = models_view(models@).to_multiset();
    let ghost orig = models_view(models@);
    let mut input = models;
    let mut out: Vec<ClipboardHistoryItemModel> = Vec::new();
    proof {
        assert(models_view(out@) =~= Seq::<ModelView>::empty());
        assert(models_view(out@).to_multiset() =~= Multiset::<ModelView>::empty());
        assert(all =~= models_view(out@).to_multiset().add(models_view(input@).to_multiset()));
        assert(orig.skip(orig.len() as int) =~= Seq::<ModelView>::empty());
        assert(orig.take(orig.len() as int) =~= orig);
        assert forall|id: i32| #[trigger] rows_with_id(models_view(out@), id) == rows_with_id(
            orig.skip(input@.len() as int),
            id,
        ) by {
            assert(rows_with_id(Seq::<ModelView>::empty(), id) =~= Seq::<ModelView>::empty()) by {
                reveal(Seq::filter);
            }
        }
    }
    while input.len() > 0
        invariant
            sorted_by_id_desc(models_view(out@)),
            all == models_view(out@).to_multiset().add(models_view(input@).to_multiset()),
            input@.len() <= orig.len(),
            models_view(input@) == orig.take(input@.len() as int),
            forall|id: i32| #[trigger] rows_with_id(models_view(out@), id) == rows_with_id(
                orig.skip(input@.len() as int),
                id,
            ),
        decreases input.len(),
    {
        let ghost before_in = input@;
        let m = input.pop().unwrap();
        proof {
            assert(models_view(before_in) =~= models_view(input@).push(m@));
            assert(orig[input@.len() as int] == m@) by {
                assert(models_view(before_in)[input@.len() as int] == m@);
            }
            assert(models_view(input@) =~= orig.take(input@.len() as int)) by {
                assert(models_view(input@) =~= models_view(before_in).drop_last());
            }
            assert(orig.skip(input@.len() as int) =~= seq![m@] + orig.skip(before_in.len() as int));
        }
        let mut p: usize = 0;
        while p < out.len() && out[p].id > m.id
            invariant
                p <= out.len(),
                forall|k: int| 0 <= k < p ==> out@[k].id > m.id,
            decreases out.len() - p,
        {
            p = p + 1;
        }
        let ghost before_out = out@;
        out.insert(p, m);
        proof {
            assert(models_view(out@) =~= models_view(before_out).insert(p as int, m@));
            assert forall|i: int, j: int| 0 <= i < j < out@.len() implies models_view(out@)[i].id
                >= models_view(out@)[j].id by {
                if j < p {
                } else if i < p && j == p {
                } else if i < p {
                    assert(models_view(before_out)[i].id >= models_view(before_out)[j - 1].id);
                } else if i == p {
                    if p < before_out.len() {
                        assert(models_view(before_out)[p as int].id >= models_view(before_out)[j
                            - 1].id);
                    }
                } else {
                    assert(models_view(before_out)[i - 1].id >= models_view(before_out)[j - 1].id);
                }
            }
            let ghost bv = models_view(before_out);
            assert forall|id: i32| #[trigger] rows_with_id(models_view(out@), id) == rows_with_id(
                orig.skip(input@.len() as int),
                id,
            ) by {
                let pred = has_id(id);
                let c = orig.skip(before_in.len() as int);
                assert(rows_with_id(bv, id) == rows_with_id(c, id));
                c.lemma_filter_prepend(m@, pred);
                assert(models_view(out@) =~= bv.take(p as int) + seq![m@] + bv.skip(p as int));
                Seq::filter_distributes_over_add(bv.take(p as int) + seq![m@], bv.skip(p as int), pred);
                Seq::filter_distributes_over_add(bv.take(p as int), seq![m@], pred);
                Seq::filter_distributes_over_add(bv.take(p as int), bv.skip(p as int), pred);
                assert(bv.take(p as int) + bv.skip(p as int) =~= bv);
                seq![m@].lemma_filter_prepend(m@, pred);
                assert(seq![m@] =~= seq![m@] + Seq::<ModelView>::empty());
                assert(Seq::<ModelView>::empty().filter(pred) =~= Seq::<ModelView>::empty()) by {
                    reveal(Seq::filter);
                }
                Seq::<ModelView>::empty().lemma_filter_prepend(m@, pred);
                if m@.id == id {
                    assert(bv.take(p as int).all(|x: ModelView| !pred(x)));
                    bv.take(p as int).lemma_all_neg_filter_empty(pred);
                    assert(bv.take(p as int).filter(pred) =~= Seq::<ModelView>::empty());
                }
            }
            to_multiset_build(models_view(input@), m@);
            to_multiset_insert(models_view(before_out), p as int, m@);
            assert(models_view(before_in).to_multiset() == models_view(input@).to_multiset().insert(
                m@,
            ));
            assert(models_view(out@).to_multiset() == models_view(before_out).to_multiset().insert(
                m@,
            ));
            assert(all =~= models_view(out@).to_multiset().add(models_view(input@).to_multiset()));
        }
    }
    proof {
        assert(models_view(input@) =~= Seq::<ModelView>::empty());
        assert(all =~= models_view(out@).to_multiset());
    }
    out
}

} // verus!
