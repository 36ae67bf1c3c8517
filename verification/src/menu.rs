//! The menu model: an ordered list of entries and a monotonic identifier counter.

use vstd::prelude::*;

verus! {

/// One entry of the dropdown menu. `C` is the opaque callback type the host
/// invokes when an action item is selected.
pub enum MenuEntry<C> {
    /// Non-interactive heading; rendered disabled.
    Label { text: String },
    /// Interactive item. `id` is caller-opaque and unique within the tray;
    /// `action` is invoked by the host on selection.
    ActionItem { id: u32, text: String, action: C },
    /// Purely visual divider.
    Separator,
}

/// How one entry renders: labels disabled, action items enabled (wiring their
/// callback), separators as dividers.
#[derive(Clone, Copy, Debug, PartialEq, Eq, Structural)]
pub enum RenderKind {
    DisabledLabel,
    EnabledItem,
    Divider,
}

/// Whether `e` is an action item carrying identifier `id`.
pub open spec fn entry_has_id<C>(e: MenuEntry<C>, id: u32) -> bool {
    e matches MenuEntry::ActionItem { id: eid, .. } && eid == id
}

/// Whether the identifier of `e`, if it is an action item, lies below `bound`.
pub open spec fn entry_id_below<C>(e: MenuEntry<C>, bound: u32) -> bool {
    e matches MenuEntry::ActionItem { id, .. } ==> id < bound
}

/// Whether `a` and `b` are both action items carrying the same identifier.
pub open spec fn same_action_id<C>(a: MenuEntry<C>, b: MenuEntry<C>) -> bool {
    &&& a matches MenuEntry::ActionItem { id: ia, .. }
    &&& b matches MenuEntry::ActionItem { id: ib, .. }
    &&& ia == ib
}

/// `e` with its text replaced by `text`: the identifier and the action of an
/// action item are kept; labels and separators are left as they are.
pub open spec fn with_text<C>(e: MenuEntry<C>, text: String) -> MenuEntry<C> {
    match e {
        MenuEntry::ActionItem { id, text: _, action } => MenuEntry::ActionItem {
            id,
            text,
            action,
        },
        other => other,
    }
}

impl<C> MenuEntry<C> {
    /// The rendering of this entry, as a value.
    pub open spec fn spec_render_kind(self) -> RenderKind {
        match self {
            MenuEntry::Label { .. } => RenderKind::DisabledLabel,
            MenuEntry::ActionItem { .. } => RenderKind::EnabledItem,
            MenuEntry::Separator => RenderKind::Divider,
        }
    }

    /// Rendering projection of one entry: how the host is to draw it.
    pub fn render_kind(&self) -> (k: RenderKind)
        ensures
            k == self.spec_render_kind(),
    {
        match self {
            MenuEntry::Label { .. } => RenderKind::DisabledLabel,
            MenuEntry::ActionItem { .. } => RenderKind::EnabledItem,
            MenuEntry::Separator => RenderKind::Divider,
        }
    }
}

/// Ordered sequence of menu entries (order is both display and insertion
/// order) plus the counter from which action-item identifiers are drawn.
pub struct MenuModel<C> {
    entries: Vec<MenuEntry<C>>,
    next_id: u32,
}

impl<C> MenuModel<C> {
    /// The entries, in display order.
    pub closed spec fn entries_seq(self) -> Seq<MenuEntry<C>> {
        self.entries@
    }

    /// The identifier the next `append_action` will return. Incremented exactly
    /// once per action item created, never decremented.
    pub closed spec fn counter(self) -> u32 {
        self.next_id
    }

    /// Well-formedness: every issued identifier lies below the counter (so an
    /// identifier, once issued, is never issued again), and identifiers are
    /// pairwise distinct among the entries.
    pub open spec fn wf(self) -> bool {
        &&& forall|i: int|
            0 <= i < self.entries_seq().len() ==> entry_id_below(
                #[trigger] self.entries_seq()[i],
                self.counter(),
            )
        &&& forall|i: int, j: int|
            0 <= i < self.entries_seq().len() && 0 <= j < self.entries_seq().len() && i != j
                ==> !(#[trigger] same_action_id(self.entries_seq()[i], self.entries_seq()[j]))
    }

    /// An empty menu; identifiers start at 0.
    pub fn new() -> (m: MenuModel<C>)
        ensures
            m.entries_seq() == Seq::<MenuEntry<C>>::empty(),
            m.counter() == 0,
            m.wf(),
    {
        MenuModel { entries: Vec::new(), next_id: 0 }
    }

    /// Number of entries.
    pub fn len(&self) -> (n: usize)
        ensures
            n == self.entries_seq().len(),
    {
        self.entries.len()
    }

    /// The entry at position `i` in display order. Together with `len` this is
    /// the rendering projection: a finite, restartable walk of the menu.
    pub fn entry_at(&self, i: usize) -> (e: &MenuEntry<C>)
        requires
            i < self.entries_seq().len(),
        ensures
            *e == self.entries_seq()[i as int],
    {
        &self.entries[i]
    }

    /// The identifier the next `append_action` will return.
    pub fn next_id(&self) -> (r: u32)
        ensures
            r == self.counter(),
    {
        self.next_id
    }

    /// Append a non-interactive label at the end. The menu grows by exactly one
    /// entry; no identifier is allocated.
    pub fn append_label(&mut self, text: String)
        requires
            old(self).wf(),
        ensures
            final(self).entries_seq() == old(self).entries_seq().push(
                MenuEntry::Label { text },
            ),
            final(self).counter() == old(self).counter(),
            final(self).wf(),
    {
        self.entries.push(MenuEntry::Label { text });
    }

    /// Append a separator at the end. The menu grows by exactly one entry; no
    /// identifier is allocated.
    pub fn append_separator(&mut self)
        requires
            old(self).wf(),
        ensures
            final(self).entries_seq() == old(self).entries_seq().push(
                MenuEntry::Separator,
            ),
            final(self).counter() == old(self).counter(),
            final(self).wf(),
    {
        self.entries.push(MenuEntry::Separator);
    }

    /// Append an interactive item at the end, allocating the next identifier
    /// and returning it. Unconditionally succeeds; the returned identifier is
    /// fresh: it differs from the identifier of every entry already present.
    pub fn append_action(&mut self, text: String, action: C) -> (id: u32)
        requires
            old(self).wf(),
            old(self).counter() < u32::MAX,
        ensures
            id == old(self).counter(),
            final(self).counter() == id + 1,
            final(self).entries_seq() == old(self).entries_seq().push(
                MenuEntry::ActionItem { id, text, action },
            ),
            final(self).wf(),
    {
        let id = self.next_id;
        self.next_id = id + 1;
        self.entries.push(MenuEntry::ActionItem { id, text, action });
        id
    }

    /// Replace the text of the action item carrying `id`, keeping its position,
    /// its identifier and its action. If no entry carries `id`, the model is
    /// left exactly as it was — a silent no-op, not an error.
    pub fn rename_action(&mut self, id: u32, new_text: String)
        requires
            old(self).wf(),
        ensures
            final(self).wf(),
            final(self).counter() == old(self).counter(),
            (forall|k: int|
                0 <= k < old(self).entries_seq().len() ==> !entry_has_id(
                    #[trigger] old(self).entries_seq()[k],
                    id,
                )) ==> final(self).entries_seq() == old(self).entries_seq(),
            forall|j: int|
                0 <= j < old(self).entries_seq().len() && entry_has_id(
                    #[trigger] old(self).entries_seq()[j],
                    id,
                ) ==> final(self).entries_seq() == old(self).entries_seq().update(
                    j,
                    with_text(old(self).entries_seq()[j], new_text),
                ),
    {
        let n = self.entries.len();
        let mut i: usize = 0;
        while i < n
            invariant
                old(self).wf(),
                n == self.entries.len(),
                i <= n,
                *self == *old(self),
                forall|k: int| 0 <= k < i ==> !entry_has_id(#[trigger] self.entries@[k], id),
            decreases n - i,
        {
            let found = match &self.entries[i] {
                MenuEntry::ActionItem { id: eid, .. } => *eid == id,
                _ => false,
            };
            if found {
                let e = self.entries.remove(i);
                match e {
                    MenuEntry::ActionItem { id: eid, text: _, action } => {
                        self.entries.insert(
                            i,
                            MenuEntry::ActionItem { id: eid, text: new_text, action },
                        );
                        proof {
                            let s0 = old(self).entries_seq();
                            let i0 = i as int;
                            let s1 = self.entries@;
                            assert(entry_has_id(s0[i0], id));
                            assert(s1 =~= s0.update(i0, with_text(s0[i0], new_text)));
                            assert(s1.len() == s0.len());
                            assert forall|k: int| 0 <= k < s1.len() implies entry_id_below(
                                #[trigger] s1[k],
                                self.next_id,
                            ) by {
                                assert(0 <= k < s0.len());
                                assert(entry_id_below(s0[k], old(self).counter()));
                                if k == i0 {
                                    assert(s1[k] == with_text(s0[i0], new_text));
                                } else {
                                    assert(s1[k] == s0[k]);
                                }
                            }
                            assert forall|p: int, q: int|
                                0 <= p < s1.len() && 0 <= q < s1.len() && p != q
                                    implies !(#[trigger] same_action_id(s1[p], s1[q])) by {
                                assert(0 <= p < s0.len() && 0 <= q < s0.len());
                                assert(!same_action_id(s0[p], s0[q]));
                                if p == i0 {
                                    assert(s1[p] == with_text(s0[i0], new_text));
                                    assert(s1[q] == s0[q]);
                                } else if q == i0 {
                                    assert(s1[q] == with_text(s0[i0], new_text));
                                    assert(s1[p] == s0[p]);
                                } else {
                                    assert(s1[p] == s0[p]);
                                    assert(s1[q] == s0[q]);
                                }
                            }
                            assert forall|j: int|
                                0 <= j < s0.len() && entry_has_id(#[trigger] s0[j], id)
                                    implies self.entries_seq() == s0.update(
                                    j,
                                    with_text(s0[j], new_text),
                                ) by {
                                if j != i0 {
                                    assert(same_action_id(s0[i0], s0[j]));
                                    assert(!same_action_id(s0[i0], s0[j]));
                                }
                            }
                        }
                        return ;
                    }
                    other => {
                        proof {
                            assert(false);
                        }
                        self.entries.insert(i, other);
                        return ;
                    }
                }
            }
            i += 1;
        }
    }
}

/// One observation of an `append_action` call at the model level: `before` is
/// the model at the call, `id` the identifier returned, `after` any model the
/// tray holds at or after the call's completion. `append_action` ensures
/// `id == before.counter()` and leaves the counter at `id + 1`; every other
/// operation leaves the counter unchanged — so the counter of any later model
/// has moved strictly past `id`.
pub open spec fn issued_id<C>(before: MenuModel<C>, id: u32, after: MenuModel<C>) -> bool {
    &&& id == before.counter()
    &&& id < after.counter()
}

/// A run of `append_action` calls: `models[k]` is the model at the k-th call,
/// `ids[k]` the identifier that call returned, `models[last]` the model after
/// the final call.
pub open spec fn append_run<C>(models: Seq<MenuModel<C>>, ids: Seq<u32>) -> bool {
    &&& models.len() == ids.len() + 1
    &&& forall|k: int|
        0 <= k < ids.len() ==> issued_id(models[k], #[trigger] ids[k], models[k + 1])
}

/// Across a run of `append_action` calls the counter never falls back.
proof fn lemma_counter_monotone<C>(models: Seq<MenuModel<C>>, ids: Seq<u32>, a: int, b: int)
    requires
        append_run(models, ids),
        0 <= a <= b < models.len(),
    ensures
        models[a].counter() <= models[b].counter(),
    decreases b - a,
{
    if a < b {
        lemma_counter_monotone(models, ids, a, b - 1);
        assert(issued_id(models[b - 1], ids[b - 1], models[b]));
    }
}

/// Law: over any sequence of `append_action` calls, the returned identifiers
/// are strictly increasing and pairwise distinct.
pub proof fn lemma_ids_strictly_increasing<C>(models: Seq<MenuModel<C>>, ids: Seq<u32>)
    requires
        append_run(models, ids),
    ensures
        forall|a: int, b: int| 0 <= a < b < ids.len() ==> ids[a] < ids[b],
        forall|a: int, b: int| 0 <= a < b < ids.len() ==> ids[a] != ids[b],
{
    assert forall|a: int, b: int| 0 <= a < b < ids.len() implies ids[a] < ids[b] by {
        assert(issued_id(models[a], ids[a], models[a + 1]));
        lemma_counter_monotone(models, ids, a + 1, b);
        assert(issued_id(models[b], ids[b], models[b + 1]));
    }
}

/// Law: in a well-formed model the next identifier to be issued (the counter)
/// differs from the identifier of every action item already present — no
/// identifier is ever issued twice, even to entries created far apart.
pub proof fn lemma_next_id_fresh<C>(m: MenuModel<C>)
    requires
        m.wf(),
    ensures
        forall|i: int|
            0 <= i < m.entries_seq().len() ==> !entry_has_id(
                #[trigger] m.entries_seq()[i],
                m.counter(),
            ),
{
    assert forall|i: int|
        0 <= i < m.entries_seq().len() implies !entry_has_id(
        #[trigger] m.entries_seq()[i],
        m.counter(),
    ) by {
        assert(entry_id_below(m.entries_seq()[i], m.counter()));
    }
}

/// Law: two `append_action` calls applied one after the other — as two units of
/// work serialized by the host service are — return distinct identifiers, and
/// both entries stand in the final model, in application order.
pub proof fn lemma_serialized_appends<C>(
    m0: MenuModel<C>,
    id1: u32,
    text1: String,
    action1: C,
    m1: MenuModel<C>,
    id2: u32,
    text2: String,
    action2: C,
    m2: MenuModel<C>,
)
    requires
        id1 == m0.counter(),
        m1.counter() == id1 + 1,
        m1.entries_seq() == m0.entries_seq().push(
            MenuEntry::ActionItem { id: id1, text: text1, action: action1 },
        ),
        id2 == m1.counter(),
        m2.counter() == id2 + 1,
        m2.entries_seq() == m1.entries_seq().push(
            MenuEntry::ActionItem { id: id2, text: text2, action: action2 },
        ),
    ensures
        id1 != id2,
        m2.entries_seq().len() == m0.entries_seq().len() + 2,
        m2.entries_seq()[m0.entries_seq().len() as int] == (MenuEntry::ActionItem {
            id: id1,
            text: text1,
            action: action1,
        }),
        m2.entries_seq()[m0.entries_seq().len() as int + 1] == (MenuEntry::ActionItem {
            id: id2,
            text: text2,
            action: action2,
        }),
{
}

} // verus!
