//! The tray state the host service owns, and its activation handler.

use vstd::prelude::*;

use crate::click::ClickOutcome;
use crate::click::ClickTracker;
use crate::menu::MenuModel;
use crate::registry::CallbackRegistry;

verus! {

/// The tray icon: a named theme resource, or raw pixel data with explicit
/// size. Stored verbatim and handed back on demand; no validation or decoding
/// happens here.
pub enum IconSource {
    Resource { name: String },
    Data { data: Vec<u8>, width: i32, height: i32 },
}

/// One pixmap handed to the host when raw pixel data is the icon.
pub struct IconPixmap {
    pub width: i32,
    pub height: i32,
    pub data: Vec<u8>,
}

/// A byte-for-byte copy of `src`.
fn copy_bytes(src: &Vec<u8>) -> (r: Vec<u8>)
    ensures
        r@ == src@,
{
    let mut r: Vec<u8> = Vec::new();
    let n = src.len();
    let mut i: usize = 0;
    while i < n
        invariant
            n == src.len(),
            i <= n,
            r@ =~= src@.subrange(0, i as int),
        decreases n - i,
    {
        r.push(src[i]);
        i += 1;
    }
    proof {
        assert(r@ =~= src@);
    }
    r
}

/// The authoritative tray state: menu, click tracker, callback registry, icon
/// and title. The host service owns exactly one value of it and guarantees
/// that no two mutations, and no mutation and an activation, ever interleave;
/// every method here runs inside that exclusive-access window.
pub struct TrayState<C> {
    /// Shown as the tray's title and identifier; immutable after construction.
    pub title: String,
    /// The current icon; replaceable at any time.
    pub icon: IconSource,
    /// The dropdown menu.
    pub model: MenuModel<C>,
    /// Click/double-click detection on the icon.
    pub tracker: ClickTracker,
    /// The click and double-click callbacks.
    pub registry: CallbackRegistry<C>,
}

impl<C> TrayState<C> {
    /// Well-formedness: the menu's identifier invariant holds.
    pub open spec fn wf(self) -> bool {
        self.model.wf()
    }

    /// A fresh tray: empty menu, idle tracker, no callbacks registered.
    pub fn new(title: String, icon: IconSource) -> (s: TrayState<C>)
        ensures
            s.wf(),
            s.title == title,
            s.icon == icon,
            s.model.entries_seq() == Seq::<crate::menu::MenuEntry<C>>::empty(),
            s.model.counter() == 0,
            s.tracker.last_click is None,
            s.registry.click is None,
            s.registry.double_click is None,
    {
        TrayState {
            title,
            icon,
            model: MenuModel::new(),
            tracker: ClickTracker::new(),
            registry: CallbackRegistry::new(),
        }
    }

    /// Replace the icon; everything else is untouched. Unconditionally succeeds.
    pub fn set_icon(&mut self, icon: IconSource)
        ensures
            final(self).icon == icon,
            final(self).title == old(self).title,
            final(self).model == old(self).model,
            final(self).tracker == old(self).tracker,
            final(self).registry == old(self).registry,
    {
        self.icon = icon;
    }

    /// Append a label to the menu.
    pub fn add_label(&mut self, text: String)
        requires
            old(self).wf(),
        ensures
            final(self).wf(),
            final(self).model.entries_seq() == old(self).model.entries_seq().push(
                crate::menu::MenuEntry::Label { text },
            ),
            final(self).model.counter() == old(self).model.counter(),
            final(self).title == old(self).title,
            final(self).icon == old(self).icon,
            final(self).tracker == old(self).tracker,
            final(self).registry == old(self).registry,
    {
        self.model.append_label(text);
    }

    /// Append a separator to the menu.
    pub fn add_separator(&mut self)
        requires
            old(self).wf(),
        ensures
            final(self).wf(),
            final(self).model.entries_seq() == old(self).model.entries_seq().push(
                crate::menu::MenuEntry::Separator,
            ),
            final(self).model.counter() == old(self).model.counter(),
            final(self).title == old(self).title,
            final(self).icon == old(self).icon,
            final(self).tracker == old(self).tracker,
            final(self).registry == old(self).registry,
    {
        self.model.append_separator();
    }

    /// Append an interactive menu item and return its fresh identifier.
    pub fn add_menu_item_with_id(&mut self, text: String, action: C) -> (id: u32)
        requires
            old(self).wf(),
            old(self).model.counter() < u32::MAX,
        ensures
            final(self).wf(),
            id == old(self).model.counter(),
            final(self).model.counter() == id + 1,
            final(self).model.entries_seq() == old(self).model.entries_seq().push(
                crate::menu::MenuEntry::ActionItem { id, text, action },
            ),
            final(self).title == old(self).title,
            final(self).icon == old(self).icon,
            final(self).tracker == old(self).tracker,
            final(self).registry == old(self).registry,
    {
        self.model.append_action(text, action)
    }

    /// Append an interactive menu item, discarding the identifier.
    pub fn add_menu_item(&mut self, text: String, action: C)
        requires
            old(self).wf(),
            old(self).model.counter() < u32::MAX,
        ensures
            final(self).wf(),
            final(self).model.entries_seq() == old(self).model.entries_seq().push(
                crate::menu::MenuEntry::ActionItem {
                    id: old(self).model.counter(),
                    text,
                    action,
                },
            ),
            final(self).model.counter() == old(self).model.counter() + 1,
            final(self).title == old(self).title,
            final(self).icon == old(self).icon,
            final(self).tracker == old(self).tracker,
            final(self).registry == old(self).registry,
    {
        let _ = self.model.append_action(text, action);
    }

    /// Replace the text of the menu item carrying `id`; a no-op when `id` is
    /// unknown.
    pub fn rename_menu_item(&mut self, id: u32, new_text: String)
        requires
            old(self).wf(),
        ensures
            final(self).wf(),
            final(self).model.counter() == old(self).model.counter(),
            (forall|k: int|
                0 <= k < old(self).model.entries_seq().len() ==> !crate::menu::entry_has_id(
                    #[trigger] old(self).model.entries_seq()[k],
                    id,
                )) ==> final(self).model.entries_seq() == old(self).model.entries_seq(),
            forall|j: int|
                0 <= j < old(self).model.entries_seq().len() && crate::menu::entry_has_id(
                    #[trigger] old(self).model.entries_seq()[j],
                    id,
                ) ==> final(self).model.entries_seq() == old(self).model.entries_seq().update(
                    j,
                    crate::menu::with_text(old(self).model.entries_seq()[j], new_text),
                ),
            final(self).title == old(self).title,
            final(self).icon == old(self).icon,
            final(self).tracker == old(self).tracker,
            final(self).registry == old(self).registry,
    {
        self.model.rename_action(id, new_text);
    }

    /// Register (or replace) the click callback.
    pub fn set_click_callback(&mut self, cb: C)
        ensures
            final(self).registry.click == Some(cb),
            final(self).registry.double_click == old(self).registry.double_click,
            final(self).title == old(self).title,
            final(self).icon == old(self).icon,
            final(self).model == old(self).model,
            final(self).tracker == old(self).tracker,
    {
        self.registry.set_click(cb);
    }

    /// Register (or replace) the double-click callback.
    pub fn set_double_click_callback(&mut self, cb: C)
        ensures
            final(self).registry.double_click == Some(cb),
            final(self).registry.click == old(self).registry.click,
            final(self).title == old(self).title,
            final(self).icon == old(self).icon,
            final(self).model == old(self).model,
            final(self).tracker == old(self).tracker,
    {
        self.registry.set_double_click(cb);
    }

    /// The activation handler, run by the host on every interaction with the
    /// icon. The host fires the registry's click callback once, unconditionally,
    /// before this call; this call runs the click tracker; exactly when the
    /// outcome reports a double click, the host fires the registry's
    /// double-click callback once after it. Menu, callbacks, icon and title are
    /// untouched: timing state is all an activation changes here.
    pub fn activate(&mut self, now: u64) -> (o: ClickOutcome)
        ensures
            o.fired_single,
            old(self).tracker.last_click is None ==> {
                &&& final(self).tracker.last_click == Some(now)
                &&& !o.fired_double
            },
            old(self).tracker.last_click matches Some(armed_at) ==> {
                &&& final(self).tracker.last_click is None
                &&& o.fired_double == ClickTracker::in_window(armed_at, now)
            },
            final(self).registry == old(self).registry,
            final(self).model == old(self).model,
            final(self).title == old(self).title,
            final(self).icon == old(self).icon,
    {
        self.tracker.on_activate(now)
    }

    /// The title, cloned for the host (also serves as the tray's identifier).
    pub fn title(&self) -> (r: String)
        ensures
            r == self.title,
    {
        self.title.clone()
    }

    /// The icon's theme name: the resource name when the icon is a named
    /// resource, empty when it is raw pixel data.
    pub fn icon_name(&self) -> (r: String)
        ensures
            self.icon matches IconSource::Resource { name } ==> r == name,
            self.icon is Data ==> r@ == Seq::<char>::empty(),
    {
        match &self.icon {
            IconSource::Resource { name } => name.clone(),
            IconSource::Data { .. } => String::new(),
        }
    }

    /// The pixmaps the host renders: none when the icon is a named resource,
    /// exactly one — the stored pixel data with its stored size — when it is
    /// raw data.
    pub fn icon_pixmaps(&self) -> (v: Vec<IconPixmap>)
        ensures
            self.icon is Resource ==> v@.len() == 0,
            self.icon matches IconSource::Data { data, width, height } ==> {
                &&& v@.len() == 1
                &&& v@[0].width == width
                &&& v@[0].height == height
                &&& v@[0].data@ == data@
            },
    {
        match &self.icon {
            IconSource::Resource { .. } => Vec::new(),
            IconSource::Data { data, width, height } => {
                let mut v: Vec<IconPixmap> = Vec::new();
                v.push(IconPixmap { width: *width, height: *height, data: copy_bytes(data) });
                v
            }
        }
    }
}

/// Law: once the click callback is replaced, a later activation is associated
/// with the replacement, never with the callback it displaced. `after_set` is
/// the state `set_click_callback(b)` leaves (its contract puts `b` in the click
/// slot); `after_act` is the state a later activation leaves (its contract
/// keeps the registry untouched, so the callback fired for that activation is
/// `after_set`'s — which is `b`, and is not a displaced `a` unless the two are
/// the same value).
pub proof fn lemma_replaced_click_callback_wins<C>(
    after_set: TrayState<C>,
    after_act: TrayState<C>,
    a: C,
    b: C,
)
    requires
        after_set.registry.click == Some(b),
        after_act.registry == after_set.registry,
    ensures
        after_act.registry.click == Some(b),
        a != b ==> after_act.registry.click != Some(a),
{
}

} // verus!
