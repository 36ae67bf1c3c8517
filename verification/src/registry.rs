//! The callback registry: at most one click and one double-click callback.

use vstd::prelude::*;

verus! {

/// Holds zero-or-one click callback and zero-or-one double-click callback, each
/// independently replaceable at any time; an empty slot means firing is a no-op.
///
/// Callbacks are opaque values of `C` (the host wraps its actual closures in
/// it). The registry decides *which* value is to be invoked — `fire` here means
/// handing that value to the host, which performs the call. The host owns the
/// registry exclusively, so a replacement is atomic relative to firing: a fire
/// never observes a partially-updated slot.
pub struct CallbackRegistry<C> {
    /// Fired once on every activation of the tray icon.
    pub click: Option<C>,
    /// Fired when an activation completes a double click.
    pub double_click: Option<C>,
}

impl<C> CallbackRegistry<C> {
    /// An empty registry: both slots unset.
    pub fn new() -> (r: CallbackRegistry<C>)
        ensures
            r.click is None,
            r.double_click is None,
    {
        CallbackRegistry { click: None, double_click: None }
    }

    /// Replace the click callback; the last write wins and the previous value
    /// is discarded. The double-click slot is untouched.
    pub fn set_click(&mut self, cb: C)
        ensures
            final(self).click == Some(cb),
            final(self).double_click == old(self).double_click,
    {
        self.click = Some(cb);
    }

    /// Replace the double-click callback; the last write wins. The click slot
    /// is untouched.
    pub fn set_double_click(&mut self, cb: C)
        ensures
            final(self).double_click == Some(cb),
            final(self).click == old(self).click,
    {
        self.double_click = Some(cb);
    }

    /// The callback to invoke for a single click: exactly the registered one,
    /// or `None` for a silent no-op.
    pub fn click_callback(&self) -> (c: Option<&C>)
        ensures
            c is Some <==> self.click is Some,
            c matches Some(f) ==> self.click == Some(*f),
    {
        self.click.as_ref()
    }

    /// The callback to invoke when a double click fired: exactly the registered
    /// one, or `None` for a silent no-op.
    pub fn double_click_callback(&self) -> (c: Option<&C>)
        ensures
            c is Some <==> self.double_click is Some,
            c matches Some(f) ==> self.double_click == Some(*f),
    {
        self.double_click.as_ref()
    }
}

} // verus!
