//! Click/double-click detection on the tray icon.

use vstd::prelude::*;

verus! {

/// Width of the double-click window in milliseconds. A second activation this
/// soon (inclusive) after the previous one counts as a double click.
pub const DOUBLE_CLICK_WINDOW_MS: u64 = 150;

/// What one activation of the tray icon amounts to. The single-click callback
/// fires on every activation; the double-click callback fires only when
/// `fired_double` is set.
#[derive(Clone, Copy, Debug, PartialEq, Eq, Structural)]
pub struct ClickOutcome {
    pub fired_single: bool,
    pub fired_double: bool,
}

/// Timestamp-based state machine telling a single click from a double click.
///
/// Two states: idle (`last_click` is `None`) and armed (`last_click` records
/// the time of the activation that armed it). An activation while armed always
/// returns the machine to idle, whether or not it completed a double click, so
/// detection is pairwise on consecutive activations, never a sliding aggregate.
pub struct ClickTracker {
    pub last_click: Option<u64>,
}

impl ClickTracker {
    /// Whether an activation at `now` completes a double click after one at `armed_at`.
    /// Times are milliseconds on a monotonic clock; the window bound is inclusive.
    pub open spec fn in_window(armed_at: u64, now: u64) -> bool {
        armed_at <= now <= armed_at + DOUBLE_CLICK_WINDOW_MS
    }

    /// A fresh tracker, idle: the very first activation can never be a double click.
    pub fn new() -> (t: ClickTracker)
        ensures
            t.last_click is None,
    {
        ClickTracker { last_click: None }
    }

    /// One activation at time `now` (milliseconds on a monotonic clock).
    ///
    /// Idle: arm at `now`, no double click. Armed: return to idle and report a
    /// double click exactly when `now` falls in the window of the arming click.
    pub fn on_activate(&mut self, now: u64) -> (o: ClickOutcome)
        ensures
            o.fired_single,
            old(self).last_click is None ==> {
                &&& final(self).last_click == Some(now)
                &&& !o.fired_double
            },
            old(self).last_click matches Some(armed_at) ==> {
                &&& final(self).last_click is None
                &&& o.fired_double == Self::in_window(armed_at, now)
            },
    {
        match self.last_click {
            Some(armed_at) => {
                self.last_click = None;
                let double = now >= armed_at && now - armed_at <= DOUBLE_CLICK_WINDOW_MS;
                ClickOutcome { fired_single: true, fired_double: double }
            }
            None => {
                self.last_click = Some(now);
                ClickOutcome { fired_single: true, fired_double: false }
            }
        }
    }
}

} // verus!
