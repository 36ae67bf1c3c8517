//! Failures surfaced by tray operations.

use vstd::prelude::*;

verus! {

/// The one failure a tray operation can report: the host service that owns the
/// tray state is gone (its update channel is closed), so the mutation could not
/// be submitted. No state mutation of this crate is itself fallible.
#[derive(Clone, Copy, Debug, PartialEq, Eq, Structural)]
pub enum TrayError {
    ServiceUnavailable,
}

impl TrayError {
    /// A short description of the failure.
    pub fn message(&self) -> (m: &'static str)
        ensures
            m@ == "the tray service is unavailable"@,
    {
        "the tray service is unavailable"
    }
}

} // verus!
