//! The tri-state field wrapper used by patch documents.

use vstd::prelude::*;

verus! {

/// A patch-document field: leave the stored value unchanged (`NotSet`),
/// reset it to its documented default (`Reset`), or replace it with a new
/// value (`SetTo`).
///
/// On the wire the three states map to a missing key, an explicit `null`,
/// and an explicit value, respectively; that decoding happens at the
/// boundary, never here.
#[derive(Debug, Clone)]
pub enum Setting<T> {
    SetTo(T),
    Reset,
    NotSet,
}

impl<T> Default for Setting<T> {
    /// A field that a patch does not mention is `NotSet`.
    fn default() -> (r: Self)
        ensures
            r is NotSet,
    {
        Setting::NotSet
    }
}

} // verus!
