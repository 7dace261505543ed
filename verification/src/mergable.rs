//! The rule by which one layer of configuration overrides another.

use vstd::prelude::*;

verus! {

/// A fragment of configuration that can be combined with an overriding
/// fragment of the same kind.
pub trait Mergable: Sized {
    /// The fragment that results when `over` is laid on `self`.
    spec fn merged(&self, over: &Self) -> Self;

    /// Merge the provided `b` with `self`, overriding with any present values.
    /// Neither `self` nor `b` is changed.
    fn merge(&self, b: &Self) -> (result: Self)
        ensures
            result == self.merged(b),
    ;
}

/// One optional setting seen through two layers: the overriding layer's value
/// where it specifies one, otherwise whatever the base layer has (which may
/// itself be unspecified).
pub open spec fn overlaid<T>(base: Option<T>, over: Option<T>) -> Option<T> {
    if over is Some {
        over
    } else {
        base
    }
}

/// Lays `over` on `base` for a single optional setting.
pub fn overlay<T>(base: Option<T>, over: Option<T>) -> (setting: Option<T>)
    ensures
        setting == overlaid(base, over),
{
    match over {
        Some(value) => Some(value),
        None => base,
    }
}

} // verus!
